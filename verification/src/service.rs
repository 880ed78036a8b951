//! The decisions of the HTTP front door.
//!
//! Each inbound request is answered by straight-line decision logic
//! that lives here; the surrounding binary only performs the I/O these
//! decisions call for. The analysis route decides in two steps: first
//! whether the request can go upstream at all, then how to answer for
//! whatever the upstream call produced.

use crate::chat::{build_chat_request, extract_suggestion, prompt_for, suggestion_for};
use crate::model::{AnalyzeOutcome, AnalyzeResponse, OpenAIChatRequest, OpenAIChatResponse};
use vstd::prelude::*;

verus! {

/// The plaintext greeting served at the root route, paired with its
/// HTTP status code. The greeting never changes and is never empty,
/// whatever happened before the request.
pub fn hello() -> (r: (u16, String))
    ensures
        r.0 == 200,
        r.1@ == "Hello from rust-service!"@,
        r.1@.len() > 0,
{
    proof {
        reveal_strlit("Hello from rust-service!");
    }
    (200, String::from_str("Hello from rust-service!"))
}

/// What the analysis route does next once the request body is decoded:
/// answer at once, or send one request upstream and wait for it.
pub enum AnalyzeStep {
    Respond(AnalyzeOutcome),
    CallUpstream(OpenAIChatRequest),
}

/// The first decision of the analysis route, taken against the API key
/// as the environment held it at request time. Without a key the route
/// answers 500 at once, with an empty suggestion and an explanatory
/// error; with one it builds the single upstream request for the
/// submitted snippet.
pub fn analyze_request(api_key: Option<&str>, code: &str) -> (r: AnalyzeStep)
    ensures
        api_key is None ==> (r matches AnalyzeStep::Respond(o) && o.status == 500
            && o.body.refactored_code@.len() == 0
            && o.body.error@ == "OPENAI_API_KEY not set in environment"@
            && o.body.error@.len() > 0),
        api_key is Some ==> (r matches AnalyzeStep::CallUpstream(q)
            && q.model@ == "gpt-3.5-turbo-0125"@
            && q.messages@.len() == 1
            && q.messages@[0].role@ == "user"@
            && q.messages@[0].content@ == prompt_for(code@)),
{
    match api_key {
        None => {
            proof {
                reveal_strlit("OPENAI_API_KEY not set in environment");
            }
            AnalyzeStep::Respond(
                AnalyzeOutcome {
                    status: 500,
                    body: AnalyzeResponse {
                        refactored_code: String::new(),
                        error: String::from_str("OPENAI_API_KEY not set in environment"),
                    },
                },
            )
        },
        Some(_) => AnalyzeStep::CallUpstream(build_chat_request(code)),
    }
}

/// The second decision of the analysis route, taken on whatever the
/// upstream call produced. A decoded reply is answered 200 with the
/// relayed suggestion and an empty error; any transport or decode
/// failure is answered 500 with an empty suggestion and the failure's
/// description.
pub fn analyze_upstream_result(result: Result<OpenAIChatResponse, String>) -> (r: AnalyzeOutcome)
    ensures
        result matches Ok(resp) ==> (r.status == 200
            && r.body.refactored_code@ == suggestion_for(resp)
            && r.body.error@.len() == 0),
        result matches Err(e) ==> (r.status == 500
            && r.body.refactored_code@.len() == 0
            && r.body.error@ == e@),
{
    match result {
        Ok(resp) => AnalyzeOutcome {
            status: 200,
            body: AnalyzeResponse {
                refactored_code: extract_suggestion(&resp),
                error: String::new(),
            },
        },
        Err(e) => AnalyzeOutcome {
            status: 500,
            body: AnalyzeResponse { refactored_code: String::new(), error: e },
        },
    }
}

} // verus!
