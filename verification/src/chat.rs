//! Building the upstream chat-completion request and reading its reply.

use crate::model::{Choice, Message, OpenAIChatRequest, OpenAIChatResponse};
use vstd::prelude::*;

verus! {

/// The instruction sent upstream for a submitted snippet: a fixed
/// template with the snippet embedded in a fenced code block.
pub open spec fn prompt_for(code: Seq<char>) -> Seq<char> {
    "Please refactor the following Rust code and provide a brief explanation of the changes. Return only the refactored code. \n\n```rust\n"@
        + code + "\n```"@
}

/// Builds the single user-role instruction that embeds the snippet.
pub fn build_prompt(code: &str) -> (p: String)
    ensures
        p@ == prompt_for(code@),
{
    let mut p = String::from_str(
        "Please refactor the following Rust code and provide a brief explanation of the changes. Return only the refactored code. \n\n```rust\n",
    );
    p.append(code);
    p.append("\n```");
    p
}

/// Builds the body of the one upstream call the proxy behaviour makes:
/// the fixed model identifier and exactly one user-role message that
/// carries the prompt for `code`.
pub fn build_chat_request(code: &str) -> (r: OpenAIChatRequest)
    ensures
        r.model@ == "gpt-3.5-turbo-0125"@,
        r.messages@.len() == 1,
        r.messages@[0].role@ == "user"@,
        r.messages@[0].content@ == prompt_for(code@),
{
    let mut messages: Vec<Message> = Vec::new();
    messages.push(
        Message { role: String::from_str("user"), content: build_prompt(code) },
    );
    OpenAIChatRequest { model: String::from_str("gpt-3.5-turbo-0125"), messages }
}

/// The text the service relays for a decoded upstream reply: the first
/// choice's content, or a fixed sentinel when the reply offers no
/// choices.
pub open spec fn suggestion_for(resp: OpenAIChatResponse) -> Seq<char> {
    if resp.choices@.len() > 0 {
        resp.choices@[0].message.content@
    } else {
        "No suggestion found."@
    }
}

/// Reads the relayed suggestion out of a decoded upstream reply.
pub fn extract_suggestion(resp: &OpenAIChatResponse) -> (s: String)
    ensures
        s@ == suggestion_for(*resp),
{
    if resp.choices.len() > 0 {
        let choice: &Choice = &resp.choices[0];
        choice.message.content.clone()
    } else {
        String::from_str("No suggestion found.")
    }
}

} // verus!
