use rust_service::chat::{build_chat_request, build_prompt, extract_suggestion};
use rust_service::lines::count_lines;
use rust_service::model::{Choice, Message, OpenAIChatResponse};
use rust_service::service::{analyze_request, analyze_upstream_result, hello, AnalyzeStep};

fn reply_with(contents: Vec<&str>) -> OpenAIChatResponse {
    let mut choices = Vec::new();
    for content in contents {
        choices.push(Choice {
            message: Message {
                role: "assistant".to_string(),
                content: content.to_string(),
            },
        });
    }
    OpenAIChatResponse { choices }
}

#[test]
fn line_count_examples() {
    assert_eq!(count_lines("a\nb\nc"), 3);
    assert_eq!(count_lines(""), 0);
    assert_eq!(count_lines("a"), 1);
    assert_eq!(count_lines("\n"), 1);
    assert_eq!(count_lines("a\n"), 1);
    assert_eq!(count_lines("a\n\nb"), 3);
    assert_eq!(count_lines("a\nb\nc\n"), 3);
    assert_eq!(count_lines("\n\n\n"), 3);
}

#[test]
fn line_count_multibyte_text() {
    assert_eq!(count_lines("héllo\nwörld"), 2);
    assert_eq!(count_lines("日本語\n"), 1);
}

#[test]
fn hello_is_ok_and_non_empty() {
    let (status, body) = hello();
    assert_eq!(status, 200);
    assert!(!body.is_empty());
    assert_eq!(body, "Hello from rust-service!");
}

#[test]
fn prompt_embeds_the_snippet() {
    let p = build_prompt("fn main() {}");
    assert_eq!(
        p,
        format!(
            "Please refactor the following Rust code and provide a brief explanation of the changes. Return only the refactored code. \n\n```rust\n{}\n```",
            "fn main() {}"
        )
    );
}

#[test]
fn missing_key_answers_500_at_once() {
    match analyze_request(None, "x") {
        AnalyzeStep::Respond(o) => {
            assert_eq!(o.status, 500);
            assert_eq!(o.body.refactored_code, "");
            assert!(!o.body.error.is_empty());
            assert_eq!(o.body.error, "OPENAI_API_KEY not set in environment");
        }
        AnalyzeStep::CallUpstream(_) => panic!("missing key must be answered at once"),
    }
}

#[test]
fn present_key_builds_the_upstream_request() {
    match analyze_request(Some("test-key"), "let x = 1;") {
        AnalyzeStep::Respond(_) => panic!("a keyed request must go upstream"),
        AnalyzeStep::CallUpstream(q) => {
            assert_eq!(q.model, "gpt-3.5-turbo-0125");
            assert_eq!(q.messages.len(), 1);
            assert_eq!(q.messages[0].role, "user");
            assert_eq!(q.messages[0].content, build_prompt("let x = 1;"));
        }
    }
}

#[test]
fn one_choice_is_relayed_verbatim() {
    let outcome = analyze_upstream_result(Ok(reply_with(vec!["fixed code"])));
    assert_eq!(outcome.status, 200);
    assert_eq!(outcome.body.refactored_code, "fixed code");
    assert_eq!(outcome.body.error, "");
}

#[test]
fn first_of_several_choices_wins() {
    let outcome = analyze_upstream_result(Ok(reply_with(vec!["first", "second"])));
    assert_eq!(outcome.status, 200);
    assert_eq!(outcome.body.refactored_code, "first");
    assert_eq!(outcome.body.error, "");
}

#[test]
fn empty_choices_yield_the_sentinel() {
    let outcome = analyze_upstream_result(Ok(reply_with(vec![])));
    assert_eq!(outcome.status, 200);
    assert_eq!(outcome.body.refactored_code, "No suggestion found.");
    assert_eq!(outcome.body.error, "");
}

#[test]
fn upstream_failure_answers_500() {
    let outcome =
        analyze_upstream_result(Err("error sending request: dns error".to_string()));
    assert_eq!(outcome.status, 500);
    assert_eq!(outcome.body.refactored_code, "");
    assert!(!outcome.body.error.is_empty());
    assert_eq!(outcome.body.error, "error sending request: dns error");
}

#[test]
fn extract_reads_the_first_choice() {
    let s = extract_suggestion(&reply_with(vec!["use a match"]));
    assert_eq!(s, "use a match");
    let none = extract_suggestion(&reply_with(vec![]));
    assert_eq!(none, "No suggestion found.");
}

#[test]
fn chat_request_for_empty_snippet() {
    let q = build_chat_request("");
    assert_eq!(q.messages.len(), 1);
    assert_eq!(
        q.messages[0].content,
        "Please refactor the following Rust code and provide a brief explanation of the changes. Return only the refactored code. \n\n```rust\n\n```"
    );
}
