use oai_rs::completions::{Completion, CompletionChoice};
use oai_rs::requester::{decoded, next_step, Next, Reply, BAD_REQUEST};
use oai_rs::usage::Usage;

fn pong() -> Completion {
    Completion {
        id: String::from("cmpl-1"),
        object: String::from("text_completion"),
        created: 1670000000,
        model: String::from("text-davinci-003"),
        choices: vec![CompletionChoice {
            text: String::from("Pong"),
            index: 0,
            logprobs: None,
            finish_reason: String::from("stop"),
        }],
        usage: Usage { prompt_tokens: 1, completion_tokens: 2, total_tokens: 3 },
    }
}

#[test]
fn ok_status_reads_body() {
    assert_eq!(next_step(Reply::Status(200)), Next::ReadBody);
}

#[test]
fn error_statuses_pass_through() {
    assert_eq!(next_step(Reply::Status(401)), Next::Fail(401));
    assert_eq!(next_step(Reply::Status(429)), Next::Fail(429));
    assert_eq!(next_step(Reply::Status(500)), Next::Fail(500));
    assert_eq!(next_step(Reply::Status(201)), Next::Fail(201));
}

#[test]
fn transport_failures() {
    assert_eq!(next_step(Reply::Unsent(None)), Next::Fail(400));
    assert_eq!(next_step(Reply::Unsent(Some(503))), Next::Fail(503));
}

#[test]
fn decoded_body_is_the_result() {
    let r = decoded(Some(pong())).expect("a decoded body is a success");
    assert_eq!(r.choices.len(), 1);
    assert_eq!(r.choices[0].text, "Pong");
    assert_eq!(r.choices[0].finish_reason, "stop");
    assert_eq!(r.usage.total_tokens, 3);
    assert_eq!(r.model, "text-davinci-003");
}

#[test]
fn undecodable_body_is_bad_request() {
    let r = decoded::<Completion>(None);
    assert!(matches!(r, Err(400)));
    assert_eq!(BAD_REQUEST, 400);
}
