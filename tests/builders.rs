use oai_rs::completions;
use oai_rs::edits;
use oai_rs::images;
use oai_rs::models;
use oai_rs::models::{CompletionModels, EditModels};
use oai_rs::params::{assemble_body, ParamValue};
use oai_rs::json::encode_object;
use oai_rs::requester::{ApiRequest, Method};

fn body_of(r: &ApiRequest) -> String {
    r.body.clone().expect("a POST request has a body")
}

#[test]
fn completions_builder() {
    let request = completions::build(models::CompletionModels::TEXT_DAVINCI_003)
        .prompt("What happened in 2020?")
        .user("oai-rs")
        .max_tokens(32)
        .complete();
    assert_eq!(request.method, Method::Post);
    assert_eq!(request.url, "https://api.openai.com/v1/completions");
    assert_eq!(
        body_of(&request),
        r#"{"model":"text-davinci-003","prompt":"What happened in 2020?","user":"oai-rs","max_tokens":32}"#
    );
}

#[test]
fn ping_request_body() {
    let request = completions::build(CompletionModels::TEXT_DAVINCI_003)
        .prompt("Ping")
        .max_tokens(5)
        .complete();
    assert_eq!(body_of(&request), r#"{"model":"text-davinci-003","prompt":"Ping","max_tokens":5}"#);
}

#[test]
fn mandatory_fields_without_options() {
    let c = completions::build(CompletionModels::TEXT_ADA_001).complete();
    assert_eq!(body_of(&c), r#"{"model":"text-ada-001"}"#);
    let e = edits::build(EditModels::TEXT_DAVINCI_EDIT_001, String::from("Fix it")).edit();
    assert_eq!(body_of(&e), r#"{"model":"text-davinci-edit-001","instruction":"Fix it"}"#);
    let g = images::build().generate(String::from("a cat")).done();
    assert_eq!(body_of(&g), r#"{"prompt":"a cat"}"#);
    let ie = images::build().edits(String::from("img.png"), String::from("a hat")).done();
    assert_eq!(body_of(&ie), r#"{"prompt":"a hat","image":"img.png"}"#);
    let v = images::build().variation(String::from("img.png")).done();
    assert_eq!(body_of(&v), r#"{"image":"img.png"}"#);
}

#[test]
fn last_write_wins() {
    let body = completions::build(CompletionModels::TEXT_CURIE_001)
        .n(&1)
        .prompt("first")
        .n(&4)
        .prompt("second")
        .echo(&true)
        .body();
    let names: Vec<&str> = body.iter().map(|(k, _)| k.as_str()).collect();
    assert_eq!(names, vec!["model", "n", "prompt", "echo"]);
    assert_eq!(body.len(), 4);
    let request = completions::build(CompletionModels::TEXT_CURIE_001)
        .n(&1)
        .prompt("first")
        .n(&4)
        .prompt("second")
        .echo(&true)
        .complete();
    assert_eq!(body_of(&request), r#"{"model":"text-curie-001","n":4,"prompt":"second","echo":true}"#);
}

#[test]
fn every_completion_field() {
    let prompts = vec!["a", "b"];
    let stops = vec!["\n", "END"];
    let request = completions::build(CompletionModels::TEXT_DAVINCI_002)
        .prompts(&prompts)
        .suffix("tail")
        .temperature("0.7")
        .top_p("1")
        .n(&2)
        .logprobs(&5)
        .echo(&false)
        .stops(&stops)
        .user("u")
        .max_tokens(16)
        .presence_penalty("-0.5")
        .frequency_penalty("1.5")
        .best_of(&3)
        .complete();
    assert_eq!(
        body_of(&request),
        String::from(r#"{"model":"text-davinci-002","prompt":["a","b"],"suffix":"tail","temperature":0.7,"#)
            + r#""top_p":1,"n":2,"logprobs":5,"echo":false,"stop":["\n","END"],"user":"u","#
            + r#""max_tokens":16,"presence_penalty":-0.5,"frequency_penalty":1.5,"best_of":3}"#
    );
}

#[test]
fn single_stop_replaces_list() {
    let stops = vec!["x", "y"];
    let request = completions::build(CompletionModels::TEXT_BABBAGE_001)
        .stops(&stops)
        .stop("z")
        .complete();
    assert_eq!(body_of(&request), r#"{"model":"text-babbage-001","stop":"z"}"#);
}

#[test]
fn strings_are_escaped() {
    let request = completions::build(CompletionModels::TEXT_DAVINCI_001)
        .prompt("say \"hi\"\\\n")
        .complete();
    assert_eq!(body_of(&request), r#"{"model":"text-davinci-001","prompt":"say \"hi\"\\\n"}"#);
}

#[test]
fn edit_request() {
    let request = edits::build(EditModels::TEXT_DAVINCI_EDIT_001, String::from("Fix the spelling"))
        .input("Im bad at splling")
        .n(&2)
        .temperature("0")
        .top_p("0.5")
        .edit();
    assert_eq!(request.method, Method::Post);
    assert_eq!(request.url, "https://api.openai.com/v1/edits");
    assert_eq!(
        body_of(&request),
        r#"{"model":"text-davinci-edit-001","instruction":"Fix the spelling","input":"Im bad at splling","n":2,"temperature":0,"top_p":0.5}"#
    );
}

#[test]
fn image_requests() {
    let g = images::build()
        .generate(String::from("a brain icon"))
        .n(&3)
        .size("256x256")
        .response_format("url")
        .user("me")
        .done();
    assert_eq!(g.url, "https://api.openai.com/v1/images/generations");
    assert_eq!(
        body_of(&g),
        r#"{"prompt":"a brain icon","n":3,"size":"256x256","response_format":"url","user":"me"}"#
    );
    let e = images::build()
        .edits(String::from("base.png"), String::from("add a hat"))
        .mask("mask.png")
        .n(&1)
        .size("512x512")
        .response_format("b64_json")
        .user("me")
        .done();
    assert_eq!(e.url, "https://api.openai.com/v1/images/edits");
    assert_eq!(
        body_of(&e),
        r#"{"prompt":"add a hat","image":"base.png","mask":"mask.png","n":1,"size":"512x512","response_format":"b64_json","user":"me"}"#
    );
    let v = images::build()
        .variation(String::from("base.png"))
        .n(&2)
        .size("1024x1024")
        .response_format("url")
        .user("me")
        .done();
    assert_eq!(v.url, "https://api.openai.com/v1/images/variations");
    assert_eq!(
        body_of(&v),
        r#"{"image":"base.png","n":2,"size":"1024x1024","response_format":"url","user":"me"}"#
    );
}

#[test]
fn assemble_keeps_first_place_and_last_value() {
    let fields = vec![
        (String::from("a"), ParamValue::UInt(1)),
        (String::from("b"), ParamValue::Bool(true)),
        (String::from("a"), ParamValue::UInt(2)),
    ];
    let body = assemble_body(fields);
    assert_eq!(encode_object(&body), r#"{"a":2,"b":true}"#);
}

#[test]
fn empty_object() {
    assert_eq!(encode_object(&Vec::new()), "{}");
}
