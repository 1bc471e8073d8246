use oai_rs::completions;
use oai_rs::edits;
use oai_rs::models;
use oai_rs::models::{CompletionModels, EditModels};
use oai_rs::requester::{auth_header, ImageRequestType, Method};

#[test]
fn known_completion_models() {
    assert_eq!(CompletionModels::TEXT_DAVINCI_003.as_string(), "text-davinci-003");
    assert_eq!(CompletionModels::TEXT_DAVINCI_002.as_string(), "text-davinci-002");
    assert_eq!(CompletionModels::TEXT_DAVINCI_001.as_string(), "text-davinci-001");
    assert_eq!(CompletionModels::TEXT_CURIE_001.as_string(), "text-curie-001");
    assert_eq!(CompletionModels::TEXT_BABBAGE_001.as_string(), "text-babbage-001");
    assert_eq!(CompletionModels::TEXT_ADA_001.as_string(), "text-ada-001");
    assert_eq!(EditModels::TEXT_DAVINCI_EDIT_001.as_string(), "text-davinci-edit-001");
}

#[test]
fn escape_variant_round_trips() {
    assert_eq!(CompletionModels::from_str("my-model:v2 \"x\"").as_string(), "my-model:v2 \"x\"");
    assert_eq!(EditModels::from_str("").as_string(), "");
    let c = completions::build(CompletionModels::from_str("ft-custom")).prompt("p").complete();
    assert_eq!(c.body.unwrap(), r#"{"model":"ft-custom","prompt":"p"}"#);
    let e = edits::build(EditModels::from_str("edit-x"), String::from("i")).edit();
    assert_eq!(e.body.unwrap(), r#"{"model":"edit-x","instruction":"i"}"#);
}

#[test]
fn model_requests() {
    let all = models::list();
    assert_eq!(all.method, Method::Get);
    assert_eq!(all.url, "https://api.openai.com/v1/models");
    assert!(all.body.is_none());
    let one = models::get(String::from("text-ada-001"));
    assert_eq!(one.method, Method::Get);
    assert_eq!(one.url, "https://api.openai.com/v1/models/text-ada-001");
    assert!(one.body.is_none());
}

#[test]
fn image_paths() {
    assert_eq!(ImageRequestType::Generations.to_string(), "generations");
    assert_eq!(ImageRequestType::Edits.to_string(), "edits");
    assert_eq!(ImageRequestType::Variations.to_string(), "variations");
}

#[test]
fn bearer_header() {
    assert_eq!(auth_header("SECRET-REDACTED"), "Bearer SECRET-REDACTED");
    assert_eq!(auth_header(""), "Bearer ");
}
