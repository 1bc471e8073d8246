use vstd::prelude::*;
use crate::models::CompletionModels;
use crate::params::{distinct_names, ParamValue, JsonValue, Field, fields_view, assemble, assemble_body, str_list};
use crate::requester::{ApiRequest, is_post_of, api_root};
use crate::usage::Usage;

verus! {

/// One generated completion.
#[derive(Debug, Clone)]
pub struct CompletionChoice {
    pub text: String,
    pub index: i32,
    pub logprobs: Option<i32>,
    pub finish_reason: String,
}

/// The reply of the `/completions` endpoint.
#[derive(Debug, Clone)]
pub struct Completion {
    pub id: String,
    pub object: String,
    pub created: u64,
    pub model: String,
    pub choices: Vec<CompletionChoice>,
    pub usage: Usage,
}

/// A completion request being built: the model, and the optional fields in
/// the order in which they were set.
pub struct Parameters {
    model: CompletionModels,
    query: Vec<(String, ParamValue)>,
}

/// Starts a completion request for `model`, with no optional field set.
pub fn build(model: CompletionModels) -> (r: Parameters)
    ensures
        r.required() == seq![("model"@, JsonValue::Str(model.id()))],
        r.pending() == Seq::<Field>::empty(),
{
    let r = Parameters { model, query: Vec::new() };
    assert(fields_view(r.query@) =~= Seq::<Field>::empty());
    r
}

impl Parameters {
    /// The mandatory fields of the body.
    pub closed spec fn required(&self) -> Seq<Field> {
        seq![("model"@, JsonValue::Str(self.model.id()))]
    }

    /// The optional fields, in the order in which they were set.
    pub closed spec fn pending(&self) -> Seq<Field> {
        fields_view(self.query@)
    }

    fn with(self, name: &str, value: ParamValue) -> (r: Self)
        ensures
            r.required() == self.required(),
            r.pending() == self.pending().push((name@, value@)),
    {
        let mut query = self.query;
        let ghost before = query@;
        query.push((name.to_owned(), value));
        assert(fields_view(query@) =~= fields_view(before).push((name@, value@)));
        Self { model: self.model, query }
    }

    /// The prompt to complete.
    pub fn prompt(self, input: &str) -> (r: Self)
        ensures
            r.required() == self.required(),
            r.pending() == self.pending().push(("prompt"@, JsonValue::Str(input@))),
    {
        self.with("prompt", ParamValue::Str(input.to_owned()))
    }

    /// Several prompts to complete, as a list.
    pub fn prompts(self, input: &Vec<&str>) -> (r: Self)
        ensures
            r.required() == self.required(),
            r.pending() == self.pending().push(("prompt"@, JsonValue::StrList(input@.map_values(|s: &str| s@)))),
    {
        self.with("prompt", str_list(input))
    }

    /// The text that comes after the inserted completion.
    pub fn suffix(self, input: &str) -> (r: Self)
        ensures
            r.required() == self.required(),
            r.pending() == self.pending().push(("suffix"@, JsonValue::Str(input@))),
    {
        self.with("suffix", ParamValue::Str(input.to_owned()))
    }

    /// The sampling temperature, written as a JSON number (`0.9`); higher
    /// takes more risks.
    pub fn temperature(self, input: &str) -> (r: Self)
        ensures
            r.required() == self.required(),
            r.pending() == self.pending().push(("temperature"@, JsonValue::Number(input@))),
    {
        self.with("temperature", ParamValue::Number(input.to_owned()))
    }

    /// Nucleus sampling: the probability mass of the tokens considered,
    /// written as a JSON number (`0.1`).
    pub fn top_p(self, input: &str) -> (r: Self)
        ensures
            r.required() == self.required(),
            r.pending() == self.pending().push(("top_p"@, JsonValue::Number(input@))),
    {
        self.with("top_p", ParamValue::Number(input.to_owned()))
    }

    /// How many completions to generate for each prompt.
    pub fn n(self, input: &u32) -> (r: Self)
        ensures
            r.required() == self.required(),
            r.pending() == self.pending().push(("n"@, JsonValue::UInt(*input as nat))),
    {
        self.with("n", ParamValue::UInt(*input as u64))
    }

    /// How many of the most likely tokens to report the log probabilities of.
    pub fn logprobs(self, input: &u8) -> (r: Self)
        ensures
            r.required() == self.required(),
            r.pending() == self.pending().push(("logprobs"@, JsonValue::UInt(*input as nat))),
    {
        self.with("logprobs", ParamValue::UInt(*input as u64))
    }

    /// Whether to echo the prompt back with the completion.
    pub fn echo(self, input: &bool) -> (r: Self)
        ensures
            r.required() == self.required(),
            r.pending() == self.pending().push(("echo"@, JsonValue::Bool(*input))),
    {
        self.with("echo", ParamValue::Bool(*input))
    }

    /// A sequence at which generation stops.
    pub fn stop(self, input: &str) -> (r: Self)
        ensures
            r.required() == self.required(),
            r.pending() == self.pending().push(("stop"@, JsonValue::Str(input@))),
    {
        self.with("stop", ParamValue::Str(input.to_owned()))
    }

    /// Sequences at which generation stops.
    pub fn stops(self, input: &Vec<&str>) -> (r: Self)
        ensures
            r.required() == self.required(),
            r.pending() == self.pending().push(("stop"@, JsonValue::StrList(input@.map_values(|s: &str| s@)))),
    {
        self.with("stop", str_list(input))
    }

    /// An identifier of the end user.
    pub fn user(self, input: &str) -> (r: Self)
        ensures
            r.required() == self.required(),
            r.pending() == self.pending().push(("user"@, JsonValue::Str(input@))),
    {
        self.with("user", ParamValue::Str(input.to_owned()))
    }

    /// The largest number of tokens to generate.
    pub fn max_tokens(self, input: u16) -> (r: Self)
        ensures
            r.required() == self.required(),
            r.pending() == self.pending().push(("max_tokens"@, JsonValue::UInt(input as nat))),
    {
        self.with("max_tokens", ParamValue::UInt(input as u64))
    }

    /// The penalty on tokens already present, written as a JSON number
    /// (between -2.0 and 2.0).
    pub fn presence_penalty(self, input: &str) -> (r: Self)
        ensures
            r.required() == self.required(),
            r.pending() == self.pending().push(("presence_penalty"@, JsonValue::Number(input@))),
    {
        self.with("presence_penalty", ParamValue::Number(input.to_owned()))
    }

    /// The penalty on tokens by their frequency so far, written as a JSON
    /// number (between -2.0 and 2.0).
    pub fn frequency_penalty(self, input: &str) -> (r: Self)
        ensures
            r.required() == self.required(),
            r.pending() == self.pending().push(("frequency_penalty"@, JsonValue::Number(input@))),
    {
        self.with("frequency_penalty", ParamValue::Number(input.to_owned()))
    }

    /// How many completions to generate on the server, of which the best
    /// are returned.
    pub fn best_of(self, input: &u32) -> (r: Self)
        ensures
            r.required() == self.required(),
            r.pending() == self.pending().push(("best_of"@, JsonValue::UInt(*input as nat))),
    {
        self.with("best_of", ParamValue::UInt(*input as u64))
    }

    /// The body of the request: the model, then each optional field once,
    /// where it was first set, with the value it was last given.
    pub fn body(self) -> (r: Vec<(String, ParamValue)>)
        ensures
            distinct_names(self.required()),
            fields_view(r@) == assemble(self.required() + self.pending()),
    {
        let mut fields = vec![("model".to_owned(), ParamValue::Str(self.model.as_string()))];
        let ghost head = fields@;
        let mut query = self.query;
        let ghost tail = query@;
        fields.append(&mut query);
        assert(fields_view(fields@) =~= self.required() + self.pending()) by {
            assert(fields@ =~= head + tail);
            assert(fields_view(head) =~= self.required());
        }
        assemble_body(fields)
    }

    /// The request that sends the body to the `/completions` endpoint.
    pub fn complete(self) -> (r: ApiRequest)
        ensures
            is_post_of(r, api_root() + "/completions"@, assemble(self.required() + self.pending())),
    {
        let body = self.body();
        crate::requester::completions(&body)
    }
}

} // verus!
