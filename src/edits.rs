use vstd::prelude::*;
use crate::models::EditModels;
use crate::params::{distinct_names, ParamValue, JsonValue, Field, fields_view, assemble, assemble_body};
use crate::requester::{ApiRequest, is_post_of, api_root};
use crate::usage::Usage;

verus! {

/// One edited text.
#[derive(Debug, Clone)]
pub struct EditChoice {
    pub text: String,
    pub index: i32,
}

/// The reply of the `/edits` endpoint.
#[derive(Debug, Clone)]
pub struct Edit {
    pub object: String,
    pub created: u64,
    pub choices: Vec<EditChoice>,
    pub usage: Usage,
}

/// An edit request being built: the model, the instruction, and the optional
/// fields in the order in which they were set.
pub struct Parameters {
    model: EditModels,
    instruction: String,
    query: Vec<(String, ParamValue)>,
}

/// Starts an edit request for `model` that follows `instruction`, with no
/// optional field set.
pub fn build(model: EditModels, instruction: String) -> (r: Parameters)
    ensures
        r.required() == seq![
            ("model"@, JsonValue::Str(model.id())),
            ("instruction"@, JsonValue::Str(instruction@)),
        ],
        r.pending() == Seq::<Field>::empty(),
{
    let r = Parameters { model, instruction, query: Vec::new() };
    assert(fields_view(r.query@) =~= Seq::<Field>::empty());
    r
}

impl Parameters {
    /// The mandatory fields of the body.
    pub closed spec fn required(&self) -> Seq<Field> {
        seq![
            ("model"@, JsonValue::Str(self.model.id())),
            ("instruction"@, JsonValue::Str(self.instruction@)),
        ]
    }

    /// The optional fields, in the order in which they were set.
    pub closed spec fn pending(&self) -> Seq<Field> {
        fields_view(self.query@)
    }

    fn with(self, name: &str, value: ParamValue) -> (r: Self)
        ensures
            r.required() == self.required(),
            r.pending() == self.pending().push((name@, value@)),
    {
        let mut query = self.query;
        let ghost before = query@;
        query.push((name.to_owned(), value));
        assert(fields_view(query@) =~= fields_view(before).push((name@, value@)));
        Self { model: self.model, instruction: self.instruction, query }
    }

    /// The text to edit.
    pub fn input(self, input: &str) -> (r: Self)
        ensures
            r.required() == self.required(),
            r.pending() == self.pending().push(("input"@, JsonValue::Str(input@))),
    {
        self.with("input", ParamValue::Str(input.to_owned()))
    }

    /// How many edits to generate.
    pub fn n(self, input: &u32) -> (r: Self)
        ensures
            r.required() == self.required(),
            r.pending() == self.pending().push(("n"@, JsonValue::UInt(*input as nat))),
    {
        self.with("n", ParamValue::UInt(*input as u64))
    }

    /// The sampling temperature, written as a JSON number (`0.9`).
    pub fn temperature(self, input: &str) -> (r: Self)
        ensures
            r.required() == self.required(),
            r.pending() == self.pending().push(("temperature"@, JsonValue::Number(input@))),
    {
        self.with("temperature", ParamValue::Number(input.to_owned()))
    }

    /// Nucleus sampling: the probability mass of the tokens considered,
    /// written as a JSON number (`0.1`).
    pub fn top_p(self, input: &str) -> (r: Self)
        ensures
            r.required() == self.required(),
            r.pending() == self.pending().push(("top_p"@, JsonValue::Number(input@))),
    {
        self.with("top_p", ParamValue::Number(input.to_owned()))
    }

    /// The body of the request: the mandatory fields, then each optional field
    /// once, where it was first set, with the value it was last given.
    pub fn body(self) -> (r: Vec<(String, ParamValue)>)
        ensures
            distinct_names(self.required()),
            fields_view(r@) == assemble(self.required() + self.pending()),
    {
        proof {
            reveal_strlit("model");
            reveal_strlit("instruction");
            assert("model"@.len() != "instruction"@.len());
        }
        let mut fields = vec![
            ("model".to_owned(), ParamValue::Str(self.model.as_string())),
            ("instruction".to_owned(), ParamValue::Str(self.instruction)),
        ];
        let ghost head = fields@;
        let mut query = self.query;
        let ghost tail = query@;
        fields.append(&mut query);
        assert(fields_view(fields@) =~= self.required() + self.pending()) by {
            assert(fields@ =~= head + tail);
            assert(fields_view(head) =~= self.required());
        }
        assemble_body(fields)
    }

    /// The request that sends the body to the `/edits` endpoint.
    pub fn edit(self) -> (r: ApiRequest)
        ensures
            is_post_of(r, api_root() + "/edits"@, assemble(self.required() + self.pending())),
    {
        let body = self.body();
        crate::requester::edits(&body)
    }
}

} // verus!
