use vstd::prelude::*;
use crate::requester::{ApiRequest, Method, api_root};
use crate::params::{Field, JsonValue, names_of, assemble, lemma_body_fields};

verus! {

/// What a model allows.
#[derive(Debug, Clone)]
pub struct ModelPermissions {
    pub id: String,
    pub object: String,
    pub created: u64,
    pub allow_create_engine: bool,
    pub allow_sampling: bool,
    pub allow_logprobs: bool,
    pub allow_search_indices: bool,
    pub allow_view: bool,
    pub allow_fine_tuning: bool,
    pub organization: String,
    pub group: Option<String>,
    pub is_blocking: bool,
}

/// One model of the service's catalog.
#[derive(Debug, Clone)]
pub struct Model {
    pub id: String,
    pub object: Option<String>,
    pub owned_by: Option<String>,
    pub permission: Option<Vec<ModelPermissions>>,
}

/// The reply that lists the models.
#[derive(Debug, Clone)]
pub struct RootModel {
    pub data: Vec<Model>,
}

/// A completion model: one of the known identifiers, or any identifier given by name.
#[allow(non_camel_case_types)]
pub enum CompletionModels {
    /// text-davinci-003: the most capable model of the family.
    TEXT_DAVINCI_003,
    /// text-davinci-002: the previous generation.
    TEXT_DAVINCI_002,
    /// text-davinci-001: an older version of the most capable model.
    TEXT_DAVINCI_001,
    /// text-curie-001: capable, faster and cheaper.
    TEXT_CURIE_001,
    /// text-babbage-001: fast and cheap.
    TEXT_BABBAGE_001,
    /// text-ada-001: the fastest and cheapest.
    TEXT_ADA_001,
    /// Any model, through its identifier; it is sent as given.
    from_str(&'static str),
}

impl CompletionModels {
    /// The identifier that goes into the `model` field of a request.
    pub open spec fn id(&self) -> Seq<char> {
        match self {
            CompletionModels::TEXT_DAVINCI_003 => "text-davinci-003"@,
            CompletionModels::TEXT_DAVINCI_002 => "text-davinci-002"@,
            CompletionModels::TEXT_DAVINCI_001 => "text-davinci-001"@,
            CompletionModels::TEXT_CURIE_001 => "text-curie-001"@,
            CompletionModels::TEXT_BABBAGE_001 => "text-babbage-001"@,
            CompletionModels::TEXT_ADA_001 => "text-ada-001"@,
            CompletionModels::from_str(t) => t@,
        }
    }

    pub fn as_string(&self) -> (r: String)
        ensures
            r@ == self.id(),
    {
        match self {
            CompletionModels::TEXT_DAVINCI_003 => "text-davinci-003".to_owned(),
            CompletionModels::TEXT_DAVINCI_002 => "text-davinci-002".to_owned(),
            CompletionModels::TEXT_DAVINCI_001 => "text-davinci-001".to_owned(),
            CompletionModels::TEXT_CURIE_001 => "text-curie-001".to_owned(),
            CompletionModels::TEXT_BABBAGE_001 => "text-babbage-001".to_owned(),
            CompletionModels::TEXT_ADA_001 => "text-ada-001".to_owned(),
            CompletionModels::from_str(t) => (*t).to_owned(),
        }
    }
}

/// An edit model: the known identifier, or any identifier given by name.
#[allow(non_camel_case_types)]
pub enum EditModels {
    /// text-davinci-edit-001: modifies a text as an instruction asks.
    TEXT_DAVINCI_EDIT_001,
    /// Any model, through its identifier; it is sent as given.
    from_str(&'static str),
}

impl EditModels {
    /// The identifier that goes into the `model` field of a request.
    pub open spec fn id(&self) -> Seq<char> {
        match self {
            EditModels::TEXT_DAVINCI_EDIT_001 => "text-davinci-edit-001"@,
            EditModels::from_str(t) => t@,
        }
    }

    pub fn as_string(&self) -> (r: String)
        ensures
            r@ == self.id(),
    {
        match self {
            EditModels::TEXT_DAVINCI_EDIT_001 => "text-davinci-edit-001".to_owned(),
            EditModels::from_str(t) => (*t).to_owned(),
        }
    }
}

/// An identifier given by name is sent unchanged: it is the identifier of the
/// escape variant of either catalog, and the body built from it holds it as
/// the `model` field, whatever optional fields (none named `model`) follow.
pub proof fn lemma_escape_round_trip(t: &'static str, optional: Seq<Field>)
    requires
        !names_of(optional).contains("model"@),
    ensures
        CompletionModels::from_str(t).id() == t@,
        EditModels::from_str(t).id() == t@,
        exists|i: int|
            0 <= i < assemble(seq![("model"@, JsonValue::Str(t@))] + optional).len() && #[trigger] assemble(
                seq![("model"@, JsonValue::Str(t@))] + optional,
            )[i] == ("model"@, JsonValue::Str(t@)),
{
    let required = seq![("model"@, JsonValue::Str(t@))];
    lemma_body_fields(required, optional);
    let a = assemble(required + optional);
    assert(names_of(required)[0] == "model"@);
    assert(names_of(a).contains("model"@));
    let i = choose|i: int| 0 <= i < names_of(a).len() && names_of(a)[i] == "model"@;
    assert(a[i].0 == required[0].0);
}

/// The request for the list of all available models.
pub fn list() -> (r: ApiRequest)
    ensures
        r.method == Method::Get,
        r.body is None,
        r.url@ == api_root() + "/models"@,
{
    crate::requester::models(None)
}

/// The request for one model, by its identifier.
pub fn get(model_name: String) -> (r: ApiRequest)
    ensures
        r.method == Method::Get,
        r.body is None,
        r.url@ == api_root() + "/models/"@ + model_name@,
{
    crate::requester::models(Some(model_name))
}

} // verus!
