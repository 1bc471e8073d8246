use vstd::prelude::*;
use crate::params::{distinct_names, ParamValue, JsonValue, Field, fields_view, assemble, assemble_body};
use crate::requester::{ApiRequest, ImageRequestType, is_post_of, api_root};

verus! {

/// Where one generated image can be fetched.
#[derive(Debug, Clone)]
pub struct ImageURL {
    pub url: String,
}

/// The reply of the `/images` endpoints.
#[derive(Debug, Clone)]
pub struct Images {
    pub created: u64,
    pub data: Vec<ImageURL>,
}

/// A request that generates images from a prompt.
pub struct GenerateParameters {
    prompt: String,
    query: Vec<(String, ParamValue)>,
}

/// A request for variations of an image.
pub struct VariationParameters {
    image: String,
    query: Vec<(String, ParamValue)>,
}

/// A request that edits or extends an image as a prompt asks.
pub struct EditParameters {
    prompt: String,
    image: String,
    query: Vec<(String, ParamValue)>,
}

/// The choice among the three kinds of image request.
pub struct Parameters {}

/// Starts an image request; the kind is chosen next.
pub fn build() -> Parameters {
    Parameters {}
}

impl Parameters {
    /// Generates images from `prompt`.
    pub fn generate(self, prompt: String) -> (r: GenerateParameters)
        ensures
            r.required() == seq![("prompt"@, JsonValue::Str(prompt@))],
            r.pending() == Seq::<Field>::empty(),
    {
        let r = GenerateParameters { prompt, query: Vec::new() };
        assert(fields_view(r.query@) =~= Seq::<Field>::empty());
        r
    }

    /// Edits or extends `image` as `prompt` asks.
    pub fn edits(self, image: String, prompt: String) -> (r: EditParameters)
        ensures
            r.required() == seq![
                ("prompt"@, JsonValue::Str(prompt@)),
                ("image"@, JsonValue::Str(image@)),
            ],
            r.pending() == Seq::<Field>::empty(),
    {
        let r = EditParameters { prompt, image, query: Vec::new() };
        assert(fields_view(r.query@) =~= Seq::<Field>::empty());
        r
    }

    /// Makes variations of `image`.
    pub fn variation(self, image: String) -> (r: VariationParameters)
        ensures
            r.required() == seq![("image"@, JsonValue::Str(image@))],
            r.pending() == Seq::<Field>::empty(),
    {
        let r = VariationParameters { image, query: Vec::new() };
        assert(fields_view(r.query@) =~= Seq::<Field>::empty());
        r
    }
}

impl GenerateParameters {
    /// The mandatory fields of the body.
    pub closed spec fn required(&self) -> Seq<Field> {
        seq![("prompt"@, JsonValue::Str(self.prompt@))]
    }

    /// The optional fields, in the order in which they were set.
    pub closed spec fn pending(&self) -> Seq<Field> {
        fields_view(self.query@)
    }

    fn with(self, name: &str, value: ParamValue) -> (r: Self)
        ensures
            r.required() == self.required(),
            r.pending() == self.pending().push((name@, value@)),
    {
        let mut query = self.query;
        let ghost before = query@;
        query.push((name.to_owned(), value));
        assert(fields_view(query@) =~= fields_view(before).push((name@, value@)));
        Self { prompt: self.prompt, query }
    }

    /// How many images to generate (1 to 10).
    pub fn n(self, input: &u8) -> (r: Self)
        ensures
            r.required() == self.required(),
            r.pending() == self.pending().push(("n"@, JsonValue::UInt(*input as nat))),
    {
        self.with("n", ParamValue::UInt(*input as u64))
    }

    /// The size of the images: `256x256`, `512x512` or `1024x1024`.
    pub fn size(self, input: &str) -> (r: Self)
        ensures
            r.required() == self.required(),
            r.pending() == self.pending().push(("size"@, JsonValue::Str(input@))),
    {
        self.with("size", ParamValue::Str(input.to_owned()))
    }

    /// The form in which the images come back: `url` or `b64_json`.
    pub fn response_format(self, input: &str) -> (r: Self)
        ensures
            r.required() == self.required(),
            r.pending() == self.pending().push(("response_format"@, JsonValue::Str(input@))),
    {
        self.with("response_format", ParamValue::Str(input.to_owned()))
    }

    /// An identifier of the end user.
    pub fn user(self, input: &str) -> (r: Self)
        ensures
            r.required() == self.required(),
            r.pending() == self.pending().push(("user"@, JsonValue::Str(input@))),
    {
        self.with("user", ParamValue::Str(input.to_owned()))
    }

    /// The body of the request: the mandatory fields, then each optional field
    /// once, where it was first set, with the value it was last given.
    pub fn body(self) -> (r: Vec<(String, ParamValue)>)
        ensures
            distinct_names(self.required()),
            fields_view(r@) == assemble(self.required() + self.pending()),
    {
        let mut fields = vec![("prompt".to_owned(), ParamValue::Str(self.prompt))];
        let ghost head = fields@;
        let mut query = self.query;
        let ghost tail = query@;
        fields.append(&mut query);
        assert(fields_view(fields@) =~= self.required() + self.pending()) by {
            assert(fields@ =~= head + tail);
            assert(fields_view(head) =~= self.required());
        }
        assemble_body(fields)
    }

    /// The request that sends the body to `/images/generations`.
    pub fn done(self) -> (r: ApiRequest)
        ensures
            is_post_of(r, api_root() + "/images/"@ + ImageRequestType::Generations.path(), assemble(self.required() + self.pending())),
    {
        let body = self.body();
        crate::requester::images(ImageRequestType::Generations, &body)
    }
}

impl EditParameters {
    /// The mandatory fields of the body.
    pub closed spec fn required(&self) -> Seq<Field> {
        seq![("prompt"@, JsonValue::Str(self.prompt@)), ("image"@, JsonValue::Str(self.image@))]
    }

    /// The optional fields, in the order in which they were set.
    pub closed spec fn pending(&self) -> Seq<Field> {
        fields_view(self.query@)
    }

    fn with(self, name: &str, value: ParamValue) -> (r: Self)
        ensures
            r.required() == self.required(),
            r.pending() == self.pending().push((name@, value@)),
    {
        let mut query = self.query;
        let ghost before = query@;
        query.push((name.to_owned(), value));
        assert(fields_view(query@) =~= fields_view(before).push((name@, value@)));
        Self { prompt: self.prompt, image: self.image, query }
    }

    /// An image whose fully transparent areas mark where to edit.
    pub fn mask(self, input: &str) -> (r: Self)
        ensures
            r.required() == self.required(),
            r.pending() == self.pending().push(("mask"@, JsonValue::Str(input@))),
    {
        self.with("mask", ParamValue::Str(input.to_owned()))
    }

    /// How many images to generate (1 to 10).
    pub fn n(self, input: &u8) -> (r: Self)
        ensures
            r.required() == self.required(),
            r.pending() == self.pending().push(("n"@, JsonValue::UInt(*input as nat))),
    {
        self.with("n", ParamValue::UInt(*input as u64))
    }

    /// The size of the images: `256x256`, `512x512` or `1024x1024`.
    pub fn size(self, input: &str) -> (r: Self)
        ensures
            r.required() == self.required(),
            r.pending() == self.pending().push(("size"@, JsonValue::Str(input@))),
    {
        self.with("size", ParamValue::Str(input.to_owned()))
    }

    /// The form in which the images come back: `url` or `b64_json`.
    pub fn response_format(self, input: &str) -> (r: Self)
        ensures
            r.required() == self.required(),
            r.pending() == self.pending().push(("response_format"@, JsonValue::Str(input@))),
    {
        self.with("response_format", ParamValue::Str(input.to_owned()))
    }

    /// An identifier of the end user.
    pub fn user(self, input: &str) -> (r: Self)
        ensures
            r.required() == self.required(),
            r.pending() == self.pending().push(("user"@, JsonValue::Str(input@))),
    {
        self.with("user", ParamValue::Str(input.to_owned()))
    }

    /// The body of the request: the mandatory fields, then each optional field
    /// once, where it was first set, with the value it was last given.
    pub fn body(self) -> (r: Vec<(String, ParamValue)>)
        ensures
            distinct_names(self.required()),
            fields_view(r@) == assemble(self.required() + self.pending()),
    {
        proof {
            reveal_strlit("prompt");
            reveal_strlit("image");
            assert("prompt"@.len() != "image"@.len());
        }
        let mut fields = vec![
            ("prompt".to_owned(), ParamValue::Str(self.prompt)),
            ("image".to_owned(), ParamValue::Str(self.image)),
        ];
        let ghost head = fields@;
        let mut query = self.query;
        let ghost tail = query@;
        fields.append(&mut query);
        assert(fields_view(fields@) =~= self.required() + self.pending()) by {
            assert(fields@ =~= head + tail);
            assert(fields_view(head) =~= self.required());
        }
        assemble_body(fields)
    }

    /// The request that sends the body to `/images/edits`.
    pub fn done(self) -> (r: ApiRequest)
        ensures
            is_post_of(r, api_root() + "/images/"@ + ImageRequestType::Edits.path(), assemble(self.required() + self.pending())),
    {
        let body = self.body();
        crate::requester::images(ImageRequestType::Edits, &body)
    }
}

impl VariationParameters {
    /// The mandatory fields of the body.
    pub closed spec fn required(&self) -> Seq<Field> {
        seq![("image"@, JsonValue::Str(self.image@))]
    }

    /// The optional fields, in the order in which they were set.
    pub closed spec fn pending(&self) -> Seq<Field> {
        fields_view(self.query@)
    }

    fn with(self, name: &str, value: ParamValue) -> (r: Self)
        ensures
            r.required() == self.required(),
            r.pending() == self.pending().push((name@, value@)),
    {
        let mut query = self.query;
        let ghost before = query@;
        query.push((name.to_owned(), value));
        assert(fields_view(query@) =~= fields_view(before).push((name@, value@)));
        Self { image: self.image, query }
    }

    /// How many images to generate (1 to 10).
    pub fn n(self, input: &u8) -> (r: Self)
        ensures
            r.required() == self.required(),
            r.pending() == self.pending().push(("n"@, JsonValue::UInt(*input as nat))),
    {
        self.with("n", ParamValue::UInt(*input as u64))
    }

    /// The size of the images: `256x256`, `512x512` or `1024x1024`.
    pub fn size(self, input: &str) -> (r: Self)
        ensures
            r.required() == self.required(),
            r.pending() == self.pending().push(("size"@, JsonValue::Str(input@))),
    {
        self.with("size", ParamValue::Str(input.to_owned()))
    }

    /// The form in which the images come back: `url` or `b64_json`.
    pub fn response_format(self, input: &str) -> (r: Self)
        ensures
            r.required() == self.required(),
            r.pending() == self.pending().push(("response_format"@, JsonValue::Str(input@))),
    {
        self.with("response_format", ParamValue::Str(input.to_owned()))
    }

    /// An identifier of the end user.
    pub fn user(self, input: &str) -> (r: Self)
        ensures
            r.required() == self.required(),
            r.pending() == self.pending().push(("user"@, JsonValue::Str(input@))),
    {
        self.with("user", ParamValue::Str(input.to_owned()))
    }

    /// The body of the request: the mandatory fields, then each optional field
    /// once, where it was first set, with the value it was last given.
    pub fn body(self) -> (r: Vec<(String, ParamValue)>)
        ensures
            distinct_names(self.required()),
            fields_view(r@) == assemble(self.required() + self.pending()),
    {
        let mut fields = vec![("image".to_owned(), ParamValue::Str(self.image))];
        let ghost head = fields@;
        let mut query = self.query;
        let ghost tail = query@;
        fields.append(&mut query);
        assert(fields_view(fields@) =~= self.required() + self.pending()) by {
            assert(fields@ =~= head + tail);
            assert(fields_view(head) =~= self.required());
        }
        assemble_body(fields)
    }

    /// The request that sends the body to `/images/variations`.
    pub fn done(self) -> (r: ApiRequest)
        ensures
            is_post_of(r, api_root() + "/images/"@ + ImageRequestType::Variations.path(), assemble(self.required() + self.pending())),
    {
        let body = self.body();
        crate::requester::images(ImageRequestType::Variations, &body)
    }
}

} // verus!
