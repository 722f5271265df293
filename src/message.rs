//! The wire-format types: identifiers, parameters, requests, responses.
use vstd::prelude::*;
use crate::error::Error;
use crate::json::{
    array_items, array_items_of, array_text, join_with_commas, member_text, object_fields,
    object_fields_of, object_text, pairs_view, quote, same_text, strings_view,
};

verus! {

/// Request identifier as found in request and response objects.
#[derive(Debug, Clone, Hash)]
pub enum Id {
    Number(u32),
    String(String),
}

impl PartialEq for Id {
    fn eq(&self, other: &Id) -> (r: bool) {
        match (self, other) {
            (Id::Number(a), Id::Number(b)) => *a == *b,
            (Id::String(a), Id::String(b)) => *a == *b,
            _ => false,
        }
    }
}

impl vstd::std_specs::cmp::PartialEqSpecImpl for Id {
    open spec fn obeys_eq_spec() -> bool {
        true
    }

    open spec fn eq_spec(&self, other: &Id) -> bool {
        id_model(*self) == id_model(*other)
    }
}

impl Eq for Id {
}

/// What an identifier stands for: a number, or the characters of a string.
pub enum IdModel {
    Number(u32),
    Text(Seq<char>),
}

pub open spec fn id_model(id: Id) -> IdModel {
    match id {
        Id::Number(n) => IdModel::Number(n),
        Id::String(s) => IdModel::Text(s@),
    }
}

/// Protocol version.
#[derive(Debug, PartialEq, Eq, Structural, Clone, Copy, Hash)]
pub enum Version {
    /// JSON-RPC 2.0
    V2,
}

impl Version {
    /// The version that a `jsonrpc` string names.
    pub fn from_text(s: &str) -> (r: Option<Version>)
        ensures
            r is Some <==> s@ == "2.0"@,
            r matches Some(v) ==> v == Version::V2,
    {
        if same_text(s, "2.0") {
            Some(Version::V2)
        } else {
            None
        }
    }
}

/// Method parameters: JSON values, each as its text.
#[derive(Debug, Clone)]
pub enum Params {
    Positional(Vec<String>),
    Structured(Vec<(String, String)>),
}

/// Request object.
#[derive(Debug, Clone)]
pub struct Request {
    /// Protocol version; absent from legacy senders.
    pub jsonrpc: Option<Version>,
    /// Name of the method to be invoked.
    pub method: String,
    /// Method parameters.
    pub params: Option<Params>,
    /// Request identifier.
    pub id: Option<Id>,
}

/// Response object.
#[derive(Debug, Clone)]
pub struct Response {
    /// Protocol version.
    pub jsonrpc: Version,
    /// Request identifier.
    pub id: Option<Id>,
    /// Return value of the method, as JSON text.
    pub result: Option<String>,
    /// Error that occurred during the method invocation.
    pub error: Option<Error>,
}

/// A message on the wire: a payload with a `method` member is a request.
#[derive(Debug, Clone)]
pub enum Message {
    Request(Request),
    Response(Response),
}

pub open spec fn opt_view(o: Option<String>) -> Option<Seq<char>> {
    match o {
        Some(s) => Some(s@),
        None => None,
    }
}

/// A response is well formed when exactly one of `result` and `error` is set.
pub open spec fn well_formed_response(r: Response) -> bool {
    r.result is Some != r.error is Some
}

impl Response {
    /// Creates a new response object indicating an error.
    pub fn error(id: Option<Id>, error: Error) -> (r: Self)
        ensures
            r.jsonrpc == Version::V2,
            r.id == id,
            r.result is None,
            r.error == Some(error),
    {
        Response { jsonrpc: Version::V2, id, error: Some(error), result: None }
    }

    /// Creates a new response object indicating a success.
    pub fn success(id: Id, result: String) -> (r: Self)
        ensures
            r.jsonrpc == Version::V2,
            r.id == Some(id),
            r.result == Some(result),
            r.error is None,
    {
        Response { jsonrpc: Version::V2, id: Some(id), result: Some(result), error: None }
    }
}

/// The parameters that a JSON text stands for: an object's members, or an array's items.
pub open spec fn params_decodes(raw: Seq<char>, p: Params) -> bool {
    match p {
        Params::Structured(fields) => object_fields_of(raw) == Some(pairs_view(fields@)),
        Params::Positional(items) => object_fields_of(raw) is None && array_items_of(raw) == Some(
            strings_view(items@),
        ),
    }
}

pub open spec fn params_valid(raw: Seq<char>) -> bool {
    object_fields_of(raw) is Some || array_items_of(raw) is Some
}

/// The text of an object member, with its key quoted.
pub open spec fn field_text(field: (Seq<char>, Seq<char>)) -> Seq<char> {
    member_text(field.0, field.1)
}

/// The JSON text of parameters: an array, or an object.
pub open spec fn params_text(p: Params) -> Seq<char> {
    match p {
        Params::Positional(items) => array_text(strings_view(items@)),
        Params::Structured(fields) => object_text(
            pairs_view(fields@).map_values(|f: (Seq<char>, Seq<char>)| field_text(f)),
        ),
    }
}

impl Params {
    /// The parameters that a JSON value stands for; only an array or an object qualifies.
    pub fn try_from_value(value: &str) -> (r: Result<Params, Error>)
        ensures
            r is Ok <==> params_valid(value@),
            r matches Ok(p) ==> params_decodes(value@, p),
            r matches Err(e) ==> e.code == Error::INVALID_PARAMS && e.message@
                == "Params has to be an object or array"@ && e.data is None,
    {
        match object_fields(value) {
            Some(fields) => Ok(Params::Structured(fields)),
            None => match array_items(value) {
                Some(items) => Ok(Params::Positional(items)),
                None => Err(Error::invalid_params()),
            },
        }
    }

    /// The JSON text of the parameters: an array or an object.
    pub fn into_value(self) -> (r: String)
        ensures
            r@ == params_text(self),
    {
        self.text()
    }

    /// The JSON text of the parameters, leaving them in place.
    pub fn text(&self) -> (r: String)
        ensures
            r@ == params_text(*self),
    {
        match self {
            Params::Positional(items) => {
                let mut out = String::from_str("[");
                let inner = join_with_commas(items);
                out.append(inner.as_str());
                out.append("]");
                out
            },
            Params::Structured(fields) => {
                let mut members: Vec<String> = Vec::new();
                let mut i: usize = 0;
                while i < fields.len()
                    invariant
                        i <= fields.len(),
                        strings_view(members@) == pairs_view(fields@).subrange(0, i as int).map_values(
                            |f: (Seq<char>, Seq<char>)| field_text(f),
                        ),
                    decreases fields.len() - i,
                {
                    let mut member = quote(fields[i].0.as_str());
                    member.append(":");
                    member.append(fields[i].1.as_str());
                    let ghost done = pairs_view(fields@).subrange(0, i as int);
                    let ghost next = pairs_view(fields@).subrange(0, i + 1);
                    assert(member@ == field_text(pairs_view(fields@)[i as int]));
                    assert(next =~= done.push(pairs_view(fields@)[i as int]));
                    let ghost before = members@;
                    members.push(member);
                    assert(strings_view(members@) =~= strings_view(before).push(member@));
                    assert(next.map_values(|f: (Seq<char>, Seq<char>)| field_text(f)) =~= done.map_values(
                        |f: (Seq<char>, Seq<char>)| field_text(f),
                    ).push(field_text(pairs_view(fields@)[i as int])));
                    i = i + 1;
                    assert(strings_view(members@) =~= next.map_values(
                        |f: (Seq<char>, Seq<char>)| field_text(f),
                    ));
                }
                assert(pairs_view(fields@).subrange(0, fields.len() as int) =~= pairs_view(fields@));
                let mut out = String::from_str("{");
                let inner = join_with_commas(&members);
                out.append(inner.as_str());
                out.append("}");
                out
            },
        }
    }
}

} // verus!
