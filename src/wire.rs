//! Reading a message out of JSON text, and writing one as JSON text.
use vstd::prelude::*;
use crate::error::Error;
use crate::json::{
    find_field, i32_value, join_with_commas, lookup, null_text, object_fields,
    object_fields_of, object_text, pairs_view, quote, quoted, same_text, string_of, string_value,
    strings_view, u32_of, u32_value,
};
use crate::message::{
    Id, Message, Params, Request, Response, Version, opt_view, params_decodes, params_text,
    params_valid,
};
use crate::text::{int_text, integer_text};

verus! {

/// The identifier that a member's text stands for: `null` stands for none.
pub open spec fn id_decodes(raw: Seq<char>, id: Option<Id>) -> bool {
    match id {
        None => raw == null_text(),
        Some(Id::Number(n)) => raw != null_text() && u32_of(raw) == Some(n),
        Some(Id::String(s)) => raw != null_text() && u32_of(raw) is None && string_of(raw) == Some(
            s@,
        ),
    }
}

pub open spec fn id_valid(raw: Seq<char>) -> bool {
    raw == null_text() || u32_of(raw) is Some || string_of(raw) is Some
}

/// An absent `id` member stands for no identifier.
pub open spec fn opt_id_decodes(field: Option<Seq<char>>, id: Option<Id>) -> bool {
    match field {
        None => id is None,
        Some(raw) => id_decodes(raw, id),
    }
}

pub open spec fn opt_id_valid(field: Option<Seq<char>>) -> bool {
    match field {
        None => true,
        Some(raw) => id_valid(raw),
    }
}

/// A `jsonrpc` member of a request: absent or null for legacy senders, else `"2.0"`.
pub open spec fn version_decodes(field: Option<Seq<char>>, v: Option<Version>) -> bool {
    match field {
        None => v is None,
        Some(raw) => if raw == null_text() {
            v is None
        } else {
            string_of(raw) == Some("2.0"@) && v == Some(Version::V2)
        },
    }
}

pub open spec fn version_valid(field: Option<Seq<char>>) -> bool {
    match field {
        None => true,
        Some(raw) => raw == null_text() || string_of(raw) == Some("2.0"@),
    }
}

/// A `params` member: absent or null stands for none.
pub open spec fn opt_params_decodes(field: Option<Seq<char>>, p: Option<Params>) -> bool {
    match field {
        None => p is None,
        Some(raw) => if raw == null_text() {
            p is None
        } else {
            p matches Some(q) && params_decodes(raw, q)
        },
    }
}

pub open spec fn opt_params_valid(field: Option<Seq<char>>) -> bool {
    match field {
        None => true,
        Some(raw) => raw == null_text() || params_valid(raw),
    }
}

/// An error object: an integer `code`, a string `message`, and `data` if present.
pub open spec fn error_decodes(raw: Seq<char>, e: Error) -> bool {
    &&& object_fields_of(raw) matches Some(fields)
    &&& lookup(fields, "code"@) matches Some(c)
    &&& crate::json::i32_of(c) == Some(e.code)
    &&& lookup(fields, "message"@) matches Some(m)
    &&& string_of(m) == Some(e.message@)
    &&& opt_view(e.data) == lookup(fields, "data"@)
}

pub open spec fn error_valid(raw: Seq<char>) -> bool {
    &&& object_fields_of(raw) matches Some(fields)
    &&& lookup(fields, "code"@) matches Some(c)
    &&& crate::json::i32_of(c) is Some
    &&& lookup(fields, "message"@) matches Some(m)
    &&& string_of(m) is Some
}

/// An `error` member of a response: absent or null stands for none.
pub open spec fn opt_error_decodes(field: Option<Seq<char>>, e: Option<Error>) -> bool {
    match field {
        None => e is None,
        Some(raw) => if raw == null_text() {
            e is None
        } else {
            e matches Some(x) && error_decodes(raw, x)
        },
    }
}

pub open spec fn opt_error_valid(field: Option<Seq<char>>) -> bool {
    match field {
        None => true,
        Some(raw) => raw == null_text() || error_valid(raw),
    }
}

pub open spec fn method_decodes(field: Option<Seq<char>>, method: Seq<char>) -> bool {
    field matches Some(raw) && string_of(raw) == Some(method)
}

pub open spec fn method_valid(field: Option<Seq<char>>) -> bool {
    field matches Some(raw) && string_of(raw) is Some
}

/// The request that the members of an object stand for.
pub open spec fn request_decodes(fields: Seq<(Seq<char>, Seq<char>)>, r: Request) -> bool {
    &&& method_decodes(lookup(fields, "method"@), r.method@)
    &&& version_decodes(lookup(fields, "jsonrpc"@), r.jsonrpc)
    &&& opt_params_decodes(lookup(fields, "params"@), r.params)
    &&& opt_id_decodes(lookup(fields, "id"@), r.id)
}

pub open spec fn request_valid(fields: Seq<(Seq<char>, Seq<char>)>) -> bool {
    &&& method_valid(lookup(fields, "method"@))
    &&& version_valid(lookup(fields, "jsonrpc"@))
    &&& opt_params_valid(lookup(fields, "params"@))
    &&& opt_id_valid(lookup(fields, "id"@))
}

/// The response that the members of an object stand for: `jsonrpc` must be `"2.0"`;
/// `result` is kept as its text, whatever it is.
pub open spec fn response_decodes(fields: Seq<(Seq<char>, Seq<char>)>, r: Response) -> bool {
    &&& lookup(fields, "jsonrpc"@) matches Some(v)
    &&& string_of(v) == Some("2.0"@)
    &&& r.jsonrpc == Version::V2
    &&& opt_id_decodes(lookup(fields, "id"@), r.id)
    &&& opt_view(r.result) == lookup(fields, "result"@)
    &&& opt_error_decodes(lookup(fields, "error"@), r.error)
}

pub open spec fn response_valid(fields: Seq<(Seq<char>, Seq<char>)>) -> bool {
    &&& lookup(fields, "jsonrpc"@) matches Some(v)
    &&& string_of(v) == Some("2.0"@)
    &&& opt_id_valid(lookup(fields, "id"@))
    &&& opt_error_valid(lookup(fields, "error"@))
}

/// The message that a JSON text stands for: an object with a `method` member is a
/// request, any other object a response.
pub open spec fn message_decodes(text: Seq<char>, m: Message) -> bool {
    &&& object_fields_of(text) matches Some(fields)
    &&& match m {
        Message::Request(r) => lookup(fields, "method"@) is Some && request_decodes(fields, r),
        Message::Response(r) => lookup(fields, "method"@) is None && response_decodes(fields, r),
    }
}

pub open spec fn message_valid(text: Seq<char>) -> bool {
    &&& object_fields_of(text) matches Some(fields)
    &&& if lookup(fields, "method"@) is Some {
        request_valid(fields)
    } else {
        response_valid(fields)
    }
}

/// Whether the one fault of a text is a request's `params` of another shape than
/// array or object.
pub open spec fn only_params_invalid(text: Seq<char>) -> bool {
    &&& object_fields_of(text) matches Some(fields)
    &&& lookup(fields, "method"@) is Some
    &&& method_valid(lookup(fields, "method"@))
    &&& version_valid(lookup(fields, "jsonrpc"@))
    &&& !opt_params_valid(lookup(fields, "params"@))
}

/// The error that reports text which is no valid message.
pub open spec fn is_parse_error(e: Error) -> bool {
    e.code == Error::PARSE_ERROR && e.message@ == "Parse error"@ && e.data is None
}

fn decode_id(raw: &str) -> (r: Option<Option<Id>>)
    ensures
        r is Some <==> id_valid(raw@),
        r matches Some(id) ==> id_decodes(raw@, id),
{
    if same_text(raw, "null") {
        Some(None)
    } else {
        match u32_value(raw) {
            Some(n) => Some(Some(Id::Number(n))),
            None => match string_value(raw) {
                Some(s) => Some(Some(Id::String(s))),
                None => None,
            },
        }
    }
}

fn decode_opt_id(field: Option<String>) -> (r: Option<Option<Id>>)
    ensures
        r is Some <==> opt_id_valid(opt_view(field)),
        r matches Some(id) ==> opt_id_decodes(opt_view(field), id),
{
    match field {
        None => Some(None),
        Some(raw) => decode_id(raw.as_str()),
    }
}

fn decode_error(raw: &str) -> (r: Option<Error>)
    ensures
        r is Some <==> error_valid(raw@),
        r matches Some(e) ==> error_decodes(raw@, e),
{
    let fields = match object_fields(raw) {
        Some(f) => f,
        None => return None,
    };
    let code = match find_field(&fields, "code") {
        Some(c) => match i32_value(c.as_str()) {
            Some(n) => n,
            None => return None,
        },
        None => return None,
    };
    let message = match find_field(&fields, "message") {
        Some(m) => match string_value(m.as_str()) {
            Some(s) => s,
            None => return None,
        },
        None => return None,
    };
    let data = find_field(&fields, "data");
    Some(Error::with_data(code, message, data))
}

fn decode_request(fields: &Vec<(String, String)>) -> (r: Result<Request, Error>)
    ensures
        r is Ok <==> request_valid(pairs_view(fields@)),
        r matches Ok(req) ==> request_decodes(pairs_view(fields@), req),
        r matches Err(e) ==> if method_valid(lookup(pairs_view(fields@), "method"@))
            && version_valid(lookup(pairs_view(fields@), "jsonrpc"@))
            && !opt_params_valid(lookup(pairs_view(fields@), "params"@)) {
            e.code == Error::INVALID_PARAMS && e.data is None
        } else {
            is_parse_error(e)
        },
{
    let method = match find_field(fields, "method") {
        Some(raw) => match string_value(raw.as_str()) {
            Some(s) => s,
            None => return Err(parse_error()),
        },
        None => return Err(parse_error()),
    };
    let jsonrpc = match find_field(fields, "jsonrpc") {
        None => None,
        Some(raw) => if same_text(raw.as_str(), "null") {
            None
        } else {
            match string_value(raw.as_str()) {
                Some(s) => match Version::from_text(s.as_str()) {
                    Some(v) => Some(v),
                    None => return Err(parse_error()),
                },
                None => return Err(parse_error()),
            }
        },
    };
    let params = match find_field(fields, "params") {
        None => None,
        Some(raw) => if same_text(raw.as_str(), "null") {
            None
        } else {
            match Params::try_from_value(raw.as_str()) {
                Ok(p) => Some(p),
                Err(e) => return Err(e),
            }
        },
    };
    let id = match decode_opt_id(find_field(fields, "id")) {
        Some(id) => id,
        None => return Err(parse_error()),
    };
    Ok(Request { jsonrpc, method, params, id })
}

fn decode_response(fields: &Vec<(String, String)>) -> (r: Option<Response>)
    ensures
        r is Some <==> response_valid(pairs_view(fields@)),
        r matches Some(res) ==> response_decodes(pairs_view(fields@), res),
{
    match find_field(fields, "jsonrpc") {
        Some(raw) => match string_value(raw.as_str()) {
            Some(s) => if !same_text(s.as_str(), "2.0") {
                return None;
            },
            None => return None,
        },
        None => return None,
    }
    let id = match decode_opt_id(find_field(fields, "id")) {
        Some(id) => id,
        None => return None,
    };
    let result = find_field(fields, "result");
    let error = match find_field(fields, "error") {
        None => None,
        Some(raw) => if same_text(raw.as_str(), "null") {
            None
        } else {
            match decode_error(raw.as_str()) {
                Some(e) => Some(e),
                None => return None,
            }
        },
    };
    Some(Response { jsonrpc: Version::V2, id, result, error })
}

/// The error that reports text that is no valid message.
pub fn parse_error() -> (r: Error)
    ensures
        is_parse_error(r),
{
    Error::new(Error::PARSE_ERROR, String::from_str("Parse error"))
}

/// Reads a message out of JSON text. Malformed input is reported as a value,
/// never as a fault.
pub fn parse_message(text: &str) -> (r: Result<Message, Error>)
    ensures
        r is Ok <==> message_valid(text@),
        r matches Ok(m) ==> message_decodes(text@, m),
        r matches Err(e) ==> if only_params_invalid(text@) {
            e.code == Error::INVALID_PARAMS && e.data is None
        } else {
            is_parse_error(e)
        },
{
    let fields = match object_fields(text) {
        Some(f) => f,
        None => return Err(parse_error()),
    };
    match find_field(&fields, "method") {
        Some(_) => match decode_request(&fields) {
            Ok(req) => Ok(Message::Request(req)),
            Err(e) => Err(e),
        },
        None => match decode_response(&fields) {
            Some(res) => Ok(Message::Response(res)),
            None => Err(parse_error()),
        },
    }
}

/// The JSON text of an identifier; none is `null`.
pub open spec fn id_text(id: Option<Id>) -> Seq<char> {
    match id {
        None => null_text(),
        Some(Id::Number(n)) => int_text(n as int),
        Some(Id::String(s)) => quoted(s@),
    }
}

pub open spec fn error_members(e: Error) -> Seq<Seq<char>> {
    seq!["\"code\":"@ + int_text(e.code as int), "\"message\":"@ + quoted(e.message@)] + match e.data {
        Some(d) => seq!["\"data\":"@ + d@],
        None => Seq::empty(),
    }
}

/// The JSON text of an error object: `code`, `message`, and `data` when present.
pub open spec fn error_text(e: Error) -> Seq<char> {
    object_text(error_members(e))
}

/// The members of a request, in the order `jsonrpc`, `method`, `params`, `id`; absent
/// ones are left out.
pub open spec fn request_members(r: Request) -> Seq<Seq<char>> {
    (if r.jsonrpc is Some {
        seq!["\"jsonrpc\":"@ + "\"2.0\""@]
    } else {
        Seq::empty()
    }) + seq!["\"method\":"@ + quoted(r.method@)] + (match r.params {
        Some(p) => seq!["\"params\":"@ + params_text(p)],
        None => Seq::empty(),
    }) + (match r.id {
        Some(id) => seq!["\"id\":"@ + id_text(Some(id))],
        None => Seq::empty(),
    })
}

/// The members of a response, in the order `jsonrpc`, `id`, `result`, `error`; `id` is
/// always written, `result` and `error` only when present.
pub open spec fn response_members(r: Response) -> Seq<Seq<char>> {
    seq!["\"jsonrpc\":"@ + "\"2.0\""@, "\"id\":"@ + id_text(r.id)] + (match r.result {
        Some(v) => seq!["\"result\":"@ + v@],
        None => Seq::empty(),
    }) + (match r.error {
        Some(e) => seq!["\"error\":"@ + error_text(e)],
        None => Seq::empty(),
    })
}

/// The JSON text of a message.
pub open spec fn message_text(m: Message) -> Seq<char> {
    match m {
        Message::Request(r) => object_text(request_members(r)),
        Message::Response(r) => object_text(response_members(r)),
    }
}

fn push_member(members: &mut Vec<String>, key: &str, value: &str)
    ensures
        strings_view(final(members)@) == strings_view(old(members)@).push(key@ + value@),
{
    let mut member = String::from_str(key);
    member.append(value);
    members.push(member);
    assert(strings_view(members@) =~= strings_view(old(members)@).push(key@ + value@));
}

fn braced(members: &Vec<String>) -> (r: String)
    ensures
        r@ == object_text(strings_view(members@)),
{
    let mut out = String::from_str("{");
    let inner = join_with_commas(members);
    out.append(inner.as_str());
    out.append("}");
    out
}

/// The JSON text of an identifier; none is `null`.
pub fn encode_id(id: &Option<Id>) -> (r: String)
    ensures
        r@ == id_text(*id),
{
    match id {
        None => String::from_str("null"),
        Some(Id::Number(n)) => integer_text(*n as i128),
        Some(Id::String(s)) => quote(s.as_str()),
    }
}

/// The JSON text of an error object.
pub fn encode_error(e: &Error) -> (r: String)
    ensures
        r@ == error_text(*e),
{
    let mut members: Vec<String> = Vec::new();
    let code = integer_text(e.code as i128);
    push_member(&mut members, "\"code\":", code.as_str());
    let message = quote(e.message.as_str());
    push_member(&mut members, "\"message\":", message.as_str());
    match &e.data {
        Some(d) => push_member(&mut members, "\"data\":", d.as_str()),
        None => {},
    }
    assert(strings_view(members@) =~= error_members(*e));
    braced(&members)
}

/// The JSON text of a request.
pub fn encode_request(r: &Request) -> (out: String)
    ensures
        out@ == object_text(request_members(*r)),
{
    let mut members: Vec<String> = Vec::new();
    if r.jsonrpc.is_some() {
        push_member(&mut members, "\"jsonrpc\":", "\"2.0\"");
    }
    let method = quote(r.method.as_str());
    push_member(&mut members, "\"method\":", method.as_str());
    match &r.params {
        Some(p) => {
            let params = p.text();
            push_member(&mut members, "\"params\":", params.as_str());
        },
        None => {},
    }
    match &r.id {
        Some(_) => {
            let id = encode_id(&r.id);
            push_member(&mut members, "\"id\":", id.as_str());
        },
        None => {},
    }
    assert(strings_view(members@) =~= request_members(*r));
    braced(&members)
}

/// The JSON text of a response.
pub fn encode_response(r: &Response) -> (out: String)
    ensures
        out@ == object_text(response_members(*r)),
{
    let mut members: Vec<String> = Vec::new();
    push_member(&mut members, "\"jsonrpc\":", "\"2.0\"");
    let id = encode_id(&r.id);
    push_member(&mut members, "\"id\":", id.as_str());
    match &r.result {
        Some(v) => push_member(&mut members, "\"result\":", v.as_str()),
        None => {},
    }
    match &r.error {
        Some(e) => {
            let error = encode_error(e);
            push_member(&mut members, "\"error\":", error.as_str());
        },
        None => {},
    }
    assert(strings_view(members@) =~= response_members(*r));
    braced(&members)
}

/// Writes a message as JSON text.
pub fn message_to_text(m: &Message) -> (r: String)
    ensures
        r@ == message_text(*m),
{
    match m {
        Message::Request(req) => encode_request(req),
        Message::Response(res) => encode_response(res),
    }
}

} // verus!
