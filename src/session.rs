//! The inbound side: classifying incoming messages, dispatching them, and replying.
use vstd::prelude::*;
use futures::channel::oneshot::Receiver;
use crate::client::{RpcClient, request_sent};
use crate::error::Error;
use crate::json::null_text;
use crate::message::{Id, Message, Params, Response, Version, params_text, well_formed_response};
use crate::pending::resolved;
use crate::wire::{is_parse_error, message_decodes, message_valid, only_params_invalid, parse_message};

verus! {

/// The handlers of incoming requests and notifications. Parameters and results are
/// JSON text.
pub trait RpcServer {
    /// Handles a notification; by default it succeeds and does nothing.
    fn handle_notification(&self, method: String, params: String) -> Result<(), Error> {
        Ok(())
    }

    /// Handles a request; by default no method exists.
    fn handle_request(&self, method: String, params: String) -> Result<String, Error> {
        Err(Error::method_not_found())
    }
}

impl RpcServer for () {
}

/// An identifier that marks a request as a notification: none, or the number 0.
pub open spec fn is_notification_id(id: Option<Id>) -> bool {
    match id {
        None => true,
        Some(Id::Number(n)) => n == 0,
        Some(Id::String(_)) => false,
    }
}

/// The JSON text handed to a handler for a request's parameters; none is `null`.
pub open spec fn params_value(p: Option<Params>) -> Seq<char> {
    match p {
        Some(q) => params_text(q),
        None => null_text(),
    }
}

/// What an incoming message asks of the session.
pub enum Incoming {
    /// A request that awaits a reply.
    Call { id: Id, method: String, params: String },
    /// A request that awaits no reply; it is answered only when its handler fails.
    Notification { id: Option<Id>, method: String, params: String },
    /// A reply to one of this side's calls.
    Reply(Response),
}

/// Sorts a message: a request with a notification identifier is a notification, any
/// other request a call, and a response a reply.
pub fn classify(message: Message) -> (r: Incoming)
    ensures
        match message {
            Message::Request(req) => if is_notification_id(req.id) {
                r matches Incoming::Notification { id, method, params } && id == req.id
                    && method == req.method && params@ == params_value(req.params)
            } else {
                r matches Incoming::Call { id, method, params } && Some(id) == req.id
                    && method == req.method && params@ == params_value(req.params)
            },
            Message::Response(res) => r == Incoming::Reply(res),
        },
{
    match message {
        Message::Request(req) => {
            let params = match req.params {
                Some(p) => p.into_value(),
                None => String::from_str("null"),
            };
            match req.id {
                None => Incoming::Notification { id: None, method: req.method, params },
                Some(Id::Number(n)) => if n == 0 {
                    Incoming::Notification { id: Some(Id::Number(n)), method: req.method, params }
                } else {
                    Incoming::Call { id: Id::Number(n), method: req.method, params }
                },
                Some(Id::String(s)) => Incoming::Call { id: Id::String(s), method: req.method, params },
            }
        },
        Message::Response(res) => Incoming::Reply(res),
    }
}

/// The reply to a call: its result on success, its error on failure, under the
/// call's identifier.
pub fn request_reply(id: Id, outcome: Result<String, Error>) -> (r: Response)
    ensures
        r.jsonrpc == Version::V2,
        r.id == Some(id),
        match outcome {
            Ok(v) => r.result == Some(v) && r.error is None,
            Err(e) => r.error == Some(e) && r.result is None,
        },
        well_formed_response(r),
{
    match outcome {
        Ok(v) => Response::success(id, v),
        Err(e) => Response::error(Some(id), e),
    }
}

/// The reply to a notification: none on success; the error, under the
/// notification's identifier, on failure.
pub fn notification_reply(id: Option<Id>, outcome: Result<(), Error>) -> (r: Option<Response>)
    ensures
        match outcome {
            Ok(()) => r is None,
            Err(e) => r == Some(
                Response { jsonrpc: Version::V2, id, result: None, error: Some(e) },
            ),
        },
{
    match outcome {
        Ok(()) => None,
        Err(e) => Some(Response::error(id, e)),
    }
}

/// One end of a connection: the client that issues calls, and the handlers of
/// incoming ones.
pub struct RpcSession<T> {
    client: RpcClient,
    server: T,
}

/// What handling a decoded message does: a call is answered once under its
/// identifier with a result or an error; a notification is answered at most once,
/// with an error; a reply goes to the registry, where its call's slot is taken and
/// handed the reply, and is not answered.
pub open spec fn handled(m: Message, before: RpcClient, after: RpcClient, out: Option<Message>) -> bool {
    match m {
        Message::Request(req) => {
            &&& after.registry() == before.registry()
            &&& if is_notification_id(req.id) {
                out is None || (out matches Some(Message::Response(res)) && res.id == req.id
                    && res.result is None && res.error is Some)
            } else {
                out matches Some(Message::Response(res)) && res.id == req.id && res.jsonrpc
                    == Version::V2 && well_formed_response(res)
            }
        },
        Message::Response(res) => {
            &&& out is None
            &&& resolved(before.registry(), after.registry(), res.id)
            &&& match res.id {
                Some(Id::Number(n)) => after.registry().slots() == before.registry().slots().remove(n),
                _ => after.registry().slots() == before.registry().slots(),
            }
        },
    }
}

impl<T: RpcServer> RpcSession<T> {
    /// The client of this session.
    pub closed spec fn client_spec(self) -> RpcClient {
        self.client
    }

    pub open spec fn wf(self) -> bool {
        self.client_spec().wf()
    }

    /// A session with a fresh client.
    pub fn create(server: T) -> (r: Self)
        ensures
            r.wf(),
            r.client_spec().registry().next_id() == 1,
            r.client_spec().registry().pending() == Set::<u32>::empty(),
    {
        RpcSession { client: RpcClient::new(), server }
    }

    /// A session around a client.
    pub fn new(client: RpcClient, server: T) -> (r: Self)
        ensures
            r.client_spec() == client,
    {
        RpcSession { client, server }
    }

    pub fn client(&self) -> (r: &RpcClient)
        ensures
            *r == self.client_spec(),
    {
        &self.client
    }

    /// Starts a call from this session's client; see `RpcClient::send_request`.
    pub fn send_request(&mut self, method: String, params: Option<String>) -> (r: Result<
        (Message, Receiver<Response>),
        Error,
    >)
        requires
            old(self).wf(),
            old(self).client_spec().registry().next_id() < u32::MAX,
        ensures
            final(self).wf(),
            request_sent(
                old(self).client_spec().registry(),
                final(self).client_spec().registry(),
                method,
                params,
                r,
            ),
    {
        self.client.send_request(method, params)
    }

    /// Handles a decoded message, and returns the message to send back, if any.
    pub fn handle_message(&mut self, message: Message) -> (r: Option<Message>)
        requires
            old(self).wf(),
        ensures
            final(self).wf(),
            handled(message, old(self).client_spec(), final(self).client_spec(), r),
    {
        match classify(message) {
            Incoming::Call { id, method, params } => {
                let outcome = self.server.handle_request(method, params);
                Some(Message::Response(request_reply(id, outcome)))
            },
            Incoming::Notification { id, method, params } => {
                let outcome = self.server.handle_notification(method, params);
                match notification_reply(id, outcome) {
                    Some(res) => Some(Message::Response(res)),
                    None => None,
                }
            },
            Incoming::Reply(res) => {
                self.client.handle_response(res);
                None
            },
        }
    }

    /// Handles raw incoming text, and returns the message to send back, if any. Text
    /// that is no valid message is answered with an error under no identifier.
    pub fn handle_incoming(&mut self, input: &str) -> (r: Option<Message>)
        requires
            old(self).wf(),
        ensures
            final(self).wf(),
            message_valid(input@) ==> exists|m: Message|
                message_decodes(input@, m) && handled(m, old(self).client_spec(), final(self).client_spec(), r),
            !message_valid(input@) ==> {
                &&& final(self).client_spec() == old(self).client_spec()
                &&& r matches Some(Message::Response(res))
                &&& res.id is None
                &&& res.result is None
                &&& res.error matches Some(e)
                &&& if only_params_invalid(input@) {
                    e.code == Error::INVALID_PARAMS
                } else {
                    is_parse_error(e)
                }
            },
    {
        match parse_message(input) {
            Ok(m) => self.handle_message(m),
            Err(e) => Some(Message::Response(Response::error(None, e))),
        }
    }
}

} // verus!
