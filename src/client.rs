//! The outbound side: registering calls, building notifications, and reading replies.
use vstd::prelude::*;
use futures::channel::oneshot::{Receiver, Sender};
use crate::error::Error;
use crate::message::{Id, Message, Params, Request, Response, Version, params_decodes, params_valid};
use crate::pending::{PendingRequests, allocates, resolved};

verus! {

pub open spec fn is_bad_response(e: Error) -> bool {
    e.code == Error::BAD_RESPONSE && e.message@ == "Error while processing a response"@
        && e.data is None
}

pub open spec fn is_bad_request(e: Error) -> bool {
    e.code == Error::BAD_REQUEST && e.message@ == "Error while serializing a request"@
        && e.data is None
}

/// The outcome of a call from the reply it received, if any: the result when the
/// reply carries only a result, the error when it carries only an error, and
/// `bad_response` when it carries both or neither, or when the reply slot was
/// dropped unfilled.
pub fn reply_outcome(reply: Option<Response>) -> (r: Result<String, Error>)
    ensures
        match reply {
            Some(res) => match (res.result, res.error) {
                (Some(v), None) => r == Ok::<String, Error>(v),
                (None, Some(e)) => r == Err::<String, Error>(e),
                _ => r matches Err(e) && is_bad_response(e),
            },
            None => r matches Err(e) && is_bad_response(e),
        },
{
    match reply {
        Some(res) => match (res.result, res.error) {
            (Some(v), None) => Ok(v),
            (None, Some(e)) => Err(e),
            _ => Err(Error::bad_response()),
        },
        None => Err(Error::bad_response()),
    }
}

/// The parameters of an outbound message from their JSON text: none stays none; an
/// array or an object is taken apart; anything else is `bad_request`.
pub fn downcast_params(params: Option<String>) -> (r: Result<Option<Params>, Error>)
    ensures
        match params {
            None => r == Ok::<Option<Params>, Error>(None),
            Some(text) => if params_valid(text@) {
                r matches Ok(Some(p)) && params_decodes(text@, p)
            } else {
                r matches Err(e) && is_bad_request(e)
            },
        },
{
    match params {
        None => Ok(None),
        Some(text) => match Params::try_from_value(text.as_str()) {
            Ok(p) => Ok(Some(p)),
            Err(_) => Err(Error::bad_request()),
        },
    }
}

/// What starting a call does: parameters of another shape than array or object give
/// `bad_request` and register nothing; otherwise the next identifier is allocated,
/// and the request carries it with the method and the parameters.
pub open spec fn request_sent(
    before: PendingRequests,
    after: PendingRequests,
    method: String,
    params: Option<String>,
    r: Result<(Message, Receiver<Response>), Error>,
) -> bool {
    match params {
        Some(text) if !params_valid(text@) => {
            &&& r matches Err(e) && is_bad_request(e)
            &&& after == before
        },
        _ => {
            let n = before.next_id() as u32;
            &&& allocates(before, after, n)
            &&& r matches Ok((Message::Request(req), _))
            &&& req.jsonrpc == Some(Version::V2)
            &&& req.method == method
            &&& req.id == Some(Id::Number(n))
            &&& match params {
                None => req.params is None,
                Some(text) => req.params matches Some(p) && params_decodes(text@, p),
            }
        },
    }
}

/// The outbound client: hands out identifiers and keeps the slots that replies go into.
pub struct RpcClient {
    pending: PendingRequests,
}

impl RpcClient {
    /// The registry of outstanding calls.
    pub closed spec fn registry(self) -> PendingRequests {
        self.pending
    }

    pub open spec fn wf(self) -> bool {
        self.registry().wf()
    }

    /// A client with no outstanding call.
    pub fn new() -> (r: Self)
        ensures
            r.wf(),
            r.registry().next_id() == 1,
            r.registry().pending() == Set::<u32>::empty(),
    {
        RpcClient { pending: PendingRequests::new() }
    }

    /// Whether an identifier is left for another call.
    pub fn can_send_request(&self) -> (r: bool)
        ensures
            r == (self.registry().next_id() < u32::MAX),
    {
        self.pending.can_insert()
    }

    /// Starts a call: checks the parameters' JSON text, registers the call, and returns
    /// the request to put on the outbound queue with the slot its reply arrives in.
    /// Parameters of another shape than array or object give `bad_request`, and
    /// register nothing.
    pub fn send_request(&mut self, method: String, params: Option<String>) -> (r: Result<
        (Message, Receiver<Response>),
        Error,
    >)
        requires
            old(self).wf(),
            old(self).registry().next_id() < u32::MAX,
        ensures
            final(self).wf(),
            request_sent(old(self).registry(), final(self).registry(), method, params, r),
    {
        let params = match downcast_params(params) {
            Ok(p) => p,
            Err(e) => return Err(e),
        };
        Ok(self.pending.insert(method, params))
    }

    /// A notification to put on the outbound queue: a request with no identifier.
    /// Parameters of another shape than array or object give `bad_request`.
    pub fn send_notification(&self, method: String, params: Option<String>) -> (r: Result<Message, Error>)
        ensures
            match params {
                Some(text) if !params_valid(text@) => r matches Err(e) && is_bad_request(e),
                _ => {
                    &&& r matches Ok(Message::Request(req))
                    &&& req.jsonrpc == Some(Version::V2)
                    &&& req.method == method
                    &&& req.id is None
                    &&& match params {
                        None => req.params is None,
                        Some(text) => req.params matches Some(p) && params_decodes(text@, p),
                    }
                },
            },
    {
        let params = match downcast_params(params) {
            Ok(p) => p,
            Err(e) => return Err(e),
        };
        Ok(Message::Request(Request { jsonrpc: Some(Version::V2), method, params, id: None }))
    }

    /// Forgets a pending call without a reply, as when its request could not be sent.
    pub fn cancel_request(&mut self, id: u32)
        requires
            old(self).wf(),
        ensures
            final(self).wf(),
            final(self).registry().next_id() == old(self).registry().next_id(),
            final(self).registry().pending() == old(self).registry().pending().remove(id),
    {
        self.pending.cancel(id)
    }

    /// Takes the reply slot of the call that a response answers, with the response
    /// to put into it; see `PendingRequests::take_slot`.
    pub fn take_reply_slot(&mut self, response: Response) -> (r: Option<(Sender<Response>, Response)>)
        requires
            old(self).wf(),
        ensures
            final(self).wf(),
            resolved(old(self).registry(), final(self).registry(), response.id),
            match response.id {
                Some(Id::Number(n)) => if old(self).registry().slots().contains_key(n) {
                    &&& r == Some((old(self).registry().slots()[n], response))
                    &&& final(self).registry().slots() == old(self).registry().slots().remove(n)
                } else {
                    r is None && final(self).registry().slots() == old(self).registry().slots()
                },
                _ => r is None && final(self).registry().slots() == old(self).registry().slots(),
            },
    {
        self.pending.take_slot(response)
    }

    /// Routes a reply to the call that awaits it: the slot that `take_reply_slot`
    /// returns receives the response. A reply for no such call is dropped.
    pub fn handle_response(&mut self, response: Response)
        requires
            old(self).wf(),
        ensures
            final(self).wf(),
            resolved(old(self).registry(), final(self).registry(), response.id),
            match response.id {
                Some(Id::Number(n)) => final(self).registry().slots() == old(self).registry().slots().remove(n),
                _ => final(self).registry().slots() == old(self).registry().slots(),
            },
    {
        match self.take_reply_slot(response) {
            Some((tx, res)) => {
                let _ = tx.send(res);
            },
            None => {},
        }
    }
}

} // verus!
