//! A bidirectional JSON-RPC 2.0 engine: the message model, the pending-call
//! registry, and the decisions of the outbound client and the inbound session.
use vstd::prelude::*;

pub mod text;
pub mod error;
pub mod json;
pub mod message;
pub mod wire;
pub mod pending;
pub mod client;
pub mod session;
pub mod flight;

pub use error::Error;
pub use message::{Id, Message, Params, Request, Response, Version};
pub use pending::PendingRequests;
pub use client::{RpcClient, downcast_params, reply_outcome};
pub use session::{Incoming, RpcServer, RpcSession, classify, notification_reply, request_reply};
pub use wire::{message_to_text, parse_message};

verus! {

} // verus!
