//! Replies of the message channel: each inbound message names an action,
//! which is matched against a closed set; anything else is refused with an
//! error reply. Decoding and encoding the frames happens outside.

use vstd::prelude::*;
use vstd::string::StringExecFns;
use crate::auth::Claims;

verus! {

/// A reply to send on the channel.
#[derive(Debug, Clone)]
pub enum WsReply {
    /// Greeting sent when the channel opens.
    Connected { user_id: String, username: String },
    /// Answer to `ping`.
    Pong { username: String },
    /// Answer to `whoami`.
    WhoAmI { user_id: String, username: String },
    /// The message named an action that does not exist.
    UnknownAction { action: String },
    /// The message could not be decoded.
    InvalidMessage,
}

/// `r` is the reply owed to a message whose action is `action` (`None`:
/// the message could not be decoded), from the caller described by `claims`.
pub open spec fn is_reply_for(action: Option<Seq<char>>, claims: Claims, r: WsReply) -> bool {
    match action {
        None => r == WsReply::InvalidMessage,
        Some(a) => if a == "ping"@ {
            r == (WsReply::Pong { username: claims.username })
        } else if a == "whoami"@ {
            r == (WsReply::WhoAmI { user_id: claims.sub, username: claims.username })
        } else {
            r matches WsReply::UnknownAction { action } && action@ == a
        },
    }
}

/// The greeting for a newly opened channel.
pub fn welcome(claims: &Claims) -> (r: WsReply)
    ensures
        r == (WsReply::Connected { user_id: claims.sub, username: claims.username }),
{
    WsReply::Connected { user_id: claims.sub.clone(), username: claims.username.clone() }
}

/// The reply to one inbound message.
pub fn dispatch(action: Option<&str>, claims: &Claims) -> (r: WsReply)
    ensures
        is_reply_for(
            match action {
                Some(a) => Some(a@),
                None => None,
            },
            *claims,
            r,
        ),
{
    match action {
        None => WsReply::InvalidMessage,
        Some(a) => {
            let name = String::from_str(a);
            if name == String::from_str("ping") {
                WsReply::Pong { username: claims.username.clone() }
            } else if name == String::from_str("whoami") {
                WsReply::WhoAmI { user_id: claims.sub.clone(), username: claims.username.clone() }
            } else {
                WsReply::UnknownAction { action: name }
            }
        },
    }
}

impl WsReply {
    /// The action name that the reply's envelope carries.
    pub fn action(&self) -> (r: String)
        ensures
            r@ == match self {
                WsReply::Connected { .. } => "connected"@,
                WsReply::Pong { .. } => "pong"@,
                WsReply::WhoAmI { .. } => "whoami"@,
                _ => "error"@,
            },
    {
        match self {
            WsReply::Connected { .. } => String::from_str("connected"),
            WsReply::Pong { .. } => String::from_str("pong"),
            WsReply::WhoAmI { .. } => String::from_str("whoami"),
            _ => String::from_str("error"),
        }
    }

    /// The error text that the reply's envelope carries, if any.
    pub fn error_message(&self) -> (r: Option<String>)
        ensures
            match self {
                WsReply::UnknownAction { action } => r matches Some(m) && m@ == "Unknown action: "@ + action@,
                WsReply::InvalidMessage => r matches Some(m) && m@ == "Invalid JSON message"@,
                _ => r.is_none(),
            },
    {
        match self {
            WsReply::UnknownAction { action } => {
                let mut m = String::from_str("Unknown action: ");
                m.append(action.as_str());
                Some(m)
            },
            WsReply::InvalidMessage => Some(String::from_str("Invalid JSON message")),
            _ => None,
        }
    }
}

} // verus!
