//! The typed commands the dispatch loop accepts and the typed replies it
//! returns. The transport that carries them (HTTP, queues, reply
//! channels) lives outside the verified core.

use vstd::prelude::*;
use crate::dmx::{Fade, Universe};

verus! {

/// A command for the dispatch loop.
#[derive(Clone, Debug)]
pub enum Request {
    /// Play a fade on one channel.
    PlayFade { fade: Fade },
    /// Restore every channel to the given values.
    Restore { universe: Universe },
    /// Shut the dispatch loop down.
    Quit,
}

/// The reply to one command: a success flag and a human-readable message.
#[derive(Clone, Debug)]
pub enum WebReply {
    Generic { is_valid: bool, message: String },
}

impl WebReply {
    /// Whether this reply reports success.
    pub open spec fn spec_is_success(&self) -> bool {
        match self {
            WebReply::Generic { is_valid, .. } => *is_valid,
        }
    }

    /// The reply's message text.
    pub open spec fn spec_message(&self) -> Seq<char> {
        match self {
            WebReply::Generic { message, .. } => message@,
        }
    }

    /// A successful reply.
    pub fn success() -> (reply: WebReply)
        ensures
            reply.spec_is_success(),
            reply.spec_message() == "Request completed."@,
    {
        WebReply::Generic { is_valid: true, message: "Request completed.".to_owned() }
    }

    /// A failed reply carrying the reason for the failure.
    pub fn failure(reason: String) -> (reply: WebReply)
        ensures
            !reply.spec_is_success(),
            reply.spec_message() == reason@,
    {
        WebReply::Generic { is_valid: false, message: reason }
    }

    /// Report whether the reply is a success.
    pub fn is_success(&self) -> (result: bool)
        ensures
            result == self.spec_is_success(),
    {
        match self {
            WebReply::Generic { is_valid, .. } => *is_valid,
        }
    }
}

} // verus!
