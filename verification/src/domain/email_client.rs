//! The outbound message-delivery collaborator.

use vstd::prelude::*;

use crate::domain::email::Email;

verus! {

/// Delivers a message to an address. Only the contract "send a message"
/// is consumed here; transports are wired up outside the verified core.
/// Nothing is promised of the outcome: the orchestrator handles both.
pub trait EmailClient: Sized {
    /// Sends `content` under `subject` to `recipient`; the error
    /// carries the transport's reason.
    fn send_email(&self, recipient: &Email, subject: &str, content: &str) -> (r: Result<
        (),
        String,
    >);
}

/// A delivery stub that accepts every message and sends nothing.
/// Serves tests and development, where the code is read straight from
/// the challenge store.
pub struct NoopEmailClient;

impl EmailClient for NoopEmailClient {
    fn send_email(&self, recipient: &Email, subject: &str, content: &str) -> (r: Result<
        (),
        String,
    >) {
        Ok(())
    }
}

} // verus!
