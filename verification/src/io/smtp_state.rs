//! Where a session stands in the SMTP dialogue.
use vstd::prelude::*;

verus! {

/// The stage of an SMTP session.
#[derive(Debug, Clone, Copy, PartialEq, Eq, Structural)]
pub enum SmtpState {
    /// Connected, not yet greeted by HELO/EHLO.
    Connected,
    /// Greeted; no mail transaction open.
    Greeted,
    /// MAIL FROM accepted; waiting for recipients.
    Mailing,
    /// At least one RCPT TO seen.
    Addressing,
    /// DATA accepted; the mail body is being received.
    Sending,
    /// QUIT received; the session ends.
    Finished,
}

} // verus!
