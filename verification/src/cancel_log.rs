use vstd::prelude::*;
use tokio_util::sync::CancellationToken;

verus! {

/// An account of the cancellation tokens cancelled through it, in the order
/// they were cancelled. It grows only by `cancel`, which cancels the token
/// it records.
pub struct CancelLog {
    cancelled: Ghost<Seq<CancellationToken>>,
}

impl CancelLog {
    /// The tokens cancelled through this log, in order.
    pub closed spec fn tokens(&self) -> Seq<CancellationToken> {
        self.cancelled@
    }

    /// A log with nothing cancelled yet.
    pub fn new() -> (log: CancelLog)
        ensures
            log.tokens() == Seq::<CancellationToken>::empty(),
    {
        CancelLog { cancelled: Ghost(Seq::empty()) }
    }

    /// Calls `CancellationToken::cancel`, which cancels the token and its
    /// clones. Claimed: the token is recorded as the last one cancelled.
    #[verifier::external_body]
    pub(crate) fn cancel(&mut self, token: &CancellationToken)
        ensures
            final(self).tokens() == old(self).tokens().push(*token),
    {
        token.cancel();
    }
}

} // verus!
