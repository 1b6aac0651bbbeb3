//! The link to an Alice/Bob pair: each exchange sends one request to each
//! simulator and collects both answers. The link keeps the record of the
//! exchanges made through it, so that a recalibration can state exactly
//! which requests the simulators received.
use vstd::prelude::*;
use crate::control::{CommandRequest, CommandResponse};
use crate::recalibration::PairCommandError;

verus! {

/// An exchange function over a pair, with the record of the exchanges made:
/// Alice's request, Bob's request and the timeout in milliseconds, in order.
pub struct PairLink<F> {
    exchange: F,
    sent: Ghost<Seq<(CommandRequest, CommandRequest, u128)>>,
}

impl<F> PairLink<F> where
    F: Fn(CommandRequest, CommandRequest, u128) -> Result<(CommandResponse, CommandResponse), PairCommandError>,
 {
    /// The exchange function.
    pub closed spec fn exchange_fn(&self) -> F {
        self.exchange
    }

    /// The exchanges made through the link, in order.
    pub closed spec fn sent(&self) -> Seq<(CommandRequest, CommandRequest, u128)> {
        self.sent@
    }

    /// A link over an exchange function, with no exchange made yet.
    pub fn new(exchange: F) -> (link: Self)
        ensures
            link.exchange_fn() == exchange,
            link.sent() == Seq::<(CommandRequest, CommandRequest, u128)>::empty(),
    {
        PairLink { exchange, sent: Ghost(Seq::empty()) }
    }

    /// Sends `alice` to Alice and `bob` to Bob with the timeout, records the
    /// exchange, and returns both answers or the failures.
    pub fn exchange(&mut self, alice: CommandRequest, bob: CommandRequest, timeout_ms: u128) -> (outcome: Result<
        (CommandResponse, CommandResponse),
        PairCommandError,
    >)
        requires
            old(self).exchange_fn().requires((alice, bob, timeout_ms)),
        ensures
            old(self).exchange_fn().ensures((alice, bob, timeout_ms), outcome),
            final(self).exchange_fn() == old(self).exchange_fn(),
            final(self).sent() == old(self).sent().push((alice, bob, timeout_ms)),
    {
        let outcome = (self.exchange)(alice, bob, timeout_ms);
        self.sent = Ghost(self.sent@.push((alice, bob, timeout_ms)));
        outcome
    }
}

} // verus!
