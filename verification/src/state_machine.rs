//! The contract every round protocol satisfies so that an executor can drive
//! it, together with the addressed message envelope the executors move around.

use vstd::prelude::*;

verus! {

/// An addressed protocol message: `sender` is the 1-based index of the party
/// that produced it; `receiver` is `None` for a broadcast and `Some(i)` for a
/// point-to-point message to party `i`.
#[derive(Clone, Debug)]
pub struct Msg<Body> {
    pub sender: u16,
    pub receiver: Option<u16>,
    pub body: Body,
}

/// A buffer that outgoing messages can be appended to.
pub trait Push<T> {
    spec fn buffer(&self) -> Seq<T>;

    fn push(&mut self, m: T)
        ensures
            final(self).buffer() == old(self).buffer().push(m),
    ;
}

impl<T> Push<T> for Vec<T> {
    open spec fn buffer(&self) -> Seq<T> {
        self@
    }

    fn push(&mut self, m: T) {
        self.push(m);
    }
}

/// A message body an executor can duplicate for fan-out: the copy is
/// interchangeable with the original under the body's own equivalence, which
/// is what the machine's step relation depends on.
pub trait DupBody: Sized {
    /// When two bodies are interchangeable for the protocol.
    spec fn equiv(a: Self, b: Self) -> bool;

    fn duplicate(&self) -> (r: Self)
        ensures
            Self::equiv(*self, r),
    ;
}

/// When two whole messages are interchangeable: same addressing, equivalent
/// bodies.
pub open spec fn msg_equiv<B: DupBody>(a: Msg<B>, b: Msg<B>) -> bool {
    a.sender == b.sender && a.receiver == b.receiver && B::equiv(a.body, b.body)
}

/// Classifies a protocol error: a critical error aborts the run, a
/// non-critical one is only reported to an observer.
pub trait IsCritical {
    spec fn critical(&self) -> bool;

    fn is_critical(&self) -> (r: bool)
        ensures
            r == self.critical(),
    ;
}

/// The contract of a round protocol.
///
/// An executor drives one instance: it feeds received messages in through
/// `handle_incoming`, lets the instance advance with `proceed` once
/// `wants_to_proceed` reports that enough input was collected, drains the
/// outgoing buffer with `take_message_queue`, and extracts the output with
/// `pick_output` once `is_finished` holds. The round number never decreases
/// over the instance's lifetime, and the party index never changes.
pub trait StateMachine: Sized {
    type MessageBody;

    type Err: IsCritical;

    type Output;

    /// Internal well-formedness; every operation preserves it.
    spec fn inv(&self) -> bool;

    spec fn round_of(&self) -> u16;

    spec fn party_of(&self) -> u16;

    spec fn finished_of(&self) -> bool;

    /// Whether enough input has been collected to advance the round.
    spec fn wants_of(&self) -> bool;

    spec fn queue_of(&self) -> Seq<Msg<Self::MessageBody>>;

    /// The pending output, exactly what `pick_output` would yield.
    spec fn output_of(&self) -> Option<Result<Self::Output, Self::Err>>;

    /// The current round's deadline, exactly what `round_timeout` reports.
    spec fn timeout_of(&self) -> Option<u64>;

    /// Whether `e` is this machine's own deadline-elapsed error, the one
    /// that names what is missing from the current round.
    spec fn is_timeout_err(&self, e: Self::Err) -> bool;

    /// What one `proceed` call does: each implementation states here, round
    /// by round, how the post state and result relate to the pre state.
    spec fn proceed_rel(pre: Self, post: Self, r: Result<(), Self::Err>) -> bool;

    /// What one `handle_incoming` call does with a message.
    spec fn handle_rel(
        pre: Self,
        post: Self,
        msg: Msg<Self::MessageBody>,
        r: Result<(), Self::Err>,
    ) -> bool;

    fn party_ind(&self) -> (r: u16)
        requires
            self.inv(),
        ensures
            r == self.party_of(),
    ;

    fn current_round(&self) -> (r: u16)
        requires
            self.inv(),
        ensures
            r == self.round_of(),
    ;

    /// True iff enough input has been collected to advance the round locally;
    /// a pure predicate with no side effect.
    fn wants_to_proceed(&self) -> (r: bool)
        requires
            self.inv(),
        ensures
            r == self.wants_of(),
    ;

    /// Consumes the collected input and advances the round state.
    fn proceed(&mut self) -> (r: Result<(), Self::Err>)
        requires
            old(self).inv(),
        ensures
            final(self).inv(),
            final(self).party_of() == old(self).party_of(),
            final(self).round_of() >= old(self).round_of(),
            Self::proceed_rel(*old(self), *final(self), r),
    ;

    /// Feeds one received message into the current round's store.
    fn handle_incoming(&mut self, msg: Msg<Self::MessageBody>) -> (r: Result<(), Self::Err>)
        requires
            old(self).inv(),
        ensures
            final(self).inv(),
            final(self).party_of() == old(self).party_of(),
            final(self).round_of() >= old(self).round_of(),
            Self::handle_rel(*old(self), *final(self), msg, r),
    ;

    /// Drains the outgoing messages produced by the last `proceed` or
    /// `handle_incoming` call; the buffer is empty afterwards.
    fn take_message_queue(&mut self) -> (r: Vec<Msg<Self::MessageBody>>)
        requires
            old(self).inv(),
        ensures
            final(self).inv(),
            final(self).party_of() == old(self).party_of(),
            final(self).round_of() == old(self).round_of(),
            final(self).finished_of() == old(self).finished_of(),
            r@ == old(self).queue_of(),
            final(self).queue_of() === Seq::<Msg<Self::MessageBody>>::empty(),
    ;

    /// Deadline in milliseconds for the current round; `None` disables it.
    fn round_timeout(&self) -> (r: Option<u64>)
        requires
            self.inv(),
        ensures
            r == self.timeout_of(),
    ;

    /// Invoked by an executor when the current round's deadline elapsed;
    /// produces the protocol-level error that names what is missing.
    fn round_timeout_reached(&self) -> (r: Self::Err)
        requires
            self.inv(),
        ensures
            self.is_timeout_err(r),
    ;

    fn is_finished(&self) -> (r: bool)
        requires
            self.inv(),
        ensures
            r == self.finished_of(),
    ;

    /// One-shot output extraction: a finished machine yields exactly its
    /// pending output, yields it once, and an output that is an error is a
    /// critical one.
    fn pick_output(&mut self) -> (r: Option<Result<Self::Output, Self::Err>>)
        requires
            old(self).inv(),
        ensures
            final(self).inv(),
            final(self).party_of() == old(self).party_of(),
            final(self).round_of() >= old(self).round_of(),
            old(self).finished_of() ==> r is Some,
            r == old(self).output_of(),
            final(self).output_of() is None,
            r matches Some(Err(e)) ==> e.critical(),
    ;
}

} // verus!
