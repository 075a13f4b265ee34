//! The decision core of the asynchronous executor. It owns the state machine
//! and the round bookkeeping; the surrounding runtime performs the waiting —
//! receiving with a deadline, sending, sleeping — and feeds every outcome
//! back in. An executor instance is single-use: beginning a second run
//! returns the exhausted error and re-executes nothing.

use vstd::prelude::*;

use crate::state_machine::{IsCritical, Msg, StateMachine};

verus! {

/// Why a state-machine implementation looks buggy.
#[derive(Clone, Copy, Debug)]
#[non_exhaustive]
pub enum BadStateMachineReason {
    /// `is_finished` returned true, but `pick_output` returned nothing.
    ProtocolFinishedButNoResult,
}

impl BadStateMachineReason {
    /// A short description of the reason.
    pub fn describe(&self) -> (r: &'static str)
        ensures
            r@ == "couldn't obtain protocol output although it is completed"@,
    {
        proof {
            reveal_strlit("couldn't obtain protocol output although it is completed");
        }
        "couldn't obtain protocol output although it is completed"
    }
}

/// Internal executor errors; reaching one is a bug in the executor itself.
#[derive(Clone, Copy, Debug)]
#[non_exhaustive]
pub enum InternalError {
    MissingState,
}

/// An error while executing the protocol: `E` is the state machine's own
/// error type, `RE` the receive side's, `SE` the send side's.
#[derive(Debug)]
#[non_exhaustive]
pub enum Error<E, RE, SE> {
    /// Receiving the next incoming message failed.
    Recv(RE),
    /// The incoming channel closed before the protocol completed.
    RecvEof,
    /// Sending an outgoing message failed.
    Send(SE),
    /// Handling an incoming message produced a critical error.
    HandleIncoming(E),
    /// A round deadline elapsed while waiting for messages.
    HandleIncomingTimeout(E),
    /// The offloaded `proceed` computation died before reporting back.
    ProceedPanicked,
    /// Advancing the round produced a critical error.
    Proceed(E),
    /// The output extraction yielded an error.
    Finish(E),
    /// This executor already ran the protocol; construct a new one.
    Exhausted,
    /// The state machine broke its own contract.
    BadStateMachine(BadStateMachineReason),
    /// The executor broke its own bookkeeping.
    InternalErr(InternalError),
}

impl<E, RE, SE> From<BadStateMachineReason> for Error<E, RE, SE> {
    fn from(reason: BadStateMachineReason) -> (r: Self) {
        Error::BadStateMachine(reason)
    }
}

impl<E, RE, SE> vstd::std_specs::convert::FromSpecImpl<BadStateMachineReason> for Error<E, RE, SE> {
    open spec fn obeys_from_spec() -> bool {
        true
    }

    open spec fn from_spec(reason: BadStateMachineReason) -> Self {
        Error::BadStateMachine(reason)
    }
}

impl<E, RE, SE> From<InternalError> for Error<E, RE, SE> {
    fn from(err: InternalError) -> (r: Self) {
        Error::InternalErr(err)
    }
}

impl<E, RE, SE> vstd::std_specs::convert::FromSpecImpl<InternalError> for Error<E, RE, SE> {
    open spec fn obeys_from_spec() -> bool {
        true
    }

    open spec fn from_spec(err: InternalError) -> Self {
        Error::InternalErr(err)
    }
}

impl<E, RE, SE> Error<E, RE, SE> {
    /// A short description of the error kind, without the wrapped value.
    pub fn describe(&self) -> (r: &'static str)
        ensures
            self is Recv ==> r@ == "receive next message"@,
            self is RecvEof ==> r@ == "receive next message: unexpected eof"@,
            self is Send ==> r@ == "send a message"@,
            self is HandleIncoming ==> r@ == "handle received message"@,
            self is HandleIncomingTimeout ==> r@ == "round timeout reached"@,
            self is ProceedPanicked ==> r@ == "proceed round panicked"@,
            self is Proceed ==> r@ == "round proceed error"@,
            self is Finish ==> r@ == "couldn't finish protocol"@,
            self is Exhausted ==> r@ == "async runtime is exhausted"@,
            self is BadStateMachine ==> r@ == "buggy state machine implementation"@,
            self is InternalErr ==> r@ == "internal error"@,
    {
        proof {
            reveal_strlit("receive next message");
            reveal_strlit("receive next message: unexpected eof");
            reveal_strlit("send a message");
            reveal_strlit("handle received message");
            reveal_strlit("round timeout reached");
            reveal_strlit("proceed round panicked");
            reveal_strlit("round proceed error");
            reveal_strlit("couldn't finish protocol");
            reveal_strlit("async runtime is exhausted");
            reveal_strlit("buggy state machine implementation");
            reveal_strlit("internal error");
        }
        match self {
            Error::Recv(_) => "receive next message",
            Error::RecvEof => "receive next message: unexpected eof",
            Error::Send(_) => "send a message",
            Error::HandleIncoming(_) => "handle received message",
            Error::HandleIncomingTimeout(_) => "round timeout reached",
            Error::ProceedPanicked => "proceed round panicked",
            Error::Proceed(_) => "round proceed error",
            Error::Finish(_) => "couldn't finish protocol",
            Error::Exhausted => "async runtime is exhausted",
            Error::BadStateMachine(_) => "buggy state machine implementation",
            Error::InternalErr(_) => "internal error",
        }
    }
}

/// When a non-critical error was caught.
#[derive(Clone, Copy, Debug)]
pub enum When {
    HandleIncoming,
    Proceed,
}

/// Observes protocol execution; notified of every non-critical error.
pub trait ProtocolWatcher<E> {
    fn caught_non_critical_error(&mut self, when: When, err: E);
}

/// The default watcher: it ignores every event.
#[derive(Clone, Copy, Debug)]
pub struct BlindWatcher;

impl<E> ProtocolWatcher<E> for BlindWatcher {
    fn caught_non_critical_error(&mut self, _when: When, _err: E) {
    }
}

/// The asynchronous executor's state: the machine in its single-use slot and
/// the round the deadline was last armed for. The runtime around it owns the
/// channels and the clock; it calls `begin` once, then alternates feeding
/// received messages (or the deadline's expiry) in and carrying outgoing
/// messages away, until `finish_if_possible` yields the outcome.
pub struct AsyncProtocol<SM: StateMachine, W = BlindWatcher> {
    pub state: Option<SM>,
    pub current_round: Option<u16>,
    pub watcher: W,
    /// The machine's own result from the last `proceed` step taken, kept for
    /// the contracts: it records whether the step succeeded or which error
    /// was tolerated or surfaced.
    pub last_proceed: Ghost<Option<Result<(), SM::Err>>>,
    /// The machine's own result from the last `handle_incoming` step taken.
    pub last_handled: Ghost<Option<Result<(), SM::Err>>>,
}

impl<SM: StateMachine> AsyncProtocol<SM, BlindWatcher> {
    /// A single-use executor over an unstarted state machine, watched by the
    /// no-op watcher.
    pub fn new(state: SM) -> (r: AsyncProtocol<SM, BlindWatcher>)
        requires
            state.inv(),
        ensures
            r.ok(),
            r.state == Some(state),
            r.current_round is None,
    {
        AsyncProtocol {
            state: Some(state),
            current_round: None,
            watcher: BlindWatcher,
            last_proceed: Ghost(None),
            last_handled: Ghost(None),
        }
    }
}

impl<SM: StateMachine, W> AsyncProtocol<SM, W> {
    /// The executor's own well-formedness: whatever machine it still holds
    /// satisfies its invariant.
    pub open spec fn ok(&self) -> bool {
        match self.state {
            Some(sm) => sm.inv(),
            None => true,
        }
    }

    /// Replaces the watcher, keeping the machine and the round bookkeeping.
    pub fn set_watcher<WR>(self, watcher: WR) -> (r: AsyncProtocol<SM, WR>)
        ensures
            r.state == self.state,
            r.current_round == self.current_round,
            r.watcher == watcher,
    {
        AsyncProtocol {
            state: self.state,
            current_round: self.current_round,
            watcher,
            last_proceed: self.last_proceed,
            last_handled: self.last_handled,
        }
    }
}

impl<SM, W> AsyncProtocol<SM, W> where
    SM: StateMachine,
    SM::Err: IsCritical,
    W: ProtocolWatcher<SM::Err>,
 {
    /// Starts a run: arms the first round's deadline and reports the timeout
    /// to wait with. An executor that has already begun a run — whether or
    /// not it completed — returns the exhausted error, unchanged, and
    /// re-executes nothing.
    pub fn begin<RE, SE>(&mut self) -> (r: Result<Option<u64>, Error<SM::Err, RE, SE>>)
        requires
            old(self).ok(),
        ensures
            final(self).ok(),
            old(self).current_round is Some ==> (r matches Err(e) && e is Exhausted && *final(self) == *old(self)),
            old(self).current_round is None && old(self).state is None ==> (r matches Err(e)
                && e is InternalErr),
            old(self).state matches Some(sm) ==> (old(self).current_round is None ==> (r
                == Ok::<Option<u64>, Error<SM::Err, RE, SE>>(sm.timeout_of()) && final(self).current_round == Some(sm.round_of()) && final(self).state == old(self).state)),
    {
        if self.current_round.is_some() {
            return Err(Error::Exhausted);
        }
        let (round, timeout) = match self.state.as_ref() {
            Some(state) => (state.current_round(), state.round_timeout()),
            None => {
                return Err(Error::InternalErr(InternalError::MissingState));
            },
        };
        self.current_round = Some(round);
        Ok(timeout)
    }

    /// Lets the machine advance exactly when it has collected enough input:
    /// a machine that does not want to proceed is left untouched; otherwise
    /// exactly one `proceed` step of the machine is taken, recorded in
    /// `last_proceed` — a critical error ends the run, a non-critical one
    /// goes to the watcher.
    pub fn proceed_if_needed<RE, SE>(&mut self) -> (r: Result<(), Error<SM::Err, RE, SE>>)
        requires
            old(self).ok(),
        ensures
            final(self).ok(),
            final(self).current_round == old(self).current_round,
            r matches Err(e) ==> (e is Proceed || e is InternalErr),
            r matches Err(Error::Proceed(e)) ==> e.critical(),
            old(self).state is Some ==> ({
                let sm = old(self).state.unwrap();
                &&& !sm.wants_of() ==> (final(self).state == old(self).state && r is Ok)
                &&& sm.wants_of() ==> (final(self).state matches Some(sm2) && (final(self).last_proceed@ matches Some(pr) && ({
                    &&& SM::proceed_rel(sm, sm2, pr)
                    &&& r is Ok ==> (pr matches Err(e2) ==> !e2.critical())
                    &&& r matches Err(Error::Proceed(e)) ==> pr == Err::<(), SM::Err>(e)
                })))
            }),
    {
        let mut state = match self.state.take() {
            Some(s) => s,
            None => {
                return Err(Error::InternalErr(InternalError::MissingState));
            },
        };
        if state.wants_to_proceed() {
            let res = state.proceed();
            self.last_proceed = Ghost(Some(res));
            match res {
                Ok(()) => (),
                Err(err) => {
                    if err.is_critical() {
                        self.state = Some(state);
                        return Err(Error::Proceed(err));
                    } else {
                        self.watcher.caught_non_critical_error(When::Proceed, err);
                    }
                },
            }
        }
        self.state = Some(state);
        Ok(())
    }

    /// Feeds one received message to the machine, taking exactly one
    /// `handle_incoming` step, recorded in `last_handled`. A critical error
    /// ends the run; a non-critical one goes to the watcher and the run
    /// continues.
    pub fn handle_message<RE, SE>(&mut self, msg: Msg<SM::MessageBody>) -> (r: Result<
        (),
        Error<SM::Err, RE, SE>,
    >)
        requires
            old(self).ok(),
        ensures
            final(self).ok(),
            final(self).current_round == old(self).current_round,
            r matches Err(e) ==> (e is HandleIncoming || e is InternalErr),
            r matches Err(Error::HandleIncoming(e)) ==> e.critical(),
            old(self).state is Some ==> ({
                let sm = old(self).state.unwrap();
                final(self).state matches Some(sm2) && (final(self).last_handled@ matches Some(hr) && ({
                    &&& SM::handle_rel(sm, sm2, msg, hr)
                    &&& r is Ok ==> (hr matches Err(e2) ==> !e2.critical())
                    &&& r matches Err(Error::HandleIncoming(e)) ==> hr == Err::<(), SM::Err>(e)
                }))
            }),
    {
        let mut state = match self.state.take() {
            Some(s) => s,
            None => {
                return Err(Error::InternalErr(InternalError::MissingState));
            },
        };
        let res = state.handle_incoming(msg);
        self.last_handled = Ghost(Some(res));
        self.state = Some(state);
        match res {
            Ok(()) => Ok(()),
            Err(err) => {
                if err.is_critical() {
                    Err(Error::HandleIncoming(err))
                } else {
                    self.watcher.caught_non_critical_error(When::HandleIncoming, err);
                    Ok(())
                }
            },
        }
    }

    /// Drains the machine's outgoing messages for the runtime to send: the
    /// result is exactly the machine's queue, in order, and the queue is
    /// empty afterwards.
    pub fn take_outgoing<RE, SE>(&mut self) -> (r: Result<
        Vec<Msg<SM::MessageBody>>,
        Error<SM::Err, RE, SE>,
    >)
        requires
            old(self).ok(),
        ensures
            final(self).ok(),
            final(self).current_round == old(self).current_round,
            r matches Err(e) ==> e is InternalErr,
            old(self).state matches Some(sm) ==> (r matches Ok(v) && v@ == sm.queue_of()),
            old(self).state matches Some(sm) ==> (final(self).state matches Some(sm2) && ({
                &&& sm2.queue_of() === Seq::<Msg<SM::MessageBody>>::empty()
                &&& sm2.round_of() == sm.round_of()
                &&& sm2.finished_of() == sm.finished_of()
            })),
    {
        let state = match self.state.as_mut() {
            Some(s) => s,
            None => {
                return Err(Error::InternalErr(InternalError::MissingState));
            },
        };
        Ok(state.take_message_queue())
    }

    /// The error a run ends with when a round deadline elapsed: the state
    /// machine's own timeout error, which names the missing contribution.
    pub fn on_timeout<RE, SE>(&self) -> (r: Error<SM::Err, RE, SE>)
        requires
            self.ok(),
        ensures
            self.state matches Some(sm) ==> (r matches Error::HandleIncomingTimeout(e)
                && sm.is_timeout_err(e)),
            self.state is None ==> r is InternalErr,
    {
        match self.state.as_ref() {
            Some(state) => Error::HandleIncomingTimeout(state.round_timeout_reached()),
            None => Error::InternalErr(InternalError::MissingState),
        }
    }

    /// The error a run ends with when the incoming stream is exhausted
    /// before the protocol completed: end-of-input is fatal, never mistaken
    /// for "nothing yet".
    pub fn on_stream_end<RE, SE>(&self) -> (r: Error<SM::Err, RE, SE>)
        ensures
            r is RecvEof,
    {
        Error::RecvEof
    }

    /// Re-arms the deadline after the round may have advanced: reports
    /// `Some(timeout)` exactly when the round number changed, for the
    /// runtime to arm a fresh deadline.
    pub fn refresh_timer<RE, SE>(&mut self) -> (r: Result<
        Option<Option<u64>>,
        Error<SM::Err, RE, SE>,
    >)
        requires
            old(self).ok(),
        ensures
            final(self).ok(),
            final(self).state == old(self).state,
            r matches Err(e) ==> e is InternalErr,
            old(self).state matches Some(sm) ==> r == Ok::<
                Option<Option<u64>>,
                Error<SM::Err, RE, SE>,
            >(
                if old(self).current_round == Some(sm.round_of()) {
                    None
                } else {
                    Some(sm.timeout_of())
                },
            ),
            old(self).state matches Some(sm) ==> final(self).current_round == Some(
                sm.round_of(),
            ),
    {
        let state = match self.state.as_ref() {
            Some(s) => s,
            None => {
                return Err(Error::InternalErr(InternalError::MissingState));
            },
        };
        let round = state.current_round();
        let changed = match self.current_round {
            Some(r0) => r0 != round,
            None => true,
        };
        if changed {
            let timeout = state.round_timeout();
            self.current_round = Some(round);
            Ok(Some(timeout))
        } else {
            Ok(None)
        }
    }

    /// Extracts the outcome once the machine reports completion: the output,
    /// the machine's own failure, or the buggy-machine error when a finished
    /// machine yields nothing. Before completion it reports nothing.
    pub fn finish_if_possible<RE, SE>(&mut self) -> (r: Option<
        Result<SM::Output, Error<SM::Err, RE, SE>>,
    >)
        requires
            old(self).ok(),
        ensures
            final(self).ok(),
            final(self).current_round == old(self).current_round,
            old(self).state matches Some(sm) && !sm.finished_of() ==> r is None,
            old(self).state matches Some(sm) && sm.finished_of() ==> r is Some,
            old(self).state is Some ==> ({
                let sm = old(self).state.unwrap();
                &&& sm.output_of() matches Some(Ok(o)) ==> (sm.finished_of() ==> (r matches Some(
                    Ok(o2),
                ) && o2 == o))
                &&& sm.output_of() matches Some(Err(e)) ==> (sm.finished_of() ==> (r matches Some(
                    Err(Error::Finish(e2)),
                ) && e2 == e))
                &&& (sm.finished_of() && sm.output_of() is None) ==> r == Some(Err::<
                    SM::Output,
                    Error<SM::Err, RE, SE>,
                >(Error::BadStateMachine(BadStateMachineReason::ProtocolFinishedButNoResult)))
            }),
            old(self).state is None ==> (r matches Some(x) && x matches Err(e)
                && e is InternalErr),
    {
        let mut state = match self.state.take() {
            Some(s) => s,
            None => {
                return Some(Err(Error::InternalErr(InternalError::MissingState)));
            },
        };
        if !state.is_finished() {
            self.state = Some(state);
            return None;
        }
        let out = state.pick_output();
        self.state = Some(state);
        match out {
            Some(Ok(result)) => Some(Ok(result)),
            Some(Err(err)) => Some(Err(Error::Finish(err))),
            None => Some(
                Err(Error::BadStateMachine(BadStateMachineReason::ProtocolFinishedButNoResult)),
            ),
        }
    }
}

} // verus!
