//! Emulates running a round protocol between local parties: every party is a
//! `StateMachine`, driven in lock-step in one thread — deliver the pending
//! messages, let every party attempt to proceed, check for a terminal state,
//! repeat. Useful for deterministic correctness tests and for benchmarking
//! the cost of each round's `proceed` call.

use vstd::prelude::*;

use crate::async_protocol::{BlindWatcher, ProtocolWatcher, When};
use crate::state_machine::{msg_equiv, DupBody, IsCritical, Msg, StateMachine};

verus! {

/// How long the `proceed` calls of one round took, accumulated.
#[derive(Clone, Copy, Debug)]
pub struct Measurements {
    pub count: u64,
    pub total_nanos: u64,
}

/// Wall-clock cost of `proceed`, keyed by the round number it advanced from.
#[derive(Clone, Debug)]
pub struct BenchmarkResults {
    pub entries: Vec<(u16, Measurements)>,
}

/// Collects round timings when enabled; disabled it records nothing.
#[derive(Clone, Debug)]
pub struct Benchmark {
    pub results: Option<BenchmarkResults>,
}

/// Whether a timing table has an entry for `round`.
pub open spec fn has_round(entries: Seq<(u16, Measurements)>, round: u16) -> bool {
    exists|k: int| 0 <= k < entries.len() && (#[trigger] entries[k]).0 == round
}

/// Saturating 64-bit addition.
pub open spec fn sat_add64(a: u64, b: u64) -> u64 {
    if a + b <= u64::MAX {
        (a + b) as u64
    } else {
        u64::MAX
    }
}

/// A saturating counter increment.
pub open spec fn bump_count(c: u64) -> u64 {
    if c < u64::MAX {
        (c + 1) as u64
    } else {
        c
    }
}

impl Benchmark {
    /// A benchmark that records nothing.
    pub fn disabled() -> (r: Benchmark)
        ensures
            r.results is None,
    {
        Benchmark { results: None }
    }

    /// A benchmark ready to record round timings, starting with no entries.
    pub fn enabled() -> (r: Benchmark)
        ensures
            r.results matches Some(b) && b.entries@.len() == 0,
    {
        Benchmark { results: Some(BenchmarkResults { entries: Vec::new() }) }
    }

    /// The recorded timings, when benchmarking was enabled.
    pub fn results(&self) -> (r: Option<&BenchmarkResults>)
        ensures
            r is Some <==> self.results is Some,
    {
        self.results.as_ref()
    }

    /// Accumulates one `proceed` duration under its round number: a known
    /// round's entry is bumped (count up by one, duration added, both
    /// saturating), an unknown round gains a fresh entry; a disabled
    /// benchmark records nothing.
    fn record(&mut self, round: u16, nanos: u64)
        ensures
            old(self).results is None ==> *final(self) == *old(self),
            old(self).results matches Some(b) ==> ({
                &&& !has_round(b.entries@, round) ==> (final(self).results matches Some(b2)
                    && b2.entries@ == b.entries@.push(
                    (round, Measurements { count: 1, total_nanos: nanos }),
                ))
                &&& has_round(b.entries@, round) ==> (final(self).results matches Some(b2)
                    && exists|k: int|
                    0 <= k < b.entries@.len() && (#[trigger] b.entries@[k]).0 == round
                        && b2.entries@ == b.entries@.update(
                        k,
                        (
                            round,
                            Measurements {
                                count: bump_count(b.entries@[k].1.count),
                                total_nanos: sat_add64(b.entries@[k].1.total_nanos, nanos),
                            },
                        ),
                    ))
                &&& (final(self).results matches Some(b2) && has_round(b2.entries@, round))
            }),
    {
        let mut b = match self.results.take() {
            Some(b) => b,
            None => {
                return ;
            },
        };
        let ghost orig = b.entries@;
        let len = b.entries.len();
        let mut j: usize = 0;
        let mut done = false;
        while j < len
            invariant
                j <= len,
                len == orig.len(),
                b.entries@.len() == len,
                !done ==> (b.entries@ == orig && (forall|t: int|
                    0 <= t < j ==> (#[trigger] orig[t]).0 != round)),
                done ==> exists|k: int|
                    0 <= k < orig.len() && (#[trigger] orig[k]).0 == round && b.entries@
                        == orig.update(
                        k,
                        (
                            round,
                            Measurements {
                                count: bump_count(orig[k].1.count),
                                total_nanos: sat_add64(orig[k].1.total_nanos, nanos),
                            },
                        ),
                    ),
                done ==> has_round(b.entries@, round),
            decreases len - j,
        {
            if !done && b.entries[j].0 == round {
                let count = b.entries[j].1.count;
                let total = b.entries[j].1.total_nanos;
                let added: u64 = if total <= u64::MAX - nanos {
                    total + nanos
                } else {
                    u64::MAX
                };
                let bumped: u64 = if count < u64::MAX {
                    count + 1
                } else {
                    count
                };
                b.entries[j] = (round, Measurements { count: bumped, total_nanos: added });
                done = true;
                proof {
                    assert(b.entries@[j as int].0 == round);
                }
            }
            j = j + 1;
        }
        if !done {
            b.entries.push((round, Measurements { count: 1, total_nanos: nanos }));
            proof {
                assert(b.entries@ == orig.push(
                    (round, Measurements { count: 1, total_nanos: nanos }),
                ));
                assert(b.entries@[orig.len() as int].0 == round);
                assert(has_round(b.entries@, round));
            }
        }
        self.results = Some(b);
    }
}

/// Relies on std's `SystemTime::now`: nanoseconds since the epoch, truncated;
/// used only to measure durations, nothing is promised of the value.
#[verifier::external_body]
fn now_nanos() -> u64 {
    match std::time::SystemTime::now().duration_since(std::time::UNIX_EPOCH) {
        Ok(d) => d.as_nanos() as u64,
        Err(_) => 0,
    }
}

/// What a completion check found.
pub enum FinishState<T> {
    /// No party has finished; the run continues.
    NoneFinished,
    /// Some parties have finished while others have not: a protocol
    /// inconsistency, reported and tolerated.
    SomeFinished { finished: Vec<u16>, not_finished: Vec<u16> },
    /// Every party finished and produced an output.
    AllFinished(Vec<T>),
}

/// Lets one party advance if it wants to, timing the call. A party that does
/// not want to proceed is left untouched. One `proceed` step of the machine
/// is taken otherwise — a critical error is returned, a non-critical one
/// goes to the watcher — and a step that advanced the round adds or bumps
/// the benchmark entry keyed by the round it advanced from.
pub fn proceed_if_needed<P: StateMachine, W: ProtocolWatcher<P::Err>>(
    party: &mut P,
    benchmark: &mut Benchmark,
    watcher: &mut W,
) -> (r: Result<(), P::Err>)
    requires
        old(party).inv(),
    ensures
        final(party).inv(),
        final(party).party_of() == old(party).party_of(),
        final(party).round_of() >= old(party).round_of(),
        r matches Err(e) ==> e.critical(),
        !old(party).wants_of() ==> (*final(party) == *old(party) && r is Ok && *final(benchmark)
            == *old(benchmark)),
        old(party).wants_of() ==> exists|pr: Result<(), P::Err>|
            #[trigger] P::proceed_rel(*old(party), *final(party), pr) && (r matches Err(e)
                ==> pr == Err::<(), P::Err>(e)) && (r is Ok ==> (pr matches Err(e2)
                ==> !e2.critical())),
        old(benchmark).results is None ==> final(benchmark).results is None,
        final(party).round_of() == old(party).round_of() ==> *final(benchmark) == *old(
            benchmark,
        ),
        (r is Ok && final(party).round_of() != old(party).round_of() && old(
            benchmark,
        ).results is Some) ==> (final(benchmark).results matches Some(b) && has_round(
            b.entries@,
            old(party).round_of(),
        )),
{
    if !party.wants_to_proceed() {
        return Ok(());
    }
    let round_old = party.current_round();
    let start = now_nanos();
    match party.proceed() {
        Ok(()) => (),
        Err(err) => {
            if err.is_critical() {
                return Err(err);
            } else {
                watcher.caught_non_critical_error(When::Proceed, err);
            }
        },
    }
    let round_new = party.current_round();
    if round_new != round_old {
        let stop = now_nanos();
        let nanos: u64 = if stop >= start {
            stop - start
        } else {
            0
        };
        benchmark.record(round_old, nanos);
    }
    Ok(())
}

/// Drains one party's outgoing buffer into the shared message pull.
pub fn send_outgoing<P: StateMachine>(party: &mut P, msgs_pull: &mut Vec<Msg<P::MessageBody>>)
    requires
        old(party).inv(),
    ensures
        final(party).inv(),
        final(party).party_of() == old(party).party_of(),
        final(party).round_of() == old(party).round_of(),
        final(party).finished_of() == old(party).finished_of(),
        final(party).queue_of() === Seq::<Msg<P::MessageBody>>::empty(),
        final(msgs_pull)@ == old(msgs_pull)@ + old(party).queue_of(),
{
    let mut msgs = party.take_message_queue();
    msgs_pull.append(&mut msgs);
}

/// The messages of a pull addressed to `me`, in pull order.
pub open spec fn addressed_msgs<B>(me: u16, msgs: Seq<Msg<B>>) -> Seq<Msg<B>>
    decreases msgs.len(),
{
    if msgs.len() == 0 {
        Seq::empty()
    } else {
        let pre = addressed_msgs(me, msgs.drop_last());
        if addressed_to(me, msgs.last()) {
            pre.push(msgs.last())
        } else {
            pre
        }
    }
}

/// Whether `post` is reached from `pre` by feeding the machine one
/// interchangeable copy of each listed message, in order, every step's own
/// result tolerated (non-critical or success).
pub open spec fn delivered_chain<P: StateMachine>(
    pre: P,
    post: P,
    msgs: Seq<Msg<P::MessageBody>>,
) -> bool where P::MessageBody: DupBody
    decreases msgs.len(),
{
    if msgs.len() == 0 {
        post == pre
    } else {
        exists|m: Msg<P::MessageBody>, mid: P, hr: Result<(), P::Err>|
            msg_equiv(msgs.first(), m) && #[trigger] P::handle_rel(pre, mid, m, hr) && (
            hr matches Err(e) ==> !e.critical()) && delivered_chain(mid, post, msgs.drop_first())
    }
}

/// A delivery chain grows at the back: one more tolerated step extends it by
/// one more message.
proof fn lemma_chain_snoc<P: StateMachine>(
    pre: P,
    mid: P,
    post: P,
    msgs: Seq<Msg<P::MessageBody>>,
    m: Msg<P::MessageBody>,
    fed: Msg<P::MessageBody>,
    hr: Result<(), P::Err>,
) where P::MessageBody: DupBody
    requires
        delivered_chain(pre, mid, msgs),
        msg_equiv(m, fed),
        P::handle_rel(mid, post, fed, hr),
        hr matches Err(e) ==> !e.critical(),
    ensures
        delivered_chain(pre, post, msgs.push(m)),
    decreases msgs.len(),
{
    if msgs.len() == 0 {
        assert(mid == pre);
        assert(msgs.push(m).first() == m);
        assert(msgs.push(m).drop_first() =~= Seq::<Msg<P::MessageBody>>::empty());
        assert(delivered_chain(post, post, msgs.push(m).drop_first()));
    } else {
        let (m0, mid0, hr0): (Msg<P::MessageBody>, P, Result<(), P::Err>) = choose|
            m0: Msg<P::MessageBody>,
            mid0: P,
            hr0: Result<(), P::Err>,
        |
            msg_equiv(msgs.first(), m0) && #[trigger] P::handle_rel(pre, mid0, m0, hr0) && (
            hr0 matches Err(e) ==> !e.critical()) && delivered_chain(
                mid0,
                mid,
                msgs.drop_first(),
            );
        lemma_chain_snoc(mid0, mid, post, msgs.drop_first(), m, fed, hr);
        assert(msgs.push(m).first() == msgs.first());
        assert(msgs.push(m).drop_first() =~= msgs.drop_first().push(m));
    }
}

/// Whether a pulled message is for party `me`: a point-to-point message
/// naming it, or a broadcast from another sender.
pub open spec fn addressed_to<B>(me: u16, msg: Msg<B>) -> bool {
    match msg.receiver {
        Some(to) => to == me,
        None => msg.sender != me,
    }
}

/// Whether a pulled message is for party `me`.
pub fn is_addressed_to<B>(me: u16, msg: &Msg<B>) -> (r: bool)
    ensures
        r == addressed_to(me, *msg),
{
    match msg.receiver {
        Some(to) => to == me,
        None => msg.sender != me,
    }
}

/// Delivers to one party, in pull order, exactly the messages addressed to
/// it (see `addressed_to`), each as an interchangeable copy: on success the
/// party's final state is reached from its old one by the chain of its own
/// `handle_rel` steps over those messages; a critical error ends the run
/// after a prefix of them, a non-critical one goes to the watcher.
pub fn handle_incoming<P: StateMachine, W: ProtocolWatcher<P::Err>>(
    party: &mut P,
    msgs_pull: &Vec<Msg<P::MessageBody>>,
    watcher: &mut W,
) -> (r: Result<(), P::Err>) where P::MessageBody: DupBody
    requires
        old(party).inv(),
    ensures
        final(party).inv(),
        final(party).party_of() == old(party).party_of(),
        final(party).round_of() >= old(party).round_of(),
        r matches Err(e) ==> e.critical(),
        r is Ok ==> delivered_chain(
            *old(party),
            *final(party),
            addressed_msgs(old(party).party_of(), msgs_pull@),
        ),
        r matches Err(e) ==> exists|j: int|
            0 <= j < msgs_pull@.len() && #[trigger] addressed_to(
                old(party).party_of(),
                msgs_pull@[j],
            ) && (exists|mid: P, m: Msg<P::MessageBody>|
                delivered_chain(
                    *old(party),
                    mid,
                    addressed_msgs(old(party).party_of(), msgs_pull@.take(j)),
                ) && msg_equiv(msgs_pull@[j], m) && #[trigger] P::handle_rel(
                    mid,
                    *final(party),
                    m,
                    Err(e),
                )),
{
    let len = msgs_pull.len();
    let me = party.party_ind();
    let mut j: usize = 0;
    while j < len
        invariant
            j <= len,
            len == msgs_pull@.len(),
            party.inv(),
            party.party_of() == old(party).party_of(),
            party.round_of() >= old(party).round_of(),
            me == old(party).party_of(),
            delivered_chain(
                *old(party),
                *party,
                addressed_msgs(me, msgs_pull@.take(j as int)),
            ),
        decreases len - j,
    {
        proof {
            assert(msgs_pull@.take(j + 1).drop_last() =~= msgs_pull@.take(j as int));
            assert(msgs_pull@.take(j + 1).last() == msgs_pull@[j as int]);
        }
        let msg = &msgs_pull[j];
        if is_addressed_to(me, msg) {
            let fed = Msg { sender: msg.sender, receiver: msg.receiver, body: msg.body.duplicate() };
            let ghost gfed = fed;
            let ghost step_pre = *party;
            let res = party.handle_incoming(fed);
            let ghost gres = res;
            match res {
                Ok(()) => (),
                Err(err) => {
                    if err.is_critical() {
                        proof {
                            assert(P::handle_rel(step_pre, *party, gfed, Err::<(), P::Err>(err)));
                            assert(msg_equiv(msgs_pull@[j as int], gfed));
                        }
                        return Err(err);
                    } else {
                        watcher.caught_non_critical_error(When::HandleIncoming, err);
                    }
                },
            }
            proof {
                lemma_chain_snoc(
                    *old(party),
                    step_pre,
                    *party,
                    addressed_msgs(me, msgs_pull@.take(j as int)),
                    msgs_pull@[j as int],
                    gfed,
                    gres,
                );
            }
        }
        j = j + 1;
    }
    proof {
        assert(msgs_pull@.take(len as int) =~= msgs_pull@);
    }
    Ok(())
}

/// The indices of the finished parties, in party order./// The indices of the finished parties, in party order.
pub open spec fn finished_inds<P: StateMachine>(parties: Seq<P>) -> Seq<u16>
    decreases parties.len(),
{
    if parties.len() == 0 {
        Seq::empty()
    } else {
        let pre = finished_inds(parties.drop_last());
        if parties.last().finished_of() {
            pre.push(parties.last().party_of())
        } else {
            pre
        }
    }
}

/// The indices of the unfinished parties, in party order.
pub open spec fn unfinished_inds<P: StateMachine>(parties: Seq<P>) -> Seq<u16>
    decreases parties.len(),
{
    if parties.len() == 0 {
        Seq::empty()
    } else {
        let pre = unfinished_inds(parties.drop_last());
        if !parties.last().finished_of() {
            pre.push(parties.last().party_of())
        } else {
            pre
        }
    }
}

/// A party list in which everyone is finished lists no unfinished party.
proof fn lemma_unfinished_empty<P: StateMachine>(parties: Seq<P>)
    requires
        forall|k: int| 0 <= k < parties.len() ==> (#[trigger] parties[k]).finished_of(),
    ensures
        unfinished_inds(parties).len() == 0,
    decreases parties.len(),
{
    if parties.len() > 0 {
        lemma_unfinished_empty(parties.drop_last());
    }
}

/// Checks for a terminal state and selects the outcome exactly: nobody
/// finished continues the run; a mixture is reported with the party index
/// lists of each side; everybody finished yields one output per party in
/// party order, or the first output that is an error.
pub fn finish_if_possible<P: StateMachine>(parties: &mut Vec<P>) -> (r: Result<
    FinishState<P::Output>,
    P::Err,
>)
    requires
        forall|k: int| 0 <= k < old(parties)@.len() ==> #[trigger] old(parties)@[k].inv(),
    ensures
        final(parties)@.len() == old(parties)@.len(),
        forall|k: int| 0 <= k < final(parties)@.len() ==> #[trigger] final(parties)@[k].inv(),
        forall|k: int|
            0 <= k < final(parties)@.len() ==> #[trigger] final(parties)@[k].party_of() == old(
                parties,
            )@[k].party_of(),
        (r matches Ok(FinishState::NoneFinished)) <==> (forall|k: int|
            0 <= k < old(parties)@.len() ==> !(#[trigger] old(parties)@[k]).finished_of()),
        r matches Ok(FinishState::SomeFinished { finished, not_finished }) ==> ({
            &&& finished@ == finished_inds(old(parties)@)
            &&& not_finished@ == unfinished_inds(old(parties)@)
            &&& finished@.len() > 0
            &&& not_finished@.len() > 0
        }),
        ((exists|k: int|
            0 <= k < old(parties)@.len() && (#[trigger] old(parties)@[k]).finished_of())
            && (exists|k: int|
            0 <= k < old(parties)@.len() && !(#[trigger] old(parties)@[k]).finished_of()))
            ==> r matches Ok(FinishState::SomeFinished { finished: _, not_finished: _ }),
        r matches Ok(FinishState::AllFinished(outs)) ==> ({
            &&& outs@.len() == old(parties)@.len()
            &&& forall|k: int|
                0 <= k < old(parties)@.len() ==> (#[trigger] old(parties)@[k]).finished_of()
            &&& forall|k: int|
                0 <= k < outs@.len() ==> Some(Ok::<P::Output, P::Err>(#[trigger] outs@[k]))
                    == old(parties)@[k].output_of()
        }),
        r matches Err(e) ==> (e.critical() && exists|k: int|
            0 <= k < old(parties)@.len() && (#[trigger] old(parties)@[k]).output_of() == Some(
                Err::<P::Output, P::Err>(e),
            ) && (forall|t: int|
                0 <= t < k ==> ({
                    let o = (#[trigger] old(parties)@[t]).output_of();
                    o is Some && o.unwrap() is Ok
                }))),
{
    let n = parties.len();
    let mut any = false;
    let mut all = true;
    let mut finished: Vec<u16> = Vec::new();
    let mut not_finished: Vec<u16> = Vec::new();
    let mut j: usize = 0;
    while j < n
        invariant
            j <= n,
            n == parties@.len(),
            parties@ == old(parties)@,
            forall|k: int| 0 <= k < n ==> #[trigger] parties@[k].inv(),
            any <==> (exists|k: int|
                0 <= k < j && (#[trigger] parties@[k]).finished_of()),
            all <==> (forall|k: int| 0 <= k < j ==> (#[trigger] parties@[k]).finished_of()),
            finished@ == finished_inds(parties@.take(j as int)),
            not_finished@ == unfinished_inds(parties@.take(j as int)),
            any ==> finished@.len() > 0,
            !all ==> not_finished@.len() > 0,
        decreases n - j,
    {
        proof {
            assert(parties@.take(j + 1).drop_last() =~= parties@.take(j as int));
            assert(parties@.take(j + 1).last() == parties@[j as int]);
        }
        let f = parties[j].is_finished();
        let ind = parties[j].party_ind();
        if f {
            any = true;
            finished.push(ind);
        } else {
            all = false;
            not_finished.push(ind);
        }
        j = j + 1;
    }
    proof {
        assert(parties@.take(n as int) =~= parties@);
    }
    if !any {
        return Ok(FinishState::NoneFinished);
    }
    if !all {
        return Ok(FinishState::SomeFinished { finished, not_finished });
    }
    let mut results: Vec<P::Output> = Vec::new();
    let mut i: usize = 0;
    while i < n
        invariant
            i <= n,
            n == parties@.len(),
            n == old(parties)@.len(),
            n > 0,
            forall|k: int| 0 <= k < n ==> #[trigger] parties@[k].inv(),
            forall|k: int| i <= k < n ==> #[trigger] parties@[k] == old(parties)@[k],
            forall|k: int|
                0 <= k < parties@.len() ==> #[trigger] parties@[k].party_of() == old(
                    parties,
                )@[k].party_of(),
            forall|k: int| 0 <= k < n ==> (#[trigger] old(parties)@[k]).finished_of(),
            results@.len() == i,
            forall|k: int|
                0 <= k < i ==> Some(Ok::<P::Output, P::Err>(#[trigger] results@[k])) == old(
                    parties,
                )@[k].output_of(),
        decreases n - i,
    {
        match parties[i].pick_output() {
            Some(Ok(res)) => {
                results.push(res);
            },
            Some(Err(e)) => {
                proof {
                    assert forall|t: int| 0 <= t < i implies ({
                        let o = (#[trigger] old(parties)@[t]).output_of();
                        o is Some && o.unwrap() is Ok
                    }) by {
                        assert(Some(Ok::<P::Output, P::Err>(results@[t])) == old(
                            parties,
                        )@[t].output_of());
                    }
                }
                return Err(e);
            },
            None => {
                proof {
                    assert(false);
                }
            },
        }
        i = i + 1;
    }
    Ok(FinishState::AllFinished(results))
}

/// Emulates running the protocol between local parties, in lock-step and
/// without any concurrency: deliver pending messages, let every party
/// proceed, check for completion, repeat.
pub struct Simulation<P, W = BlindWatcher> {
    /// Parties running the protocol; exposed so that their state can be
    /// examined after a run.
    pub parties: Vec<P>,
    pub benchmark: Benchmark,
    /// How many completion checks found some parties finished and others
    /// not: a protocol inconsistency, tolerated but reported here.
    pub inconsistency_warnings: u64,
    /// Observes the run: notified of every non-critical error, sharing the
    /// asynchronous executor's observability contract.
    pub watcher: W,
    /// The parties' states at the completion check that ended a successful
    /// run, kept for the contracts: every recorded party is finished there
    /// and the returned outputs are exactly their outputs, in party order.
    pub settled: Ghost<Seq<P>>,
}

/// An upper bound on lock-step delivery sweeps: a protocol run that makes no
/// progress within it has stalled, and the run ends with the state machine's
/// own timeout error instead of spinning forever.
pub const MAX_SIM_STEPS: u64 = 4096;

impl<P> Simulation<P, BlindWatcher> {
    /// Creates a new simulation with no parties, benchmarking disabled, and
    /// the no-op watcher.
    pub fn new() -> (r: Simulation<P, BlindWatcher>)
        ensures
            r.parties@.len() == 0,
            r.benchmark.results is None,
            r.inconsistency_warnings == 0,
    {
        Simulation {
            parties: Vec::new(),
            benchmark: Benchmark::disabled(),
            inconsistency_warnings: 0,
            watcher: BlindWatcher,
            settled: Ghost(Seq::empty()),
        }
    }
}

impl<P, W> Simulation<P, W> {
    /// Replaces the watcher, keeping the parties and the benchmark.
    pub fn set_watcher<WR>(self, watcher: WR) -> (r: Simulation<P, WR>)
        ensures
            r.parties == self.parties,
            r.benchmark == self.benchmark,
            r.inconsistency_warnings == self.inconsistency_warnings,
            r.watcher == watcher,
    {
        Simulation {
            parties: self.parties,
            benchmark: self.benchmark,
            inconsistency_warnings: self.inconsistency_warnings,
            watcher,
            settled: self.settled,
        }
    }

    /// Adds a protocol participant.
    pub fn add_party(&mut self, party: P)
        ensures
            final(self).parties@ == old(self).parties@.push(party),
            final(self).benchmark == old(self).benchmark,
            final(self).inconsistency_warnings == old(self).inconsistency_warnings,
    {
        self.parties.push(party);
    }

    /// Enables or disables benchmarks, to be retrieved after the run;
    /// enabling installs a fresh table, discarding earlier measurements.
    pub fn enable_benchmarks(&mut self, enable: bool)
        ensures
            final(self).parties@ == old(self).parties@,
            final(self).benchmark.results is Some <==> enable,
            enable ==> (final(self).benchmark.results matches Some(b) && b.entries@.len() == 0),
            final(self).inconsistency_warnings == old(self).inconsistency_warnings,
    {
        if enable {
            self.benchmark = Benchmark::enabled();
        } else {
            self.benchmark = Benchmark::disabled();
        }
    }

    /// The recorded round timings, when benchmarks were enabled.
    pub fn benchmark_results(&self) -> (r: Option<&BenchmarkResults>)
        ensures
            r is Some <==> self.benchmark.results is Some,
    {
        self.benchmark.results()
    }
}

impl<P, W> Simulation<P, W> where
    P: StateMachine,
    P::MessageBody: DupBody,
    W: ProtocolWatcher<P::Err>,
 {
    /// Runs the simulation: either every party's output, or the first
    /// critical error any party produced. A run that stalls — the delivery
    /// sweep budget elapses with parties still unfinished — ends with the
    /// first unfinished party's own round-timeout error, which names what is
    /// missing.
    pub fn run(&mut self) -> (r: Result<Vec<P::Output>, P::Err>)
        requires
            old(self).parties@.len() >= 2,
            forall|k: int|
                0 <= k < old(self).parties@.len() ==> #[trigger] old(self).parties@[k].inv(),
        ensures
            final(self).parties@.len() == old(self).parties@.len(),
            r matches Ok(outs) ==> ({
                let ps = final(self).settled@;
                &&& ps.len() == old(self).parties@.len()
                &&& outs@.len() == ps.len()
                &&& forall|k: int| 0 <= k < ps.len() ==> (#[trigger] ps[k]).inv()
                &&& forall|k: int| 0 <= k < ps.len() ==> (#[trigger] ps[k]).finished_of()
                &&& forall|k: int|
                    0 <= k < ps.len() ==> (#[trigger] ps[k]).party_of() == old(
                        self,
                    ).parties@[k].party_of()
                &&& forall|k: int|
                    0 <= k < outs@.len() ==> Some(Ok::<P::Output, P::Err>(#[trigger] outs@[k]))
                        == ps[k].output_of()
            }),
            r matches Err(e) ==> (e.critical() || (exists|k: int|
                0 <= k < final(self).parties@.len()
                    && (#[trigger] final(self).parties@[k]).is_timeout_err(e) && !final(self).parties@[k].finished_of())),
    {
        let n = self.parties.len();
        let mut msgs_pull: Vec<Msg<P::MessageBody>> = Vec::new();
        let mut i: usize = 0;
        while i < n
            invariant
                i <= n,
                n == self.parties@.len(),
                n == old(self).parties@.len(),
                forall|k: int| 0 <= k < n ==> #[trigger] self.parties@[k].inv(),
                forall|k: int|
                    0 <= k < n ==> (#[trigger] self.parties@[k]).party_of() == old(
                        self,
                    ).parties@[k].party_of(),
            decreases n - i,
        {
            match proceed_if_needed(&mut self.parties[i], &mut self.benchmark, &mut self.watcher) {
                Ok(()) => (),
                Err(e) => {
                    return Err(e);
                },
            }
            send_outgoing(&mut self.parties[i], &mut msgs_pull);
            i = i + 1;
        }
        let ghost checked = self.parties@;
        proof {
            assert forall|k: int|
                0 <= k < checked.len() implies (#[trigger] checked[k]).party_of() == old(
                self,
            ).parties@[k].party_of() by {
                assert(self.parties@[k].party_of() == old(self).parties@[k].party_of());
            }
        }
        match finish_if_possible(&mut self.parties) {
            Err(e) => {
                return Err(e);
            },
            Ok(FinishState::AllFinished(results)) => {
                self.settled = Ghost(checked);
                return Ok(results);
            },
            Ok(FinishState::SomeFinished { finished: _, not_finished: _ }) => {
                self.inconsistency_warnings = self.inconsistency_warnings.wrapping_add(1);
            },
            Ok(FinishState::NoneFinished) => (),
        }
        let mut budget: u64 = MAX_SIM_STEPS;
        while budget > 0
            invariant
                n == self.parties@.len(),
                n == old(self).parties@.len(),
                n >= 2,
                forall|k: int| 0 <= k < n ==> #[trigger] self.parties@[k].inv(),
                forall|k: int|
                    0 <= k < n ==> (#[trigger] self.parties@[k]).party_of() == old(
                        self,
                    ).parties@[k].party_of(),
            decreases budget,
        {
            budget = budget - 1;
            let frozen = msgs_pull.split_off(0);
            let mut i: usize = 0;
            while i < n
                invariant
                    i <= n,
                    n == self.parties@.len(),
                    n == old(self).parties@.len(),
                    forall|k: int| 0 <= k < n ==> #[trigger] self.parties@[k].inv(),
                    forall|k: int|
                        0 <= k < n ==> (#[trigger] self.parties@[k]).party_of() == old(
                            self,
                        ).parties@[k].party_of(),
                decreases n - i,
            {
                match handle_incoming(&mut self.parties[i], &frozen, &mut self.watcher) {
                    Ok(()) => (),
                    Err(e) => {
                        return Err(e);
                    },
                }
                send_outgoing(&mut self.parties[i], &mut msgs_pull);
                i = i + 1;
            }
            let mut i: usize = 0;
            while i < n
                invariant
                    i <= n,
                    n == self.parties@.len(),
                    n == old(self).parties@.len(),
                    forall|k: int| 0 <= k < n ==> #[trigger] self.parties@[k].inv(),
                    forall|k: int|
                        0 <= k < n ==> (#[trigger] self.parties@[k]).party_of() == old(
                            self,
                        ).parties@[k].party_of(),
                decreases n - i,
            {
                match proceed_if_needed(&mut self.parties[i], &mut self.benchmark, &mut self.watcher) {
                    Ok(()) => (),
                    Err(e) => {
                        return Err(e);
                    },
                }
                send_outgoing(&mut self.parties[i], &mut msgs_pull);
                i = i + 1;
            }
            let ghost checked = self.parties@;
            proof {
                assert forall|k: int|
                    0 <= k < checked.len() implies (#[trigger] checked[k]).party_of() == old(
                    self,
                ).parties@[k].party_of() by {
                    assert(self.parties@[k].party_of() == old(self).parties@[k].party_of());
                }
            }
            match finish_if_possible(&mut self.parties) {
                Err(e) => {
                    return Err(e);
                },
                Ok(FinishState::AllFinished(results)) => {
                    self.settled = Ghost(checked);
                    return Ok(results);
                },
                Ok(FinishState::SomeFinished { finished: _, not_finished: _ }) => {
                    self.inconsistency_warnings = self.inconsistency_warnings.wrapping_add(1);
                },
                Ok(FinishState::NoneFinished) => (),
            }
            proof {
                assert forall|k: int|
                    0 <= k < n implies (#[trigger] self.parties@[k]).party_of() == old(
                    self,
                ).parties@[k].party_of() by {
                    assert(self.parties@[k].party_of() == checked[k].party_of());
                }
            }
        }
        let mut i: usize = 0;
        while i < n
            invariant
                i <= n,
                n == self.parties@.len(),
                n == old(self).parties@.len(),
                forall|k: int| 0 <= k < n ==> #[trigger] self.parties@[k].inv(),
                forall|k: int|
                    0 <= k < n ==> (#[trigger] self.parties@[k]).party_of() == old(
                        self,
                    ).parties@[k].party_of(),
                forall|k: int| 0 <= k < i ==> (#[trigger] self.parties@[k]).finished_of(),
            decreases n - i,
        {
            if !self.parties[i].is_finished() {
                return Err(self.parties[i].round_timeout_reached());
            }
            i = i + 1;
        }
        let ghost checked = self.parties@;
        proof {
            assert forall|k: int|
                0 <= k < checked.len() implies (#[trigger] checked[k]).party_of() == old(
                self,
            ).parties@[k].party_of() by {
                assert(self.parties@[k].party_of() == old(self).parties@[k].party_of());
            }
        }
        match finish_if_possible(&mut self.parties) {
            Err(e) => Err(e),
            Ok(FinishState::AllFinished(results)) => {
                self.settled = Ghost(checked);
                Ok(results)
            },
            _ => {
                proof {
                    lemma_unfinished_empty(checked);
                    assert(false);
                }
                Err(self.parties[0].round_timeout_reached())
            },
        }
    }
}

} // verus!
