//! The join-then-act retry loop of playback commands, as a state machine: the
//! caller performs each directive and feeds back what happened.
use vstd::prelude::*;

verus! {

/// The number of trials that every playback command is given.
pub const MAX_TRIALS: u32 = 2;

/// Where one command stands.
#[derive(Clone, Copy, Debug, PartialEq, Eq)]
pub enum Phase {
    /// Trial `n`: look up the guild's voice connection.
    Attempting(u32),
    /// Trial `n` found no connection: join the requester's channel.
    Joining(u32),
    /// A connection exists: perform the command's action.
    Acting,
    /// The action was performed.
    Succeeded,
    /// No connection could be had within the trials.
    GaveUp,
    /// The action itself failed.
    ActionFailed,
}

/// What the caller reports back after performing a directive.
#[derive(Clone, Copy, Debug, PartialEq, Eq)]
pub enum Event {
    ConnectionFound,
    NoConnection,
    /// A join attempt ended, whether or not it connected.
    JoinFinished,
    /// The action ended; `true` where it succeeded.
    ActionFinished(bool),
}

/// What the caller is to do next.
#[derive(Clone, Copy, Debug, PartialEq, Eq)]
pub enum Directive {
    LookUpConnection,
    Join,
    Act,
    /// The command is over; the phase says how.
    Finish(Phase),
}

/// One command's run through the retry loop.
#[derive(Clone, Copy, Debug)]
pub struct Retry {
    pub max_trials: u32,
    pub phase: Phase,
}

pub open spec fn is_terminal(p: Phase) -> bool {
    p is Succeeded || p is GaveUp || p is ActionFailed
}

/// The trial counter stays below the bound.
pub open spec fn phase_wf(max_trials: u32, p: Phase) -> bool {
    match p {
        Phase::Attempting(n) => n < max_trials,
        Phase::Joining(n) => n < max_trials,
        _ => true,
    }
}

/// The phase a command starts in.
pub open spec fn start_phase(max_trials: u32) -> Phase {
    if max_trials == 0 {
        Phase::GaveUp
    } else {
        Phase::Attempting(0)
    }
}

/// The transition table. An event that the phase does not wait for leaves it
/// as it is.
pub open spec fn next_phase(max_trials: u32, p: Phase, e: Event) -> Phase {
    match (p, e) {
        (Phase::Attempting(_), Event::ConnectionFound) => Phase::Acting,
        (Phase::Attempting(n), Event::NoConnection) => Phase::Joining(n),
        (Phase::Joining(n), Event::JoinFinished) => if n + 1 >= max_trials {
            Phase::GaveUp
        } else {
            Phase::Attempting((n + 1) as u32)
        },
        (Phase::Acting, Event::ActionFinished(ok)) => if ok {
            Phase::Succeeded
        } else {
            Phase::ActionFailed
        },
        _ => p,
    }
}

/// The directive of a phase.
pub open spec fn directive_of(p: Phase) -> Directive {
    match p {
        Phase::Attempting(_) => Directive::LookUpConnection,
        Phase::Joining(_) => Directive::Join,
        Phase::Acting => Directive::Act,
        _ => Directive::Finish(p),
    }
}

impl Retry {
    pub open spec fn wf(&self) -> bool {
        phase_wf(self.max_trials, self.phase)
    }

    /// A command that is given `max_trials` trials.
    pub fn start(max_trials: u32) -> (r: Retry)
        ensures
            r.wf(),
            r.max_trials == max_trials,
            r.phase == start_phase(max_trials),
    {
        if max_trials == 0 {
            Retry { max_trials, phase: Phase::GaveUp }
        } else {
            Retry { max_trials, phase: Phase::Attempting(0) }
        }
    }

    /// What the caller is to do next.
    pub fn directive(&self) -> (r: Directive)
        ensures
            r == directive_of(self.phase),
    {
        match self.phase {
            Phase::Attempting(_) => Directive::LookUpConnection,
            Phase::Joining(_) => Directive::Join,
            Phase::Acting => Directive::Act,
            p => Directive::Finish(p),
        }
    }

    /// Takes in what happened when the last directive was performed.
    pub fn step(&mut self, e: Event)
        ensures
            old(self).wf() ==> final(self).wf(),
            final(self).max_trials == old(self).max_trials,
            final(self).phase == next_phase(old(self).max_trials, old(self).phase, e),
    {
        let next = match (self.phase, e) {
            (Phase::Attempting(_), Event::ConnectionFound) => Phase::Acting,
            (Phase::Attempting(n), Event::NoConnection) => Phase::Joining(n),
            (Phase::Joining(n), Event::JoinFinished) => {
                if n >= self.max_trials || self.max_trials - n <= 1 {
                    Phase::GaveUp
                } else {
                    Phase::Attempting(n + 1)
                }
            },
            (Phase::Acting, Event::ActionFinished(ok)) => {
                if ok {
                    Phase::Succeeded
                } else {
                    Phase::ActionFailed
                }
            },
            (p, _) => p,
        };
        self.phase = next;
    }
}

/// A run of the loop against a guild whose connection appears once a join
/// connects: the phase, whether a connection exists, and how many joins and
/// actions were performed.
pub ghost struct Trace {
    pub phase: Phase,
    pub connected: bool,
    pub joins: nat,
    pub acts: nat,
}

/// How far a phase is from the end of the loop.
pub open spec fn remaining(max_trials: u32, p: Phase) -> int {
    match p {
        Phase::Attempting(n) => 3 * (max_trials - n),
        Phase::Joining(n) => 3 * (max_trials - n) - 1,
        Phase::Acting => 1,
        _ => 0,
    }
}

/// The event that performing the directive of `t.phase` yields, where the
/// `i`-th join connects exactly when `join_ok[i]` holds and the action
/// succeeds exactly when `act_ok` holds.
pub open spec fn world_event(t: Trace, join_ok: Seq<bool>, act_ok: bool) -> Event {
    match t.phase {
        Phase::Attempting(_) => if t.connected {
            Event::ConnectionFound
        } else {
            Event::NoConnection
        },
        Phase::Joining(_) => Event::JoinFinished,
        _ => Event::ActionFinished(act_ok),
    }
}

/// One step of the loop against that guild.
pub open spec fn world_step(max_trials: u32, t: Trace, join_ok: Seq<bool>, act_ok: bool) -> Trace {
    let joined = t.phase is Joining && t.joins < join_ok.len() && join_ok[t.joins as int];
    Trace {
        phase: next_phase(max_trials, t.phase, world_event(t, join_ok, act_ok)),
        connected: t.connected || joined,
        joins: if t.phase is Joining { t.joins + 1 } else { t.joins },
        acts: if t.phase is Acting { t.acts + 1 } else { t.acts },
    }
}

/// The loop run to its end against that guild.
pub open spec fn run(max_trials: u32, t: Trace, join_ok: Seq<bool>, act_ok: bool) -> Trace
    decreases remaining(max_trials, t.phase),
{
    if is_terminal(t.phase) || !phase_wf(max_trials, t.phase) {
        t
    } else {
        run(max_trials, world_step(max_trials, t, join_ok, act_ok), join_ok, act_ok)
    }
}

/// A fresh command against a guild with or without a connection.
pub open spec fn fresh(max_trials: u32, connected: bool) -> Trace {
    Trace { phase: start_phase(max_trials), connected, joins: 0, acts: 0 }
}

/// With two trials, against a guild without a connection where no join ever
/// connects, the loop joins exactly twice, never acts, and gives up.
pub proof fn lemma_join_always_fails(join_ok: Seq<bool>, act_ok: bool)
    requires
        forall|i: int| 0 <= i < join_ok.len() ==> !join_ok[i],
    ensures
        run(MAX_TRIALS, fresh(MAX_TRIALS, false), join_ok, act_ok).phase == Phase::GaveUp,
        run(MAX_TRIALS, fresh(MAX_TRIALS, false), join_ok, act_ok).joins == 2,
        run(MAX_TRIALS, fresh(MAX_TRIALS, false), join_ok, act_ok).acts == 0,
{
    reveal_with_fuel(run, 6);
}

/// With two trials, against a guild without a connection where the first join
/// connects, the loop joins once, performs the action exactly once, and
/// succeeds where the action does.
pub proof fn lemma_join_then_act(join_ok: Seq<bool>)
    requires
        join_ok.len() > 0,
        join_ok[0],
    ensures
        run(MAX_TRIALS, fresh(MAX_TRIALS, false), join_ok, true).phase == Phase::Succeeded,
        run(MAX_TRIALS, fresh(MAX_TRIALS, false), join_ok, true).joins == 1,
        run(MAX_TRIALS, fresh(MAX_TRIALS, false), join_ok, true).acts == 1,
{
    reveal_with_fuel(run, 6);
}

/// Joins still open to a phase.
pub open spec fn joins_left(max_trials: u32, p: Phase) -> int {
    match p {
        Phase::Attempting(n) => max_trials - n,
        Phase::Joining(n) => max_trials - n,
        _ => 0,
    }
}

/// Actions still open to a phase.
pub open spec fn acts_left(p: Phase) -> int {
    if is_terminal(p) {
        0
    } else {
        1
    }
}

proof fn lemma_run_bounds(max_trials: u32, t: Trace, join_ok: Seq<bool>, act_ok: bool)
    requires
        phase_wf(max_trials, t.phase),
    ensures
        is_terminal(run(max_trials, t, join_ok, act_ok).phase),
        run(max_trials, t, join_ok, act_ok).joins <= t.joins + joins_left(max_trials, t.phase),
        run(max_trials, t, join_ok, act_ok).acts <= t.acts + acts_left(t.phase),
    decreases remaining(max_trials, t.phase),
{
    if !is_terminal(t.phase) {
        lemma_run_bounds(max_trials, world_step(max_trials, t, join_ok, act_ok), join_ok, act_ok);
    }
}

/// Whatever the guild does, every command ends, joins at most `max_trials`
/// times and performs its action at most once.
pub proof fn lemma_loop_bounded(max_trials: u32, connected: bool, join_ok: Seq<bool>, act_ok: bool)
    ensures
        is_terminal(run(max_trials, fresh(max_trials, connected), join_ok, act_ok).phase),
        run(max_trials, fresh(max_trials, connected), join_ok, act_ok).joins <= max_trials,
        run(max_trials, fresh(max_trials, connected), join_ok, act_ok).acts <= 1,
{
    lemma_run_bounds(max_trials, fresh(max_trials, connected), join_ok, act_ok);
}

} // verus!
