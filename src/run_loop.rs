//! The block generator's run loop as a state machine.
//!
//! The loop mines a seed batch, reports the balance, then repeats: look at the
//! stop signal, mine one block, report the balance, sleep. The machine names
//! the next action; the caller performs it and feeds back what happened.
use std::time::Duration;
use vstd::prelude::*;

use crate::generator::{GeneratorError, SEED_BLOCKS};

verus! {

/// Where the run loop stands.
#[derive(Clone, Copy, Debug, PartialEq, Eq, Structural)]
pub enum Phase {
    /// Waiting for the seed batch to be mined.
    SeedMining,
    /// Waiting for the balance query that follows the seed batch.
    InitialBalance,
    /// Waiting for the current value of the stop signal.
    CheckStop,
    /// Waiting for one block to be mined.
    Mining,
    /// Waiting for the balance query that follows a mined block.
    Reporting,
    /// Waiting for the pause between blocks to end.
    Sleeping,
    /// Stop was signalled; waiting for the last balance query.
    FinalBalance,
    /// The loop returned successfully.
    Finished,
    /// The loop returned an error.
    Failed,
}

/// What happened since the last action.
pub enum Event {
    /// The requested blocks were mined.
    Mined,
    /// Mining failed, with the node's message.
    MiningFailed(String),
    /// The balance received at the mining address, in satoshis.
    Balance(u64),
    /// The balance query failed, with the node's message.
    BalanceFailed(String),
    /// The current value of the stop signal.
    StopSignal(bool),
    /// The pause between blocks is over.
    Slept,
}

/// What the caller does next.
pub enum Action {
    /// Mine this many blocks to the mining address.
    MineBlocks(u64),
    /// Query the balance received at the mining address.
    CheckBalance,
    /// Read the stop signal.
    ReadStopSignal,
    /// Pause for this long.
    Sleep(Duration),
    /// Return this result from the run.
    Return(Result<(), GeneratorError>),
    /// Nothing: the run has returned.
    Halt,
}

/// The action a phase waits on.
pub open spec fn pending(p: Phase, block_time: Duration) -> Action {
    match p {
        Phase::SeedMining => Action::MineBlocks(SEED_BLOCKS),
        Phase::InitialBalance | Phase::Reporting | Phase::FinalBalance => Action::CheckBalance,
        Phase::CheckStop => Action::ReadStopSignal,
        Phase::Mining => Action::MineBlocks(1),
        Phase::Sleeping => Action::Sleep(block_time),
        Phase::Finished | Phase::Failed => Action::Halt,
    }
}

/// One step of the loop: the next phase and the action to perform. An event
/// that the phase does not wait on changes nothing and repeats the pending action.
pub open spec fn transition(p: Phase, ev: Event, block_time: Duration) -> (Phase, Action) {
    match (p, ev) {
        (Phase::Finished, _) | (Phase::Failed, _) => (p, Action::Halt),
        (Phase::SeedMining, Event::Mined) => (Phase::InitialBalance, Action::CheckBalance),
        (Phase::SeedMining, Event::MiningFailed(e)) => (
            Phase::Failed,
            Action::Return(Err(GeneratorError::SeedMining(e))),
        ),
        (Phase::InitialBalance, Event::Balance(_)) => (Phase::CheckStop, Action::ReadStopSignal),
        (Phase::CheckStop, Event::StopSignal(stop)) => if stop {
            (Phase::FinalBalance, Action::CheckBalance)
        } else {
            (Phase::Mining, Action::MineBlocks(1))
        },
        (Phase::Mining, Event::Mined) => (Phase::Reporting, Action::CheckBalance),
        (Phase::Mining, Event::MiningFailed(_)) => (Phase::Sleeping, Action::Sleep(block_time)),
        (Phase::Reporting, Event::Balance(_)) => (Phase::Sleeping, Action::Sleep(block_time)),
        (Phase::Sleeping, Event::Slept) => (Phase::CheckStop, Action::ReadStopSignal),
        (Phase::FinalBalance, Event::Balance(_)) => (Phase::Finished, Action::Return(Ok(()))),
        (Phase::InitialBalance, Event::BalanceFailed(e))
        | (Phase::Reporting, Event::BalanceFailed(e))
        | (Phase::FinalBalance, Event::BalanceFailed(e)) => (
            Phase::Failed,
            Action::Return(Err(GeneratorError::Balance(e))),
        ),
        _ => (p, pending(p, block_time)),
    }
}

/// Whether phase `p` waits on a balance query.
pub open spec fn awaits_balance(p: Phase) -> bool {
    p == Phase::InitialBalance || p == Phase::Reporting || p == Phase::FinalBalance
}

/// The phase reached from `p` after the events `evs`, in order.
pub open spec fn phase_after(p: Phase, evs: Seq<Event>, block_time: Duration) -> Phase
    decreases evs.len(),
{
    if evs.len() == 0 {
        p
    } else {
        phase_after(transition(p, evs[0], block_time).0, evs.skip(1), block_time)
    }
}

/// The actions issued from `p` in answer to the events `evs`, in order.
pub open spec fn actions_after(p: Phase, evs: Seq<Event>, block_time: Duration) -> Seq<Action>
    decreases evs.len(),
{
    if evs.len() == 0 {
        Seq::empty()
    } else {
        let (q, a) = transition(p, evs[0], block_time);
        seq![a] + actions_after(q, evs.skip(1), block_time)
    }
}

/// Whether the loop has seen the stop signal or has returned.
pub open spec fn stopping(p: Phase) -> bool {
    p == Phase::FinalBalance || p == Phase::Finished || p == Phase::Failed
}

proof fn lemma_stopping_closed(p: Phase, evs: Seq<Event>, block_time: Duration)
    requires
        stopping(p),
    ensures
        stopping(phase_after(p, evs, block_time)),
        forall|i: int|
            0 <= i < actions_after(p, evs, block_time).len() ==> {
                let a = #[trigger] actions_after(p, evs, block_time)[i];
                !(a is MineBlocks) && !(a is Sleep)
            },
    decreases evs.len(),
{
    if evs.len() > 0 {
        let (q, a) = transition(p, evs[0], block_time);
        lemma_stopping_closed(q, evs.skip(1), block_time);
        let rest = actions_after(q, evs.skip(1), block_time);
        assert forall|i: int| 0 <= i < actions_after(p, evs, block_time).len() implies {
            let b = #[trigger] actions_after(p, evs, block_time)[i];
            !(b is MineBlocks) && !(b is Sleep)
        } by {
            if i > 0 {
                assert(actions_after(p, evs, block_time)[i] == rest[i - 1]);
            }
        }
    }
}

/// Once the stop signal reads true, the loop asks for one last balance query
/// and then never mines or sleeps again, whatever happens next; a successful
/// last query makes the run return `Ok`, a failed one returns its error.
pub proof fn lemma_stop_signal_ends_run(block_time: Duration, evs: Seq<Event>, b: u64, e: String)
    ensures
        transition(Phase::CheckStop, Event::StopSignal(true), block_time)
            == (Phase::FinalBalance, Action::CheckBalance),
        transition(Phase::FinalBalance, Event::Balance(b), block_time)
            == (Phase::Finished, Action::Return(Ok(()))),
        transition(Phase::FinalBalance, Event::BalanceFailed(e), block_time)
            == (Phase::Failed, Action::Return(Err(GeneratorError::Balance(e)))),
        stopping(phase_after(Phase::FinalBalance, evs, block_time)),
        forall|i: int|
            0 <= i < actions_after(Phase::FinalBalance, evs, block_time).len() ==> {
                let a = #[trigger] actions_after(Phase::FinalBalance, evs, block_time)[i];
                !(a is MineBlocks) && !(a is Sleep)
            },
{
    lemma_stopping_closed(Phase::FinalBalance, evs, block_time);
}

/// After the seed batch is mined, the loop queries the balance before anything
/// else, and a balance that comes back moves it on to the stop signal; the
/// balance is counted in satoshis, so it is never negative.
pub proof fn lemma_seed_then_balance(block_time: Duration, b: u64)
    ensures
        transition(Phase::SeedMining, Event::Mined, block_time)
            == (Phase::InitialBalance, Action::CheckBalance),
        awaits_balance(Phase::InitialBalance),
        transition(Phase::InitialBalance, Event::Balance(b), block_time)
            == (Phase::CheckStop, Action::ReadStopSignal),
        b >= 0,
{
}

/// A failed block in the steady loop is tolerated: the loop sleeps and then
/// reads the stop signal again, as after a mined block.
pub proof fn lemma_mining_failure_tolerated(block_time: Duration, e: String)
    ensures
        transition(Phase::Mining, Event::MiningFailed(e), block_time)
            == (Phase::Sleeping, Action::Sleep(block_time)),
        transition(Phase::Sleeping, Event::Slept, block_time)
            == (Phase::CheckStop, Action::ReadStopSignal),
{
}

/// A failed balance query ends the run with that error, and the loop does
/// nothing afterwards.
pub proof fn lemma_balance_failure_ends_run(p: Phase, block_time: Duration, e: String, next: Event)
    requires
        awaits_balance(p),
    ensures
        transition(p, Event::BalanceFailed(e), block_time)
            == (Phase::Failed, Action::Return(Err(GeneratorError::Balance(e)))),
        transition(Phase::Failed, next, block_time) == (Phase::Failed, Action::Halt),
{
}

/// The run loop of one block generator.
pub struct RunLoop {
    phase: Phase,
    block_time: Duration,
    last_balance: Option<u64>,
}

impl RunLoop {
    pub closed spec fn spec_phase(&self) -> Phase {
        self.phase
    }

    pub closed spec fn spec_block_time(&self) -> Duration {
        self.block_time
    }

    pub closed spec fn spec_last_balance(&self) -> Option<u64> {
        self.last_balance
    }

    /// A loop that has not started: its first action mines the seed batch.
    pub fn new(block_time: Duration) -> (r: RunLoop)
        ensures
            r.spec_phase() == Phase::SeedMining,
            r.spec_block_time() == block_time,
            r.spec_last_balance() is None,
    {
        RunLoop { phase: Phase::SeedMining, block_time, last_balance: None }
    }

    pub fn phase(&self) -> (r: Phase)
        ensures
            r == self.spec_phase(),
    {
        self.phase
    }

    /// The last balance reported, in satoshis.
    pub fn last_balance(&self) -> (r: Option<u64>)
        ensures
            r == self.spec_last_balance(),
    {
        self.last_balance
    }

    /// The action the loop waits on.
    pub fn pending_action(&self) -> (r: Action)
        ensures
            r == pending(self.spec_phase(), self.spec_block_time()),
    {
        match self.phase {
            Phase::SeedMining => Action::MineBlocks(SEED_BLOCKS),
            Phase::InitialBalance | Phase::Reporting | Phase::FinalBalance => Action::CheckBalance,
            Phase::CheckStop => Action::ReadStopSignal,
            Phase::Mining => Action::MineBlocks(1),
            Phase::Sleeping => Action::Sleep(self.block_time),
            Phase::Finished | Phase::Failed => Action::Halt,
        }
    }

    /// Feeds an event to the loop and returns the next action.
    pub fn step(&mut self, ev: Event) -> (r: Action)
        ensures
            (final(self).spec_phase(), r) == transition(old(self).spec_phase(), ev, old(self).spec_block_time()),
            final(self).spec_block_time() == old(self).spec_block_time(),
            final(self).spec_last_balance() == match ev {
                Event::Balance(b) => if awaits_balance(old(self).spec_phase()) {
                    Some(b)
                } else {
                    old(self).spec_last_balance()
                },
                _ => old(self).spec_last_balance(),
            },
    {
        let p = self.phase;
        let bt = self.block_time;
        match p {
            Phase::Finished | Phase::Failed => { return Action::Halt; },
            _ => {},
        }
        match ev {
            Event::Mined => match p {
                Phase::SeedMining => {
                    self.phase = Phase::InitialBalance;
                    Action::CheckBalance
                },
                Phase::Mining => {
                    self.phase = Phase::Reporting;
                    Action::CheckBalance
                },
                _ => self.pending_action(),
            },
            Event::MiningFailed(e) => match p {
                Phase::SeedMining => {
                    self.phase = Phase::Failed;
                    Action::Return(Err(GeneratorError::SeedMining(e)))
                },
                Phase::Mining => {
                    self.phase = Phase::Sleeping;
                    Action::Sleep(bt)
                },
                _ => self.pending_action(),
            },
            Event::Balance(b) => match p {
                Phase::InitialBalance => {
                    self.phase = Phase::CheckStop;
                    self.last_balance = Some(b);
                    Action::ReadStopSignal
                },
                Phase::Reporting => {
                    self.phase = Phase::Sleeping;
                    self.last_balance = Some(b);
                    Action::Sleep(bt)
                },
                Phase::FinalBalance => {
                    self.phase = Phase::Finished;
                    self.last_balance = Some(b);
                    Action::Return(Ok(()))
                },
                _ => self.pending_action(),
            },
            Event::BalanceFailed(e) => match p {
                Phase::InitialBalance | Phase::Reporting | Phase::FinalBalance => {
                    self.phase = Phase::Failed;
                    Action::Return(Err(GeneratorError::Balance(e)))
                },
                _ => self.pending_action(),
            },
            Event::StopSignal(stop) => match p {
                Phase::CheckStop => if stop {
                    self.phase = Phase::FinalBalance;
                    Action::CheckBalance
                } else {
                    self.phase = Phase::Mining;
                    Action::MineBlocks(1)
                },
                _ => self.pending_action(),
            },
            Event::Slept => match p {
                Phase::Sleeping => {
                    self.phase = Phase::CheckStop;
                    Action::ReadStopSignal
                },
                _ => self.pending_action(),
            },
        }
    }
}

} // verus!
