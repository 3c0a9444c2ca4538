use vstd::prelude::*;

use crate::protocol::RenderCommand;

verus! {

/// What the host does at the start of a tick.
#[derive(Clone, Copy, Debug, PartialEq, Eq, Structural)]
pub enum TickPlan {
    /// The artifact changed: load and instantiate a new handle, migrating
    /// the current handle's state into it when `migrate` holds (a trapped
    /// handle is not called, so its state is not carried over). The frame
    /// then follows the plan for an unchanged artifact.
    Reload { migrate: bool },
    /// Run one frame on the current handle.
    Run,
    /// The current handle has trapped: show the last good frame again and
    /// make no call on the handle.
    Replay,
}

/// Why a reload produced no new handle.
#[derive(Clone, Copy, Debug, PartialEq, Eq, Structural)]
pub enum ReloadError {
    /// The artifact is missing, unreadable, or does not compile.
    Load,
    /// Constructing the guest object trapped.
    Instantiate,
}

/// The guest faulted inside `run_frame`.
#[derive(Clone, Copy, Debug, PartialEq, Eq, Structural)]
pub struct RuntimeTrap;

/// The abstract state of the loop: the current handle, whether it has
/// trapped, and the commands of the last good frame.
pub struct LoopView<H> {
    pub current: H,
    pub frozen: bool,
    pub shown: Seq<RenderCommand>,
}

/// The plan for a tick, given whether the artifact changed.
pub open spec fn plan_for<H>(v: LoopView<H>, changed: bool) -> TickPlan {
    if changed {
        TickPlan::Reload { migrate: !v.frozen }
    } else if v.frozen {
        TickPlan::Replay
    } else {
        TickPlan::Run
    }
}

/// The state after a reload attempt: a new handle becomes current and is
/// live; a failed attempt changes nothing.
pub open spec fn after_reload<H>(v: LoopView<H>, incoming: Result<H, ReloadError>) -> LoopView<H> {
    match incoming {
        Ok(h) => LoopView { current: h, frozen: false, shown: v.shown },
        Err(_) => v,
    }
}

/// The state after a frame: its commands are shown, or, on a trap, the
/// handle is frozen and the last good commands stay shown.
pub open spec fn after_frame<H>(
    v: LoopView<H>,
    outcome: Result<Seq<RenderCommand>, RuntimeTrap>,
) -> LoopView<H> {
    match outcome {
        Ok(cs) => LoopView { current: v.current, frozen: false, shown: cs },
        Err(_) => LoopView { current: v.current, frozen: true, shown: v.shown },
    }
}

pub open spec fn frame_outcome_view(outcome: Result<Vec<RenderCommand>, RuntimeTrap>) -> Result<
    Seq<RenderCommand>,
    RuntimeTrap,
> {
    match outcome {
        Ok(cs) => Ok(cs@),
        Err(t) => Err(t),
    }
}

/// A tick in which the artifact did not change: a live handle runs one
/// frame with the given outcome, a frozen one is left alone.
pub open spec fn quiet_tick<H>(v: LoopView<H>, outcome: Result<Seq<RenderCommand>, RuntimeTrap>) -> LoopView<H> {
    if v.frozen {
        v
    } else {
        after_frame(v, outcome)
    }
}

/// The state after a run of ticks in which the artifact did not change.
pub open spec fn quiet_ticks<H>(
    v: LoopView<H>,
    outcomes: Seq<Result<Seq<RenderCommand>, RuntimeTrap>>,
) -> LoopView<H>
    decreases outcomes.len(),
{
    if outcomes.len() == 0 {
        v
    } else {
        quiet_ticks(quiet_tick(v, outcomes[0]), outcomes.drop_first())
    }
}

/// The per-tick orchestrator. It owns the one current guest handle; a reload
/// swaps in a new handle only when one was built, and hands back the old one.
pub struct ReloadLoop<H> {
    current: H,
    frozen: bool,
    last_frame: Vec<RenderCommand>,
}

impl<H> View for ReloadLoop<H> {
    type V = LoopView<H>;

    closed spec fn view(&self) -> LoopView<H> {
        LoopView { current: self.current, frozen: self.frozen, shown: self.last_frame@ }
    }
}

impl<H> ReloadLoop<H> {
    /// Starts running the handle from the initial load.
    pub fn new(handle: H) -> (r: ReloadLoop<H>)
        ensures
            r@.current == handle,
            !r@.frozen,
            r@.shown == Seq::<RenderCommand>::empty(),
    {
        ReloadLoop { current: handle, frozen: false, last_frame: Vec::new() }
    }

    /// Decides the tick's plan from the change detector's answer.
    pub fn plan_tick(&self, changed: bool) -> (r: TickPlan)
        ensures
            r == plan_for(self@, changed),
    {
        if changed {
            TickPlan::Reload { migrate: !self.frozen }
        } else if self.frozen {
            TickPlan::Replay
        } else {
            TickPlan::Run
        }
    }

    /// Completes a reload attempt. A new handle becomes current and the
    /// superseded one is handed back, to be dropped after the swap; on
    /// failure the current handle stays exactly as it was.
    pub fn finish_reload(&mut self, incoming: Result<H, ReloadError>) -> (r: Option<H>)
        ensures
            final(self)@ == after_reload(old(self)@, incoming),
            incoming is Ok ==> r == Some(old(self)@.current),
            incoming is Err ==> r is None,
    {
        match incoming {
            Ok(h) => {
                let mut previous = h;
                std::mem::swap(&mut self.current, &mut previous);
                self.frozen = false;
                Some(previous)
            },
            Err(_) => None,
        }
    }

    /// Records the outcome of the tick's `run_frame`. The commands of a good
    /// frame become the frame to show, in the order produced; a trap freezes
    /// the handle and keeps the last good frame.
    pub fn accept_frame(&mut self, outcome: Result<Vec<RenderCommand>, RuntimeTrap>)
        ensures
            final(self)@ == after_frame(old(self)@, frame_outcome_view(outcome)),
    {
        match outcome {
            Ok(commands) => {
                self.last_frame = commands;
                self.frozen = false;
            },
            Err(_) => {
                self.frozen = true;
            },
        }
    }

    /// The commands to hand to the renderer this tick.
    pub fn frame(&self) -> (r: &Vec<RenderCommand>)
        ensures
            r@ == self@.shown,
    {
        &self.last_frame
    }

    /// The handle that drives ticks.
    pub fn current(&self) -> (r: &H)
        ensures
            *r == self@.current,
    {
        &self.current
    }

    /// Whether the current handle has trapped.
    pub fn is_frozen(&self) -> (r: bool)
        ensures
            r == self@.frozen,
    {
        self.frozen
    }
}

/// While the artifact does not change, no tick plans a reload and every
/// tick runs on the same handle, whatever the frames return: each tick of a
/// live handle plans exactly one frame on it, and a frozen one plans none.
pub proof fn lemma_quiet_ticks_keep_handle<H>(
    v: LoopView<H>,
    outcomes: Seq<Result<Seq<RenderCommand>, RuntimeTrap>>,
)
    ensures
        quiet_ticks(v, outcomes).current == v.current,
        forall|i: int|
            0 <= i <= outcomes.len() ==> (#[trigger] quiet_ticks(v, outcomes.take(i))).current
                == v.current,
        forall|i: int|
            0 <= i <= outcomes.len() ==> plan_for(#[trigger] quiet_ticks(v, outcomes.take(i)), false)
                == (if quiet_ticks(v, outcomes.take(i)).frozen {
                TickPlan::Replay
            } else {
                TickPlan::Run
            }),
    decreases outcomes.len(),
{
    if outcomes.len() > 0 {
        let rest = outcomes.drop_first();
        lemma_quiet_ticks_keep_handle(quiet_tick(v, outcomes[0]), rest);
        assert forall|i: int| 0 <= i <= outcomes.len() implies (#[trigger] quiet_ticks(
            v,
            outcomes.take(i),
        )).current == v.current by {
            let t = outcomes.take(i);
            if i > 0 {
                assert(t.drop_first() =~= rest.take(i - 1));
                assert(t[0] == outcomes[0]);
                assert(quiet_ticks(v, t) == quiet_ticks(quiet_tick(v, outcomes[0]), rest.take(i - 1)));
                assert(quiet_ticks(quiet_tick(v, outcomes[0]), rest.take(i - 1)).current
                    == quiet_tick(v, outcomes[0]).current);
            } else {
                assert(t.len() == 0);
            }
        }
    }
}

/// A reload that fails after a change signal leaves the handle that ran the
/// previous frame in place for the next one, with nothing else changed.
pub proof fn lemma_failed_reload_keeps_handle<H>(v: LoopView<H>, e: ReloadError)
    ensures
        plan_for(v, true) is Reload,
        after_reload(v, Err(e)) == v,
{
}

} // verus!
