//! Stopping a thread that may be blocked on a FIFO.
//!
//! The thread sees that it is to stop only between two writers, so it has to be let out of
//! its `open` first: opening the FIFO for reading and writing does so. A thread that leaves
//! its FIFO behind has it removed before it is waited for, so that it cannot block on it
//! again; where the FIFO was gone already, such a thread cannot be let out, and is not waited
//! for. A thread that removes its FIFO itself ends in any case.
use vstd::prelude::*;

verus! {

/// The steps.
#[derive(Debug, Clone, Copy, PartialEq, Eq, Structural)]
pub enum CloseStep {
    /// Raise the stop flag.
    RaiseStop,
    /// Open the FIFO for reading and writing and close it again.
    Unblock,
    /// Remove the FIFO.
    Remove,
    /// Wait for the thread.
    Join,
    /// All is done.
    Done,
}

/// Who removes the FIFO.
#[derive(Debug, Clone, Copy, PartialEq, Eq, Structural)]
pub enum Remover {
    /// Whoever stops the thread.
    Closer,
    /// The thread itself.
    Thread,
}

/// All the steps in their order; `let_out` says that the thread is not blocked in its `open`.
pub open spec fn steps(remover: Remover, let_out: bool) -> Seq<CloseStep> {
    match remover {
        Remover::Closer => if let_out {
            seq![
                CloseStep::RaiseStop,
                CloseStep::Unblock,
                CloseStep::Remove,
                CloseStep::Join,
                CloseStep::Done,
            ]
        } else {
            seq![CloseStep::RaiseStop, CloseStep::Unblock, CloseStep::Remove, CloseStep::Done]
        },
        Remover::Thread => seq![
            CloseStep::RaiseStop,
            CloseStep::Unblock,
            CloseStep::Join,
            CloseStep::Done,
        ],
    }
}

/// The step to take first.
pub fn first_step() -> (step: CloseStep)
    ensures
        forall|remover: Remover, let_out: bool| step == #[trigger] steps(remover, let_out)[0],
{
    CloseStep::RaiseStop
}

/// The step to take when one is done: the one that follows it in the order, and after the last
/// one, or one that is not among them, none. `let_out` says that the thread is not blocked in
/// its `open`: the FIFO could be opened, or the thread was reading already.
pub fn next_step(done: CloseStep, remover: Remover, let_out: bool) -> (step: CloseStep)
    ensures
        forall|i: int|
            0 <= i < steps(remover, let_out).len() - 1 && #[trigger] steps(remover, let_out)[i]
                == done ==> step == steps(remover, let_out)[i + 1],
        !steps(remover, let_out).drop_last().contains(done) ==> step is Done,
{
    let step = match (done, remover) {
        (CloseStep::RaiseStop, _) => CloseStep::Unblock,
        (CloseStep::Unblock, Remover::Closer) => CloseStep::Remove,
        (CloseStep::Unblock, Remover::Thread) => CloseStep::Join,
        (CloseStep::Remove, Remover::Closer) => {
            if let_out {
                CloseStep::Join
            } else {
                CloseStep::Done
            }
        },
        (CloseStep::Remove, Remover::Thread) => CloseStep::Done,
        (CloseStep::Join, _) => CloseStep::Done,
        (CloseStep::Done, _) => CloseStep::Done,
    };
    proof {
        let order = steps(remover, let_out).drop_last();
        assert(order[0] == CloseStep::RaiseStop && order[1] == CloseStep::Unblock);
        if order.len() > 2 {
            assert(order.contains(order[2]));
        }
        assert(order.contains(order[0]) && order.contains(order[1]));
    }
    step
}

/// What the order is for: the thread hears that it is to stop before it is let out, and is let
/// out while the FIFO is there. It is waited for only after that, and, where it leaves its FIFO
/// behind, only after the FIFO was removed. The FIFO is removed on every way by whoever has to
/// remove it. A thread that leaves its FIFO behind is waited for exactly where it was let out,
/// any other one always. Every way ends.
pub proof fn a_thread_is_let_out_before_it_is_waited_for(
    remover: Remover,
    let_out: bool,
    i: int,
    j: int,
)
    requires
        0 <= i < steps(remover, let_out).len(),
        0 <= j < steps(remover, let_out).len(),
    ensures
        ({
            let order = steps(remover, let_out);
            &&& order[0] == CloseStep::RaiseStop && order[1] == CloseStep::Unblock
            &&& order[i] == order[j] ==> i == j
            &&& order.last() == CloseStep::Done
            &&& order[i] == CloseStep::Remove ==> i > 1 && remover is Closer
            &&& order[i] == CloseStep::Join ==> i > 1
            &&& order[i] == CloseStep::Remove && order[j] == CloseStep::Join ==> i < j
            &&& remover is Closer ==> order.contains(CloseStep::Remove)
            &&& order.contains(CloseStep::Join) <==> remover is Thread || let_out
        }),
{
    let order = steps(remover, let_out);
    if remover is Closer {
        assert(order[2] == CloseStep::Remove);
    }
    if remover is Thread {
        assert(order[2] == CloseStep::Join);
    } else if let_out {
        assert(order[3] == CloseStep::Join);
    }
}

} // verus!
