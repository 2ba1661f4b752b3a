//! Driving a terminal UI instance without a real terminal, for tests.

use vstd::prelude::*;

use cursive::{Cursive, CursiveRunner};

verus! {

#[verifier::external_type_specification]
#[verifier::external_body]
pub struct ExCursive(Cursive);

#[verifier::external_type_specification]
#[verifier::external_body]
#[verifier::reject_recursive_types(C)]
pub struct ExCursiveRunner<C>(CursiveRunner<C>);

/// Upper bound on the event-processing rounds of [`step_until_idle`], so
/// a callback that keeps re-arming itself cannot hang a test.
pub const MAX_IDLE_ITERS: usize = 256;

/// Default test screen size (columns, rows): wide enough that story rows
/// do not wrap, tall enough for several rows and a status bar.
pub fn default_size() -> (r: (usize, usize))
    ensures
        r == (120usize, 40usize),
{
    (120, 40)
}

/// `CursiveRunner::process_events`: handles pending input and callbacks;
/// `true` when something was received. What is pending depends on the
/// runner's queues, so nothing is stated of the answer.
#[verifier::external_body]
fn process_events(runner: &mut CursiveRunner<Cursive>) -> bool {
    runner.process_events()
}

/// `CursiveRunner::refresh`: lays out and redraws the screen.
#[verifier::external_body]
fn refresh(runner: &mut CursiveRunner<Cursive>) {
    runner.refresh()
}

/// The round count after one more round of event processing, given what
/// that round reported: counting goes on while a round processed
/// something and stops at the first idle round.
pub fn after_round(iters: usize, processed: bool) -> (next: Option<usize>)
    requires
        iters < MAX_IDLE_ITERS,
    ensures
        next == (if processed {
            Some((iters + 1) as usize)
        } else {
            None::<usize>
        }),
{
    if processed {
        Some(iters + 1)
    } else {
        None
    }
}

/// Process events until a round reports nothing, at most
/// [`MAX_IDLE_ITERS`] rounds, then redraw. Returns the number of rounds
/// that processed something.
pub fn step_until_idle(runner: &mut CursiveRunner<Cursive>) -> (n: usize)
    ensures
        n <= MAX_IDLE_ITERS,
{
    let mut iters: usize = 0;
    while iters < MAX_IDLE_ITERS
        invariant
            iters <= MAX_IDLE_ITERS,
        decreases MAX_IDLE_ITERS - iters,
    {
        let processed = process_events(runner);
        match after_round(iters, processed) {
            Some(next) => iters = next,
            None => break,
        }
    }
    refresh(runner);
    iters
}

} // verus!
