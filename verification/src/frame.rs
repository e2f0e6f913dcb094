use vstd::prelude::*;

verus! {

/// Why the surface could not give out a texture to draw the frame into.
#[derive(Debug, Clone, Copy, PartialEq, Eq)]
pub enum SurfaceFailure {
    /// Acquiring the next frame timed out.
    Timeout,
    /// The surface changed and must be configured again.
    Outdated,
    /// The swap chain was lost and must be created again.
    Lost,
    /// No memory was left for a new frame.
    OutOfMemory,
}

/// What the program does once a frame has been drawn, or has failed.
#[derive(Debug, Clone, Copy, PartialEq, Eq)]
pub enum RedrawAction {
    /// The frame was presented: nothing more to do.
    Done,
    /// Configure the surface again.
    Reconfigure,
    /// End the program.
    Exit,
    /// Report the failure and go on with the next frame.
    Report(SurfaceFailure),
}

/// The action that the outcome of drawing a frame leads to.
pub open spec fn spec_redraw_action(outcome: Result<(), SurfaceFailure>) -> RedrawAction {
    match outcome {
        Ok(()) => RedrawAction::Done,
        Err(SurfaceFailure::Lost) => RedrawAction::Reconfigure,
        Err(SurfaceFailure::OutOfMemory) => RedrawAction::Exit,
        Err(failure) => RedrawAction::Report(failure),
    }
}

/// Handles the outcome of drawing a frame on a redraw request: a lost
/// surface is configured again, running out of memory ends the program, and
/// any other failure is reported and the next frame tried.
pub fn handle_redraw_request(outcome: Result<(), SurfaceFailure>) -> (res: RedrawAction)
    ensures
        res == spec_redraw_action(outcome),
        outcome is Ok ==> res is Done,
        outcome == Err::<(), SurfaceFailure>(SurfaceFailure::Lost) ==> res is Reconfigure,
        outcome == Err::<(), SurfaceFailure>(SurfaceFailure::OutOfMemory) ==> res is Exit,
        outcome == Err::<(), SurfaceFailure>(SurfaceFailure::Timeout) ==> res == RedrawAction::Report(
            SurfaceFailure::Timeout,
        ),
        outcome == Err::<(), SurfaceFailure>(SurfaceFailure::Outdated) ==> res == RedrawAction::Report(
            SurfaceFailure::Outdated,
        ),
{
    match outcome {
        Ok(()) => RedrawAction::Done,
        Err(SurfaceFailure::Lost) => RedrawAction::Reconfigure,
        Err(SurfaceFailure::OutOfMemory) => RedrawAction::Exit,
        Err(failure) => RedrawAction::Report(failure),
    }
}

/// Frame law: a presented frame needs nothing more; a lost surface is
/// configured again; running out of memory is the only failure that ends the
/// program; a timeout or an outdated surface is reported as that same failure
/// and the program goes on.
pub proof fn lemma_only_out_of_memory_ends_the_program(failure: SurfaceFailure)
    ensures
        spec_redraw_action(Ok(())) == RedrawAction::Done,
        spec_redraw_action(Err(SurfaceFailure::Lost)) == RedrawAction::Reconfigure,
        spec_redraw_action(Err(SurfaceFailure::OutOfMemory)) == RedrawAction::Exit,
        spec_redraw_action(Err(SurfaceFailure::Timeout)) == RedrawAction::Report(SurfaceFailure::Timeout),
        spec_redraw_action(Err(SurfaceFailure::Outdated)) == RedrawAction::Report(
            SurfaceFailure::Outdated,
        ),
        spec_redraw_action(Err(failure)) is Exit <==> failure is OutOfMemory,
{
}

} // verus!
