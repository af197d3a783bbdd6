//! The order in which a planned chart is drawn, and what a failure at each
//! stage amounts to. The caller draws; this module says what comes next.

use vstd::prelude::*;

verus! {

/// A stage of drawing a chart.
#[derive(Clone, Copy, Debug, PartialEq, Eq, Structural)]
pub enum RenderStage {
    /// Open the canvas and fill it with the background.
    Surface,
    /// Lay out the caption, the label areas and the two axes.
    Axes,
    /// Draw the grid lines and the labels.
    Mesh,
    /// Draw the candlesticks.
    Series,
    /// Write the drawing out.
    Present,
}

/// Why a chart was not drawn.
#[derive(Clone, Copy, Debug, PartialEq, Eq, Structural)]
pub enum RenderError {
    /// The canvas could not be made ready.
    Surface,
    /// The axes, the grid or the candlesticks could not be drawn.
    Drawing,
    /// The drawing could not be written out.
    Finalization,
}

/// Where the drawing stands after a stage.
#[derive(Clone, Copy, Debug, PartialEq, Eq, Structural)]
pub enum Progress {
    /// Go on with this stage.
    Continue(RenderStage),
    /// The drawing is written; nothing is left to do.
    Finished,
    /// Give up: nothing more is drawn or written.
    Failed(RenderError),
}

/// The stage after `stage`, if there is one.
pub open spec fn following(stage: RenderStage) -> Option<RenderStage> {
    match stage {
        RenderStage::Surface => Some(RenderStage::Axes),
        RenderStage::Axes => Some(RenderStage::Mesh),
        RenderStage::Mesh => Some(RenderStage::Series),
        RenderStage::Series => Some(RenderStage::Present),
        RenderStage::Present => None,
    }
}

/// What a failure at `stage` is reported as.
pub open spec fn failure_at(stage: RenderStage) -> RenderError {
    match stage {
        RenderStage::Surface => RenderError::Surface,
        RenderStage::Axes => RenderError::Drawing,
        RenderStage::Mesh => RenderError::Drawing,
        RenderStage::Series => RenderError::Drawing,
        RenderStage::Present => RenderError::Finalization,
    }
}

/// How many stages are still to be done, `stage` among them.
pub open spec fn stages_left(stage: RenderStage) -> nat {
    match stage {
        RenderStage::Surface => 5,
        RenderStage::Axes => 4,
        RenderStage::Mesh => 3,
        RenderStage::Series => 2,
        RenderStage::Present => 1,
    }
}

/// Where the drawing stands once `stage` has succeeded or failed.
pub open spec fn progress_after(stage: RenderStage, succeeded: bool) -> Progress {
    if !succeeded {
        Progress::Failed(failure_at(stage))
    } else {
        match following(stage) {
            Some(next) => Progress::Continue(next),
            None => Progress::Finished,
        }
    }
}

impl RenderStage {
    /// The stage that drawing starts with.
    pub fn first() -> (stage: RenderStage)
        ensures
            stage == RenderStage::Surface,
    {
        RenderStage::Surface
    }
}

/// Decides what follows a stage. A failure ends the drawing at once, under
/// the error of its stage; a failure to write out is never passed over.
pub fn advance(stage: RenderStage, succeeded: bool) -> (progress: Progress)
    ensures
        progress == progress_after(stage, succeeded),
        progress is Failed <==> !succeeded,
        progress matches Progress::Continue(next) ==> stages_left(next) + 1 == stages_left(stage),
        progress is Finished <==> succeeded && stage == RenderStage::Present,
{
    if !succeeded {
        let error = match stage {
            RenderStage::Surface => RenderError::Surface,
            RenderStage::Axes | RenderStage::Mesh | RenderStage::Series => RenderError::Drawing,
            RenderStage::Present => RenderError::Finalization,
        };
        return Progress::Failed(error);
    }
    match stage {
        RenderStage::Surface => Progress::Continue(RenderStage::Axes),
        RenderStage::Axes => Progress::Continue(RenderStage::Mesh),
        RenderStage::Mesh => Progress::Continue(RenderStage::Series),
        RenderStage::Series => Progress::Continue(RenderStage::Present),
        RenderStage::Present => Progress::Finished,
    }
}

} // verus!
