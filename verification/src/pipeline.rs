//! The run's state machine and a model of the scratch directory.
//!
//! A run is a degenerate linear state machine: write the source document,
//! then invoke the three external stages in strict sequence, each attempted
//! only if everything before it succeeded, and every failure leading to a
//! single `Failed` sink after stale-file cleanup. The model tracks which of
//! the four fixed scratch files are present, so that the cleanup guarantees
//! can be stated and proved.

use crate::stages::Stage;
use vstd::prelude::*;

verus! {

/// Progress of one conversion run.
#[derive(Clone, Copy, PartialEq, Eq, Structural, Debug)]
pub enum RunState {
    /// The run has begun; the source document is not written yet.
    Start,
    /// The source document has been written.
    TemplateWritten,
    /// The typesetting stage produced the device file.
    Typeset,
    /// The rasterization stage produced the raw bitmap.
    Rasterized,
    /// The post-processing stage produced the result bitmap: full success.
    PostProcessed,
    /// Some step failed; stale-file cleanup has run and the run is over.
    Failed,
}

/// Which of the four fixed scratch files are present.
#[derive(Clone, Copy, PartialEq, Eq, Structural, Debug)]
pub struct ScratchFiles {
    /// The generated source document.
    pub tex: bool,
    /// The device-independent intermediate file.
    pub dvi: bool,
    /// The raw rendered bitmap.
    pub png: bool,
    /// The final trimmed, bordered bitmap.
    pub result: bool,
}

/// No scratch file present: the state after stale-file cleanup.
pub open spec fn no_files() -> ScratchFiles {
    ScratchFiles { tex: false, dvi: false, png: false, result: false }
}

/// One piece of work in a run: writing the source document, or one of the
/// three external invocations.
#[derive(Clone, Copy, PartialEq, Eq, Structural, Debug)]
pub enum Step {
    WriteSource,
    Invoke(Stage),
}

/// The step a run attempts next in each state; `None` once the run is over.
pub open spec fn next_step_of(s: RunState) -> Option<Step> {
    match s {
        RunState::Start => Some(Step::WriteSource),
        RunState::TemplateWritten => Some(Step::Invoke(Stage::Typeset)),
        RunState::Typeset => Some(Step::Invoke(Stage::Rasterize)),
        RunState::Rasterized => Some(Step::Invoke(Stage::Postprocess)),
        RunState::PostProcessed => None,
        RunState::Failed => None,
    }
}

/// The state after the step attempted in `s` reports its outcome: success
/// advances the linear machine; any failure moves to the `Failed` sink.
pub open spec fn state_after(s: RunState, ok: bool) -> RunState {
    if ok {
        match s {
            RunState::Start => RunState::TemplateWritten,
            RunState::TemplateWritten => RunState::Typeset,
            RunState::Typeset => RunState::Rasterized,
            RunState::Rasterized => RunState::PostProcessed,
            _ => s,
        }
    } else {
        RunState::Failed
    }
}

/// The scratch files after the step attempted in `s` reports its outcome:
/// a successful step adds the one file it produces; any failure triggers
/// stale-file cleanup, which removes all four fixed files.
pub open spec fn files_after(s: RunState, f: ScratchFiles, ok: bool) -> ScratchFiles {
    if ok {
        match s {
            RunState::Start => ScratchFiles { tex: true, ..f },
            RunState::TemplateWritten => ScratchFiles { dvi: true, ..f },
            RunState::Typeset => ScratchFiles { png: true, ..f },
            RunState::Rasterized => ScratchFiles { result: true, ..f },
            _ => f,
        }
    } else {
        no_files()
    }
}

/// Stale-file cleanup over the model: every fixed file is removed, and a
/// missing file is silently ignored, so the result never depends on what
/// was present.
pub fn cleanup_files(f: ScratchFiles) -> (r: ScratchFiles)
    ensures
        r == no_files(),
{
    ScratchFiles { tex: false, dvi: false, png: false, result: false }
}

/// The step to attempt next, or `None` once the run has succeeded or failed.
pub fn next_step(s: RunState) -> (r: Option<Step>)
    ensures
        r == next_step_of(s),
{
    match s {
        RunState::Start => Some(Step::WriteSource),
        RunState::TemplateWritten => Some(Step::Invoke(Stage::Typeset)),
        RunState::Typeset => Some(Step::Invoke(Stage::Rasterize)),
        RunState::Rasterized => Some(Step::Invoke(Stage::Postprocess)),
        RunState::PostProcessed => None,
        RunState::Failed => None,
    }
}

/// Record the outcome of the step attempted in state `s`: on success the
/// machine advances and the step's product joins the scratch files; on
/// failure the run moves to `Failed` after stale-file cleanup.
pub fn apply_outcome(s: RunState, f: ScratchFiles, ok: bool) -> (r: (RunState, ScratchFiles))
    requires
        next_step_of(s) is Some,
    ensures
        r.0 == state_after(s, ok),
        r.1 == files_after(s, f, ok),
{
    if ok {
        let next = match s {
            RunState::Start => RunState::TemplateWritten,
            RunState::TemplateWritten => RunState::Typeset,
            RunState::Typeset => RunState::Rasterized,
            RunState::Rasterized => RunState::PostProcessed,
            _ => s,
        };
        let files = match s {
            RunState::Start => ScratchFiles { tex: true, ..f },
            RunState::TemplateWritten => ScratchFiles { dvi: true, ..f },
            RunState::Typeset => ScratchFiles { png: true, ..f },
            RunState::Rasterized => ScratchFiles { result: true, ..f },
            _ => f,
        };
        (next, files)
    } else {
        (RunState::Failed, cleanup_files(f))
    }
}

/// How one whole run ends: the final state, the scratch files left behind,
/// and the step that failed, if any.
#[derive(Clone, Copy, PartialEq, Eq, Structural, Debug)]
pub struct RunReport {
    pub state: RunState,
    pub files: ScratchFiles,
    pub failed_step: Option<Step>,
}

/// One whole run over the model: startup cleanup of whatever the previous
/// run left, then the four steps in strict sequence, stopping at the first
/// failure; a later step's outcome plays no part once an earlier one failed.
pub open spec fn run_outcome(
    start_files: ScratchFiles,
    write_ok: bool,
    typeset_ok: bool,
    raster_ok: bool,
    post_ok: bool,
) -> RunReport {
    let f0 = no_files();
    if !write_ok {
        RunReport {
            state: RunState::Failed,
            files: files_after(RunState::Start, f0, false),
            failed_step: Some(Step::WriteSource),
        }
    } else {
        let f1 = files_after(RunState::Start, f0, true);
        if !typeset_ok {
            RunReport {
                state: RunState::Failed,
                files: files_after(RunState::TemplateWritten, f1, false),
                failed_step: Some(Step::Invoke(Stage::Typeset)),
            }
        } else {
            let f2 = files_after(RunState::TemplateWritten, f1, true);
            if !raster_ok {
                RunReport {
                    state: RunState::Failed,
                    files: files_after(RunState::Typeset, f2, false),
                    failed_step: Some(Step::Invoke(Stage::Rasterize)),
                }
            } else {
                let f3 = files_after(RunState::Typeset, f2, true);
                if !post_ok {
                    RunReport {
                        state: RunState::Failed,
                        files: files_after(RunState::Rasterized, f3, false),
                        failed_step: Some(Step::Invoke(Stage::Postprocess)),
                    }
                } else {
                    RunReport {
                        state: RunState::PostProcessed,
                        files: files_after(RunState::Rasterized, f3, true),
                        failed_step: None,
                    }
                }
            }
        }
    }
}

/// Drive one whole run over the model, each step's outcome given up front.
/// The real pipeline interleaves the same decisions with the actual I/O by
/// calling `next_step` and `apply_outcome` one step at a time.
pub fn run_pipeline(
    start_files: ScratchFiles,
    write_ok: bool,
    typeset_ok: bool,
    raster_ok: bool,
    post_ok: bool,
) -> (r: RunReport)
    ensures
        r == run_outcome(start_files, write_ok, typeset_ok, raster_ok, post_ok),
{
    let f0 = cleanup_files(start_files);
    let (s1, f1) = apply_outcome(RunState::Start, f0, write_ok);
    if !write_ok {
        return RunReport { state: s1, files: f1, failed_step: Some(Step::WriteSource) };
    }
    let (s2, f2) = apply_outcome(s1, f1, typeset_ok);
    if !typeset_ok {
        return RunReport { state: s2, files: f2, failed_step: Some(Step::Invoke(Stage::Typeset)) };
    }
    let (s3, f3) = apply_outcome(s2, f2, raster_ok);
    if !raster_ok {
        return RunReport {
            state: s3,
            files: f3,
            failed_step: Some(Step::Invoke(Stage::Rasterize)),
        };
    }
    let (s4, f4) = apply_outcome(s3, f3, post_ok);
    if !post_ok {
        return RunReport {
            state: s4,
            files: f4,
            failed_step: Some(Step::Invoke(Stage::Postprocess)),
        };
    }
    RunReport { state: s4, files: f4, failed_step: None }
}

/// The process exit status a finished run maps to: 0 exactly on full
/// success, 1 on failure.
pub fn exit_code(s: RunState) -> (r: i32)
    requires
        s is PostProcessed || s is Failed,
    ensures
        r == (if s is PostProcessed { 0int } else { 1int }),
        r == 0 <==> s is PostProcessed,
{
    match s {
        RunState::PostProcessed => 0,
        _ => 1,
    }
}

/// Startup cleanup erases everything a previous run left in the scratch
/// directory, so a run's report never depends on the files found at its
/// start.
pub proof fn lemma_run_ignores_leftover_files(
    f1: ScratchFiles,
    f2: ScratchFiles,
    write_ok: bool,
    typeset_ok: bool,
    raster_ok: bool,
    post_ok: bool,
)
    ensures
        run_outcome(f1, write_ok, typeset_ok, raster_ok, post_ok) == run_outcome(
            f2,
            write_ok,
            typeset_ok,
            raster_ok,
            post_ok,
        ),
{
}

/// Re-running after a fully successful run succeeds again: the second run
/// starts from whatever the first left behind, cleans it away, and ends in
/// full success with the result bitmap present, exactly like the first.
pub proof fn lemma_rerun_succeeds(start_files: ScratchFiles)
    ensures
        ({
            let first = run_outcome(start_files, true, true, true, true);
            let second = run_outcome(first.files, true, true, true, true);
            &&& first.state is PostProcessed
            &&& first.files.result
            &&& second.state is PostProcessed
            &&& second.files.result
            &&& second == first
        }),
{
}

/// If the typesetting stage fails, no later stage is attempted — the
/// outcomes of rasterization and post-processing play no part — and the
/// failure-path cleanup leaves none of the four fixed files, the source
/// document included.
pub proof fn lemma_typeset_failure_cleans(
    start_files: ScratchFiles,
    raster_ok: bool,
    post_ok: bool,
)
    ensures
        run_outcome(start_files, true, false, raster_ok, post_ok) == (RunReport {
            state: RunState::Failed,
            files: no_files(),
            failed_step: Some(Step::Invoke(Stage::Typeset)),
        }),
{
}

/// If the rasterization stage fails, cleanup removes all four fixed files,
/// even though the typesetting stage had already produced the device file.
pub proof fn lemma_raster_failure_cleans(start_files: ScratchFiles, post_ok: bool)
    ensures
        files_after(RunState::TemplateWritten, files_after(RunState::Start, no_files(), true), true).dvi,
        run_outcome(start_files, true, true, false, post_ok) == (RunReport {
            state: RunState::Failed,
            files: no_files(),
            failed_step: Some(Step::Invoke(Stage::Rasterize)),
        }),
{
}

/// On full success the run ends in `PostProcessed` with the result bitmap
/// present, and maps to exit status 0.
pub proof fn lemma_success_leaves_result(start_files: ScratchFiles)
    ensures
        run_outcome(start_files, true, true, true, true).state is PostProcessed,
        run_outcome(start_files, true, true, true, true).files.result,
        run_outcome(start_files, true, true, true, true).failed_step is None,
{
}

} // verus!
