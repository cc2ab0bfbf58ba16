use texsnip::pipeline::{
    apply_outcome, cleanup_files, exit_code, next_step, run_pipeline, RunState, ScratchFiles, Step,
};
use texsnip::stages::{
    device_file_name, raster_file_name, removable_file_names, result_file_name, scratch_dir_name,
    source_file_name, stage_args, stage_program, Stage,
};

fn empty() -> ScratchFiles {
    ScratchFiles { tex: false, dvi: false, png: false, result: false }
}

fn leftovers() -> ScratchFiles {
    ScratchFiles { tex: true, dvi: true, png: false, result: true }
}

#[test]
fn cleanup_removes_every_fixed_file() {
    assert_eq!(cleanup_files(leftovers()), empty());
    assert_eq!(cleanup_files(empty()), empty());
}

#[test]
fn steps_run_in_strict_sequence() {
    assert_eq!(next_step(RunState::Start), Some(Step::WriteSource));
    assert_eq!(next_step(RunState::TemplateWritten), Some(Step::Invoke(Stage::Typeset)));
    assert_eq!(next_step(RunState::Typeset), Some(Step::Invoke(Stage::Rasterize)));
    assert_eq!(next_step(RunState::Rasterized), Some(Step::Invoke(Stage::Postprocess)));
    assert_eq!(next_step(RunState::PostProcessed), None);
    assert_eq!(next_step(RunState::Failed), None);
}

#[test]
fn successful_steps_add_their_products() {
    let (s1, f1) = apply_outcome(RunState::Start, empty(), true);
    assert_eq!(s1, RunState::TemplateWritten);
    assert_eq!(f1, ScratchFiles { tex: true, dvi: false, png: false, result: false });
    let (s2, f2) = apply_outcome(s1, f1, true);
    assert_eq!(s2, RunState::Typeset);
    assert_eq!(f2, ScratchFiles { tex: true, dvi: true, png: false, result: false });
    let (s3, f3) = apply_outcome(s2, f2, true);
    assert_eq!(s3, RunState::Rasterized);
    assert_eq!(f3, ScratchFiles { tex: true, dvi: true, png: true, result: false });
    let (s4, f4) = apply_outcome(s3, f3, true);
    assert_eq!(s4, RunState::PostProcessed);
    assert_eq!(f4, ScratchFiles { tex: true, dvi: true, png: true, result: true });
}

#[test]
fn full_success_leaves_result_and_exit_zero() {
    let report = run_pipeline(leftovers(), true, true, true, true);
    assert_eq!(report.state, RunState::PostProcessed);
    assert!(report.files.result);
    assert_eq!(report.failed_step, None);
    assert_eq!(exit_code(report.state), 0);
}

#[test]
fn rerun_after_success_succeeds_again() {
    let first = run_pipeline(leftovers(), true, true, true, true);
    assert!(first.files.result);
    // The second run starts from exactly what the first left behind; its
    // startup cleanup must remove those artifacts before anything else.
    let second = run_pipeline(first.files, true, true, true, true);
    assert_eq!(second, first);
    assert!(second.files.result);
    assert_eq!(second.state, RunState::PostProcessed);
}

#[test]
fn typeset_failure_cleans_everything_and_names_the_stage() {
    // Malformed input makes the typesetting compiler exit non-zero; the
    // later stages' hypothetical outcomes play no part.
    let report = run_pipeline(leftovers(), true, false, true, true);
    assert_eq!(report.state, RunState::Failed);
    assert_eq!(report.files, empty());
    assert_eq!(report.failed_step, Some(Step::Invoke(Stage::Typeset)));
    assert_eq!(stage_program(Stage::Typeset), "latex");
    assert_ne!(exit_code(report.state), 0);
}

#[test]
fn raster_failure_cleans_even_the_device_file() {
    // Typesetting had already produced the device file...
    let (s, f) = apply_outcome(RunState::TemplateWritten, ScratchFiles { tex: true, dvi: false, png: false, result: false }, true);
    assert!(f.dvi);
    assert_eq!(s, RunState::Typeset);
    // ...but a rasterization failure still removes all four files.
    let report = run_pipeline(empty(), true, true, false, true);
    assert_eq!(report.state, RunState::Failed);
    assert_eq!(report.files, empty());
    assert_eq!(report.failed_step, Some(Step::Invoke(Stage::Rasterize)));
}

#[test]
fn postprocess_failure_cleans_everything() {
    let report = run_pipeline(empty(), true, true, true, false);
    assert_eq!(report.state, RunState::Failed);
    assert_eq!(report.files, empty());
    assert_eq!(report.failed_step, Some(Step::Invoke(Stage::Postprocess)));
    assert_eq!(stage_program(Stage::Postprocess), "magick");
}

#[test]
fn write_failure_fails_the_run() {
    let report = run_pipeline(leftovers(), false, true, true, true);
    assert_eq!(report.state, RunState::Failed);
    assert_eq!(report.files, empty());
    assert_eq!(report.failed_step, Some(Step::WriteSource));
    assert_eq!(exit_code(report.state), 1);
}

#[test]
fn fixed_names_match_the_toolchain() {
    assert_eq!(scratch_dir_name(), "texsnip");
    assert_eq!(source_file_name(), "input.tex");
    assert_eq!(device_file_name(), "input.dvi");
    assert_eq!(raster_file_name(), "out.png");
    assert_eq!(result_file_name(), "result.png");
    assert_eq!(
        removable_file_names(),
        vec!["input.tex", "input.dvi", "out.png", "result.png"]
    );
}

#[test]
fn fixed_argument_lists() {
    assert_eq!(stage_program(Stage::Typeset), "latex");
    assert_eq!(
        stage_args(Stage::Typeset),
        vec!["-halt-on-error", "-interaction", "batchmode", "input.tex"]
    );
    assert_eq!(stage_program(Stage::Rasterize), "dvipng");
    assert_eq!(
        stage_args(Stage::Rasterize),
        vec!["-D", "512", "-z", "9", "-o", "out.png", "input.dvi"]
    );
    assert_eq!(stage_program(Stage::Postprocess), "magick");
    assert_eq!(
        stage_args(Stage::Postprocess),
        vec![
            "convert",
            "out.png",
            "-trim",
            "+repage",
            "-bordercolor",
            "White",
            "-border",
            "64x64",
            "result.png"
        ]
    );
}
