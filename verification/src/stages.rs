//! The fixed names the pipeline uses: the scratch directory, the four
//! scratch file names, and the program and argument list of each of the
//! three external invocations.

use vstd::prelude::*;

verus! {

/// The three external invocations, in pipeline order: the typesetting
/// compiler, the raster renderer, and the image post-processor.
#[derive(Clone, Copy, PartialEq, Eq, Structural, Debug)]
pub enum Stage {
    Typeset,
    Rasterize,
    Postprocess,
}

/// Name of the scratch subdirectory under the system temporary-file root.
pub fn scratch_dir_name() -> (r: &'static str)
    ensures
        r@ == "texsnip"@,
{
    "texsnip"
}

/// Name of the generated source document.
pub fn source_file_name() -> (r: &'static str)
    ensures
        r@ == "input.tex"@,
{
    "input.tex"
}

/// Name of the device-independent intermediate file the typesetting stage
/// produces.
pub fn device_file_name() -> (r: &'static str)
    ensures
        r@ == "input.dvi"@,
{
    "input.dvi"
}

/// Name of the raw rendered bitmap the rasterization stage produces.
pub fn raster_file_name() -> (r: &'static str)
    ensures
        r@ == "out.png"@,
{
    "out.png"
}

/// Name of the final trimmed, white-bordered bitmap: the deliverable.
pub fn result_file_name() -> (r: &'static str)
    ensures
        r@ == "result.png"@,
{
    "result.png"
}

/// The fixed file names that stale-file cleanup removes, in order: the
/// source document, the device file, the raw bitmap, and the result bitmap.
pub fn removable_file_names() -> (r: Vec<&'static str>)
    ensures
        r@.len() == 4,
        r@[0]@ == "input.tex"@,
        r@[1]@ == "input.dvi"@,
        r@[2]@ == "out.png"@,
        r@[3]@ == "result.png"@,
{
    let mut names: Vec<&'static str> = Vec::new();
    names.push(source_file_name());
    names.push(device_file_name());
    names.push(raster_file_name());
    names.push(result_file_name());
    names
}

/// The program a stage invokes; it also names the stage in error messages.
pub open spec fn stage_program_text(s: Stage) -> Seq<char> {
    match s {
        Stage::Typeset => "latex"@,
        Stage::Rasterize => "dvipng"@,
        Stage::Postprocess => "magick"@,
    }
}

/// The fixed argument list handed to a stage's program: the typesetting
/// compiler runs non-interactively and halts on the first error; the
/// renderer uses a fixed resolution and compression level; the
/// post-processor trims the margins, resets the canvas offset and adds a
/// 64-pixel white border.
pub open spec fn stage_args_text(s: Stage) -> Seq<Seq<char>> {
    match s {
        Stage::Typeset => seq!["-halt-on-error"@, "-interaction"@, "batchmode"@, "input.tex"@],
        Stage::Rasterize => seq!["-D"@, "512"@, "-z"@, "9"@, "-o"@, "out.png"@, "input.dvi"@],
        Stage::Postprocess => seq![
            "convert"@,
            "out.png"@,
            "-trim"@,
            "+repage"@,
            "-bordercolor"@,
            "White"@,
            "-border"@,
            "64x64"@,
            "result.png"@,
        ],
    }
}

/// The program to invoke for a stage.
pub fn stage_program(s: Stage) -> (r: &'static str)
    ensures
        r@ == stage_program_text(s),
{
    match s {
        Stage::Typeset => "latex",
        Stage::Rasterize => "dvipng",
        Stage::Postprocess => "magick",
    }
}

/// The argument list to hand to a stage's program.
pub fn stage_args(s: Stage) -> (r: Vec<&'static str>)
    ensures
        r.deep_view() == stage_args_text(s),
{
    let mut args: Vec<&'static str> = Vec::new();
    match s {
        Stage::Typeset => {
            args.push("-halt-on-error");
            args.push("-interaction");
            args.push("batchmode");
            args.push("input.tex");
        },
        Stage::Rasterize => {
            args.push("-D");
            args.push("512");
            args.push("-z");
            args.push("9");
            args.push("-o");
            args.push("out.png");
            args.push("input.dvi");
        },
        Stage::Postprocess => {
            args.push("convert");
            args.push("out.png");
            args.push("-trim");
            args.push("+repage");
            args.push("-bordercolor");
            args.push("White");
            args.push("-border");
            args.push("64x64");
            args.push("result.png");
        },
    }
    args
}

} // verus!
