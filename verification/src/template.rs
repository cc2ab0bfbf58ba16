//! The fixed document template and its application to the user's input.
//!
//! The input bytes are not parsed or validated: the generated source document
//! is exactly the preamble, the input, and the closer, concatenated.

use vstd::prelude::*;
use vstd::slice::slice_to_vec;
use vstd::string::StrSliceExecFns;
use vstd::utf8::encode_utf8;

verus! {

/// The text placed before the expression: a minimal document that loads the
/// math packages and the page-cropping package configured for tight,
/// non-paginated output, then opens an unnumbered display-math block.
pub open spec fn preamble_text() -> Seq<char> {
    "\n\\documentclass{article}\n\\usepackage{amsmath}\n\\usepackage{amsthm}\n\\usepackage{amssymb}\n\\usepackage{bm}\n\\usepackage[active,displaymath,textmath,tightpage]{preview}\n\\pagestyle{empty}\n\\begin{document}\n\\begin{equation*}\n"@
}

/// The text placed after the expression: it closes the display-math block and
/// the document.
pub open spec fn closer_text() -> Seq<char> {
    "\\end{equation*}\n\\end{document}\n"@
}

/// The preamble as the bytes actually written to the source file.
pub open spec fn preamble_bytes() -> Seq<u8> {
    encode_utf8(preamble_text())
}

/// The closer as the bytes actually written to the source file.
pub open spec fn closer_bytes() -> Seq<u8> {
    encode_utf8(closer_text())
}

/// The full source document generated for a given input: the preamble bytes,
/// the input bytes untouched, and the closer bytes.
pub open spec fn document_bytes(input: Seq<u8>) -> Seq<u8> {
    preamble_bytes() + input + closer_bytes()
}

/// The fixed preamble, for callers that write or inspect the document text.
pub fn preamble_str() -> (r: &'static str)
    ensures
        r@ == preamble_text(),
{
    "\n\\documentclass{article}\n\\usepackage{amsmath}\n\\usepackage{amsthm}\n\\usepackage{amssymb}\n\\usepackage{bm}\n\\usepackage[active,displaymath,textmath,tightpage]{preview}\n\\pagestyle{empty}\n\\begin{document}\n\\begin{equation*}\n"
}

/// The fixed closer, for callers that write or inspect the document text.
pub fn closer_str() -> (r: &'static str)
    ensures
        r@ == closer_text(),
{
    "\\end{equation*}\n\\end{document}\n"
}

/// Wrap the input bytes in the fixed template. The input is treated as an
/// opaque byte sequence: the result is the exact concatenation
/// preamble + input + closer, with no transformation of the input.
pub fn render_document(input: &[u8]) -> (r: Vec<u8>)
    ensures
        r@ == document_bytes(input@),
{
    let mut out: Vec<u8> = preamble_str().as_bytes_vec();
    let mut middle: Vec<u8> = slice_to_vec(input);
    out.append(&mut middle);
    let mut end: Vec<u8> = closer_str().as_bytes_vec();
    out.append(&mut end);
    out
}

} // verus!
