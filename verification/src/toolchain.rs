//! The calls into the `gcc` crate, which finds the C compiler and the
//! installed Visual Studio tools. Nothing here is proved: each contract is
//! taken from that crate's source.

use vstd::prelude::*;
use crate::text::has_substring;

verus! {

/// `gcc::Tool`: a compiler that was found. Nothing inside it is visible
/// here.
#[verifier::external_type_specification]
#[verifier::external_body]
pub struct ExTool(gcc::Tool);

/// `gcc::Error`: why no compiler was found. Nothing inside it is visible
/// here.
#[verifier::external_type_specification]
#[verifier::external_body]
pub struct ExToolError(gcc::Error);

/// `gcc::Build::try_get_compiler` on a fresh `gcc::Build`: the compiler for
/// the target that the process environment names, or the error of a
/// variable that is not set or a tool that is not found. The answer depends
/// on the environment and on what is installed, so nothing is claimed of it.
#[verifier::external_body]
#[allow(deprecated)]
pub(crate) fn resolve_tool() -> (r: Result<gcc::Tool, gcc::Error>) {
    gcc::Build::new().try_get_compiler()
}

/// `gcc::Tool::path`: the compiler's executable, as text; what is not valid
/// Unicode in it is replaced. Nothing is claimed of the text.
#[verifier::external_body]
pub(crate) fn tool_path(tool: &gcc::Tool) -> (r: String) {
    tool.path().to_string_lossy().into_owned()
}

/// `gcc::Tool::args`: the flags that the compiler always wants, as text, in
/// the order in which the tool lists them. Nothing is claimed of them.
#[verifier::external_body]
pub(crate) fn tool_flags(tool: &gcc::Tool) -> (r: Vec<String>) {
    tool.args().iter().map(|a| a.to_string_lossy().into_owned()).collect()
}

/// The `Debug` text of a `gcc::Error`. Nothing is claimed of it.
#[verifier::external_body]
pub(crate) fn tool_error_text(e: &gcc::Error) -> (r: String) {
    format!("{:?}", e)
}

/// `gcc::windows_registry::find`, rendered with `Debug`: a free-form
/// description of the installed tool, which holds its version. For a target
/// that is not MSVC the search always answers `None`; otherwise the answer
/// depends on the machine.
#[verifier::external_body]
pub(crate) fn describe_tool(target: &str, tool: &str) -> (r: String)
    ensures
        !has_substring(target@, "msvc"@) ==> r@ == "None"@,
{
    format!("{:?}", gcc::windows_registry::find(target, tool))
}

} // verus!
