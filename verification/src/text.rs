//! Names and messages.

use vstd::prelude::*;
use vstd::string::*;

verus! {

/// `first` followed by `second`.
pub fn joined(first: &str, second: &str) -> (r: String)
    ensures
        r@ == first@ + second@,
{
    let mut out: String = first.to_owned();
    out.append(second);
    out
}

/// The name under which an input is known: the last component of its path where that is text,
/// and empty otherwise.
pub fn input_name(file_name: Option<&str>) -> (r: String)
    ensures
        r@ == match file_name {
            Some(name) => name@,
            None => Seq::<char>::empty(),
        },
{
    match file_name {
        Some(name) => name.to_owned(),
        None => String::new(),
    }
}

/// Why the edited preview could not be opened.
pub fn preview_open_failure(cause: &str) -> (r: String)
    ensures
        r@ == "Failed to open preview JPEG: "@ + cause@,
{
    joined("Failed to open preview JPEG: ", cause)
}

/// Why there is no compressed input to embed.
pub fn compression_join_failure(cause: &str) -> (r: String)
    ensures
        r@ == "Failed to join compression thread: "@ + cause@,
{
    joined("Failed to join compression thread: ", cause)
}

/// Why the replacement of a preview did not start.
pub fn worker_spawn_failure(cause: &str) -> (r: String)
    ensures
        r@ == "Failed to spawn reembed thread: "@ + cause@,
{
    joined("Failed to spawn reembed thread: ", cause)
}

/// Why the shell completions were not generated.
pub fn completions_failure(cause: &str) -> (r: String)
    ensures
        r@ == "completions build failed: "@ + cause@,
{
    joined("completions build failed: ", cause)
}

/// The name of the manual page of a subcommand.
pub fn subcommand_page_name(program: &str, subcommand: &str) -> (r: String)
    ensures
        r@ == program@ + "-"@ + subcommand@,
{
    joined(joined(program, "-").as_str(), subcommand)
}

/// The file of a manual page.
pub fn page_file_name(page: &str) -> (r: String)
    ensures
        r@ == page@ + ".1"@,
{
    joined(page, ".1")
}

} // verus!
