//! The settings that the command line gives.

use vstd::prelude::*;

verus! {

/// What the command line asks for.
#[derive(Debug)]
pub struct CLI {
    /// The name the program was started under; notes are kept per name.
    pub exe_name: String,
    /// Weeks from the current one: negative for past weeks.
    pub week_offset: i64,
    /// The editor to open the note in.
    pub editor: String,
    /// Print the note rendered for the terminal instead of editing it.
    pub print_md: bool,
    /// Print the note's path instead of editing it.
    pub print_path: bool,
}

} // verus!
