//! The preamble that goes before every conversation: where it is looked for,
//! and what it says where none is found.

use vstd::prelude::*;

verus! {

/// The name of the file that holds the preamble.
pub const LUCIUS_CONTEXT_FILENAME: &'static str = "LUCIUS.md";

/// The preamble that is written where none is found.
pub const DEFAULT_LUCIUS_CONTEXT: &'static str = "# Lucius AI Assistant Context\n\nYou are Lucius, a helpful AI assistant. Respond concisely and accurately.";

/// What the search for the preamble does at a directory.
#[derive(Debug, PartialEq, Eq, Structural, Clone, Copy)]
pub enum ContextStep {
    /// The file is here: read it.
    Read,
    /// Look in the directory above.
    Ascend,
    /// The search has come to the root without finding the file: write the
    /// default preamble into the directory in which the search began, and
    /// read it from there.
    CreateDefault,
}

/// What the search does at a directory: it reads the file where it is found,
/// goes up where it is not, and at the root falls back on the default.
pub open spec fn context_step(found: bool, has_parent: bool) -> ContextStep {
    if found {
        ContextStep::Read
    } else if has_parent {
        ContextStep::Ascend
    } else {
        ContextStep::CreateDefault
    }
}

/// One step of the search for the preamble, which begins at a directory and
/// goes up from it: `found` says whether the directory holds the file, and
/// `has_parent` whether there is a directory above it.
pub fn load_lucius_context_from(found: bool, has_parent: bool) -> (step: ContextStep)
    ensures
        step == context_step(found, has_parent),
{
    if found {
        ContextStep::Read
    } else if has_parent {
        ContextStep::Ascend
    } else {
        ContextStep::CreateDefault
    }
}

/// Which of the directories on the way up is read from: the first that holds
/// the file; `None` where none does, and the default is written.
pub open spec fn first_found(found: Seq<bool>, from: int) -> Option<int>
    decreases found.len() - from,
{
    if from < 0 || from >= found.len() {
        None
    } else if found[from] {
        Some(from)
    } else {
        first_found(found, from + 1)
    }
}

/// The search, step by step, reads from the first directory on the way up
/// that holds the file, and falls back on the default exactly where none
/// does: `found[i]` says whether the `i`-th directory on the way holds the
/// file, the last one being the root.
pub proof fn lemma_search_reads_first(found: Seq<bool>, from: int)
    requires
        0 <= from < found.len(),
    ensures
        match first_found(found, from) {
            Some(i) => {
                &&& from <= i < found.len()
                &&& context_step(found[i], i + 1 < found.len()) == ContextStep::Read
                &&& forall|j: int|
                    from <= j < i ==> context_step(#[trigger] found[j], j + 1 < found.len())
                        == ContextStep::Ascend
            },
            None => {
                &&& context_step(found[found.len() - 1], false) == ContextStep::CreateDefault
                &&& forall|j: int|
                    from <= j < found.len() - 1 ==> context_step(
                        #[trigger] found[j],
                        j + 1 < found.len(),
                    ) == ContextStep::Ascend
            },
        },
    decreases found.len() - from,
{
    if !found[from] {
        if from + 1 < found.len() {
            lemma_search_reads_first(found, from + 1);
        } else {
        }
    }
}

} // verus!
