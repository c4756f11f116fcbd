//! A single symbolic entry of the configuration.
use vstd::prelude::*;

verus! {

/// A single symbolic entry under `[symbolic.symbolic_name]`.
pub struct SymbolicEntry {
    /// Full origin path (source path prefix joined with the user input)
    pub origin_path: String,
    /// Target path where the symlink will be created
    pub target_path: String,
    /// Human readable millisecond timestamp, e.g. "2024-01-15 14:30:22 123"
    pub add_datetime: String,
    /// Whether the symlink has already been generated
    pub already_generate: bool,
}

/// A symbolic entry as plain values.
#[verifier::ext_equal]
pub struct EntryView {
    pub origin_path: Seq<char>,
    pub target_path: Seq<char>,
    pub add_datetime: Seq<char>,
    pub already_generate: bool,
}

impl View for SymbolicEntry {
    type V = EntryView;

    open spec fn view(&self) -> EntryView {
        EntryView {
            origin_path: self.origin_path@,
            target_path: self.target_path@,
            add_datetime: self.add_datetime@,
            already_generate: self.already_generate,
        }
    }
}

impl Clone for SymbolicEntry {
    fn clone(&self) -> (r: Self)
        ensures
            r@ == self@,
    {
        SymbolicEntry {
            origin_path: self.origin_path.clone(),
            target_path: self.target_path.clone(),
            add_datetime: self.add_datetime.clone(),
            already_generate: self.already_generate,
        }
    }
}

} // verus!
