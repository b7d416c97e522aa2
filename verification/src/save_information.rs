use vstd::prelude::*;

verus! {

/// Where and in which notation a trained network or a training record
/// should be persisted. The writing itself belongs to the caller; this
/// type only carries the choice.
#[derive(Clone, Debug, PartialEq)]
pub struct SaveInformation {
    pub file_name: String,
    pub notation: FileNotation,
}

impl SaveInformation {
    /// Wraps a file name and a notation choice.
    pub fn new(file_name: String, notation: FileNotation) -> (r: Self)
        ensures
            r.file_name == file_name,
            r.notation == notation,
    {
        SaveInformation { file_name, notation }
    }

    /// The file name to save under.
    pub fn file_name(&self) -> (r: &String)
        ensures
            r == &self.file_name,
    {
        &self.file_name
    }

    /// The notation to save in.
    pub fn notation(&self) -> (r: FileNotation)
        ensures
            r == self.notation,
    {
        self.notation
    }
}

/// The interchangeable notations a network can be persisted in.
#[derive(Clone, Copy, Debug, PartialEq, Eq, Structural)]
pub enum FileNotation {
    Bytes,
    JSON,
    RON,
    TOML,
}

} // verus!
