//! Reading progress as the server stores it.

use vstd::prelude::*;

verus! {

/// How far a book has been read.
#[derive(Clone, Copy, Debug, PartialEq, Eq, Structural)]
pub enum Progression {
    /// Reading a book: the byte position in the chapter (-1 when unknown),
    /// the page (-1 when unknown) and the chapter.
    Ebook { char_pos: i64, page: i64, chapter: i64 },
    /// The book has been read to its end.
    Complete,
}

/// What to send to the server about the reading progress.
#[derive(Clone, Copy, Debug, PartialEq, Eq, Structural)]
pub enum ProgressUpload {
    /// Remove the stored progress.
    Remove,
    /// Store this progress.
    Update(Progression),
    /// The stored progress is already this one: send nothing.
    Unchanged,
}

/// How the reader loads chapters.
#[derive(Clone, Copy, Debug, PartialEq, Eq, Structural)]
pub enum ReaderLoadType {
    All,
    Select,
}

} // verus!
