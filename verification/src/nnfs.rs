//! Values exchanged with the system's file-system functions.

use vstd::prelude::*;

verus! {

/// An open file of the system's file-system functions.
#[derive(Debug, Copy, Clone, PartialEq, Eq, Structural)]
pub struct FileHandle {
    raw: u64,
}

impl View for FileHandle {
    type V = u64;

    closed spec fn view(&self) -> u64 {
        self.raw
    }
}

impl FileHandle {
    /// The file handle with this raw value.
    pub fn new(raw: u64) -> (r: Self)
        ensures
            r@ == raw,
    {
        FileHandle { raw }
    }

    /// The raw value of the handle.
    pub fn into_inner(self) -> (r: u64)
        ensures
            r == self@,
    {
        self.raw
    }
}

/// Options of a file write.
#[derive(Debug, Copy, Clone, PartialEq, Eq, Structural)]
pub struct WriteOptions {
    raw: u32,
}

impl View for WriteOptions {
    type V = u32;

    closed spec fn view(&self) -> u32 {
        self.raw
    }
}

impl WriteOptions {
    /// Flush the file after writing.
    pub const FLUSH: u32 = 1;

    /// The options with these raw bits.
    pub fn new(raw: u32) -> (r: Self)
        ensures
            r@ == raw,
    {
        WriteOptions { raw }
    }

    /// The raw bits of the options.
    pub fn bits(&self) -> (r: u32)
        ensures
            r == self@,
    {
        self.raw
    }
}

/// How a file is opened.
#[derive(Debug, Copy, Clone, PartialEq, Eq, Structural)]
pub struct OpenMode {
    raw: u32,
}

impl View for OpenMode {
    type V = u32;

    closed spec fn view(&self) -> u32 {
        self.raw
    }
}

impl OpenMode {
    pub const READ: u32 = 1;
    pub const WRITE: u32 = 2;
    pub const APPEND: u32 = 4;
    pub const READ_WRITE: u32 = 3;
    pub const WRITE_APPEND: u32 = 6;

    /// The mode with these raw bits.
    pub fn new(raw: u32) -> (r: Self)
        ensures
            r@ == raw,
    {
        OpenMode { raw }
    }

    /// The raw bits of the mode.
    pub fn bits(&self) -> (r: u32)
        ensures
            r == self@,
    {
        self.raw
    }
}

/// The combined modes are the unions of the single ones.
pub proof fn lemma_open_mode_unions()
    ensures
        OpenMode::READ_WRITE == OpenMode::READ | OpenMode::WRITE,
        OpenMode::WRITE_APPEND == OpenMode::WRITE | OpenMode::APPEND,
{
    assert(3u32 == 1u32 | 2u32) by (bit_vector);
    assert(6u32 == 2u32 | 4u32) by (bit_vector);
}

} // verus!
