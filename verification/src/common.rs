use vstd::prelude::*;

verus! {

/// The size of the chunks that decompression output grows by.
pub const DEFAULT_BUF_SIZE: usize = 0x2000;

/// Errors that do not come from liblz4 itself.
#[derive(Debug, Copy, Clone, PartialEq, Eq, Hash, Structural)]
pub enum ErrorKind {
    NullPointerUnexpected,
    CompressedDataIncomplete,
    DecompressionFailed,
    DictionaryChangedDuringDecompression,
    FrameHeaderInvalid,
}

/// The outcome of a compression or decompression call.
#[derive(Debug, Copy, Clone, PartialEq, Eq, Hash, Structural)]
pub struct Report {
    pub src_len: Option<usize>,
    pub dst_len: usize,
    pub expected_src_len: Option<usize>,
}

impl Report {
    /// A report that only gives the number of bytes written.
    pub fn with_dst_len(dst_len: usize) -> (r: Report)
        ensures
            r.dst_len == dst_len,
            r.src_len is None,
            r.expected_src_len is None,
    {
        Report { src_len: None, dst_len, expected_src_len: None }
    }

    /// Return the length of the consumed source, if it is known.
    pub fn src_len(&self) -> (r: Option<usize>)
        ensures
            r == self.src_len,
    {
        self.src_len
    }

    /// Return the number of bytes written to the destination.
    pub fn dst_len(&self) -> (r: usize)
        ensures
            r == self.dst_len,
    {
        self.dst_len
    }

    /// Return the hint of how many source bytes the next call expects.
    pub fn expected_src_len(&self) -> (r: Option<usize>)
        ensures
            r == self.expected_src_len,
    {
        self.expected_src_len
    }
}

impl Default for Report {
    fn default() -> (r: Report)
        ensures
            r.dst_len == 0,
            r.src_len is None,
            r.expected_src_len is None,
    {
        Report::with_dst_len(0)
    }
}

} // verus!
