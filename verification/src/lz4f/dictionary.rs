use vstd::prelude::*;
use std::sync::Arc;
use super::error::Result;
use super::bytes::copy_bytes;

verus! {

/// The bytes of a compression dictionary.
pub struct DictionaryHandle {
    data: Vec<u8>,
}

impl DictionaryHandle {
    /// The bytes of the dictionary.
    pub closed spec fn bytes(&self) -> Seq<u8> {
        self.data@
    }

    /// Keep a copy of `data` as a dictionary.
    pub fn new(data: &[u8]) -> (r: Result<DictionaryHandle>)
        ensures
            r matches Ok(h) && h.bytes() == data@,
    {
        Ok(DictionaryHandle { data: copy_bytes(data) })
    }

    /// Return the bytes of the dictionary.
    pub fn data(&self) -> (r: &[u8])
        ensures
            r@ == self.bytes(),
    {
        self.data.as_slice()
    }
}

/// A dictionary for the compression of small messages, shared between the
/// compressors that use it.
///
/// LZ4 can ingest any input as dictionary, though only the last 64 KB are
/// useful.
#[derive(Clone)]
pub struct Dictionary(Arc<DictionaryHandle>);

impl View for Dictionary {
    type V = Seq<u8>;

    closed spec fn view(&self) -> Seq<u8> {
        self.0.bytes()
    }
}

impl Dictionary {
    /// Builds a new `Dictionary`.
    pub fn new(data: &[u8]) -> (r: Result<Dictionary>)
        ensures
            r matches Ok(d) && d@ == data@,
    {
        let handle = DictionaryHandle::new(data)?;
        Ok(Dictionary(Arc::new(handle)))
    }

    /// Return the bytes of the dictionary.
    pub fn data(&self) -> (r: &[u8])
        ensures
            r@ == self@,
    {
        self.0.data()
    }

    /// Return the shared bytes of the dictionary.
    pub(crate) fn handle(&self) -> (r: &DictionaryHandle)
        ensures
            r.bytes() == self@,
    {
        &self.0
    }
}

} // verus!
