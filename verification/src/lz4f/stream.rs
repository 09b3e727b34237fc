//! Builders of streaming compressors and decompressors, and the buffers
//! that streaming uses.

use vstd::prelude::*;
use std::convert::TryInto;
use vstd::std_specs::convert::TryIntoSpec;
use crate::common::DEFAULT_BUF_SIZE;
use super::bound::{compress_bound, compress_bound_spec, LZ4F_HEADER_SIZE_MAX};
use super::dictionary::Dictionary;
use super::error::{Error, Result};
use super::frame_info::{BlockChecksum, BlockMode, BlockSize, ContentChecksum, FrameInfo};
use super::preferences::{AutoFlush, CompressionLevel, FavorDecSpeed, Preferences};

verus! {

/// A builder struct to create a streaming compressor around `device`.
pub struct CompressorBuilder<D> {
    device: D,
    pref: Preferences,
    dict: Option<Dictionary>,
}

impl<D> CompressorBuilder<D> {
    /// The device that the compressor will read from or write to.
    pub closed spec fn device_spec(&self) -> D {
        self.device
    }

    /// The preferences that the compressor will write its frame with.
    pub closed spec fn prefs_spec(&self) -> Preferences {
        self.pref
    }

    /// The dictionary that the compressor will use.
    pub closed spec fn dict_spec(&self) -> Option<Dictionary> {
        self.dict
    }

    /// Create a builder with the default preferences and no dictionary.
    pub fn new(device: D) -> (r: Self)
        ensures
            r.device_spec() == device,
            r.prefs_spec() == Preferences::default_spec(),
            r.dict_spec() is None,
    {
        CompressorBuilder { device, pref: Preferences::default(), dict: None }
    }

    /// Set the compression preferences.
    pub fn preferences(self, pref: Preferences) -> (r: Self)
        ensures
            r.device_spec() == self.device_spec(),
            r.prefs_spec() == pref,
            r.dict_spec() == self.dict_spec(),
    {
        CompressorBuilder { pref, ..self }
    }

    /// Set the block size.
    pub fn block_size(self, block_size: BlockSize) -> (r: Self)
        ensures
            r.device_spec() == self.device_spec(),
            r.prefs_spec() == (Preferences {
                frame_info: FrameInfo { block_size, ..self.prefs_spec().frame_info },
                ..self.prefs_spec()
            }),
            r.dict_spec() == self.dict_spec(),
    {
        let mut b = self;
        b.pref.set_block_size(block_size);
        b
    }

    /// Set the block mode.
    pub fn block_mode(self, block_mode: BlockMode) -> (r: Self)
        ensures
            r.device_spec() == self.device_spec(),
            r.prefs_spec() == (Preferences {
                frame_info: FrameInfo { block_mode, ..self.prefs_spec().frame_info },
                ..self.prefs_spec()
            }),
            r.dict_spec() == self.dict_spec(),
    {
        let mut b = self;
        b.pref.set_block_mode(block_mode);
        b
    }

    /// Set the content checksum.
    pub fn content_checksum(self, checksum: ContentChecksum) -> (r: Self)
        ensures
            r.device_spec() == self.device_spec(),
            r.prefs_spec() == (Preferences {
                frame_info: FrameInfo { content_checksum: checksum, ..self.prefs_spec().frame_info },
                ..self.prefs_spec()
            }),
            r.dict_spec() == self.dict_spec(),
    {
        let mut b = self;
        b.pref.set_content_checksum(checksum);
        b
    }

    /// Set the dict id.
    pub fn dict_id(self, dict_id: u32) -> (r: Self)
        ensures
            r.device_spec() == self.device_spec(),
            r.prefs_spec() == (Preferences {
                frame_info: FrameInfo { dict_id, ..self.prefs_spec().frame_info },
                ..self.prefs_spec()
            }),
            r.dict_spec() == self.dict_spec(),
    {
        let mut b = self;
        b.pref.set_dict_id(dict_id);
        b
    }

    /// Set the block checksum.
    pub fn block_checksum(self, checksum: BlockChecksum) -> (r: Self)
        ensures
            r.device_spec() == self.device_spec(),
            r.prefs_spec() == (Preferences {
                frame_info: FrameInfo { block_checksum: checksum, ..self.prefs_spec().frame_info },
                ..self.prefs_spec()
            }),
            r.dict_spec() == self.dict_spec(),
    {
        let mut b = self;
        b.pref.set_block_checksum(checksum);
        b
    }

    /// Set the compression level.
    pub fn compression_level(self, level: CompressionLevel) -> (r: Self)
        ensures
            r.device_spec() == self.device_spec(),
            r.prefs_spec() == (Preferences { compression_level: level.level_spec(), ..self.prefs_spec() }),
            r.dict_spec() == self.dict_spec(),
    {
        let mut b = self;
        b.pref.set_compression_level(level.as_i32());
        b
    }

    /// Set the decompression speed mode flag.
    pub fn favor_dec_speed(self, dec_speed: FavorDecSpeed) -> (r: Self)
        ensures
            r.device_spec() == self.device_spec(),
            r.prefs_spec() == (Preferences { favor_dec_speed: dec_speed, ..self.prefs_spec() }),
            r.dict_spec() == self.dict_spec(),
    {
        let mut b = self;
        b.pref.set_favor_dec_speed(dec_speed);
        b
    }

    /// Set the auto flush flag.
    pub fn auto_flush(self, auto_flush: AutoFlush) -> (r: Self)
        ensures
            r.device_spec() == self.device_spec(),
            r.prefs_spec() == (Preferences { auto_flush, ..self.prefs_spec() }),
            r.dict_spec() == self.dict_spec(),
    {
        let mut b = self;
        b.pref.set_auto_flush(auto_flush);
        b
    }

    /// Set the compression dictionary.
    pub fn dict(self, dict: Dictionary) -> (r: Self)
        ensures
            r.device_spec() == self.device_spec(),
            r.prefs_spec() == self.prefs_spec(),
            r.dict_spec() == Some(dict),
    {
        CompressorBuilder { dict: Some(dict), ..self }
    }

    /// Take the builder apart into its device, preferences and dictionary.
    pub fn into_parts(self) -> (r: (D, Preferences, Option<Dictionary>))
        ensures
            r == (self.device_spec(), self.prefs_spec(), self.dict_spec()),
    {
        (self.device, self.pref, self.dict)
    }

    /// Build the compressor that `T` stands for: the result of converting
    /// the builder into it.
    pub fn build<T>(self) -> (r: Result<T>) where Self: TryInto<T, Error = Error>
        ensures
            <Self as TryIntoSpec<T>>::obeys_try_into_spec() ==> r == <Self as TryIntoSpec<
                T,
            >>::try_into_spec(self),
    {
        self.try_into()
    }
}

/// A builder struct to create a streaming decompressor around `device`.
pub struct DecompressorBuilder<D> {
    device: D,
    capacity: usize,
}

impl<D> DecompressorBuilder<D> {
    /// The device that the decompressor will read from or write to.
    pub closed spec fn device_spec(&self) -> D {
        self.device
    }

    /// The capacity of the decompressor's internal buffer.
    pub closed spec fn capacity_spec(&self) -> usize {
        self.capacity
    }

    /// Create a builder with the default capacity.
    pub fn new(device: D) -> (r: Self)
        ensures
            r.device_spec() == device,
            r.capacity_spec() == DEFAULT_BUF_SIZE,
    {
        DecompressorBuilder { device, capacity: DEFAULT_BUF_SIZE }
    }

    /// Set the capacity of the internal buffer.
    pub fn capacity(self, capacity: usize) -> (r: Self)
        ensures
            r.device_spec() == self.device_spec(),
            r.capacity_spec() == capacity,
    {
        DecompressorBuilder { capacity, ..self }
    }

    /// Take the builder apart into its device and capacity.
    pub fn into_parts(self) -> (r: (D, usize))
        ensures
            r == (self.device_spec(), self.capacity_spec()),
    {
        (self.device, self.capacity)
    }

    /// Build the decompressor that `T` stands for: the result of converting
    /// the builder into it.
    pub fn build<T>(self) -> (r: Result<T>) where Self: TryInto<T, Error = Error>
        ensures
            <Self as TryIntoSpec<T>>::obeys_try_into_spec() ==> r == <Self as TryIntoSpec<
                T,
            >>::try_into_spec(self),
    {
        self.try_into()
    }
}

} // verus!
