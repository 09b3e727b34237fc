use vstd::prelude::*;
use super::frame_info::{BlockChecksum, BlockMode, BlockSize, ContentChecksum, FrameInfo};

verus! {

/// Auto flush flag.
///
/// 1: always flush; reduces usage of internal buffers.
#[derive(Debug, Copy, Clone, PartialEq, Eq, Hash, Structural)]
pub enum AutoFlush {
    /// Default value
    Disabled,
    Enabled,
}

impl Default for AutoFlush {
    fn default() -> (r: AutoFlush)
        ensures
            r == AutoFlush::Disabled,
    {
        AutoFlush::Disabled
    }
}

/// Decompression speed flag.
///
/// 1: parser favors decompression speed vs compression ratio.
/// Only works for high compression modes.
#[derive(Debug, Copy, Clone, PartialEq, Eq, Hash, Structural)]
pub enum FavorDecSpeed {
    /// Default value
    Disabled,
    Enabled,
}

impl Default for FavorDecSpeed {
    fn default() -> (r: FavorDecSpeed)
        ensures
            r == FavorDecSpeed::Disabled,
    {
        FavorDecSpeed::Disabled
    }
}

pub const COMPRESSION_LEVEL_DEFAULT: i32 = 0;

pub const COMPRESSION_LEVEL_HIGH: i32 = 10;

pub const COMPRESSION_LEVEL_MAX: i32 = 12;

/// Compression level specifier.
#[derive(Debug, Copy, Clone, PartialEq, Eq, Hash, Structural)]
pub enum CompressionLevel {
    /// Custom compression level.
    /// Values larger then 12 are same as 12. Minus values trigger fast
    /// acceleration.
    Custom(i32),
    /// `Default` is same as `Custom(0)`
    Default,
    /// `High` is same as `Custom(10)`
    High,
    /// `Max` is same as `Custom(12)`
    Max,
}

impl CompressionLevel {
    /// The numeric compression level that this specifier stands for.
    pub open spec fn level_spec(self) -> i32 {
        match self {
            CompressionLevel::Custom(level) => level,
            CompressionLevel::Default => COMPRESSION_LEVEL_DEFAULT,
            CompressionLevel::High => COMPRESSION_LEVEL_HIGH,
            CompressionLevel::Max => COMPRESSION_LEVEL_MAX,
        }
    }

    /// Return the numeric compression level.
    pub fn as_i32(self) -> (r: i32)
        ensures
            r == self.level_spec(),
    {
        match self {
            CompressionLevel::Custom(level) => level,
            CompressionLevel::Default => COMPRESSION_LEVEL_DEFAULT,
            CompressionLevel::High => COMPRESSION_LEVEL_HIGH,
            CompressionLevel::Max => COMPRESSION_LEVEL_MAX,
        }
    }
}

/// `Default`, `High` and `Max` are the same as `Custom` of 0, 10 and 12.
pub proof fn lemma_named_levels_are_custom_levels()
    ensures
        CompressionLevel::Default.level_spec() == CompressionLevel::Custom(0).level_spec(),
        CompressionLevel::High.level_spec() == CompressionLevel::Custom(10).level_spec(),
        CompressionLevel::Max.level_spec() == CompressionLevel::Custom(12).level_spec(),
{
}

impl Default for CompressionLevel {
    fn default() -> (r: CompressionLevel)
        ensures
            r == CompressionLevel::Default,
    {
        CompressionLevel::Default
    }
}

/// Compression preferences.
#[derive(Debug, Copy, Clone, PartialEq, Eq, Hash, Structural)]
pub struct Preferences {
    pub frame_info: FrameInfo,
    pub compression_level: i32,
    pub auto_flush: AutoFlush,
    pub favor_dec_speed: FavorDecSpeed,
}

impl Preferences {
    /// The preferences that every field at its default value gives.
    pub open spec fn default_spec() -> Preferences {
        Preferences {
            frame_info: FrameInfo::default_spec(),
            compression_level: 0,
            auto_flush: AutoFlush::Disabled,
            favor_dec_speed: FavorDecSpeed::Disabled,
        }
    }

    /// Return the frame info.
    pub fn frame_info(&self) -> (r: FrameInfo)
        ensures
            r == self.frame_info,
    {
        self.frame_info
    }

    /// Return the compression level.
    pub fn compression_level(&self) -> (r: i32)
        ensures
            r == self.compression_level,
    {
        self.compression_level
    }

    /// Return the auto flush mode flag.
    pub fn auto_flush(&self) -> (r: AutoFlush)
        ensures
            r == self.auto_flush,
    {
        self.auto_flush
    }

    /// Return the decompression speed mode flag.
    pub fn favor_dec_speed(&self) -> (r: FavorDecSpeed)
        ensures
            r == self.favor_dec_speed,
    {
        self.favor_dec_speed
    }

    pub(crate) fn set_block_size(&mut self, block_size: BlockSize)
        ensures
            *final(self) == (Preferences {
                frame_info: FrameInfo { block_size, ..old(self).frame_info },
                ..*old(self)
            }),
    {
        self.frame_info.set_block_size(block_size);
    }

    pub(crate) fn set_block_mode(&mut self, block_mode: BlockMode)
        ensures
            *final(self) == (Preferences {
                frame_info: FrameInfo { block_mode, ..old(self).frame_info },
                ..*old(self)
            }),
    {
        self.frame_info.set_block_mode(block_mode);
    }

    pub(crate) fn set_content_checksum(&mut self, checksum: ContentChecksum)
        ensures
            *final(self) == (Preferences {
                frame_info: FrameInfo { content_checksum: checksum, ..old(self).frame_info },
                ..*old(self)
            }),
    {
        self.frame_info.set_content_checksum(checksum);
    }

    pub(crate) fn set_dict_id(&mut self, dict_id: u32)
        ensures
            *final(self) == (Preferences {
                frame_info: FrameInfo { dict_id, ..old(self).frame_info },
                ..*old(self)
            }),
    {
        self.frame_info.set_dict_id(dict_id);
    }

    pub(crate) fn set_block_checksum(&mut self, checksum: BlockChecksum)
        ensures
            *final(self) == (Preferences {
                frame_info: FrameInfo { block_checksum: checksum, ..old(self).frame_info },
                ..*old(self)
            }),
    {
        self.frame_info.set_block_checksum(checksum);
    }

    pub(crate) fn set_compression_level(&mut self, level: i32)
        ensures
            *final(self) == (Preferences { compression_level: level, ..*old(self) }),
    {
        self.compression_level = level;
    }

    pub(crate) fn set_favor_dec_speed(&mut self, dec_speed: FavorDecSpeed)
        ensures
            *final(self) == (Preferences { favor_dec_speed: dec_speed, ..*old(self) }),
    {
        self.favor_dec_speed = dec_speed;
    }

    pub(crate) fn set_auto_flush(&mut self, auto_flush: AutoFlush)
        ensures
            *final(self) == (Preferences { auto_flush, ..*old(self) }),
    {
        self.auto_flush = auto_flush;
    }
}

impl Default for Preferences {
    fn default() -> (r: Preferences)
        ensures
            r == Preferences::default_spec(),
    {
        Preferences {
            frame_info: FrameInfo::default(),
            compression_level: 0,
            auto_flush: AutoFlush::Disabled,
            favor_dec_speed: FavorDecSpeed::Disabled,
        }
    }
}

/// A builder struct to create a custom `Preferences`.
#[derive(Debug, Copy, Clone, PartialEq, Eq, Hash, Structural)]
pub struct PreferencesBuilder {
    pub prefs: Preferences,
}

impl PreferencesBuilder {
    /// Create a new `PreferencesBuilder` instance with the default
    /// configuration.
    pub fn new() -> (r: PreferencesBuilder)
        ensures
            r.prefs == Preferences::default_spec(),
    {
        PreferencesBuilder { prefs: Preferences::default() }
    }

    /// Set the block size.
    pub fn block_size(&mut self, block_size: BlockSize) -> (r: &mut Self)
        ensures
            r.prefs == (Preferences {
                frame_info: FrameInfo { block_size, ..old(self).prefs.frame_info },
                ..old(self).prefs
            }),
            *final(self) == *final(r),
    {
        self.prefs.set_block_size(block_size);
        self
    }

    /// Set the block mode.
    pub fn block_mode(&mut self, block_mode: BlockMode) -> (r: &mut Self)
        ensures
            r.prefs == (Preferences {
                frame_info: FrameInfo { block_mode, ..old(self).prefs.frame_info },
                ..old(self).prefs
            }),
            *final(self) == *final(r),
    {
        self.prefs.set_block_mode(block_mode);
        self
    }

    /// Set the content checksum.
    pub fn content_checksum(&mut self, checksum: ContentChecksum) -> (r: &mut Self)
        ensures
            r.prefs == (Preferences {
                frame_info: FrameInfo { content_checksum: checksum, ..old(self).prefs.frame_info },
                ..old(self).prefs
            }),
            *final(self) == *final(r),
    {
        self.prefs.set_content_checksum(checksum);
        self
    }

    /// Set the dict id.
    pub fn dict_id(&mut self, dict_id: u32) -> (r: &mut Self)
        ensures
            r.prefs == (Preferences {
                frame_info: FrameInfo { dict_id, ..old(self).prefs.frame_info },
                ..old(self).prefs
            }),
            *final(self) == *final(r),
    {
        self.prefs.set_dict_id(dict_id);
        self
    }

    /// Set the block checksum.
    pub fn block_checksum(&mut self, checksum: BlockChecksum) -> (r: &mut Self)
        ensures
            r.prefs == (Preferences {
                frame_info: FrameInfo { block_checksum: checksum, ..old(self).prefs.frame_info },
                ..old(self).prefs
            }),
            *final(self) == *final(r),
    {
        self.prefs.set_block_checksum(checksum);
        self
    }

    /// Set the compression level.
    pub fn compression_level(&mut self, level: i32) -> (r: &mut Self)
        ensures
            r.prefs == (Preferences { compression_level: level, ..old(self).prefs }),
            *final(self) == *final(r),
    {
        self.prefs.set_compression_level(level);
        self
    }

    /// Set the decompression speed mode flag.
    pub fn favor_dec_speed(&mut self, dec_speed: FavorDecSpeed) -> (r: &mut Self)
        ensures
            r.prefs == (Preferences { favor_dec_speed: dec_speed, ..old(self).prefs }),
            *final(self) == *final(r),
    {
        self.prefs.set_favor_dec_speed(dec_speed);
        self
    }

    /// Set the auto flush flag.
    pub fn auto_flush(&mut self, auto_flush: AutoFlush) -> (r: &mut Self)
        ensures
            r.prefs == (Preferences { auto_flush, ..old(self).prefs }),
            *final(self) == *final(r),
    {
        self.prefs.set_auto_flush(auto_flush);
        self
    }

    /// Return the preferences built so far.
    pub fn build(&self) -> (r: Preferences)
        ensures
            r == self.prefs,
    {
        self.prefs
    }
}

impl Default for PreferencesBuilder {
    fn default() -> (r: PreferencesBuilder)
        ensures
            r.prefs == Preferences::default_spec(),
    {
        PreferencesBuilder::new()
    }
}

} // verus!
