use vstd::prelude::*;

verus! {

/// Compression block size flag.
///
/// The larger the block size, the (slightly) better the compression ratio,
/// though there are diminishing returns. Larger blocks also increase memory
/// usage on both compression and decompression sides.
#[derive(Debug, Copy, Clone, PartialEq, Eq, Hash, Structural)]
pub enum BlockSize {
    /// Default value (64 KB blocks)
    Default,
    Max64KB,
    Max256KB,
    Max1MB,
    Max4MB,
}

impl BlockSize {
    /// The block size identifier that the LZ4 frame format writes for this flag.
    pub open spec fn id_spec(self) -> u32 {
        match self {
            BlockSize::Default => 0,
            BlockSize::Max64KB => 4,
            BlockSize::Max256KB => 5,
            BlockSize::Max1MB => 6,
            BlockSize::Max4MB => 7,
        }
    }

    /// The maximum number of bytes of one block.
    pub open spec fn bytes_spec(self) -> nat {
        match self {
            BlockSize::Default => 0x10000,
            BlockSize::Max64KB => 0x10000,
            BlockSize::Max256KB => 0x40000,
            BlockSize::Max1MB => 0x100000,
            BlockSize::Max4MB => 0x400000,
        }
    }

    /// Return the block size identifier of the LZ4 frame format.
    pub fn id(&self) -> (r: u32)
        ensures
            r == self.id_spec(),
    {
        match self {
            BlockSize::Default => 0,
            BlockSize::Max64KB => 4,
            BlockSize::Max256KB => 5,
            BlockSize::Max1MB => 6,
            BlockSize::Max4MB => 7,
        }
    }

    /// Return the flag that a block size identifier of the LZ4 frame format
    /// stands for, if it stands for one.
    pub fn from_id(id: u32) -> (r: Option<BlockSize>)
        ensures
            r matches Some(b) ==> b.id_spec() == id,
            r is None <==> !(id == 0 || 4 <= id <= 7),
    {
        if id == 0 {
            Some(BlockSize::Default)
        } else if id == 4 {
            Some(BlockSize::Max64KB)
        } else if id == 5 {
            Some(BlockSize::Max256KB)
        } else if id == 6 {
            Some(BlockSize::Max1MB)
        } else if id == 7 {
            Some(BlockSize::Max4MB)
        } else {
            None
        }
    }

    /// Return the maximum number of bytes of one block.
    pub fn bytes(&self) -> (r: usize)
        ensures
            r == self.bytes_spec(),
    {
        match self {
            BlockSize::Default => 0x10000,
            BlockSize::Max64KB => 0x10000,
            BlockSize::Max256KB => 0x40000,
            BlockSize::Max1MB => 0x100000,
            BlockSize::Max4MB => 0x400000,
        }
    }
}

impl Default for BlockSize {
    fn default() -> (r: BlockSize)
        ensures
            r == BlockSize::Default,
    {
        BlockSize::Default
    }
}

/// Compression block mode flag.
///
/// Linked blocks sharply reduce inefficiencies when using small blocks,
/// they compress better. However, some LZ4 decoders are only compatible
/// with independent blocks.
#[derive(Debug, Copy, Clone, PartialEq, Eq, Hash, Structural)]
pub enum BlockMode {
    /// Default value
    Linked,
    Independent,
}

impl Default for BlockMode {
    fn default() -> (r: BlockMode)
        ensures
            r == BlockMode::Linked,
    {
        BlockMode::Linked
    }
}

/// Compression content checksum flag.
#[derive(Debug, Copy, Clone, PartialEq, Eq, Hash, Structural)]
pub enum ContentChecksum {
    /// Default value
    Disabled,
    Enabled,
}

impl Default for ContentChecksum {
    fn default() -> (r: ContentChecksum)
        ensures
            r == ContentChecksum::Disabled,
    {
        ContentChecksum::Disabled
    }
}

/// Compression frame type flag.
#[derive(Debug, Copy, Clone, PartialEq, Eq, Hash, Structural)]
pub enum FrameType {
    Frame,
    SkippableFrame,
}

impl Default for FrameType {
    fn default() -> (r: FrameType)
        ensures
            r == FrameType::Frame,
    {
        FrameType::Frame
    }
}

/// Compression block checksum flag.
#[derive(Debug, Copy, Clone, PartialEq, Eq, Hash, Structural)]
pub enum BlockChecksum {
    /// Default value
    Disabled,
    Enabled,
}

impl Default for BlockChecksum {
    fn default() -> (r: BlockChecksum)
        ensures
            r == BlockChecksum::Disabled,
    {
        BlockChecksum::Disabled
    }
}

/// LZ4 frame parameters.
#[derive(Debug, Copy, Clone, PartialEq, Eq, Hash, Structural)]
pub struct FrameInfo {
    pub block_size: BlockSize,
    pub block_mode: BlockMode,
    pub content_checksum: ContentChecksum,
    pub frame_type: FrameType,
    pub content_size: u64,
    pub dict_id: u32,
    pub block_checksum: BlockChecksum,
}

impl FrameInfo {
    /// The frame parameters that every field at its default value gives.
    pub open spec fn default_spec() -> FrameInfo {
        FrameInfo {
            block_size: BlockSize::Default,
            block_mode: BlockMode::Linked,
            content_checksum: ContentChecksum::Disabled,
            frame_type: FrameType::Frame,
            content_size: 0,
            dict_id: 0,
            block_checksum: BlockChecksum::Disabled,
        }
    }

    /// Build frame parameters from each of their fields.
    pub fn from_parts(
        block_size: BlockSize,
        block_mode: BlockMode,
        content_checksum: ContentChecksum,
        frame_type: FrameType,
        content_size: u64,
        dict_id: u32,
        block_checksum: BlockChecksum,
    ) -> (r: FrameInfo)
        ensures
            r == (FrameInfo {
                block_size,
                block_mode,
                content_checksum,
                frame_type,
                content_size,
                dict_id,
                block_checksum,
            }),
    {
        FrameInfo {
            block_size,
            block_mode,
            content_checksum,
            frame_type,
            content_size,
            dict_id,
            block_checksum,
        }
    }

    /// Build frame parameters from the numbers of liblz4's frame parameter
    /// struct: the block size identifier, then 0 or 1 for each flag (linked
    /// or independent blocks, no content checksum or one, a frame or a
    /// skippable frame, no block checksum or one). Numbers that stand for
    /// nothing give `None`.
    pub fn from_raw(
        block_size_id: u32,
        block_mode: u32,
        content_checksum: u32,
        frame_type: u32,
        content_size: u64,
        dict_id: u32,
        block_checksum: u32,
    ) -> (r: Option<FrameInfo>)
        ensures
            r is Some <==> (block_size_id == 0 || 4 <= block_size_id <= 7) && block_mode <= 1
                && content_checksum <= 1 && frame_type <= 1 && block_checksum <= 1,
            r matches Some(info) ==> {
                &&& info.block_size.id_spec() == block_size_id
                &&& (info.block_mode == BlockMode::Independent) == (block_mode == 1)
                &&& (info.content_checksum == ContentChecksum::Enabled) == (content_checksum == 1)
                &&& (info.frame_type == FrameType::SkippableFrame) == (frame_type == 1)
                &&& info.content_size == content_size
                &&& info.dict_id == dict_id
                &&& (info.block_checksum == BlockChecksum::Enabled) == (block_checksum == 1)
            },
    {
        let block_size = match BlockSize::from_id(block_size_id) {
            Some(b) => b,
            None => return None,
        };
        if block_mode > 1 || content_checksum > 1 || frame_type > 1 || block_checksum > 1 {
            return None;
        }
        Some(FrameInfo {
            block_size,
            block_mode: if block_mode == 1 { BlockMode::Independent } else { BlockMode::Linked },
            content_checksum: if content_checksum == 1 {
                ContentChecksum::Enabled
            } else {
                ContentChecksum::Disabled
            },
            frame_type: if frame_type == 1 { FrameType::SkippableFrame } else { FrameType::Frame },
            content_size,
            dict_id,
            block_checksum: if block_checksum == 1 {
                BlockChecksum::Enabled
            } else {
                BlockChecksum::Disabled
            },
        })
    }

    /// Return the block size.
    pub fn block_size(&self) -> (r: BlockSize)
        ensures
            r == self.block_size,
    {
        self.block_size
    }

    /// Return the block mode.
    pub fn block_mode(&self) -> (r: BlockMode)
        ensures
            r == self.block_mode,
    {
        self.block_mode
    }

    /// Return the content checksum flag.
    pub fn content_checksum(&self) -> (r: ContentChecksum)
        ensures
            r == self.content_checksum,
    {
        self.content_checksum
    }

    /// Return the frame type.
    pub fn frame_type(&self) -> (r: FrameType)
        ensures
            r == self.frame_type,
    {
        self.frame_type
    }

    /// Return the content size.
    pub fn content_size(&self) -> (r: usize)
        ensures
            r == self.content_size as usize,
    {
        self.content_size as usize
    }

    /// Return the dictionary id.
    pub fn dict_id(&self) -> (r: u32)
        ensures
            r == self.dict_id,
    {
        self.dict_id
    }

    /// Return the block checksum flag.
    pub fn block_checksum(&self) -> (r: BlockChecksum)
        ensures
            r == self.block_checksum,
    {
        self.block_checksum
    }

    pub(crate) fn set_block_size(&mut self, block_size: BlockSize)
        ensures
            *final(self) == (FrameInfo { block_size, ..*old(self) }),
    {
        self.block_size = block_size;
    }

    pub(crate) fn set_block_mode(&mut self, block_mode: BlockMode)
        ensures
            *final(self) == (FrameInfo { block_mode, ..*old(self) }),
    {
        self.block_mode = block_mode;
    }

    pub(crate) fn set_content_checksum(&mut self, checksum: ContentChecksum)
        ensures
            *final(self) == (FrameInfo { content_checksum: checksum, ..*old(self) }),
    {
        self.content_checksum = checksum;
    }

    pub(crate) fn set_dict_id(&mut self, dict_id: u32)
        ensures
            *final(self) == (FrameInfo { dict_id, ..*old(self) }),
    {
        self.dict_id = dict_id;
    }

    pub(crate) fn set_block_checksum(&mut self, checksum: BlockChecksum)
        ensures
            *final(self) == (FrameInfo { block_checksum: checksum, ..*old(self) }),
    {
        self.block_checksum = checksum;
    }
}

impl Default for FrameInfo {
    fn default() -> (r: FrameInfo)
        ensures
            r == FrameInfo::default_spec(),
    {
        FrameInfo {
            block_size: BlockSize::Default,
            block_mode: BlockMode::Linked,
            content_checksum: ContentChecksum::Disabled,
            frame_type: FrameType::Frame,
            content_size: 0,
            dict_id: 0,
            block_checksum: BlockChecksum::Disabled,
        }
    }
}

} // verus!
