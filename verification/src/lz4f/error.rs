use vstd::prelude::*;
use crate::common::ErrorKind as CommonErrorKind;

verus! {

/// Errors from liblz4, in the order of liblz4's error codes.
#[derive(Debug, Copy, Clone, PartialEq, Eq, Hash, Structural)]
pub enum ErrorKind {
    Generic,
    MaxBlockSizeInvalid,
    BlockModeInvalid,
    ContentChecksumFlagInvalid,
    CompressionLevelInvalid,
    HeaderVersionWrong,
    BlockChecksumInvalid,
    ReservedFlagSet,
    AllocationFailed,
    SrcSizeTooLarge,
    DstMaxSizeTooSmall,
    FrameHeaderIncomplete,
    FrameTypeUnknown,
    FrameSizeWrong,
    SrcPtrWrong,
    DecompressionFailed,
    HeaderChecksumInvalid,
    ContentChecksumInvalid,
    FrameDecodingAlreadyStarted,
}

/// The number of error codes that liblz4's frame API defines.
pub const LZ4F_ERROR_MAX_CODE: usize = 23;

impl ErrorKind {
    /// The error code of liblz4 that this kind stands for.
    pub open spec fn code_spec(self) -> usize {
        match self {
            ErrorKind::Generic => 1,
            ErrorKind::MaxBlockSizeInvalid => 2,
            ErrorKind::BlockModeInvalid => 3,
            ErrorKind::ContentChecksumFlagInvalid => 4,
            ErrorKind::CompressionLevelInvalid => 5,
            ErrorKind::HeaderVersionWrong => 6,
            ErrorKind::BlockChecksumInvalid => 7,
            ErrorKind::ReservedFlagSet => 8,
            ErrorKind::AllocationFailed => 9,
            ErrorKind::SrcSizeTooLarge => 10,
            ErrorKind::DstMaxSizeTooSmall => 11,
            ErrorKind::FrameHeaderIncomplete => 12,
            ErrorKind::FrameTypeUnknown => 13,
            ErrorKind::FrameSizeWrong => 14,
            ErrorKind::SrcPtrWrong => 15,
            ErrorKind::DecompressionFailed => 16,
            ErrorKind::HeaderChecksumInvalid => 17,
            ErrorKind::ContentChecksumInvalid => 18,
            ErrorKind::FrameDecodingAlreadyStarted => 19,
        }
    }

    /// The kind that liblz4's error code `code` stands for. Codes that no
    /// kind stands for (the ones liblz4 added later) count as `Generic`.
    pub open spec fn from_code_spec(code: usize) -> ErrorKind {
        if code == 1 {
            ErrorKind::Generic
        } else if code == 2 {
            ErrorKind::MaxBlockSizeInvalid
        } else if code == 3 {
            ErrorKind::BlockModeInvalid
        } else if code == 4 {
            ErrorKind::ContentChecksumFlagInvalid
        } else if code == 5 {
            ErrorKind::CompressionLevelInvalid
        } else if code == 6 {
            ErrorKind::HeaderVersionWrong
        } else if code == 7 {
            ErrorKind::BlockChecksumInvalid
        } else if code == 8 {
            ErrorKind::ReservedFlagSet
        } else if code == 9 {
            ErrorKind::AllocationFailed
        } else if code == 10 {
            ErrorKind::SrcSizeTooLarge
        } else if code == 11 {
            ErrorKind::DstMaxSizeTooSmall
        } else if code == 12 {
            ErrorKind::FrameHeaderIncomplete
        } else if code == 13 {
            ErrorKind::FrameTypeUnknown
        } else if code == 14 {
            ErrorKind::FrameSizeWrong
        } else if code == 15 {
            ErrorKind::SrcPtrWrong
        } else if code == 16 {
            ErrorKind::DecompressionFailed
        } else if code == 17 {
            ErrorKind::HeaderChecksumInvalid
        } else if code == 18 {
            ErrorKind::ContentChecksumInvalid
        } else if code == 19 {
            ErrorKind::FrameDecodingAlreadyStarted
        } else {
            ErrorKind::Generic
        }
    }

    /// Return the kind that liblz4's error code `code` stands for.
    pub fn from_code(code: usize) -> (r: ErrorKind)
        ensures
            r == ErrorKind::from_code_spec(code),
    {
        if code == 1 {
            ErrorKind::Generic
        } else if code == 2 {
            ErrorKind::MaxBlockSizeInvalid
        } else if code == 3 {
            ErrorKind::BlockModeInvalid
        } else if code == 4 {
            ErrorKind::ContentChecksumFlagInvalid
        } else if code == 5 {
            ErrorKind::CompressionLevelInvalid
        } else if code == 6 {
            ErrorKind::HeaderVersionWrong
        } else if code == 7 {
            ErrorKind::BlockChecksumInvalid
        } else if code == 8 {
            ErrorKind::ReservedFlagSet
        } else if code == 9 {
            ErrorKind::AllocationFailed
        } else if code == 10 {
            ErrorKind::SrcSizeTooLarge
        } else if code == 11 {
            ErrorKind::DstMaxSizeTooSmall
        } else if code == 12 {
            ErrorKind::FrameHeaderIncomplete
        } else if code == 13 {
            ErrorKind::FrameTypeUnknown
        } else if code == 14 {
            ErrorKind::FrameSizeWrong
        } else if code == 15 {
            ErrorKind::SrcPtrWrong
        } else if code == 16 {
            ErrorKind::DecompressionFailed
        } else if code == 17 {
            ErrorKind::HeaderChecksumInvalid
        } else if code == 18 {
            ErrorKind::ContentChecksumInvalid
        } else if code == 19 {
            ErrorKind::FrameDecodingAlreadyStarted
        } else {
            ErrorKind::Generic
        }
    }

    /// Return the error code of liblz4 that this kind stands for.
    pub fn code(&self) -> (r: usize)
        ensures
            r == self.code_spec(),
    {
        match self {
            ErrorKind::Generic => 1,
            ErrorKind::MaxBlockSizeInvalid => 2,
            ErrorKind::BlockModeInvalid => 3,
            ErrorKind::ContentChecksumFlagInvalid => 4,
            ErrorKind::CompressionLevelInvalid => 5,
            ErrorKind::HeaderVersionWrong => 6,
            ErrorKind::BlockChecksumInvalid => 7,
            ErrorKind::ReservedFlagSet => 8,
            ErrorKind::AllocationFailed => 9,
            ErrorKind::SrcSizeTooLarge => 10,
            ErrorKind::DstMaxSizeTooSmall => 11,
            ErrorKind::FrameHeaderIncomplete => 12,
            ErrorKind::FrameTypeUnknown => 13,
            ErrorKind::FrameSizeWrong => 14,
            ErrorKind::SrcPtrWrong => 15,
            ErrorKind::DecompressionFailed => 16,
            ErrorKind::HeaderChecksumInvalid => 17,
            ErrorKind::ContentChecksumInvalid => 18,
            ErrorKind::FrameDecodingAlreadyStarted => 19,
        }
    }
}

/// The error code that a message of the `lz4` crate names: the position
/// of the error's name in liblz4's list of error names, or 1 (the generic
/// error) for a message that names none of them.
pub open spec fn message_code_spec(message: Seq<char>) -> usize {
    if message == "LZ4 error: ERROR_GENERIC"@ {
        1
    } else if message == "LZ4 error: ERROR_maxBlockSize_invalid"@ {
        2
    } else if message == "LZ4 error: ERROR_blockMode_invalid"@ {
        3
    } else if message == "LZ4 error: ERROR_parameter_invalid"@ {
        4
    } else if message == "LZ4 error: ERROR_compressionLevel_invalid"@ {
        5
    } else if message == "LZ4 error: ERROR_headerVersion_wrong"@ {
        6
    } else if message == "LZ4 error: ERROR_blockChecksum_invalid"@ {
        7
    } else if message == "LZ4 error: ERROR_reservedFlag_set"@ {
        8
    } else if message == "LZ4 error: ERROR_allocation_failed"@ {
        9
    } else if message == "LZ4 error: ERROR_srcSize_tooLarge"@ {
        10
    } else if message == "LZ4 error: ERROR_dstMaxSize_tooSmall"@ {
        11
    } else if message == "LZ4 error: ERROR_frameHeader_incomplete"@ {
        12
    } else if message == "LZ4 error: ERROR_frameType_unknown"@ {
        13
    } else if message == "LZ4 error: ERROR_frameSize_wrong"@ {
        14
    } else if message == "LZ4 error: ERROR_srcPtr_wrong"@ {
        15
    } else if message == "LZ4 error: ERROR_decompressionFailed"@ {
        16
    } else if message == "LZ4 error: ERROR_headerChecksum_invalid"@ {
        17
    } else if message == "LZ4 error: ERROR_contentChecksum_invalid"@ {
        18
    } else if message == "LZ4 error: ERROR_frameDecoding_alreadyStarted"@ {
        19
    } else if message == "LZ4 error: ERROR_compressionState_uninitialized"@ {
        20
    } else if message == "LZ4 error: ERROR_parameter_null"@ {
        21
    } else if message == "LZ4 error: ERROR_io_write"@ {
        22
    } else if message == "LZ4 error: ERROR_io_read"@ {
        23
    } else {
        1
    }
}

/// Return the error code that an error message of the `lz4` crate names.
pub fn message_code(message: &String) -> (r: usize)
    ensures
        r == message_code_spec(message@),
        1 <= r <= LZ4F_ERROR_MAX_CODE,
{
    if *message == "LZ4 error: ERROR_GENERIC".to_owned() {
        1
    } else if *message == "LZ4 error: ERROR_maxBlockSize_invalid".to_owned() {
        2
    } else if *message == "LZ4 error: ERROR_blockMode_invalid".to_owned() {
        3
    } else if *message == "LZ4 error: ERROR_parameter_invalid".to_owned() {
        4
    } else if *message == "LZ4 error: ERROR_compressionLevel_invalid".to_owned() {
        5
    } else if *message == "LZ4 error: ERROR_headerVersion_wrong".to_owned() {
        6
    } else if *message == "LZ4 error: ERROR_blockChecksum_invalid".to_owned() {
        7
    } else if *message == "LZ4 error: ERROR_reservedFlag_set".to_owned() {
        8
    } else if *message == "LZ4 error: ERROR_allocation_failed".to_owned() {
        9
    } else if *message == "LZ4 error: ERROR_srcSize_tooLarge".to_owned() {
        10
    } else if *message == "LZ4 error: ERROR_dstMaxSize_tooSmall".to_owned() {
        11
    } else if *message == "LZ4 error: ERROR_frameHeader_incomplete".to_owned() {
        12
    } else if *message == "LZ4 error: ERROR_frameType_unknown".to_owned() {
        13
    } else if *message == "LZ4 error: ERROR_frameSize_wrong".to_owned() {
        14
    } else if *message == "LZ4 error: ERROR_srcPtr_wrong".to_owned() {
        15
    } else if *message == "LZ4 error: ERROR_decompressionFailed".to_owned() {
        16
    } else if *message == "LZ4 error: ERROR_headerChecksum_invalid".to_owned() {
        17
    } else if *message == "LZ4 error: ERROR_contentChecksum_invalid".to_owned() {
        18
    } else if *message == "LZ4 error: ERROR_frameDecoding_alreadyStarted".to_owned() {
        19
    } else if *message == "LZ4 error: ERROR_compressionState_uninitialized".to_owned() {
        20
    } else if *message == "LZ4 error: ERROR_parameter_null".to_owned() {
        21
    } else if *message == "LZ4 error: ERROR_io_write".to_owned() {
        22
    } else if *message == "LZ4 error: ERROR_io_read".to_owned() {
        23
    } else {
        1
    }
}

/// Errors of LZ4F operations.
#[derive(Debug, Copy, Clone, PartialEq, Eq, Hash, Structural)]
pub enum Error {
    Lz4f(ErrorKind),
    Common(CommonErrorKind),
}

impl Error {
    /// Build an error of liblz4.
    pub fn new(kind: ErrorKind) -> (r: Error)
        ensures
            r == Error::Lz4f(kind),
    {
        Error::Lz4f(kind)
    }

    /// Build an error that does not come from liblz4.
    pub fn common(kind: CommonErrorKind) -> (r: Error)
        ensures
            r == Error::Common(kind),
    {
        Error::Common(kind)
    }

    /// The error that an error message of the `lz4` crate stands for.
    pub open spec fn from_message_spec(message: Seq<char>) -> Error {
        Error::Lz4f(ErrorKind::from_code_spec(message_code_spec(message)))
    }

    /// Return the error that an error message of the `lz4` crate stands for.
    pub fn from_message(message: &String) -> (r: Error)
        ensures
            r == Error::from_message_spec(message@),
    {
        Error::Lz4f(ErrorKind::from_code(message_code(message)))
    }
}

/// Whether the value that a function of liblz4's frame API returned is an
/// error code: the two's complement of a code in `1..=LZ4F_ERROR_MAX_CODE`.
pub open spec fn is_error_code(code: usize) -> bool {
    code > usize::MAX - LZ4F_ERROR_MAX_CODE
}

/// The result that a value returned by liblz4's frame API stands for: the
/// value itself, or the error whose code it negates.
pub open spec fn result_from_code_spec(code: usize) -> Result<usize> {
    if is_error_code(code) {
        Err(Error::Lz4f(ErrorKind::from_code_spec((usize::MAX - code + 1) as usize)))
    } else {
        Ok(code)
    }
}

/// Turn a value returned by liblz4's frame API into a `Result`.
pub fn result_from_code(code: usize) -> (r: Result<usize>)
    ensures
        r == result_from_code_spec(code),
{
    if code > usize::MAX - LZ4F_ERROR_MAX_CODE {
        Err(Error::Lz4f(ErrorKind::from_code(usize::MAX - code + 1)))
    } else {
        Ok(code)
    }
}

/// Each kind's error code stands for that kind again.
pub proof fn lemma_from_code_of_code(k: ErrorKind)
    ensures
        1 <= k.code_spec() <= LZ4F_ERROR_MAX_CODE,
        ErrorKind::from_code_spec(k.code_spec()) == k,
{
}

/// The value that liblz4 returns for an error (the two's complement of the
/// error's code) is an error code, and turns back into that error.
pub proof fn lemma_result_from_returned_error(k: ErrorKind)
    ensures
        is_error_code((usize::MAX - k.code_spec() + 1) as usize),
        result_from_code_spec((usize::MAX - k.code_spec() + 1) as usize) == Err::<usize, Error>(
            Error::Lz4f(k),
        ),
{
}

/// A specialized Result type for compression/decompression operations.
pub type Result<T> = core::result::Result<T, Error>;

/// The message that the `lz4` crate gives for liblz4's error of each kind:
/// "LZ4 error: " followed by the error's name in liblz4's list of errors
/// (`lz4frame.h`, `LZ4F_LIST_ERRORS`; the kind `ContentChecksumFlagInvalid`
/// holds the place that liblz4 now names `parameter_invalid`).
pub open spec fn kind_message_spec(k: ErrorKind) -> Seq<char> {
    match k {
        ErrorKind::Generic => "LZ4 error: ERROR_GENERIC"@,
        ErrorKind::MaxBlockSizeInvalid => "LZ4 error: ERROR_maxBlockSize_invalid"@,
        ErrorKind::BlockModeInvalid => "LZ4 error: ERROR_blockMode_invalid"@,
        ErrorKind::ContentChecksumFlagInvalid => "LZ4 error: ERROR_parameter_invalid"@,
        ErrorKind::CompressionLevelInvalid => "LZ4 error: ERROR_compressionLevel_invalid"@,
        ErrorKind::HeaderVersionWrong => "LZ4 error: ERROR_headerVersion_wrong"@,
        ErrorKind::BlockChecksumInvalid => "LZ4 error: ERROR_blockChecksum_invalid"@,
        ErrorKind::ReservedFlagSet => "LZ4 error: ERROR_reservedFlag_set"@,
        ErrorKind::AllocationFailed => "LZ4 error: ERROR_allocation_failed"@,
        ErrorKind::SrcSizeTooLarge => "LZ4 error: ERROR_srcSize_tooLarge"@,
        ErrorKind::DstMaxSizeTooSmall => "LZ4 error: ERROR_dstMaxSize_tooSmall"@,
        ErrorKind::FrameHeaderIncomplete => "LZ4 error: ERROR_frameHeader_incomplete"@,
        ErrorKind::FrameTypeUnknown => "LZ4 error: ERROR_frameType_unknown"@,
        ErrorKind::FrameSizeWrong => "LZ4 error: ERROR_frameSize_wrong"@,
        ErrorKind::SrcPtrWrong => "LZ4 error: ERROR_srcPtr_wrong"@,
        ErrorKind::DecompressionFailed => "LZ4 error: ERROR_decompressionFailed"@,
        ErrorKind::HeaderChecksumInvalid => "LZ4 error: ERROR_headerChecksum_invalid"@,
        ErrorKind::ContentChecksumInvalid => "LZ4 error: ERROR_contentChecksum_invalid"@,
        ErrorKind::FrameDecodingAlreadyStarted => "LZ4 error: ERROR_frameDecoding_alreadyStarted"@,
    }
}

/// The message of each liblz4 error names the code of the kind of the same
/// name, and reading such a message gives back that very kind: no error is
/// reported as another.
pub proof fn lemma_message_names_its_kind(k: ErrorKind)
    ensures
        message_code_spec(kind_message_spec(k)) == k.code_spec(),
        Error::from_message_spec(kind_message_spec(k)) == Error::Lz4f(k),
{
    match k {
        ErrorKind::Generic => {
            reveal_strlit("LZ4 error: ERROR_GENERIC");
        },
        ErrorKind::MaxBlockSizeInvalid => {
            reveal_strlit("LZ4 error: ERROR_maxBlockSize_invalid");
            reveal_strlit("LZ4 error: ERROR_GENERIC");
            assert("LZ4 error: ERROR_maxBlockSize_invalid"@.len() != "LZ4 error: ERROR_GENERIC"@.len());
        },
        ErrorKind::BlockModeInvalid => {
            reveal_strlit("LZ4 error: ERROR_blockMode_invalid");
            reveal_strlit("LZ4 error: ERROR_GENERIC");
            assert("LZ4 error: ERROR_blockMode_invalid"@.len() != "LZ4 error: ERROR_GENERIC"@.len());
            reveal_strlit("LZ4 error: ERROR_maxBlockSize_invalid");
            assert("LZ4 error: ERROR_blockMode_invalid"@.len() != "LZ4 error: ERROR_maxBlockSize_invalid"@.len());
        },
        ErrorKind::ContentChecksumFlagInvalid => {
            reveal_strlit("LZ4 error: ERROR_parameter_invalid");
            reveal_strlit("LZ4 error: ERROR_GENERIC");
            assert("LZ4 error: ERROR_parameter_invalid"@.len() != "LZ4 error: ERROR_GENERIC"@.len());
            reveal_strlit("LZ4 error: ERROR_maxBlockSize_invalid");
            assert("LZ4 error: ERROR_parameter_invalid"@.len() != "LZ4 error: ERROR_maxBlockSize_invalid"@.len());
            reveal_strlit("LZ4 error: ERROR_blockMode_invalid");
            assert("LZ4 error: ERROR_parameter_invalid"@[17] != "LZ4 error: ERROR_blockMode_invalid"@[17]);
        },
        ErrorKind::CompressionLevelInvalid => {
            reveal_strlit("LZ4 error: ERROR_compressionLevel_invalid");
            reveal_strlit("LZ4 error: ERROR_GENERIC");
            assert("LZ4 error: ERROR_compressionLevel_invalid"@.len() != "LZ4 error: ERROR_GENERIC"@.len());
            reveal_strlit("LZ4 error: ERROR_maxBlockSize_invalid");
            assert("LZ4 error: ERROR_compressionLevel_invalid"@.len() != "LZ4 error: ERROR_maxBlockSize_invalid"@.len());
            reveal_strlit("LZ4 error: ERROR_blockMode_invalid");
            assert("LZ4 error: ERROR_compressionLevel_invalid"@.len() != "LZ4 error: ERROR_blockMode_invalid"@.len());
            reveal_strlit("LZ4 error: ERROR_parameter_invalid");
            assert("LZ4 error: ERROR_compressionLevel_invalid"@.len() != "LZ4 error: ERROR_parameter_invalid"@.len());
        },
        ErrorKind::HeaderVersionWrong => {
            reveal_strlit("LZ4 error: ERROR_headerVersion_wrong");
            reveal_strlit("LZ4 error: ERROR_GENERIC");
            assert("LZ4 error: ERROR_headerVersion_wrong"@.len() != "LZ4 error: ERROR_GENERIC"@.len());
            reveal_strlit("LZ4 error: ERROR_maxBlockSize_invalid");
            assert("LZ4 error: ERROR_headerVersion_wrong"@.len() != "LZ4 error: ERROR_maxBlockSize_invalid"@.len());
            reveal_strlit("LZ4 error: ERROR_blockMode_invalid");
            assert("LZ4 error: ERROR_headerVersion_wrong"@.len() != "LZ4 error: ERROR_blockMode_invalid"@.len());
            reveal_strlit("LZ4 error: ERROR_parameter_invalid");
            assert("LZ4 error: ERROR_headerVersion_wrong"@.len() != "LZ4 error: ERROR_parameter_invalid"@.len());
            reveal_strlit("LZ4 error: ERROR_compressionLevel_invalid");
            assert("LZ4 error: ERROR_headerVersion_wrong"@.len() != "LZ4 error: ERROR_compressionLevel_invalid"@.len());
        },
        ErrorKind::BlockChecksumInvalid => {
            reveal_strlit("LZ4 error: ERROR_blockChecksum_invalid");
            reveal_strlit("LZ4 error: ERROR_GENERIC");
            assert("LZ4 error: ERROR_blockChecksum_invalid"@.len() != "LZ4 error: ERROR_GENERIC"@.len());
            reveal_strlit("LZ4 error: ERROR_maxBlockSize_invalid");
            assert("LZ4 error: ERROR_blockChecksum_invalid"@.len() != "LZ4 error: ERROR_maxBlockSize_invalid"@.len());
            reveal_strlit("LZ4 error: ERROR_blockMode_invalid");
            assert("LZ4 error: ERROR_blockChecksum_invalid"@.len() != "LZ4 error: ERROR_blockMode_invalid"@.len());
            reveal_strlit("LZ4 error: ERROR_parameter_invalid");
            assert("LZ4 error: ERROR_blockChecksum_invalid"@.len() != "LZ4 error: ERROR_parameter_invalid"@.len());
            reveal_strlit("LZ4 error: ERROR_compressionLevel_invalid");
            assert("LZ4 error: ERROR_blockChecksum_invalid"@.len() != "LZ4 error: ERROR_compressionLevel_invalid"@.len());
            reveal_strlit("LZ4 error: ERROR_headerVersion_wrong");
            assert("LZ4 error: ERROR_blockChecksum_invalid"@.len() != "LZ4 error: ERROR_headerVersion_wrong"@.len());
        },
        ErrorKind::ReservedFlagSet => {
            reveal_strlit("LZ4 error: ERROR_reservedFlag_set");
            reveal_strlit("LZ4 error: ERROR_GENERIC");
            assert("LZ4 error: ERROR_reservedFlag_set"@.len() != "LZ4 error: ERROR_GENERIC"@.len());
            reveal_strlit("LZ4 error: ERROR_maxBlockSize_invalid");
            assert("LZ4 error: ERROR_reservedFlag_set"@.len() != "LZ4 error: ERROR_maxBlockSize_invalid"@.len());
            reveal_strlit("LZ4 error: ERROR_blockMode_invalid");
            assert("LZ4 error: ERROR_reservedFlag_set"@.len() != "LZ4 error: ERROR_blockMode_invalid"@.len());
            reveal_strlit("LZ4 error: ERROR_parameter_invalid");
            assert("LZ4 error: ERROR_reservedFlag_set"@.len() != "LZ4 error: ERROR_parameter_invalid"@.len());
            reveal_strlit("LZ4 error: ERROR_compressionLevel_invalid");
            assert("LZ4 error: ERROR_reservedFlag_set"@.len() != "LZ4 error: ERROR_compressionLevel_invalid"@.len());
            reveal_strlit("LZ4 error: ERROR_headerVersion_wrong");
            assert("LZ4 error: ERROR_reservedFlag_set"@.len() != "LZ4 error: ERROR_headerVersion_wrong"@.len());
            reveal_strlit("LZ4 error: ERROR_blockChecksum_invalid");
            assert("LZ4 error: ERROR_reservedFlag_set"@.len() != "LZ4 error: ERROR_blockChecksum_invalid"@.len());
        },
        ErrorKind::AllocationFailed => {
            reveal_strlit("LZ4 error: ERROR_allocation_failed");
            reveal_strlit("LZ4 error: ERROR_GENERIC");
            assert("LZ4 error: ERROR_allocation_failed"@.len() != "LZ4 error: ERROR_GENERIC"@.len());
            reveal_strlit("LZ4 error: ERROR_maxBlockSize_invalid");
            assert("LZ4 error: ERROR_allocation_failed"@.len() != "LZ4 error: ERROR_maxBlockSize_invalid"@.len());
            reveal_strlit("LZ4 error: ERROR_blockMode_invalid");
            assert("LZ4 error: ERROR_allocation_failed"@[17] != "LZ4 error: ERROR_blockMode_invalid"@[17]);
            reveal_strlit("LZ4 error: ERROR_parameter_invalid");
            assert("LZ4 error: ERROR_allocation_failed"@[17] != "LZ4 error: ERROR_parameter_invalid"@[17]);
            reveal_strlit("LZ4 error: ERROR_compressionLevel_invalid");
            assert("LZ4 error: ERROR_allocation_failed"@.len() != "LZ4 error: ERROR_compressionLevel_invalid"@.len());
            reveal_strlit("LZ4 error: ERROR_headerVersion_wrong");
            assert("LZ4 error: ERROR_allocation_failed"@.len() != "LZ4 error: ERROR_headerVersion_wrong"@.len());
            reveal_strlit("LZ4 error: ERROR_blockChecksum_invalid");
            assert("LZ4 error: ERROR_allocation_failed"@.len() != "LZ4 error: ERROR_blockChecksum_invalid"@.len());
            reveal_strlit("LZ4 error: ERROR_reservedFlag_set");
            assert("LZ4 error: ERROR_allocation_failed"@.len() != "LZ4 error: ERROR_reservedFlag_set"@.len());
        },
        ErrorKind::SrcSizeTooLarge => {
            reveal_strlit("LZ4 error: ERROR_srcSize_tooLarge");
            reveal_strlit("LZ4 error: ERROR_GENERIC");
            assert("LZ4 error: ERROR_srcSize_tooLarge"@.len() != "LZ4 error: ERROR_GENERIC"@.len());
            reveal_strlit("LZ4 error: ERROR_maxBlockSize_invalid");
            assert("LZ4 error: ERROR_srcSize_tooLarge"@.len() != "LZ4 error: ERROR_maxBlockSize_invalid"@.len());
            reveal_strlit("LZ4 error: ERROR_blockMode_invalid");
            assert("LZ4 error: ERROR_srcSize_tooLarge"@.len() != "LZ4 error: ERROR_blockMode_invalid"@.len());
            reveal_strlit("LZ4 error: ERROR_parameter_invalid");
            assert("LZ4 error: ERROR_srcSize_tooLarge"@.len() != "LZ4 error: ERROR_parameter_invalid"@.len());
            reveal_strlit("LZ4 error: ERROR_compressionLevel_invalid");
            assert("LZ4 error: ERROR_srcSize_tooLarge"@.len() != "LZ4 error: ERROR_compressionLevel_invalid"@.len());
            reveal_strlit("LZ4 error: ERROR_headerVersion_wrong");
            assert("LZ4 error: ERROR_srcSize_tooLarge"@.len() != "LZ4 error: ERROR_headerVersion_wrong"@.len());
            reveal_strlit("LZ4 error: ERROR_blockChecksum_invalid");
            assert("LZ4 error: ERROR_srcSize_tooLarge"@.len() != "LZ4 error: ERROR_blockChecksum_invalid"@.len());
            reveal_strlit("LZ4 error: ERROR_reservedFlag_set");
            assert("LZ4 error: ERROR_srcSize_tooLarge"@[17] != "LZ4 error: ERROR_reservedFlag_set"@[17]);
            reveal_strlit("LZ4 error: ERROR_allocation_failed");
            assert("LZ4 error: ERROR_srcSize_tooLarge"@.len() != "LZ4 error: ERROR_allocation_failed"@.len());
        },
        ErrorKind::DstMaxSizeTooSmall => {
            reveal_strlit("LZ4 error: ERROR_dstMaxSize_tooSmall");
            reveal_strlit("LZ4 error: ERROR_GENERIC");
            assert("LZ4 error: ERROR_dstMaxSize_tooSmall"@.len() != "LZ4 error: ERROR_GENERIC"@.len());
            reveal_strlit("LZ4 error: ERROR_maxBlockSize_invalid");
            assert("LZ4 error: ERROR_dstMaxSize_tooSmall"@.len() != "LZ4 error: ERROR_maxBlockSize_invalid"@.len());
            reveal_strlit("LZ4 error: ERROR_blockMode_invalid");
            assert("LZ4 error: ERROR_dstMaxSize_tooSmall"@.len() != "LZ4 error: ERROR_blockMode_invalid"@.len());
            reveal_strlit("LZ4 error: ERROR_parameter_invalid");
            assert("LZ4 error: ERROR_dstMaxSize_tooSmall"@.len() != "LZ4 error: ERROR_parameter_invalid"@.len());
            reveal_strlit("LZ4 error: ERROR_compressionLevel_invalid");
            assert("LZ4 error: ERROR_dstMaxSize_tooSmall"@.len() != "LZ4 error: ERROR_compressionLevel_invalid"@.len());
            reveal_strlit("LZ4 error: ERROR_headerVersion_wrong");
            assert("LZ4 error: ERROR_dstMaxSize_tooSmall"@[17] != "LZ4 error: ERROR_headerVersion_wrong"@[17]);
            reveal_strlit("LZ4 error: ERROR_blockChecksum_invalid");
            assert("LZ4 error: ERROR_dstMaxSize_tooSmall"@.len() != "LZ4 error: ERROR_blockChecksum_invalid"@.len());
            reveal_strlit("LZ4 error: ERROR_reservedFlag_set");
            assert("LZ4 error: ERROR_dstMaxSize_tooSmall"@.len() != "LZ4 error: ERROR_reservedFlag_set"@.len());
            reveal_strlit("LZ4 error: ERROR_allocation_failed");
            assert("LZ4 error: ERROR_dstMaxSize_tooSmall"@.len() != "LZ4 error: ERROR_allocation_failed"@.len());
            reveal_strlit("LZ4 error: ERROR_srcSize_tooLarge");
            assert("LZ4 error: ERROR_dstMaxSize_tooSmall"@.len() != "LZ4 error: ERROR_srcSize_tooLarge"@.len());
        },
        ErrorKind::FrameHeaderIncomplete => {
            reveal_strlit("LZ4 error: ERROR_frameHeader_incomplete");
            reveal_strlit("LZ4 error: ERROR_GENERIC");
            assert("LZ4 error: ERROR_frameHeader_incomplete"@.len() != "LZ4 error: ERROR_GENERIC"@.len());
            reveal_strlit("LZ4 error: ERROR_maxBlockSize_invalid");
            assert("LZ4 error: ERROR_frameHeader_incomplete"@.len() != "LZ4 error: ERROR_maxBlockSize_invalid"@.len());
            reveal_strlit("LZ4 error: ERROR_blockMode_invalid");
            assert("LZ4 error: ERROR_frameHeader_incomplete"@.len() != "LZ4 error: ERROR_blockMode_invalid"@.len());
            reveal_strlit("LZ4 error: ERROR_parameter_invalid");
            assert("LZ4 error: ERROR_frameHeader_incomplete"@.len() != "LZ4 error: ERROR_parameter_invalid"@.len());
            reveal_strlit("LZ4 error: ERROR_compressionLevel_invalid");
            assert("LZ4 error: ERROR_frameHeader_incomplete"@.len() != "LZ4 error: ERROR_compressionLevel_invalid"@.len());
            reveal_strlit("LZ4 error: ERROR_headerVersion_wrong");
            assert("LZ4 error: ERROR_frameHeader_incomplete"@.len() != "LZ4 error: ERROR_headerVersion_wrong"@.len());
            reveal_strlit("LZ4 error: ERROR_blockChecksum_invalid");
            assert("LZ4 error: ERROR_frameHeader_incomplete"@.len() != "LZ4 error: ERROR_blockChecksum_invalid"@.len());
            reveal_strlit("LZ4 error: ERROR_reservedFlag_set");
            assert("LZ4 error: ERROR_frameHeader_incomplete"@.len() != "LZ4 error: ERROR_reservedFlag_set"@.len());
            reveal_strlit("LZ4 error: ERROR_allocation_failed");
            assert("LZ4 error: ERROR_frameHeader_incomplete"@.len() != "LZ4 error: ERROR_allocation_failed"@.len());
            reveal_strlit("LZ4 error: ERROR_srcSize_tooLarge");
            assert("LZ4 error: ERROR_frameHeader_incomplete"@.len() != "LZ4 error: ERROR_srcSize_tooLarge"@.len());
            reveal_strlit("LZ4 error: ERROR_dstMaxSize_tooSmall");
            assert("LZ4 error: ERROR_frameHeader_incomplete"@.len() != "LZ4 error: ERROR_dstMaxSize_tooSmall"@.len());
        },
        ErrorKind::FrameTypeUnknown => {
            reveal_strlit("LZ4 error: ERROR_frameType_unknown");
            reveal_strlit("LZ4 error: ERROR_GENERIC");
            assert("LZ4 error: ERROR_frameType_unknown"@.len() != "LZ4 error: ERROR_GENERIC"@.len());
            reveal_strlit("LZ4 error: ERROR_maxBlockSize_invalid");
            assert("LZ4 error: ERROR_frameType_unknown"@.len() != "LZ4 error: ERROR_maxBlockSize_invalid"@.len());
            reveal_strlit("LZ4 error: ERROR_blockMode_invalid");
            assert("LZ4 error: ERROR_frameType_unknown"@[17] != "LZ4 error: ERROR_blockMode_invalid"@[17]);
            reveal_strlit("LZ4 error: ERROR_parameter_invalid");
            assert("LZ4 error: ERROR_frameType_unknown"@[17] != "LZ4 error: ERROR_parameter_invalid"@[17]);
            reveal_strlit("LZ4 error: ERROR_compressionLevel_invalid");
            assert("LZ4 error: ERROR_frameType_unknown"@.len() != "LZ4 error: ERROR_compressionLevel_invalid"@.len());
            reveal_strlit("LZ4 error: ERROR_headerVersion_wrong");
            assert("LZ4 error: ERROR_frameType_unknown"@.len() != "LZ4 error: ERROR_headerVersion_wrong"@.len());
            reveal_strlit("LZ4 error: ERROR_blockChecksum_invalid");
            assert("LZ4 error: ERROR_frameType_unknown"@.len() != "LZ4 error: ERROR_blockChecksum_invalid"@.len());
            reveal_strlit("LZ4 error: ERROR_reservedFlag_set");
            assert("LZ4 error: ERROR_frameType_unknown"@.len() != "LZ4 error: ERROR_reservedFlag_set"@.len());
            reveal_strlit("LZ4 error: ERROR_allocation_failed");
            assert("LZ4 error: ERROR_frameType_unknown"@[17] != "LZ4 error: ERROR_allocation_failed"@[17]);
            reveal_strlit("LZ4 error: ERROR_srcSize_tooLarge");
            assert("LZ4 error: ERROR_frameType_unknown"@.len() != "LZ4 error: ERROR_srcSize_tooLarge"@.len());
            reveal_strlit("LZ4 error: ERROR_dstMaxSize_tooSmall");
            assert("LZ4 error: ERROR_frameType_unknown"@.len() != "LZ4 error: ERROR_dstMaxSize_tooSmall"@.len());
            reveal_strlit("LZ4 error: ERROR_frameHeader_incomplete");
            assert("LZ4 error: ERROR_frameType_unknown"@.len() != "LZ4 error: ERROR_frameHeader_incomplete"@.len());
        },
        ErrorKind::FrameSizeWrong => {
            reveal_strlit("LZ4 error: ERROR_frameSize_wrong");
            reveal_strlit("LZ4 error: ERROR_GENERIC");
            assert("LZ4 error: ERROR_frameSize_wrong"@.len() != "LZ4 error: ERROR_GENERIC"@.len());
            reveal_strlit("LZ4 error: ERROR_maxBlockSize_invalid");
            assert("LZ4 error: ERROR_frameSize_wrong"@.len() != "LZ4 error: ERROR_maxBlockSize_invalid"@.len());
            reveal_strlit("LZ4 error: ERROR_blockMode_invalid");
            assert("LZ4 error: ERROR_frameSize_wrong"@.len() != "LZ4 error: ERROR_blockMode_invalid"@.len());
            reveal_strlit("LZ4 error: ERROR_parameter_invalid");
            assert("LZ4 error: ERROR_frameSize_wrong"@.len() != "LZ4 error: ERROR_parameter_invalid"@.len());
            reveal_strlit("LZ4 error: ERROR_compressionLevel_invalid");
            assert("LZ4 error: ERROR_frameSize_wrong"@.len() != "LZ4 error: ERROR_compressionLevel_invalid"@.len());
            reveal_strlit("LZ4 error: ERROR_headerVersion_wrong");
            assert("LZ4 error: ERROR_frameSize_wrong"@.len() != "LZ4 error: ERROR_headerVersion_wrong"@.len());
            reveal_strlit("LZ4 error: ERROR_blockChecksum_invalid");
            assert("LZ4 error: ERROR_frameSize_wrong"@.len() != "LZ4 error: ERROR_blockChecksum_invalid"@.len());
            reveal_strlit("LZ4 error: ERROR_reservedFlag_set");
            assert("LZ4 error: ERROR_frameSize_wrong"@.len() != "LZ4 error: ERROR_reservedFlag_set"@.len());
            reveal_strlit("LZ4 error: ERROR_allocation_failed");
            assert("LZ4 error: ERROR_frameSize_wrong"@.len() != "LZ4 error: ERROR_allocation_failed"@.len());
            reveal_strlit("LZ4 error: ERROR_srcSize_tooLarge");
            assert("LZ4 error: ERROR_frameSize_wrong"@.len() != "LZ4 error: ERROR_srcSize_tooLarge"@.len());
            reveal_strlit("LZ4 error: ERROR_dstMaxSize_tooSmall");
            assert("LZ4 error: ERROR_frameSize_wrong"@.len() != "LZ4 error: ERROR_dstMaxSize_tooSmall"@.len());
            reveal_strlit("LZ4 error: ERROR_frameHeader_incomplete");
            assert("LZ4 error: ERROR_frameSize_wrong"@.len() != "LZ4 error: ERROR_frameHeader_incomplete"@.len());
            reveal_strlit("LZ4 error: ERROR_frameType_unknown");
            assert("LZ4 error: ERROR_frameSize_wrong"@.len() != "LZ4 error: ERROR_frameType_unknown"@.len());
        },
        ErrorKind::SrcPtrWrong => {
            reveal_strlit("LZ4 error: ERROR_srcPtr_wrong");
            reveal_strlit("LZ4 error: ERROR_GENERIC");
            assert("LZ4 error: ERROR_srcPtr_wrong"@.len() != "LZ4 error: ERROR_GENERIC"@.len());
            reveal_strlit("LZ4 error: ERROR_maxBlockSize_invalid");
            assert("LZ4 error: ERROR_srcPtr_wrong"@.len() != "LZ4 error: ERROR_maxBlockSize_invalid"@.len());
            reveal_strlit("LZ4 error: ERROR_blockMode_invalid");
            assert("LZ4 error: ERROR_srcPtr_wrong"@.len() != "LZ4 error: ERROR_blockMode_invalid"@.len());
            reveal_strlit("LZ4 error: ERROR_parameter_invalid");
            assert("LZ4 error: ERROR_srcPtr_wrong"@.len() != "LZ4 error: ERROR_parameter_invalid"@.len());
            reveal_strlit("LZ4 error: ERROR_compressionLevel_invalid");
            assert("LZ4 error: ERROR_srcPtr_wrong"@.len() != "LZ4 error: ERROR_compressionLevel_invalid"@.len());
            reveal_strlit("LZ4 error: ERROR_headerVersion_wrong");
            assert("LZ4 error: ERROR_srcPtr_wrong"@.len() != "LZ4 error: ERROR_headerVersion_wrong"@.len());
            reveal_strlit("LZ4 error: ERROR_blockChecksum_invalid");
            assert("LZ4 error: ERROR_srcPtr_wrong"@.len() != "LZ4 error: ERROR_blockChecksum_invalid"@.len());
            reveal_strlit("LZ4 error: ERROR_reservedFlag_set");
            assert("LZ4 error: ERROR_srcPtr_wrong"@.len() != "LZ4 error: ERROR_reservedFlag_set"@.len());
            reveal_strlit("LZ4 error: ERROR_allocation_failed");
            assert("LZ4 error: ERROR_srcPtr_wrong"@.len() != "LZ4 error: ERROR_allocation_failed"@.len());
            reveal_strlit("LZ4 error: ERROR_srcSize_tooLarge");
            assert("LZ4 error: ERROR_srcPtr_wrong"@.len() != "LZ4 error: ERROR_srcSize_tooLarge"@.len());
            reveal_strlit("LZ4 error: ERROR_dstMaxSize_tooSmall");
            assert("LZ4 error: ERROR_srcPtr_wrong"@.len() != "LZ4 error: ERROR_dstMaxSize_tooSmall"@.len());
            reveal_strlit("LZ4 error: ERROR_frameHeader_incomplete");
            assert("LZ4 error: ERROR_srcPtr_wrong"@.len() != "LZ4 error: ERROR_frameHeader_incomplete"@.len());
            reveal_strlit("LZ4 error: ERROR_frameType_unknown");
            assert("LZ4 error: ERROR_srcPtr_wrong"@.len() != "LZ4 error: ERROR_frameType_unknown"@.len());
            reveal_strlit("LZ4 error: ERROR_frameSize_wrong");
            assert("LZ4 error: ERROR_srcPtr_wrong"@.len() != "LZ4 error: ERROR_frameSize_wrong"@.len());
        },
        ErrorKind::DecompressionFailed => {
            reveal_strlit("LZ4 error: ERROR_decompressionFailed");
            reveal_strlit("LZ4 error: ERROR_GENERIC");
            assert("LZ4 error: ERROR_decompressionFailed"@.len() != "LZ4 error: ERROR_GENERIC"@.len());
            reveal_strlit("LZ4 error: ERROR_maxBlockSize_invalid");
            assert("LZ4 error: ERROR_decompressionFailed"@.len() != "LZ4 error: ERROR_maxBlockSize_invalid"@.len());
            reveal_strlit("LZ4 error: ERROR_blockMode_invalid");
            assert("LZ4 error: ERROR_decompressionFailed"@.len() != "LZ4 error: ERROR_blockMode_invalid"@.len());
            reveal_strlit("LZ4 error: ERROR_parameter_invalid");
            assert("LZ4 error: ERROR_decompressionFailed"@.len() != "LZ4 error: ERROR_parameter_invalid"@.len());
            reveal_strlit("LZ4 error: ERROR_compressionLevel_invalid");
            assert("LZ4 error: ERROR_decompressionFailed"@.len() != "LZ4 error: ERROR_compressionLevel_invalid"@.len());
            reveal_strlit("LZ4 error: ERROR_headerVersion_wrong");
            assert("LZ4 error: ERROR_decompressionFailed"@[17] != "LZ4 error: ERROR_headerVersion_wrong"@[17]);
            reveal_strlit("LZ4 error: ERROR_blockChecksum_invalid");
            assert("LZ4 error: ERROR_decompressionFailed"@.len() != "LZ4 error: ERROR_blockChecksum_invalid"@.len());
            reveal_strlit("LZ4 error: ERROR_reservedFlag_set");
            assert("LZ4 error: ERROR_decompressionFailed"@.len() != "LZ4 error: ERROR_reservedFlag_set"@.len());
            reveal_strlit("LZ4 error: ERROR_allocation_failed");
            assert("LZ4 error: ERROR_decompressionFailed"@.len() != "LZ4 error: ERROR_allocation_failed"@.len());
            reveal_strlit("LZ4 error: ERROR_srcSize_tooLarge");
            assert("LZ4 error: ERROR_decompressionFailed"@.len() != "LZ4 error: ERROR_srcSize_tooLarge"@.len());
            reveal_strlit("LZ4 error: ERROR_dstMaxSize_tooSmall");
            assert("LZ4 error: ERROR_decompressionFailed"@[18] != "LZ4 error: ERROR_dstMaxSize_tooSmall"@[18]);
            reveal_strlit("LZ4 error: ERROR_frameHeader_incomplete");
            assert("LZ4 error: ERROR_decompressionFailed"@.len() != "LZ4 error: ERROR_frameHeader_incomplete"@.len());
            reveal_strlit("LZ4 error: ERROR_frameType_unknown");
            assert("LZ4 error: ERROR_decompressionFailed"@.len() != "LZ4 error: ERROR_frameType_unknown"@.len());
            reveal_strlit("LZ4 error: ERROR_frameSize_wrong");
            assert("LZ4 error: ERROR_decompressionFailed"@.len() != "LZ4 error: ERROR_frameSize_wrong"@.len());
            reveal_strlit("LZ4 error: ERROR_srcPtr_wrong");
            assert("LZ4 error: ERROR_decompressionFailed"@.len() != "LZ4 error: ERROR_srcPtr_wrong"@.len());
        },
        ErrorKind::HeaderChecksumInvalid => {
            reveal_strlit("LZ4 error: ERROR_headerChecksum_invalid");
            reveal_strlit("LZ4 error: ERROR_GENERIC");
            assert("LZ4 error: ERROR_headerChecksum_invalid"@.len() != "LZ4 error: ERROR_GENERIC"@.len());
            reveal_strlit("LZ4 error: ERROR_maxBlockSize_invalid");
            assert("LZ4 error: ERROR_headerChecksum_invalid"@.len() != "LZ4 error: ERROR_maxBlockSize_invalid"@.len());
            reveal_strlit("LZ4 error: ERROR_blockMode_invalid");
            assert("LZ4 error: ERROR_headerChecksum_invalid"@.len() != "LZ4 error: ERROR_blockMode_invalid"@.len());
            reveal_strlit("LZ4 error: ERROR_parameter_invalid");
            assert("LZ4 error: ERROR_headerChecksum_invalid"@.len() != "LZ4 error: ERROR_parameter_invalid"@.len());
            reveal_strlit("LZ4 error: ERROR_compressionLevel_invalid");
            assert("LZ4 error: ERROR_headerChecksum_invalid"@.len() != "LZ4 error: ERROR_compressionLevel_invalid"@.len());
            reveal_strlit("LZ4 error: ERROR_headerVersion_wrong");
            assert("LZ4 error: ERROR_headerChecksum_invalid"@.len() != "LZ4 error: ERROR_headerVersion_wrong"@.len());
            reveal_strlit("LZ4 error: ERROR_blockChecksum_invalid");
            assert("LZ4 error: ERROR_headerChecksum_invalid"@.len() != "LZ4 error: ERROR_blockChecksum_invalid"@.len());
            reveal_strlit("LZ4 error: ERROR_reservedFlag_set");
            assert("LZ4 error: ERROR_headerChecksum_invalid"@.len() != "LZ4 error: ERROR_reservedFlag_set"@.len());
            reveal_strlit("LZ4 error: ERROR_allocation_failed");
            assert("LZ4 error: ERROR_headerChecksum_invalid"@.len() != "LZ4 error: ERROR_allocation_failed"@.len());
            reveal_strlit("LZ4 error: ERROR_srcSize_tooLarge");
            assert("LZ4 error: ERROR_headerChecksum_invalid"@.len() != "LZ4 error: ERROR_srcSize_tooLarge"@.len());
            reveal_strlit("LZ4 error: ERROR_dstMaxSize_tooSmall");
            assert("LZ4 error: ERROR_headerChecksum_invalid"@.len() != "LZ4 error: ERROR_dstMaxSize_tooSmall"@.len());
            reveal_strlit("LZ4 error: ERROR_frameHeader_incomplete");
            assert("LZ4 error: ERROR_headerChecksum_invalid"@[17] != "LZ4 error: ERROR_frameHeader_incomplete"@[17]);
            reveal_strlit("LZ4 error: ERROR_frameType_unknown");
            assert("LZ4 error: ERROR_headerChecksum_invalid"@.len() != "LZ4 error: ERROR_frameType_unknown"@.len());
            reveal_strlit("LZ4 error: ERROR_frameSize_wrong");
            assert("LZ4 error: ERROR_headerChecksum_invalid"@.len() != "LZ4 error: ERROR_frameSize_wrong"@.len());
            reveal_strlit("LZ4 error: ERROR_srcPtr_wrong");
            assert("LZ4 error: ERROR_headerChecksum_invalid"@.len() != "LZ4 error: ERROR_srcPtr_wrong"@.len());
            reveal_strlit("LZ4 error: ERROR_decompressionFailed");
            assert("LZ4 error: ERROR_headerChecksum_invalid"@.len() != "LZ4 error: ERROR_decompressionFailed"@.len());
        },
        ErrorKind::ContentChecksumInvalid => {
            reveal_strlit("LZ4 error: ERROR_contentChecksum_invalid");
            reveal_strlit("LZ4 error: ERROR_GENERIC");
            assert("LZ4 error: ERROR_contentChecksum_invalid"@.len() != "LZ4 error: ERROR_GENERIC"@.len());
            reveal_strlit("LZ4 error: ERROR_maxBlockSize_invalid");
            assert("LZ4 error: ERROR_contentChecksum_invalid"@.len() != "LZ4 error: ERROR_maxBlockSize_invalid"@.len());
            reveal_strlit("LZ4 error: ERROR_blockMode_invalid");
            assert("LZ4 error: ERROR_contentChecksum_invalid"@.len() != "LZ4 error: ERROR_blockMode_invalid"@.len());
            reveal_strlit("LZ4 error: ERROR_parameter_invalid");
            assert("LZ4 error: ERROR_contentChecksum_invalid"@.len() != "LZ4 error: ERROR_parameter_invalid"@.len());
            reveal_strlit("LZ4 error: ERROR_compressionLevel_invalid");
            assert("LZ4 error: ERROR_contentChecksum_invalid"@.len() != "LZ4 error: ERROR_compressionLevel_invalid"@.len());
            reveal_strlit("LZ4 error: ERROR_headerVersion_wrong");
            assert("LZ4 error: ERROR_contentChecksum_invalid"@.len() != "LZ4 error: ERROR_headerVersion_wrong"@.len());
            reveal_strlit("LZ4 error: ERROR_blockChecksum_invalid");
            assert("LZ4 error: ERROR_contentChecksum_invalid"@.len() != "LZ4 error: ERROR_blockChecksum_invalid"@.len());
            reveal_strlit("LZ4 error: ERROR_reservedFlag_set");
            assert("LZ4 error: ERROR_contentChecksum_invalid"@.len() != "LZ4 error: ERROR_reservedFlag_set"@.len());
            reveal_strlit("LZ4 error: ERROR_allocation_failed");
            assert("LZ4 error: ERROR_contentChecksum_invalid"@.len() != "LZ4 error: ERROR_allocation_failed"@.len());
            reveal_strlit("LZ4 error: ERROR_srcSize_tooLarge");
            assert("LZ4 error: ERROR_contentChecksum_invalid"@.len() != "LZ4 error: ERROR_srcSize_tooLarge"@.len());
            reveal_strlit("LZ4 error: ERROR_dstMaxSize_tooSmall");
            assert("LZ4 error: ERROR_contentChecksum_invalid"@.len() != "LZ4 error: ERROR_dstMaxSize_tooSmall"@.len());
            reveal_strlit("LZ4 error: ERROR_frameHeader_incomplete");
            assert("LZ4 error: ERROR_contentChecksum_invalid"@.len() != "LZ4 error: ERROR_frameHeader_incomplete"@.len());
            reveal_strlit("LZ4 error: ERROR_frameType_unknown");
            assert("LZ4 error: ERROR_contentChecksum_invalid"@.len() != "LZ4 error: ERROR_frameType_unknown"@.len());
            reveal_strlit("LZ4 error: ERROR_frameSize_wrong");
            assert("LZ4 error: ERROR_contentChecksum_invalid"@.len() != "LZ4 error: ERROR_frameSize_wrong"@.len());
            reveal_strlit("LZ4 error: ERROR_srcPtr_wrong");
            assert("LZ4 error: ERROR_contentChecksum_invalid"@.len() != "LZ4 error: ERROR_srcPtr_wrong"@.len());
            reveal_strlit("LZ4 error: ERROR_decompressionFailed");
            assert("LZ4 error: ERROR_contentChecksum_invalid"@.len() != "LZ4 error: ERROR_decompressionFailed"@.len());
            reveal_strlit("LZ4 error: ERROR_headerChecksum_invalid");
            assert("LZ4 error: ERROR_contentChecksum_invalid"@.len() != "LZ4 error: ERROR_headerChecksum_invalid"@.len());
        },
        ErrorKind::FrameDecodingAlreadyStarted => {
            reveal_strlit("LZ4 error: ERROR_frameDecoding_alreadyStarted");
            reveal_strlit("LZ4 error: ERROR_GENERIC");
            assert("LZ4 error: ERROR_frameDecoding_alreadyStarted"@.len() != "LZ4 error: ERROR_GENERIC"@.len());
            reveal_strlit("LZ4 error: ERROR_maxBlockSize_invalid");
            assert("LZ4 error: ERROR_frameDecoding_alreadyStarted"@.len() != "LZ4 error: ERROR_maxBlockSize_invalid"@.len());
            reveal_strlit("LZ4 error: ERROR_blockMode_invalid");
            assert("LZ4 error: ERROR_frameDecoding_alreadyStarted"@.len() != "LZ4 error: ERROR_blockMode_invalid"@.len());
            reveal_strlit("LZ4 error: ERROR_parameter_invalid");
            assert("LZ4 error: ERROR_frameDecoding_alreadyStarted"@.len() != "LZ4 error: ERROR_parameter_invalid"@.len());
            reveal_strlit("LZ4 error: ERROR_compressionLevel_invalid");
            assert("LZ4 error: ERROR_frameDecoding_alreadyStarted"@.len() != "LZ4 error: ERROR_compressionLevel_invalid"@.len());
            reveal_strlit("LZ4 error: ERROR_headerVersion_wrong");
            assert("LZ4 error: ERROR_frameDecoding_alreadyStarted"@.len() != "LZ4 error: ERROR_headerVersion_wrong"@.len());
            reveal_strlit("LZ4 error: ERROR_blockChecksum_invalid");
            assert("LZ4 error: ERROR_frameDecoding_alreadyStarted"@.len() != "LZ4 error: ERROR_blockChecksum_invalid"@.len());
            reveal_strlit("LZ4 error: ERROR_reservedFlag_set");
            assert("LZ4 error: ERROR_frameDecoding_alreadyStarted"@.len() != "LZ4 error: ERROR_reservedFlag_set"@.len());
            reveal_strlit("LZ4 error: ERROR_allocation_failed");
            assert("LZ4 error: ERROR_frameDecoding_alreadyStarted"@.len() != "LZ4 error: ERROR_allocation_failed"@.len());
            reveal_strlit("LZ4 error: ERROR_srcSize_tooLarge");
            assert("LZ4 error: ERROR_frameDecoding_alreadyStarted"@.len() != "LZ4 error: ERROR_srcSize_tooLarge"@.len());
            reveal_strlit("LZ4 error: ERROR_dstMaxSize_tooSmall");
            assert("LZ4 error: ERROR_frameDecoding_alreadyStarted"@.len() != "LZ4 error: ERROR_dstMaxSize_tooSmall"@.len());
            reveal_strlit("LZ4 error: ERROR_frameHeader_incomplete");
            assert("LZ4 error: ERROR_frameDecoding_alreadyStarted"@.len() != "LZ4 error: ERROR_frameHeader_incomplete"@.len());
            reveal_strlit("LZ4 error: ERROR_frameType_unknown");
            assert("LZ4 error: ERROR_frameDecoding_alreadyStarted"@.len() != "LZ4 error: ERROR_frameType_unknown"@.len());
            reveal_strlit("LZ4 error: ERROR_frameSize_wrong");
            assert("LZ4 error: ERROR_frameDecoding_alreadyStarted"@.len() != "LZ4 error: ERROR_frameSize_wrong"@.len());
            reveal_strlit("LZ4 error: ERROR_srcPtr_wrong");
            assert("LZ4 error: ERROR_frameDecoding_alreadyStarted"@.len() != "LZ4 error: ERROR_srcPtr_wrong"@.len());
            reveal_strlit("LZ4 error: ERROR_decompressionFailed");
            assert("LZ4 error: ERROR_frameDecoding_alreadyStarted"@.len() != "LZ4 error: ERROR_decompressionFailed"@.len());
            reveal_strlit("LZ4 error: ERROR_headerChecksum_invalid");
            assert("LZ4 error: ERROR_frameDecoding_alreadyStarted"@.len() != "LZ4 error: ERROR_headerChecksum_invalid"@.len());
            reveal_strlit("LZ4 error: ERROR_contentChecksum_invalid");
            assert("LZ4 error: ERROR_frameDecoding_alreadyStarted"@.len() != "LZ4 error: ERROR_contentChecksum_invalid"@.len());
        },
    }
}

} // verus!
