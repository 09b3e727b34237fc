//! LZ4F compression and decompression.
//!
//! LZ4F: LZ4 Frame Format.

mod bound;
mod buffer;
mod bytes;
mod codec;
mod decompressor;
mod compressor;
mod dict_frame;
mod dictionary;
mod error;
mod frame;
mod frame_info;
mod preferences;
mod queue;
mod stream;
mod writer;

pub use error::{
    is_error_code, kind_message_spec, lemma_from_code_of_code, lemma_message_names_its_kind, lemma_result_from_returned_error, message_code,
    message_code_spec, result_from_code, result_from_code_spec, Error, ErrorKind, Result,
    LZ4F_ERROR_MAX_CODE,
};
pub use frame_info::{BlockChecksum, BlockMode, BlockSize, ContentChecksum, FrameInfo, FrameType};
pub use preferences::{
    lemma_named_levels_are_custom_levels, AutoFlush, CompressionLevel, FavorDecSpeed, Preferences,
    PreferencesBuilder, COMPRESSION_LEVEL_DEFAULT, COMPRESSION_LEVEL_HIGH, COMPRESSION_LEVEL_MAX,
};
pub use bound::{
    compress_bound, compress_bound_internal_spec, compress_bound_spec, compress_frame_bound_spec,
    frame_preferences, frame_preferences_spec, header_size, header_size_spec,
    lemma_bounds_fit, lemma_compress_bound_internal_le, lemma_compress_bound_monotone,
    lemma_frame_preferences_bound, lemma_max_compressed_size_monotone, lemma_written_header_prefix,
    written_header_len_spec, written_header_spec,
    max_compressed_size, optimal_block_size, optimal_block_size_spec, read_le32_spec,
    LZ4F_HEADER_SIZE_MAX, LZ4F_HEADER_SIZE_MIN, LZ4F_MIN_SIZE_TO_KNOW_HEADER_LENGTH,
};
pub use buffer::{grown_len_spec, holds_output_spec, LZ4Buffer};
pub use codec::{decoder_contents, encoder_contents, lz4f_decode};
pub use frame::{
    compress, compress_to_vec, decoded_spec, decompress_to_vec, lemma_compressed_frame_round_trip,
};
pub use dictionary::{Dictionary, DictionaryHandle};
pub use compressor::{
    joined, lemma_finished_output_decompresses, lemma_handed_out_then_pending, lemma_read_out_frame_decompresses,
    lemma_hand_out_run, CompressionContext, Compressor, State,
};
pub use stream::{CompressorBuilder, DecompressorBuilder};
pub use queue::OutputQueue;
pub use decompressor::{
    header_complete_spec, header_target_spec, lemma_frame_info_after_whole_header, lemma_take_header_in_pieces,
    take_header_spec,
    DecompressStep, Decompressor,
};
pub use writer::{
    after_calls, lemma_close_ends_in_shutdown, lemma_completed_step_progresses, lemma_request_device_calls,
    lemma_request_in_hand_resumes, lemma_shutdown_is_final, request_calls,
    lemma_started_request_resumes, RequestDecision, WriterRequest, WriterState, WriterStep,
};
pub use dict_frame::{
    dict_plan_spec, lemma_dict_plan_after_write, lemma_dict_plan_calls, settle_spec, DictFrameState, DictPlan,
};
