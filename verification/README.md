# lzzzz

LZ4 frame (LZ4F) compression and decompression on top of liblz4, with the
library's logic verified by Verus.

## Layout

- `src/` — the verified library (`lzzzz`):
  - `lz4f/frame.rs` — one-shot `compress`, `compress_to_vec` and
    `decompress_to_vec`, with the round trip stated over what liblz4 decodes;
  - `lz4f/compressor.rs` — a compression context that appends a frame piece
    by piece, and the streaming compressor state machine on top of it;
  - `lz4f/decompressor.rs` — the decisions of a streaming decompressor:
    gathering the frame header, header-only mode, the dictionary rule, the
    output buffer;
  - `lz4f/writer.rs` — the state machine of the asynchronous writers;
  - `lz4f/dict_frame.rs` — the decisions of a compressor whose liblz4 calls
    (with a dictionary loaded) are made by the caller: which calls a
    request is made of, the room each call gets, and what its returned
    value means for the output;
  - `lz4f/bound.rs` — liblz4's worst-case output sizes, block size choice
    and frame header size;
  - `lz4f/codec.rs` — the calls into the `lz4` crate, each with the contract
    that the rest of the library relies on;
  - preferences, frame parameters, errors, dictionaries, builders and
    buffers.
- `app/` — ordinary Rust around the library: `Read`/`BufRead`/`Write`
  compressors and decompressors, their `futures-lite` asynchronous
  counterparts, and the two pieces of liblz4 that only its C API reaches:
  the push-style decompression context (`ffi.rs`) and the calls that
  compress with a dictionary loaded into liblz4 (`dict.rs`, driven by the
  verified `DictFrameState`).
- `tests/` — tests of the library.
