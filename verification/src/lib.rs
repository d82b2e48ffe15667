mod config;
mod digest;
mod hasher;
mod hex;
mod report;

pub use config::AcquirePlan;
pub use config::acquire_plan;
pub use config::check_length_bits;
pub use config::effective_inputs;
pub use config::is_stdin_sentinel;
pub use config::length_bytes;
pub use config::stdin_sentinel;
pub use config::valid_length_bits;
pub use digest::CHUNK_LEN;
pub use digest::concat_of;
pub use digest::hash_chunked;
pub use digest::hash_pieces;
pub use digest::hash_whole;
pub use digest::lemma_digest_deterministic;
pub use digest::lemma_paths_converge;
pub use hasher::Hasher;
pub use hasher::blake2b_of;
pub use hex::byte_hex;
pub use hex::hex_digit;
pub use hex::hex_of;
pub use hex::lemma_digest_hex_len;
pub use hex::lemma_hex_of_len;
pub use hex::to_hex;
pub use report::any_input_failed;
pub use report::error_line;
pub use report::exit_status;
pub use report::success_line;
