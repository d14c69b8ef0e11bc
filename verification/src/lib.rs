//! Decoder for M-Bus (Meter-Bus) telegrams.
//!
//! The parser consumes a prefix of a byte slice and returns the parsed
//! telegram together with the unconsumed remainder, so a caller can feed a
//! byte stream through it frame by frame.

use vstd::prelude::*;

mod address;
pub use address::Address;
pub use address::spec_address;

mod control;
pub use control::Control;
pub use control::spec_control;

mod laws;
pub use laws::lemma_checksum_mutation;
pub use laws::lemma_length_mismatch;
pub use laws::lemma_round_trip_long;
pub use laws::lemma_round_trip_short;
pub use laws::lemma_truncation_incomplete;
pub use laws::long_frame_bytes;
pub use laws::short_frame_bytes;

mod telegram;
pub use telegram::Telegram;
pub use telegram::TelegramView;
pub use telegram::checksum;
pub use telegram::spec_parse;
pub use telegram::spec_parse_payload;
pub use telegram::SINGLE_CHAR;
pub use telegram::SHORT_START_CHAR;
pub use telegram::LONG_START_CHAR;
pub use telegram::STOP_CHAR;

verus! {

/// An M-Bus error.
#[derive(Debug, Clone, Copy, PartialEq, Eq)]
pub enum Error {
    /// Telegram does not start with the expected character.
    InvalidStartCharacter,
    /// Telegram format is wrong.
    InvalidFormat,
    /// Telegram is incomplete; carries the number of additional bytes
    /// needed when that number is known.
    Incomplete(Option<usize>),
    /// Checksum does not match.
    ChecksumMismatch,
}

} // verus!
