//! Frame-level laws of the parser: well-formed frames parse back to their
//! fields, a corrupted checksum is always reported as a checksum mismatch,
//! a truncated frame is always reported as incomplete, and disagreeing
//! length bytes are always an invalid start.

use vstd::prelude::*;

use crate::address::spec_address;
use crate::control::spec_control;
use crate::telegram::{
    checksum, spec_parse, spec_parse_payload, TelegramView, LONG_START_CHAR, SHORT_START_CHAR,
    STOP_CHAR,
};
use crate::Error;

verus! {

/// The bytes of a well-formed short frame for the given control and address
/// bytes: start character, the two payload bytes, their checksum, and the
/// stop character.
pub open spec fn short_frame_bytes(control: u8, address: u8) -> Seq<u8> {
    seq![
        SHORT_START_CHAR,
        control,
        address,
        checksum(seq![control, address]),
        STOP_CHAR,
    ]
}

/// The bytes of a well-formed long or control frame for the given control,
/// address and control-information bytes and user data: the start character,
/// the payload length declared twice, the repeated start character, the
/// payload, its checksum, and the stop character.
pub open spec fn long_frame_bytes(
    control: u8,
    address: u8,
    control_information: u8,
    user_data: Seq<u8>,
) -> Seq<u8> {
    let payload = seq![control, address, control_information] + user_data;
    let len = payload.len() as u8;
    seq![LONG_START_CHAR, len, len, LONG_START_CHAR] + payload + seq![
        checksum(payload),
        STOP_CHAR,
    ]
}

/// Round-trip law, short frames: a well-formed short frame built from any
/// recognized control byte and any address byte parses back, in front of any
/// remainder, to exactly those fields, consuming exactly the frame.
pub proof fn lemma_round_trip_short(control: u8, address: u8, rest: Seq<u8>)
    requires
        spec_control(control) is Ok,
    ensures
        spec_parse(short_frame_bytes(control, address) + rest) == Ok::<
            (int, TelegramView),
            Error,
        >(
            (
                5int,
                TelegramView::ShortFrame {
                    control: spec_control(control)->Ok_0,
                    address: spec_address(address),
                },
            ),
        ),
{
    let frame = short_frame_bytes(control, address);
    let input = frame + rest;
    assert(input[0] == SHORT_START_CHAR);
    assert(input[1] == control);
    assert(input[2] == address);
    assert(input.subrange(1, 3) =~= seq![control, address]);
    assert(input[3] == checksum(seq![control, address]));
    assert(input[4] == STOP_CHAR);
    assert(spec_parse_payload(input, 1, 2) == Ok::<(int, TelegramView), Error>(
        (
            5int,
            TelegramView::ShortFrame {
                control: spec_control(control)->Ok_0,
                address: spec_address(address),
            },
        ),
    ));
}

/// Round-trip law, long and control frames: a well-formed frame built from
/// any recognized control byte, any address and control-information bytes
/// and any user data that fits the one-byte length field parses back, in
/// front of any remainder, to exactly those fields — a control frame when
/// the user data is empty, a long frame otherwise — consuming exactly the
/// frame.
pub proof fn lemma_round_trip_long(
    control: u8,
    address: u8,
    control_information: u8,
    user_data: Seq<u8>,
    rest: Seq<u8>,
)
    requires
        spec_control(control) is Ok,
        3 + user_data.len() <= 255,
    ensures
        spec_parse(long_frame_bytes(control, address, control_information, user_data) + rest)
            == Ok::<(int, TelegramView), Error>(
            (
                user_data.len() + 9int,
                if user_data.len() == 0 {
                    TelegramView::ControlFrame {
                        control: spec_control(control)->Ok_0,
                        address: spec_address(address),
                        control_information,
                    }
                } else {
                    TelegramView::LongFrame {
                        control: spec_control(control)->Ok_0,
                        address: spec_address(address),
                        control_information,
                        user_data,
                    }
                },
            ),
        ),
{
    let payload = seq![control, address, control_information] + user_data;
    let len = payload.len() as int;
    let frame = long_frame_bytes(control, address, control_information, user_data);
    let input = frame + rest;
    assert(frame.len() == len + 6);
    assert(input[0] == LONG_START_CHAR);
    assert(input[1] == len as u8);
    assert(input[2] == len as u8);
    assert(input[3] == LONG_START_CHAR);
    assert((len as u8) as int == len);
    assert(input[4] == control);
    assert(input[5] == address);
    assert(input[6] == control_information);
    assert(input.subrange(4, 4 + len) =~= payload);
    assert(input[4 + len] == checksum(payload));
    assert(input[4 + len + 1] == STOP_CHAR);
    assert(input.subrange(7, 4 + len) =~= user_data);
    assert(spec_parse(input) == spec_parse_payload(input, 4, len));
}

/// Checksum mutation law: flipping any single bit of the checksum byte of an
/// input that parses as a short, control or long frame makes the parse fail
/// with a checksum mismatch and nothing else. The checksum byte of such a
/// frame is the second-to-last consumed byte.
pub proof fn lemma_checksum_mutation(
    input: Seq<u8>,
    consumed: int,
    telegram: TelegramView,
    bit: u8,
)
    requires
        spec_parse(input) == Ok::<(int, TelegramView), Error>((consumed, telegram)),
        !(telegram is SingleCharacter),
        bit < 8,
    ensures
        spec_parse(input.update(consumed - 2, input[consumed - 2] ^ (1u8 << bit))) == Err::<
            (int, TelegramView),
            Error,
        >(Error::ChecksumMismatch),
{
    let start: int = if input[0] == SHORT_START_CHAR {
        1
    } else {
        4
    };
    let len: int = if input[0] == SHORT_START_CHAR {
        2
    } else {
        input[1] as int
    };
    let ck = start + len;
    let flipped = input[ck] ^ (1u8 << bit);
    let mutated = input.update(ck, flipped);
    assert(consumed == ck + 2);
    let original = input[ck];
    assert(flipped != original) by (bit_vector)
        requires
            bit < 8,
            flipped == original ^ (1u8 << bit),
    ;
    assert(mutated.subrange(start, start + len) =~= input.subrange(start, start + len));
    assert(checksum(mutated.subrange(start, start + len)) == checksum(
        input.subrange(start, start + len),
    ));
    assert(spec_parse_payload(mutated, start, len) == Err::<(int, TelegramView), Error>(
        Error::ChecksumMismatch,
    ));
}

/// Truncation law: cutting an input that parses successfully anywhere short
/// of the consumed frame makes the parse fail as incomplete — never as a
/// format, start-character or checksum error.
pub proof fn lemma_truncation_incomplete(
    input: Seq<u8>,
    consumed: int,
    telegram: TelegramView,
    cut: int,
)
    requires
        spec_parse(input) == Ok::<(int, TelegramView), Error>((consumed, telegram)),
        0 <= cut < consumed,
    ensures
        spec_parse(input.subrange(0, cut)) matches Err(e) && e is Incomplete,
{
    let prefix = input.subrange(0, cut);
    if cut == 0 {
        assert(prefix.len() == 0);
    } else {
        let start: int = if input[0] == SHORT_START_CHAR {
            1
        } else {
            4
        };
        let len: int = if input[0] == SHORT_START_CHAR {
            2
        } else {
            input[1] as int
        };
        assert(consumed == start + len + 2);
        if cut >= start {
            let avail = cut - start;
            if avail >= len + 1 {
                assert(prefix.subrange(start, start + len) =~= input.subrange(
                    start,
                    start + len,
                ));
            }
            assert(spec_parse_payload(prefix, start, len) matches Err(e) && e is Incomplete);
        }
    }
}

/// Length-mismatch law: a long or control frame whose two length bytes
/// disagree fails as an invalid start character, whatever the rest of the
/// input — checksum included — holds.
pub proof fn lemma_length_mismatch(input: Seq<u8>)
    requires
        input.len() >= 4,
        input[0] == LONG_START_CHAR,
        input[3] == LONG_START_CHAR,
        input[1] != input[2],
    ensures
        spec_parse(input) == Err::<(int, TelegramView), Error>(Error::InvalidStartCharacter),
{
}

} // verus!
