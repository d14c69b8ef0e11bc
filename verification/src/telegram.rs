//! The M-Bus frame parser: frame-kind dispatch, length echo, checksum and
//! stop-character validation, and zero-copy extraction of the user data.

use vstd::prelude::*;

use crate::address::{Address, spec_address};
use crate::control::{Control, spec_control};
use crate::Error;

verus! {

/// The single-character acknowledgment frame.
pub const SINGLE_CHAR: u8 = 0xe5;

/// Start character of a short frame.
pub const SHORT_START_CHAR: u8 = 0x10;

/// Start character of a control or long frame.
pub const LONG_START_CHAR: u8 = 0x68;

/// Stop character ending every short, control and long frame.
pub const STOP_CHAR: u8 = 0x16;

/// An M-Bus telegram.
///
/// The user data of a long frame borrows from the input buffer handed to
/// [`Telegram::parse`]; no payload byte is copied.
#[derive(Debug, Clone, PartialEq)]
pub enum Telegram<'ud> {
    SingleCharacter,
    ShortFrame {
        control: Control,
        address: Address,
    },
    ControlFrame {
        control: Control,
        address: Address,
        control_information: u8,
    },
    LongFrame {
        control: Control,
        address: Address,
        control_information: u8,
        user_data: &'ud [u8],
    },
}

/// The mathematical shape of a parsed telegram: what a [`Telegram`] carries,
/// with the borrowed user data abstracted to the byte sequence it holds.
pub enum TelegramView {
    SingleCharacter,
    ShortFrame {
        control: Control,
        address: Address,
    },
    ControlFrame {
        control: Control,
        address: Address,
        control_information: u8,
    },
    LongFrame {
        control: Control,
        address: Address,
        control_information: u8,
        user_data: Seq<u8>,
    },
}

impl<'ud> View for Telegram<'ud> {
    type V = TelegramView;

    open spec fn view(&self) -> TelegramView {
        match *self {
            Telegram::SingleCharacter => TelegramView::SingleCharacter,
            Telegram::ShortFrame { control, address } => (TelegramView::ShortFrame {
                control,
                address,
            }),
            Telegram::ControlFrame { control, address, control_information } => (
            TelegramView::ControlFrame { control, address, control_information }),
            Telegram::LongFrame { control, address, control_information, user_data } => (
            TelegramView::LongFrame {
                control,
                address,
                control_information,
                user_data: user_data@,
            }),
        }
    }
}

/// The telegram checksum: the sum of the given bytes under 8-bit wraparound
/// addition, that is, the low byte of the plain sum.
pub open spec fn checksum(bytes: Seq<u8>) -> u8
    decreases bytes.len(),
{
    if bytes.len() == 0 {
        0
    } else {
        ((checksum(bytes.drop_last()) + bytes.last()) % 256) as u8
    }
}

/// Parse of the payload, checksum and stop character shared by the short and
/// the long/control branches. `start` is the index of the first payload byte
/// and `len` the declared payload length (control and address bytes
/// included), so the checksum byte sits at `start + len` and the stop
/// character right after it. Yields the total number of consumed input bytes
/// and the classified telegram, or the error that ends this frame attempt.
pub open spec fn spec_parse_payload(input: Seq<u8>, start: int, len: int) -> Result<
    (int, TelegramView),
    Error,
>
    recommends
        0 <= start <= input.len(),
        2 <= len,
{
    let avail = input.len() - start;
    if avail < 1 {
        Err(Error::Incomplete(Some(1usize)))
    } else {
        match spec_control(input[start]) {
            Err(_) => Err(Error::InvalidFormat),
            Ok(control) => if avail < 2 {
                Err(Error::Incomplete(Some(1usize)))
            } else if len > 2 && avail < 3 {
                Err(Error::Incomplete(Some(1usize)))
            } else if avail < len {
                Err(Error::Incomplete(Some((len - avail) as usize)))
            } else if avail < len + 1 {
                Err(Error::Incomplete(Some(1usize)))
            } else if input[start + len] != checksum(input.subrange(start, start + len)) {
                Err(Error::ChecksumMismatch)
            } else if avail < len + 2 {
                Err(Error::Incomplete(Some(1usize)))
            } else if input[start + len + 1] != STOP_CHAR {
                Err(Error::InvalidFormat)
            } else {
                let address = spec_address(input[start + 1]);
                if len == 2 {
                    Ok((start + len + 2, TelegramView::ShortFrame { control, address }))
                } else if len == 3 {
                    Ok(
                        (
                            start + len + 2,
                            TelegramView::ControlFrame {
                                control,
                                address,
                                control_information: input[start + 2],
                            },
                        ),
                    )
                } else {
                    Ok(
                        (
                            start + len + 2,
                            TelegramView::LongFrame {
                                control,
                                address,
                                control_information: input[start + 2],
                                user_data: input.subrange(start + 3, start + len),
                            },
                        ),
                    )
                }
            },
        }
    }
}

/// The full parse: dispatch on the leading byte, then payload validation.
///
/// A leading 0xE5 is the one-byte acknowledgment. A leading 0x10 opens a
/// short frame with fixed payload length 2. A leading 0x68 opens a long or
/// control frame whose payload length is declared twice and followed by a
/// repeated 0x68; disagreeing length bytes or a missing repeated start
/// marker are invalid-start errors, and a declared length too short to hold
/// the control and address bytes is an invalid-format error. Any other
/// leading byte is an invalid-start error.
pub open spec fn spec_parse(input: Seq<u8>) -> Result<(int, TelegramView), Error> {
    if input.len() == 0 {
        Err(Error::Incomplete(Some(1usize)))
    } else if input[0] == SINGLE_CHAR {
        Ok((1, TelegramView::SingleCharacter))
    } else if input[0] == SHORT_START_CHAR {
        spec_parse_payload(input, 1, 2)
    } else if input[0] == LONG_START_CHAR {
        if input.len() < 4 {
            Err(Error::Incomplete(Some(1usize)))
        } else if input[1] != input[2] || input[3] != LONG_START_CHAR {
            Err(Error::InvalidStartCharacter)
        } else if input[1] < 2 {
            Err(Error::InvalidFormat)
        } else {
            spec_parse_payload(input, 4, input[1] as int)
        }
    } else {
        Err(Error::InvalidStartCharacter)
    }
}

impl<'ud> Telegram<'ud> {
    /// Parses one telegram from the front of `input`.
    ///
    /// On success the parsed telegram is returned together with the
    /// unconsumed remainder of `input`, ready for the next call; on failure
    /// the error classifies what stopped this frame attempt, exactly as
    /// [`spec_parse`] lays down.
    pub fn parse(input: &'ud [u8]) -> (res: Result<(&'ud [u8], Telegram<'ud>), Error>)
        ensures
            (match res {
                Ok((remaining, telegram)) => {
                    &&& spec_parse(input@) matches Ok(parsed)
                    &&& 0 <= parsed.0 <= input@.len()
                    &&& remaining@ == input@.subrange(parsed.0, input@.len() as int)
                    &&& telegram@ == parsed.1
                },
                Err(e) => spec_parse(input@) == Err::<(int, TelegramView), Error>(e),
            }),
    {
        if input.len() == 0 {
            return Err(Error::Incomplete(Some(1)));
        }
        let first = input[0];
        if first == SINGLE_CHAR {
            let remaining = &input[1..input.len()];
            Ok((remaining, Telegram::SingleCharacter))
        } else if first == SHORT_START_CHAR {
            Self::parse_short(input)
        } else if first == LONG_START_CHAR {
            Self::parse_long(input)
        } else {
            Err(Error::InvalidStartCharacter)
        }
    }

    /// The short-frame branch: the fixed payload length is 2.
    fn parse_short(input: &'ud [u8]) -> (res: Result<(&'ud [u8], Telegram<'ud>), Error>)
        requires
            input@.len() >= 1,
            input@[0] == SHORT_START_CHAR,
        ensures
            (match res {
                Ok((remaining, telegram)) => {
                    &&& spec_parse(input@) matches Ok(parsed)
                    &&& 0 <= parsed.0 <= input@.len()
                    &&& remaining@ == input@.subrange(parsed.0, input@.len() as int)
                    &&& telegram@ == parsed.1
                },
                Err(e) => spec_parse(input@) == Err::<(int, TelegramView), Error>(e),
            }),
    {
        Self::parse_payload(input, 1, 2)
    }

    /// The long/control-frame branch: validates the duplicated length byte
    /// and the repeated start marker, then parses the declared payload.
    fn parse_long(input: &'ud [u8]) -> (res: Result<(&'ud [u8], Telegram<'ud>), Error>)
        requires
            input@.len() >= 1,
            input@[0] == LONG_START_CHAR,
        ensures
            (match res {
                Ok((remaining, telegram)) => {
                    &&& spec_parse(input@) matches Ok(parsed)
                    &&& 0 <= parsed.0 <= input@.len()
                    &&& remaining@ == input@.subrange(parsed.0, input@.len() as int)
                    &&& telegram@ == parsed.1
                },
                Err(e) => spec_parse(input@) == Err::<(int, TelegramView), Error>(e),
            }),
    {
        if input.len() < 4 {
            return Err(Error::Incomplete(Some(1)));
        }
        let payload_len = input[1];
        let payload_len_check = input[2];
        if payload_len != payload_len_check || input[3] != LONG_START_CHAR {
            return Err(Error::InvalidStartCharacter);
        }
        if payload_len < 2 {
            return Err(Error::InvalidFormat);
        }
        Self::parse_payload(input, 4, payload_len as usize)
    }

    /// Parses payload, checksum and stop character starting at `start`,
    /// accumulating the 8-bit wraparound checksum over all `len` payload
    /// bytes, and classifies the frame by its declared payload length.
    fn parse_payload(input: &'ud [u8], start: usize, len: usize) -> (res: Result<
        (&'ud [u8], Telegram<'ud>),
        Error,
    >)
        requires
            1 <= start <= input@.len(),
            2 <= len,
            start + len + 2 <= usize::MAX,
        ensures
            (match res {
                Ok((remaining, telegram)) => {
                    &&& spec_parse_payload(input@, start as int, len as int) matches Ok(parsed)
                    &&& 0 <= parsed.0 <= input@.len()
                    &&& remaining@ == input@.subrange(parsed.0, input@.len() as int)
                    &&& telegram@ == parsed.1
                },
                Err(e) => spec_parse_payload(input@, start as int, len as int) == Err::<
                    (int, TelegramView),
                    Error,
                >(e),
            }),
    {
        let avail = input.len() - start;
        if avail < 1 {
            return Err(Error::Incomplete(Some(1)));
        }
        let control = match Control::try_from(input[start]) {
            Ok(control) => control,
            Err(_) => {
                return Err(Error::InvalidFormat);
            },
        };
        if avail < 2 {
            return Err(Error::Incomplete(Some(1)));
        }
        let address = Address::from(input[start + 1]);
        if len > 2 && avail < 3 {
            return Err(Error::Incomplete(Some(1)));
        }
        if avail < len {
            return Err(Error::Incomplete(Some(len - avail)));
        }
        let mut calculated_checksum: u8 = 0;
        let end = start + len;
        let mut i: usize = start;
        while i < end
            invariant
                start <= i <= end,
                end == start + len,
                end <= input@.len(),
                calculated_checksum == checksum(input@.subrange(start as int, i as int)),
            decreases end - i,
        {
            proof {
                let done = input@.subrange(start as int, i as int);
                let next = input@.subrange(start as int, i + 1);
                assert(next.drop_last() =~= done);
                assert(next.last() == input@[i as int]);
            }
            calculated_checksum = calculated_checksum.wrapping_add(input[i]);
            i = i + 1;
        }
        if avail < len + 1 {
            return Err(Error::Incomplete(Some(1)));
        }
        if input[start + len] != calculated_checksum {
            return Err(Error::ChecksumMismatch);
        }
        if avail < len + 2 {
            return Err(Error::Incomplete(Some(1)));
        }
        if input[start + len + 1] != STOP_CHAR {
            return Err(Error::InvalidFormat);
        }
        let remaining = &input[start + len + 2..input.len()];
        let telegram = if len == 2 {
            Telegram::ShortFrame { control, address }
        } else if len == 3 {
            Telegram::ControlFrame { control, address, control_information: input[start + 2] }
        } else {
            let user_data = &input[start + 3..start + len];
            Telegram::LongFrame {
                control,
                address,
                control_information: input[start + 2],
                user_data,
            }
        };
        Ok((remaining, telegram))
    }
}

} // verus!

