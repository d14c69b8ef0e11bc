//! Classification of the one-byte M-Bus control field.

use vstd::prelude::*;

verus! {

/// An M-Bus control field.
#[derive(Debug, Clone, PartialEq)]
#[non_exhaustive]
pub enum Control {
    /// Initialization of slave.
    SndNke,
    /// Send user data to slave.
    SndUd { fcb: bool },
    /// Request for class 1 data.
    ReqUd1 { fcb: bool },
    /// Request for class 2 data.
    ReqUd2 { fcb: bool },
    /// Data transfer from slave to master after request.
    RspUd { acd: bool, dfc: bool },
}

/// The control-field classification: each of the eleven recognized bit
/// patterns maps to exactly one variant, and every other byte is rejected,
/// carrying the offending byte. Within SndUd, ReqUd1 and ReqUd2 bit 5 (0x20)
/// is the frame-count bit; within RspUd bit 5 (0x20) is access demand and
/// bit 4 (0x10) is data-flow control.
pub open spec fn spec_control(control: u8) -> Result<Control, u8> {
    if control == 0b01000000 {
        Ok(Control::SndNke)
    } else if control == 0b01010011 {
        Ok(Control::SndUd { fcb: false })
    } else if control == 0b01110011 {
        Ok(Control::SndUd { fcb: true })
    } else if control == 0b01011011 {
        Ok(Control::ReqUd1 { fcb: false })
    } else if control == 0b01111011 {
        Ok(Control::ReqUd1 { fcb: true })
    } else if control == 0b01011010 {
        Ok(Control::ReqUd2 { fcb: false })
    } else if control == 0b01111010 {
        Ok(Control::ReqUd2 { fcb: true })
    } else if control == 0b00001000 {
        Ok(Control::RspUd { acd: false, dfc: false })
    } else if control == 0b00011000 {
        Ok(Control::RspUd { acd: false, dfc: true })
    } else if control == 0b00101000 {
        Ok(Control::RspUd { acd: true, dfc: false })
    } else if control == 0b00111000 {
        Ok(Control::RspUd { acd: true, dfc: true })
    } else {
        Err(control)
    }
}

impl TryFrom<u8> for Control {
    type Error = u8;

    /// Classifies a control byte; any byte outside the eleven recognized
    /// patterns is returned unchanged as the error.
    fn try_from(control: u8) -> (classified: Result<Self, u8>)
        ensures
            classified == spec_control(control),
    {
        if control == 0b01000000 {
            Ok(Self::SndNke)
        } else if control == 0b01010011 {
            Ok(Self::SndUd { fcb: false })
        } else if control == 0b01110011 {
            Ok(Self::SndUd { fcb: true })
        } else if control == 0b01011011 {
            Ok(Self::ReqUd1 { fcb: false })
        } else if control == 0b01111011 {
            Ok(Self::ReqUd1 { fcb: true })
        } else if control == 0b01011010 {
            Ok(Self::ReqUd2 { fcb: false })
        } else if control == 0b01111010 {
            Ok(Self::ReqUd2 { fcb: true })
        } else if control == 0b00001000 {
            Ok(Self::RspUd { acd: false, dfc: false })
        } else if control == 0b00011000 {
            Ok(Self::RspUd { acd: false, dfc: true })
        } else if control == 0b00101000 {
            Ok(Self::RspUd { acd: true, dfc: false })
        } else if control == 0b00111000 {
            Ok(Self::RspUd { acd: true, dfc: true })
        } else {
            Err(control)
        }
    }
}

impl vstd::std_specs::convert::TryFromSpecImpl<u8> for Control {
    open spec fn obeys_try_from_spec() -> bool {
        true
    }

    open spec fn try_from_spec(control: u8) -> Result<Control, u8> {
        spec_control(control)
    }
}

} // verus!
