//! Classification of the address and control field bytes.

use mbus::{Address, Control};

#[test]
fn address_boundary_values() {
    assert_eq!(Address::from(0), Address::Unconfigured);
    assert_eq!(Address::from(1), Address::Configured(1));
    assert_eq!(Address::from(250), Address::Configured(250));
    assert_eq!(Address::from(251), Address::Reserved);
    assert_eq!(Address::from(252), Address::Reserved);
    assert_eq!(Address::from(253), Address::AddressingPerformedInNetworkLayer);
    assert_eq!(Address::from(254), Address::Broadcast);
    assert_eq!(Address::from(255), Address::Broadcast);
}

#[test]
fn every_configured_address_keeps_its_byte() {
    for byte in 1..=250u8 {
        assert_eq!(Address::from(byte), Address::Configured(byte));
    }
}

#[test]
fn control_recognizes_all_eleven_patterns() {
    assert_eq!(Control::try_from(0b01000000), Ok(Control::SndNke));
    assert_eq!(Control::try_from(0b01010011), Ok(Control::SndUd { fcb: false }));
    assert_eq!(Control::try_from(0b01110011), Ok(Control::SndUd { fcb: true }));
    assert_eq!(Control::try_from(0b01011011), Ok(Control::ReqUd1 { fcb: false }));
    assert_eq!(Control::try_from(0b01111011), Ok(Control::ReqUd1 { fcb: true }));
    assert_eq!(Control::try_from(0b01011010), Ok(Control::ReqUd2 { fcb: false }));
    assert_eq!(Control::try_from(0b01111010), Ok(Control::ReqUd2 { fcb: true }));
    assert_eq!(
        Control::try_from(0b00001000),
        Ok(Control::RspUd { acd: false, dfc: false })
    );
    assert_eq!(
        Control::try_from(0b00011000),
        Ok(Control::RspUd { acd: false, dfc: true })
    );
    assert_eq!(
        Control::try_from(0b00101000),
        Ok(Control::RspUd { acd: true, dfc: false })
    );
    assert_eq!(
        Control::try_from(0b00111000),
        Ok(Control::RspUd { acd: true, dfc: true })
    );
}

#[test]
fn unrecognized_control_bytes_carry_the_byte_back() {
    let recognized = [
        0b01000000u8,
        0b01010011,
        0b01110011,
        0b01011011,
        0b01111011,
        0b01011010,
        0b01111010,
        0b00001000,
        0b00011000,
        0b00101000,
        0b00111000,
    ];
    for byte in 0..=255u8 {
        if recognized.contains(&byte) {
            assert!(Control::try_from(byte).is_ok(), "byte {:#04x}", byte);
        } else {
            assert_eq!(Control::try_from(byte), Err(byte), "byte {:#04x}", byte);
        }
    }
}
