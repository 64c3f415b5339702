use std::str::FromStr;

use colour_math::urgb::URGB;
use colour_math::urgba::URGBA;

#[test]
fn urgb_from_urgb_to_urgb() {
    assert_eq!(URGB::<u8>::red(), URGB::<u8>::from(&URGB::<u16>::red()));
    assert_eq!(URGB::<u8>::red(), URGB::<u8>::from(&URGB::<u8>::red()));
    assert_eq!(URGB::<u16>::red(), URGB::<u16>::from(&URGB::<u8>::red()));
}

#[test]
fn urgb_rgb16_from_str() {
    assert_eq!(
        URGB::<u16>::from_str("RGB16(red=0xF800, green=0xFA00, blue=0xF600)").unwrap(),
        URGB::<u16>::from([0xF800, 0xFA00, 0xF600])
    );
    assert_eq!(
        URGB::<u16>::from_str("RGB16(0xF800, 0xFA00, 0xF600)").unwrap(),
        URGB::<u16>::from([0xF800, 0xFA00, 0xF600])
    );
    assert_eq!(
        URGB::<u16>::from_str("RGB16(red=78, green=2345, blue=5678)").unwrap(),
        URGB::<u16>::from([78, 2345, 5678])
    );
    assert_eq!(
        URGB::<u16>::from_str("RGB16(128, 45670, 600)").unwrap(),
        URGB::<u16>::from([128, 45670, 600])
    );
}

#[test]
fn urgb_rgb8_from_pango_str() {
    assert_eq!(
        URGB::<u8>::from_str("#F8A0F6)").unwrap(),
        URGB::<u8>::from([0xF8, 0xA0, 0xF6])
    );
}

#[test]
fn urgba_from_urgb_to_urgb() {
    assert_eq!(URGBA::<u8>::red(), URGBA::<u8>::from(&URGBA::<u16>::red()));
    assert_eq!(URGBA::<u8>::red(), URGBA::<u8>::from(&URGBA::<u8>::red()));
    assert_eq!(URGBA::<u16>::red(), URGBA::<u16>::from(&URGBA::<u8>::red()));
}

#[test]
fn urgba_rgb16_from_str() {
    assert_eq!(
        URGBA::<u16>::from_str("RGBA16(red=0xF800, green=0xFA00, blue=0xF600, alpha=0x0100)")
            .unwrap(),
        URGBA::<u16>::from([0xF800, 0xFA00, 0xF600, 0x0100])
    );
    assert_eq!(
        URGBA::<u16>::from_str("RGBA16(0xF800, 0xFA00, 0xF600, 0x0100)").unwrap(),
        URGBA::<u16>::from([0xF800, 0xFA00, 0xF600, 0x0100])
    );
    assert_eq!(
        URGBA::<u16>::from_str("RGBA16(red=78, green=2345, blue=5678, alpha=100)").unwrap(),
        URGBA::<u16>::from([78, 2345, 5678, 100])
    );
    assert_eq!(
        URGBA::<u16>::from_str("RGBA16(128, 45670, 600, 100)").unwrap(),
        URGBA::<u16>::from([128, 45670, 600, 100])
    );
}

#[test]
fn rgb16_to_from_str() {
    for tuple in [(0xFFFF, 0x8000, 0x6000, 0x1000)].iter() {
        let urgba: URGBA<u16> = tuple.into();
        let string: String = urgba.to_string();
        assert_eq!(Ok(urgba), URGBA::<u16>::from_str(&string));
    }
}

#[test]
fn urgba_rgb8_from_pango_str() {
    assert_eq!(
        URGBA::<u8>::from_str("#F8A0F6FF)").unwrap(),
        URGBA::<u8>::from([0xF8, 0xA0, 0xF6, 0xFF])
    );
}

#[test]
fn rgb8_to_from_str() {
    for tuple in [(0xFF, 0x80, 0x60, 0xF0)].iter() {
        let urgba: URGBA<u8> = tuple.into();
        let string: String = urgba.to_string();
        assert_eq!(Ok(urgba), URGBA::<u8>::from_str(&string));
    }
}

#[test]
fn pango_string_reads_back() {
    for c in [[0xF8_u8, 0xA0, 0xF6], [0, 0, 0], [0xFF, 0xFF, 0xFF], [0x01, 0x10, 0xAB]].iter() {
        let urgb = URGB::<u8>::from(*c);
        assert_eq!(URGB::<u8>::from_str(&urgb.pango_string()).unwrap(), urgb);
    }
    let wide = URGB::<u16>::from([0xF800, 0x0101, 0xFFFF]);
    assert_eq!(wide.pango_string(), "#F701FF");
    assert_eq!(
        URGB::<u8>::from_str(&wide.pango_string()).unwrap(),
        URGB::<u8>::from([0xF7, 0x01, 0xFF])
    );
}
