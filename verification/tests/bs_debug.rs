use std::fmt;

use rustls::bs_debug::BsDebug;

struct Shown<'a>(BsDebug<'a>);

impl fmt::Debug for Shown<'_> {
    fn fmt(&self, f: &mut fmt::Formatter<'_>) -> fmt::Result {
        f.write_str(&self.0.fmt())
    }
}

#[test]
fn debug() {
    let vec: Vec<_> = (0..0x100).map(|b| b as u8).collect();

    let expected = "b\"\
        \\0\\x01\\x02\\x03\\x04\\x05\\x06\\x07\
        \\x08\\t\\n\\x0b\\x0c\\r\\x0e\\x0f\
        \\x10\\x11\\x12\\x13\\x14\\x15\\x16\\x17\
        \\x18\\x19\\x1a\\x1b\\x1c\\x1d\\x1e\\x1f\
        \x20!\\\"#$%&'()*+,-./0123456789:;<=>?\
        @ABCDEFGHIJKLMNOPQRSTUVWXYZ[\\\\]^_\
        `abcdefghijklmnopqrstuvwxyz{|}~\\x7f\
        \\x80\\x81\\x82\\x83\\x84\\x85\\x86\\x87\
        \\x88\\x89\\x8a\\x8b\\x8c\\x8d\\x8e\\x8f\
        \\x90\\x91\\x92\\x93\\x94\\x95\\x96\\x97\
        \\x98\\x99\\x9a\\x9b\\x9c\\x9d\\x9e\\x9f\
        \\xa0\\xa1\\xa2\\xa3\\xa4\\xa5\\xa6\\xa7\
        \\xa8\\xa9\\xaa\\xab\\xac\\xad\\xae\\xaf\
        \\xb0\\xb1\\xb2\\xb3\\xb4\\xb5\\xb6\\xb7\
        \\xb8\\xb9\\xba\\xbb\\xbc\\xbd\\xbe\\xbf\
        \\xc0\\xc1\\xc2\\xc3\\xc4\\xc5\\xc6\\xc7\
        \\xc8\\xc9\\xca\\xcb\\xcc\\xcd\\xce\\xcf\
        \\xd0\\xd1\\xd2\\xd3\\xd4\\xd5\\xd6\\xd7\
        \\xd8\\xd9\\xda\\xdb\\xdc\\xdd\\xde\\xdf\
        \\xe0\\xe1\\xe2\\xe3\\xe4\\xe5\\xe6\\xe7\
        \\xe8\\xe9\\xea\\xeb\\xec\\xed\\xee\\xef\
        \\xf0\\xf1\\xf2\\xf3\\xf4\\xf5\\xf6\\xf7\
        \\xf8\\xf9\\xfa\\xfb\\xfc\\xfd\\xfe\\xff\"";

    assert_eq!(expected, format!("{:?}", Shown(BsDebug(&vec))));
}

#[test]
fn debug_of_nothing() {
    assert_eq!("b\"\"", BsDebug(&[]).fmt());
}

#[test]
fn debug_of_text() {
    assert_eq!("b\"GET / HTTP/1.1\\r\\n\"", BsDebug(b"GET / HTTP/1.1\r\n").fmt());
}

#[test]
fn debug_of_each_escape() {
    assert_eq!("b\"\\n\"", BsDebug(&[0x0a]).fmt());
    assert_eq!("b\"\\r\"", BsDebug(&[0x0d]).fmt());
    assert_eq!("b\"\\t\"", BsDebug(&[0x09]).fmt());
    assert_eq!("b\"\\\\\"", BsDebug(&[0x5c]).fmt());
    assert_eq!("b\"\\\"\"", BsDebug(&[0x22]).fmt());
    assert_eq!("b\"\\0\"", BsDebug(&[0x00]).fmt());
    assert_eq!("b\" \"", BsDebug(&[0x20]).fmt());
    assert_eq!("b\"~\"", BsDebug(&[0x7e]).fmt());
    assert_eq!("b\"\\x7f\"", BsDebug(&[0x7f]).fmt());
    assert_eq!("b\"\\x1f\"", BsDebug(&[0x1f]).fmt());
    assert_eq!("b\"\\xff\"", BsDebug(&[0xff]).fmt());
}

#[test]
fn debug_is_printable_for_every_byte() {
    for b in 0..=255u8 {
        let text = BsDebug(&[b]).fmt();
        assert!(text.len() >= 4 && text.len() <= 7);
        assert!(text.chars().all(|c| (' '..='~').contains(&c)));
    }
}
