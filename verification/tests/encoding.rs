//! Identifier rendering and address-part value encoding.

use dprun::address::{DPAddressPart, DPAddressValue, DPGUIDOrNamed, encode_part};
use dprun::guid::Guid;
use uuid::Uuid;

fn guid_from(s: &str) -> Guid {
    Guid::from_bytes(*Uuid::parse_str(s).unwrap().as_bytes())
}

fn named_part(key: &str, value: DPAddressValue) -> DPAddressPart {
    DPAddressPart {
        data_type: DPGUIDOrNamed::Named(key.to_string()),
        value,
    }
}

#[test]
fn braced_form_of_identifier() {
    let g = guid_from("5BFDB060-06A4-11d0-9C4F-00A0C905425E");
    assert_eq!(g.to_braced(), "{5BFDB060-06A4-11D0-9C4F-00A0C905425E}");
}

#[test]
fn braced_form_shape() {
    let g = guid_from("00000000-0000-0000-0000-000000000000");
    let s = g.to_braced();
    assert_eq!(s.len(), 38);
    assert!(s.starts_with('{'));
    assert!(s.ends_with('}'));
    let hyphens: Vec<usize> = s
        .char_indices()
        .filter(|(_, c)| *c == '-')
        .map(|(i, _)| i)
        .collect();
    assert_eq!(hyphens, vec![9, 14, 19, 24]);

    let g = guid_from("ffffffff-ffff-ffff-ffff-ffffffffffff");
    let s = g.to_braced();
    assert_eq!(s, "{FFFFFFFF-FFFF-FFFF-FFFF-FFFFFFFFFFFF}");
    assert_eq!(s.len(), 38);
}

#[test]
fn alias_keys_render_verbatim() {
    let k = DPGUIDOrNamed::Named("INet".to_string());
    assert_eq!(k.into_string(), "INet");

    let k = DPGUIDOrNamed::GUID(guid_from("E4524541-8EA5-11d1-8A96-006097B01411"));
    assert_eq!(k.into_string(), "{E4524541-8EA5-11D1-8A96-006097B01411}");
}

#[test]
fn integer_value_encodes_with_prefix() {
    assert_eq!(encode_part(&named_part("x", DPAddressValue::Number(-5))), "x=i:-5");
    assert_eq!(encode_part(&named_part("x", DPAddressValue::Number(0))), "x=i:0");
    assert_eq!(encode_part(&named_part("x", DPAddressValue::Number(2197))), "x=i:2197");
    assert_eq!(
        encode_part(&named_part("x", DPAddressValue::Number(i32::MIN))),
        "x=i:-2147483648"
    );
    assert_eq!(
        encode_part(&named_part("x", DPAddressValue::Number(i32::MAX))),
        "x=i:2147483647"
    );
}

#[test]
fn text_value_encodes_verbatim_without_prefix() {
    assert_eq!(encode_part(&named_part("k", DPAddressValue::String("x".into()))), "k=x");
    assert_eq!(
        encode_part(&named_part("INet", DPAddressValue::String("127.0.0.1".into()))),
        "INet=127.0.0.1"
    );
    assert_eq!(encode_part(&named_part("k", DPAddressValue::String("".into()))), "k=");
}

#[test]
fn binary_value_encodes_as_lowercase_hex() {
    assert_eq!(
        encode_part(&named_part("x", DPAddressValue::Binary(vec![0x0a, 0xff]))),
        "x=b:0aff"
    );
    assert_eq!(encode_part(&named_part("x", DPAddressValue::Binary(vec![]))), "x=b:");
    assert_eq!(
        encode_part(&named_part("x", DPAddressValue::Binary(vec![0x00, 0x01, 0x10, 0xab]))),
        "x=b:000110ab"
    );
}

#[test]
fn guid_keyed_part_encodes_braced_key() {
    let key = guid_from("E4524541-8EA5-11d1-8A96-006097B01411");
    let part = DPAddressPart {
        data_type: DPGUIDOrNamed::GUID(key),
        value: DPAddressValue::Number(2197),
    };
    assert_eq!(encode_part(&part), "{E4524541-8EA5-11D1-8A96-006097B01411}=i:2197");
}

#[test]
fn guid_equality_is_structural() {
    let a = guid_from("E4524541-8EA5-11d1-8A96-006097B01411");
    let b = guid_from("E4524541-8EA5-11d1-8A96-006097B01411");
    let c = guid_from("5BFDB060-06A4-11d0-9C4F-00A0C905425E");
    assert!(a.eq_guid(&b));
    assert!(!a.eq_guid(&c));
}
