use ibc_relayer_core::decimal::{parse_u64, u64_to_dec};
use ibc_relayer_core::height::{height_string, parse_height, Height};
use ibc_relayer_core::ident::{validate_identifier, ChainId, PortId};

#[test]
fn parse_u64_accepts_digits() {
    assert_eq!(parse_u64("0"), Some(0));
    assert_eq!(parse_u64("007"), Some(7));
    assert_eq!(parse_u64("18446744073709551615"), Some(u64::MAX));
}

#[test]
fn parse_u64_rejects_bad_input() {
    assert_eq!(parse_u64(""), None);
    assert_eq!(parse_u64("12a"), None);
    assert_eq!(parse_u64("-3"), None);
    // One above the largest representable value.
    assert_eq!(parse_u64("18446744073709551616"), None);
}

#[test]
fn decimal_printing_round_trips() {
    for n in [0u64, 1, 9, 10, 12345, u64::MAX] {
        let s = u64_to_dec(n);
        assert_eq!(parse_u64(s.as_str()), Some(n));
    }
    assert_eq!(u64_to_dec(0), "0");
    assert_eq!(u64_to_dec(1040), "1040");
}

#[test]
fn height_text_round_trips() {
    let h = Height::new(2, 1005);
    let s = height_string(&h);
    assert_eq!(s, "2-1005");
    assert_eq!(parse_height(s.as_str()), Some(h));
}

#[test]
fn parse_height_rejects_bad_input() {
    assert_eq!(parse_height("5"), None);
    assert_eq!(parse_height("-5"), None);
    assert_eq!(parse_height("1-"), None);
    assert_eq!(parse_height("a-5"), None);
}

#[test]
fn height_ordering_is_lexicographic() {
    assert!(Height::new(0, 9).lt(&Height::new(1, 0)));
    assert!(Height::new(1, 2).lt(&Height::new(1, 3)));
    assert!(!Height::new(1, 3).lt(&Height::new(1, 3)));
    assert!(Height::new(1, 3).le(&Height::new(1, 3)));
    assert!(Height::new(0, 0).is_zero());
    assert!(!Height::new(0, 1).is_zero());
    assert_eq!(Height::new(0, 5).increment(), Height::new(0, 6));
}

#[test]
fn identifier_validation() {
    assert!(validate_identifier("transfer"));
    assert!(validate_identifier("channel-0"));
    assert!(!validate_identifier(""));
    assert!(!validate_identifier("has space"));
    assert!(!validate_identifier("bad/slash"));
    assert!(PortId::new("transfer".to_string()).is_some());
    assert!(PortId::new("".to_string()).is_none());
}

#[test]
fn chain_id_carries_its_revision() {
    let id = ChainId::new("ibc".to_string(), 4);
    assert_eq!(id.version(), 4);
    assert_eq!(id.name(), "ibc");
    assert_eq!(id.id_string(), "ibc-4");
}
