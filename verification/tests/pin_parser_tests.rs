use emb_public::common::pin_parser::{parse_pin, pin_to_port_pin, PinInfo};

#[test]
fn test_parse_pin() {
    let result = parse_pin("PE3").unwrap();
    assert_eq!(result.port, 4);
    assert_eq!(result.pin, 3);
    assert!(!result.inverted);

    let result = parse_pin("!PE4").unwrap();
    assert_eq!(result.port, 4);
    assert_eq!(result.pin, 4);
    assert!(result.inverted);

    let result = parse_pin("PA15").unwrap();
    assert_eq!(result.port, 0);
    assert_eq!(result.pin, 15);
    assert!(!result.inverted);

    let result = parse_pin("!PD2").unwrap();
    assert_eq!(result.port, 3);
    assert_eq!(result.pin, 2);
    assert!(result.inverted);

    let result = parse_pin("NC");
    assert!(result.is_none());

    let result = parse_pin("PC0").unwrap();
    assert_eq!(result.port, 2);
    assert_eq!(result.pin, 0);
}

#[test]
fn test_pin_display() {
    assert_eq!(parse_pin("PE3").unwrap().to_display_string(), "PE3");
    assert_eq!(parse_pin("!PE4").unwrap().to_display_string(), "!PE4");
}

#[test]
fn test_pin_to_port_pin() {
    assert_eq!(pin_to_port_pin("PE3"), Some((4, 3)));
    assert_eq!(pin_to_port_pin("!PA0"), Some((0, 0)));
    assert_eq!(pin_to_port_pin("NC"), None);
}

#[test]
fn pin_parse_edge_cases() {
    assert_eq!(parse_pin("  pb7 \t"), Some(PinInfo { port: 1, pin: 7, inverted: false }));
    assert_eq!(parse_pin("PA16"), None);
    assert_eq!(parse_pin("PF1"), None);
    assert_eq!(parse_pin("PA+5"), Some(PinInfo { port: 0, pin: 5, inverted: false }));
    assert_eq!(parse_pin("PA007"), Some(PinInfo { port: 0, pin: 7, inverted: false }));
    assert_eq!(parse_pin("PA"), None);
    assert_eq!(parse_pin("PA-1"), None);
    assert_eq!(parse_pin("PA99999999999"), None);
    assert_eq!(parse_pin(""), None);
    assert_eq!(parse_pin("!"), None);
    assert_eq!(PinInfo { port: 9, pin: 12, inverted: true }.to_display_string(), "!P?12");
}

#[test]
fn every_pin_survives_display_and_parse() {
    for port in 0u8..5 {
        for pin in 0u8..16 {
            for inverted in [false, true] {
                let p = PinInfo { port, pin, inverted };
                assert_eq!(parse_pin(&p.to_display_string()), Some(p));
            }
        }
    }
}
