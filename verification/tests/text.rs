use modem_telemetry::text::{decimal_text, remove_char};

#[test]
fn decimal_text_writes_plain_numerals() {
    assert_eq!(decimal_text(0), "0");
    assert_eq!(decimal_text(7), "7");
    assert_eq!(decimal_text(10), "10");
    assert_eq!(decimal_text(1_700_000_000), "1700000000");
    assert_eq!(decimal_text(u64::MAX), "18446744073709551615");
}

#[test]
fn decimal_text_agrees_with_the_standard_library() {
    for n in [1u64, 9, 99, 100, 101, 12345, 4_294_967_295, 4_294_967_296] {
        assert_eq!(decimal_text(n), n.to_string());
    }
}

#[test]
fn remove_char_takes_out_every_occurrence() {
    assert_eq!(remove_char("aa:bb:cc:dd:ee:ff", ':'), "aabbccddeeff");
    assert_eq!(remove_char("::", ':'), "");
    assert_eq!(remove_char("", ':'), "");
    assert_eq!(remove_char("no colons", ':'), "no colons");
    assert_eq!(remove_char("é:ü", ':'), "éü");
}
