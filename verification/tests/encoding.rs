use base64::prelude::BASE64_STANDARD;
use base64::Engine;
use sovereign_desktop::encoding::{
    form_urlencode, hex_lower, push_decimal, str_equal, Base64DecodeError,
};

#[test]
fn form_urlencode_matches_the_form_serializer() {
    let inputs: [&[u8]; 5] = [
        b"",
        b"sovereign://host/path?x=1&y=2#frag",
        b"a b*c-d.e_f~g",
        &[0u8, 0x7f, 0x80, 0xff],
        "caf\u{e9} \u{1f600}".as_bytes(),
    ];
    for input in inputs {
        let expected: String = url::form_urlencoded::byte_serialize(input).collect();
        assert_eq!(form_urlencode(input), expected);
    }
    assert_eq!(form_urlencode(b"a b&c=d"), "a+b%26c%3Dd");
}

#[test]
fn hex_lower_is_two_digits_per_byte() {
    assert_eq!(hex_lower(&[]), "");
    assert_eq!(hex_lower(&[0, 9, 10, 255]), "00090aff");
}

#[test]
fn decimal_text() {
    for n in [0i64, 7, 10, 42, -1, -5, 1234567890, i64::MAX, i64::MIN] {
        let mut s = String::from("x");
        push_decimal(&mut s, n);
        assert_eq!(s, format!("x{n}"));
    }
}

#[test]
fn form_urlencoding_round_trips_through_a_query_reader() {
    let link = "sovereign://my.instance.example/plugins/console?a=b c&d=%41#top";
    let encoded = form_urlencode(link.as_bytes());
    assert!(!encoded.contains(|c| matches!(c, '&' | '=' | '#' | '?' | '/' | ' ')));
    let query = format!("deeplink={encoded}");
    let decoded: Vec<(String, String)> = url::form_urlencoded::parse(query.as_bytes())
        .into_owned()
        .collect();
    assert_eq!(decoded, vec![("deeplink".to_string(), link.to_string())]);
}

#[test]
fn base64_error_messages_match_the_decoder() {
    for input in ["!!!!", "abc", "YQ", "YR==", "Y===", "YQ=="] {
        if let Err(real) = BASE64_STANDARD.decode(input) {
            let ours = match real {
                base64::DecodeError::InvalidByte(i, b) => Base64DecodeError::InvalidByte(i, b),
                base64::DecodeError::InvalidLength(n) => Base64DecodeError::InvalidLength(n),
                base64::DecodeError::InvalidLastSymbol(i, b) => Base64DecodeError::InvalidLastSymbol(i, b),
                base64::DecodeError::InvalidPadding => Base64DecodeError::InvalidPadding,
            };
            assert_eq!(ours.message(), real.to_string());
        }
    }
    assert_eq!(Base64DecodeError::InvalidPadding.message(), "Invalid padding");
    assert_eq!(Base64DecodeError::InvalidByte(3, 32).message(), "Invalid symbol 32, offset 3.");
}

#[test]
fn string_equality() {
    assert!(str_equal("", ""));
    assert!(str_equal("caf\u{e9}", "caf\u{e9}"));
    assert!(!str_equal("cafe", "caf\u{e9}"));
    assert!(!str_equal("ab", "abc"));
}
