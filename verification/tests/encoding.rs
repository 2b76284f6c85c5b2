use mygpoclient::base64::{digit_of, encode};
use mygpoclient::json::encode_list;
use mygpoclient::request::{
    all_subscriptions_location, authorization_header, device_location, user_agent_header,
    PACKAGE_NAME, PACKAGE_VERSION,
};

#[test]
fn base64_of_nothing_is_empty() {
    assert_eq!(encode(b""), "");
}

#[test]
fn base64_pads_one_byte_with_two_signs() {
    assert_eq!(encode(b"f"), "Zg==");
    assert_eq!(encode(b"foob"), "Zm9vYg==");
}

#[test]
fn base64_pads_two_bytes_with_one_sign() {
    assert_eq!(encode(b"fo"), "Zm8=");
    assert_eq!(encode(b"fooba"), "Zm9vYmE=");
}

#[test]
fn base64_of_whole_groups_has_no_padding() {
    assert_eq!(encode(b"foo"), "Zm9v");
    assert_eq!(encode(b"foobar"), "Zm9vYmFy");
}

#[test]
fn base64_uses_plus_and_slash() {
    assert_eq!(encode(&[0xfb, 0xff]), "+/8=");
    assert_eq!(encode(&[0xff, 0xff, 0xff]), "////");
    assert_eq!(encode(&[0xfb, 0xef, 0xbe]), "++++");
    assert_eq!(encode(&[0, 0, 0]), "AAAA");
}

#[test]
fn base64_alphabet_in_order() {
    let mut alphabet = String::new();
    for v in 0u8..64 {
        alphabet.push(digit_of(v));
    }
    assert_eq!(
        alphabet,
        "ABCDEFGHIJKLMNOPQRSTUVWXYZabcdefghijklmnopqrstuvwxyz0123456789+/"
    );
}

#[test]
fn base64_length_is_four_per_group() {
    for n in 0usize..20 {
        let bytes = vec![7u8; n];
        assert_eq!(encode(&bytes).len(), (n + 2) / 3 * 4);
    }
}

#[test]
fn authorization_of_alice() {
    assert_eq!(authorization_header("alice", "secret"), "Basic YWxpY2U6c2VjcmV0");
}

#[test]
fn authorization_with_empty_password() {
    // "bob:" in Base64
    assert_eq!(authorization_header("bob", ""), "Basic Ym9iOg==");
}

#[test]
fn authorization_encodes_utf8() {
    // "jürgen:pässword" in UTF-8 and then in Base64
    assert_eq!(
        authorization_header("j\u{fc}rgen", "p\u{e4}ssword"),
        "Basic asO8cmdlbjpww6Rzc3dvcmQ="
    );
}

#[test]
fn user_agent_is_name_slash_version() {
    assert_eq!(user_agent_header(), format!("{}/{}", PACKAGE_NAME, PACKAGE_VERSION));
    assert_eq!(user_agent_header(), "mygpoclient/0.1.0");
}

#[test]
fn url_of_all_subscriptions() {
    assert_eq!(
        all_subscriptions_location("alice"),
        "https://gpodder.net/subscriptions/alice.json"
    );
    assert_eq!(all_subscriptions_location(""), "https://gpodder.net/subscriptions/.json");
}

#[test]
fn url_of_a_device() {
    assert_eq!(
        device_location("alice", "phone"),
        "https://gpodder.net/subscriptions/alice/phone.json"
    );
    // nothing is validated or escaped
    assert_eq!(
        device_location("a b", "x/y"),
        "https://gpodder.net/subscriptions/a b/x/y.json"
    );
}

#[test]
fn list_text_of_one_url() {
    let list = vec![String::from("https://feed.example/a.xml")];
    assert_eq!(encode_list(&list), b"[\"https://feed.example/a.xml\"]".to_vec());
}

#[test]
fn list_text_of_nothing() {
    let list: Vec<String> = Vec::new();
    assert_eq!(encode_list(&list), b"[]".to_vec());
}

#[test]
fn list_text_escapes_control_characters() {
    let list = vec![String::from("\u{8}\t\n\u{c}\r"), String::from("\u{0}\u{1f}\u{7f}\u{e9}/")];
    assert_eq!(
        encode_list(&list),
        "[\"\\b\\t\\n\\f\\r\",\"\\u0000\\u001f\u{7f}\u{e9}/\"]".as_bytes().to_vec()
    );
}

#[test]
fn list_text_escapes_quotes_and_backslashes() {
    let list = vec![String::from("a\"b\\c"), String::from("line\nbreak")];
    assert_eq!(encode_list(&list), b"[\"a\\\"b\\\\c\",\"line\\nbreak\"]".to_vec());
}
