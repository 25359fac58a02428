use solana_dev_tools::auth::credentials::Credentials;
use solana_dev_tools::auth::record::{decode, encode};

fn credentials(user_id: &str, api_token: &str) -> Credentials {
    Credentials { user_id: user_id.to_string(), api_token: api_token.to_string() }
}

#[test]
fn record_of_plain_credentials() {
    assert_eq!(encode(&credentials("u", "t")), "{\"user_id\":\"u\",\"api_token\":\"t\"}");
    assert_eq!(encode(&credentials("", "")), "{\"user_id\":\"\",\"api_token\":\"\"}");
}

#[test]
fn record_escapes_what_json_escapes() {
    let c = credentials("a\"b\\c", "\u{8}\u{c}\n\r\t\u{0}\u{1f}\u{7f}/é😀");
    assert_eq!(
        encode(&c),
        "{\"user_id\":\"a\\\"b\\\\c\",\"api_token\":\"\\b\\f\\n\\r\\t\\u0000\\u001f\u{7f}/é😀\"}"
    );
}

#[test]
fn record_strings_are_written_as_serde_json_writes_them() {
    let samples = [
        "",
        "plain",
        "with \"quotes\" and \\ backslash",
        "\u{0}\u{1}\u{2}\u{3}\u{4}\u{5}\u{6}\u{7}\u{8}\u{9}\u{a}\u{b}\u{c}\u{d}\u{e}\u{f}",
        "\u{10}\u{11}\u{12}\u{13}\u{14}\u{15}\u{16}\u{17}\u{18}\u{19}\u{1a}\u{1b}\u{1c}\u{1d}\u{1e}\u{1f}",
        " !#$%&'()*+,-./0123456789:;<=>?@[]^_`{|}~\u{7f}",
        "é ü 日本語 😀 \u{80} \u{2028} \u{ffff}",
    ];
    for s in samples {
        let written = serde_json::to_string(s).unwrap();
        let expected = format!("{{\"user_id\":{},\"api_token\":{}}}", written, written);
        assert_eq!(encode(&credentials(s, s)), expected);
    }
}

#[test]
fn record_reads_back_with_serde_json() {
    let c = credentials("user \"1\"\n", "tok\\en\u{1}\u{1f}😀");
    let value: serde_json::Value = serde_json::from_str(&encode(&c)).unwrap();
    assert_eq!(value.get("user_id").and_then(|v| v.as_str()), Some(c.user_id.as_str()));
    assert_eq!(value.get("api_token").and_then(|v| v.as_str()), Some(c.api_token.as_str()));
    assert_eq!(value.as_object().map(|o| o.len()), Some(2));
}

#[test]
fn decode_reads_what_encode_wrote() {
    let samples = [
        credentials("u", "t"),
        credentials("", ""),
        credentials("a\"b\\c", "\u{8}\u{c}\n\r\t\u{0}\u{1f}\u{7f}/é😀"),
        credentials("\",\"api_token\":\"x", "\"}"),
        credentials("current_user", "{\"user_id\":\"u\",\"api_token\":\"t\"}"),
    ];
    for c in samples {
        assert_eq!(decode(&encode(&c)), Some(c));
    }
}

#[test]
fn decode_reads_a_given_record() {
    assert_eq!(
        decode("{\"user_id\":\"a\\\"b\",\"api_token\":\"x\\u0001y\\n\"}"),
        Some(credentials("a\"b", "x\u{1}y\n"))
    );
}

#[test]
fn decode_refuses_what_is_no_record() {
    let refused = [
        "",
        "{}",
        "not json",
        "{\"user_id\":\"u\"}",
        "{\"user_id\":\"u\",\"api_token\":\"t\"",
        "{\"user_id\":\"u\",\"api_token\":\"t\"} ",
        " {\"user_id\":\"u\",\"api_token\":\"t\"}",
        "{\"user_id\": \"u\",\"api_token\":\"t\"}",
        "{\"api_token\":\"t\",\"user_id\":\"u\"}",
        "{\"user_id\":\"u\",\"api_token\":\"t\",\"extra\":\"x\"}",
        "{\"user_id\":\"u\",\"api_token\":\"t\"}{\"user_id\":\"u\",\"api_token\":\"t\"}",
        "{\"user_id\":\"u\\x\",\"api_token\":\"t\"}",
        "{\"user_id\":\"u\\",
        "{\"user_id\":\"u\\u00\",\"api_token\":\"t\"}",
        "{\"user_id\":\"\\u0041\",\"api_token\":\"t\"}",
        "{\"user_id\":\"\\u001F\",\"api_token\":\"t\"}",
        "{\"user_id\":\"\\u000a\",\"api_token\":\"t\"}",
        "{\"user_id\":\"\\/\",\"api_token\":\"t\"}",
        "{\"user_id\":\"a\nb\",\"api_token\":\"t\"}",
        "{\"user_id\":\"u\",\"api_token\":\"t\u{1}\"}",
        "{\"user_id\":1,\"api_token\":\"t\"}",
    ];
    for text in refused {
        assert_eq!(decode(text), None, "{:?}", text);
    }
}
