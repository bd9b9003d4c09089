use broadcast_ip::encode::encode_for_url;
use broadcast_ip::strutil::decimal_string;
use percent_encoding::percent_decode_str;
use percent_encoding::percent_encode_byte;

#[test]
fn encode_identity_on_safe_text() {
    let safe = "hello-world_AZaz09~&=?/:.,;!@#$^*()'[]{}|";
    assert_eq!(encode_for_url(safe), safe);
}

#[test]
fn encode_identity_on_empty() {
    assert_eq!(encode_for_url(""), "");
}

#[test]
fn encode_escapes_each_special() {
    let input = "a b\"c<d>e`f%g+h\u{1}\u{7f}";
    let expected = "a%20b%22c%3Cd%3Ee%60f%25g%2Bh%01%7F";
    assert_eq!(encode_for_url(input), expected);
}

#[test]
fn encode_agrees_with_reference_escapes() {
    let mut escaped: Vec<u8> = (0x00u8..0x20u8).collect();
    escaped.extend([0x7f, b' ', b'"', b'<', b'>', b'`', b'%', b'+']);
    for b in escaped {
        let single = (b as char).to_string();
        assert_eq!(encode_for_url(&single), percent_encode_byte(b));
    }
}

#[test]
fn encode_leaves_other_ascii_alone() {
    for b in 0x21u8..0x7f {
        if [b'"', b'<', b'>', b'`', b'%', b'+'].contains(&b) {
            continue;
        }
        let single = (b as char).to_string();
        assert_eq!(encode_for_url(&single), single);
    }
}

#[test]
fn encode_passes_non_ascii_through() {
    assert_eq!(encode_for_url("héllo…wörld"), "héllo…wörld");
    assert_eq!(encode_for_url("héllo wörld"), "héllo%20wörld");
}

#[test]
fn encode_round_trip_through_standard_decoder() {
    let samples = [
        "",
        "plain",
        "a b\"c<d>e`f%g+h",
        "100% + 10% = ?",
        "héllo wörld + 100%",
        "line1\nline2\ttabbed\u{7f}",
        "```\neth0: flags=4163<UP,BROADCAST>\n```",
    ];
    for s in samples {
        let encoded = encode_for_url(s);
        let decoded = percent_decode_str(&encoded).decode_utf8().unwrap();
        assert_eq!(decoded, s);
    }
}

#[test]
fn decimal_rendering_exact() {
    assert_eq!(decimal_string(0), "0");
    assert_eq!(decimal_string(7), "7");
    assert_eq!(decimal_string(201), "201");
    assert_eq!(decimal_string(65535), "65535");
}
