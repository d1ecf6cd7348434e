use song_bin::speed::format_speed;
use song_bin::text::{
    chars_of, find_chars, is_whitespace, parse_uint, split_chars, str_ends_with, str_eq,
    str_starts_with, trim, u64_to_string,
};

fn chars(s: &str) -> Vec<char> {
    s.chars().collect()
}

#[test]
fn whitespace_agrees_with_std() {
    for code in 0u32..=0x10FFFF {
        if let Some(c) = char::from_u32(code) {
            assert_eq!(is_whitespace(c), c.is_whitespace(), "char {:#x}", code);
        }
    }
}

#[test]
fn trim_agrees_with_std() {
    let cases = [
        "", " ", "abc", "  abc  ", "\t\n a b \r\n", "\u{3000}全角\u{3000}", "\u{85}x\u{2028}",
        "\u{200b}zero width\u{200b}", "x", "  \u{a0} y",
    ];
    for s in cases {
        assert_eq!(trim(s), s.trim(), "case {:?}", s);
    }
}

#[test]
fn decimal_text_agrees_with_std() {
    let values = [0u64, 1, 9, 10, 99, 100, 12345, 4294967296, 18446744073709551615];
    for v in values {
        assert_eq!(u64_to_string(v), v.to_string());
        // Decimal text reads back as the number.
        assert_eq!(parse_uint(&chars(&v.to_string()), u64::MAX), Some(v));
    }
}

#[test]
fn parse_uint_agrees_with_std_u16() {
    let cases = [
        "0", "1", "+1", "65535", "65536", "-1", "", "+", "12a", " 1", "0080", "99999999999999999999999",
        "++1", "443",
    ];
    for s in cases {
        let expected: Option<u64> = s.parse::<u16>().ok().map(|v| v as u64);
        assert_eq!(parse_uint(&chars(s), 65535), expected, "case {:?}", s);
    }
}

#[test]
fn parse_uint_agrees_with_std_u64() {
    let cases = ["18446744073709551615", "18446744073709551616", "0000000000000000000000001", "+0"];
    for s in cases {
        let expected: Option<u64> = s.parse::<u64>().ok();
        assert_eq!(parse_uint(&chars(s), u64::MAX), expected, "case {:?}", s);
    }
}

#[test]
fn search_and_split() {
    assert_eq!(find_chars(&chars("vless://x://y"), &chars("://")), Some(5));
    assert_eq!(find_chars(&chars("abc"), &chars("d")), None);
    assert_eq!(find_chars(&chars("abc"), &chars("")), Some(0));
    let pieces: Vec<String> = split_chars(&chars("h2,,http/1.1"), ',').iter().map(|p| p.iter().collect()).collect();
    assert_eq!(pieces, vec!["h2".to_string(), "".to_string(), "http/1.1".to_string()]);
    let pieces = split_chars(&chars(""), ',');
    assert_eq!(pieces.len(), 1);
    assert!(pieces[0].is_empty());
    assert!(str_starts_with("vmess://", "vmess"));
    assert!(!str_starts_with("vm", "vmess"));
    assert!(str_ends_with("sing-box-1.0/sing-box.exe", "sing-box.exe"));
    assert!(str_eq("a", "a"));
    assert!(!str_eq("a", "b"));
    assert_eq!(chars_of("中文"), vec!['中', '文']);
}

fn reference_speed(bytes_per_sec: u64) -> String {
    if bytes_per_sec < 1024 {
        format!("{} B/s", bytes_per_sec)
    } else if bytes_per_sec < 1024 * 1024 {
        format!("{:.1} KB/s", bytes_per_sec as f64 / 1024.0)
    } else {
        format!("{:.2} MB/s", bytes_per_sec as f64 / (1024.0 * 1024.0))
    }
}

#[test]
fn format_speed_examples() {
    assert_eq!(format_speed(0), "0 B/s");
    assert_eq!(format_speed(1023), "1023 B/s");
    assert_eq!(format_speed(1024), "1.0 KB/s");
    assert_eq!(format_speed(1280), "1.2 KB/s");
    assert_eq!(format_speed(1536), "1.5 KB/s");
    assert_eq!(format_speed(1048575), "1024.0 KB/s");
    assert_eq!(format_speed(1048576), "1.00 MB/s");
    assert_eq!(format_speed(1572864), "1.50 MB/s");
}

#[test]
fn format_speed_agrees_with_float_formatting() {
    let mut values: Vec<u64> = (0..5000u64).collect();
    for k in 0..20000u64 {
        values.push(1024 * 1024 - 10000 + k);
    }
    let mut x: u64 = 0x9E37_79B9_7F4A_7C15;
    for _ in 0..100000 {
        x ^= x << 13;
        x ^= x >> 7;
        x ^= x << 17;
        values.push(x % (1u64 << 40));
        values.push(x);
    }
    for k in 0..64u32 {
        let p = 1u64 << k;
        values.push(p);
        values.push(p.wrapping_sub(1));
        values.push(p.wrapping_add(1));
    }
    values.push(u64::MAX);
    // Ties: 1.25 KB, 2.125 MB and their neighbours.
    values.extend([1280, 1281, 1279, 2228224, 2228223, 2228225, 5 * 1024 * 1024 + 5 * 1024 * 1024 / 1000]);
    for v in values {
        assert_eq!(format_speed(v), reference_speed(v), "value {}", v);
    }
}
