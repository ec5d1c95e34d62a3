use adget::api::{link_unlock, magnet_status, magnet_upload, user_info, API};
use adget::text::{decimal_text, pad_left, same_text, starts_with, trim_text, white_space};

#[test]
fn trim_strips_surrounding_white_space() {
    assert_eq!(trim_text("  abc123\n"), "abc123");
    assert_eq!(trim_text("abc"), "abc");
    assert_eq!(trim_text("\t a b \r\n"), "a b");
    assert_eq!(trim_text(""), "");
    assert_eq!(trim_text(" \t\n"), "");
    assert_eq!(trim_text("\u{3000}key\u{a0}"), "key");
}

#[test]
fn trim_agrees_with_std() {
    let samples = [
        "  x  ",
        "\u{85}x\u{2028}",
        "\u{200b}x",
        "x\u{feff}",
        "\u{1680}\u{2000}\u{200a}mid dle\u{202f}\u{205f}",
        "\u{b}\u{c}\u{1c}z",
    ];
    for s in samples {
        assert_eq!(trim_text(s), s.trim());
    }
}

#[test]
fn trim_twice_is_trim_once() {
    for s in ["  a  ", "\n\nb\t", "c", "   "] {
        let once = trim_text(s);
        assert_eq!(trim_text(&once), once);
    }
}

#[test]
fn white_space_agrees_with_std() {
    for code in 0u32..0x3100 {
        if let Some(c) = char::from_u32(code) {
            assert_eq!(white_space(c), c.is_whitespace(), "{:?}", c);
        }
    }
}

#[test]
fn decimal_matches_display() {
    assert_eq!(decimal_text(0), "0");
    assert_eq!(decimal_text(7), "7");
    assert_eq!(decimal_text(10), "10");
    assert_eq!(decimal_text(1234567890), "1234567890");
    assert_eq!(decimal_text(u64::MAX), "18446744073709551615");
    for n in [1u64, 9, 99, 100, 101, 65535, 4_000_000_007] {
        assert_eq!(decimal_text(n), n.to_string());
    }
}

#[test]
fn pad_left_right_aligns() {
    assert_eq!(pad_left("1 MB", 9), "     1 MB");
    assert_eq!(pad_left("123456789", 9), "123456789");
    assert_eq!(pad_left("1234567890", 9), "1234567890");
    assert_eq!(pad_left("", 2), "  ");
    assert_eq!(pad_left("5", 2), format!("{: >2}", "5"));
    assert_eq!(pad_left("é", 3), format!("{: >3}", "é"));
}

#[test]
fn prefixes_and_equality() {
    assert!(starts_with("magnet:?xt=urn", "magnet"));
    assert!(!starts_with("magne", "magnet"));
    assert!(starts_with("http://a", "http"));
    assert!(starts_with("x", ""));
    assert!(!starts_with("Magnet", "magnet"));
    assert!(same_text("Ready", "Ready"));
    assert!(!same_text("Ready", "ready"));
    assert!(!same_text("Ready", "Ready."));
}

#[test]
fn api_root() {
    assert_eq!(API, "https://api.alldebrid.com/v4");
}

#[test]
fn user_info_url() {
    assert_eq!(
        user_info("KEY"),
        "https://api.alldebrid.com/v4/user?agent=cli&apikey=KEY"
    );
}

#[test]
fn link_unlock_url() {
    assert_eq!(
        link_unlock("abc", "https://alligator.com/somefile.zip"),
        "https://api.alldebrid.com/v4/link/unlock?agent=cli&apikey=abc&link=https://alligator.com/somefile.zip"
    );
}

#[test]
fn magnet_upload_url() {
    assert_eq!(
        magnet_upload("abc", "magnet:?xt=urn:btih:00"),
        "https://api.alldebrid.com/v4/magnet/upload?agent=cli&apikey=abc&magnets[]=magnet:?xt=urn:btih:00"
    );
}

#[test]
fn magnet_status_url() {
    assert_eq!(
        magnet_status("abc", 42),
        "https://api.alldebrid.com/v4/magnet/status?agent=cli&apikey=abc&id=42"
    );
    assert_eq!(
        magnet_status("abc", 0),
        "https://api.alldebrid.com/v4/magnet/status?agent=cli&apikey=abc&id=0"
    );
}

#[test]
fn distinct_ids_poll_distinct_urls() {
    let ids = [0u64, 1, 10, 11, 100, 101, u64::MAX];
    for a in ids {
        for b in ids {
            assert_eq!(magnet_status("k", a) == magnet_status("k", b), a == b);
        }
    }
}
