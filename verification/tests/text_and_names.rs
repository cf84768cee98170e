use qnserver::file_name::{extension, file_name, is_image_file_name, sanitized_file_name};
use qnserver::text::{
    blank, contains_char, parse_u64, same_text, starts_with, to_ascii_lowercase, to_hex, trim,
    u64_to_decimal, whitespace,
};
use std::path::Path;

#[test]
fn strips_directory_components_from_upload_file_name() {
    assert_eq!(
        sanitized_file_name(Some("../../private/report.pdf")).as_deref(),
        Some("report.pdf")
    );
    assert!(sanitized_file_name(None).is_none());
}

#[test]
fn whitespace_is_that_of_unicode() {
    for code in 0..=0x10ffff_u32 {
        if let Some(c) = char::from_u32(code) {
            assert_eq!(whitespace(c), c.is_whitespace(), "{code:x}");
        }
    }
}

#[test]
fn trims_like_std() {
    for text in [
        "", " ", "\t\n", "a", " a", "a ", " a b ", "\u{3000}标题\u{a0}", "\u{200b}a", "a\n",
    ] {
        assert_eq!(trim(text), text.trim());
        assert_eq!(blank(text), text.trim().is_empty());
        assert_eq!(trim(trim(text)), trim(text));
    }
}

#[test]
fn compares_texts() {
    assert!(same_text("中文", "中文"));
    assert!(!same_text("a", "A"));
    assert!(starts_with("image/png", "image/"));
    assert!(!starts_with("image", "image/"));
    assert!(!starts_with("Image/png", "image/"));
    assert!(contains_char("a\0b", '\0'));
    assert!(!contains_char("ab", '\0'));
    assert_eq!(to_ascii_lowercase("PnG-ÄÖ"), "PnG-ÄÖ".to_ascii_lowercase());
    assert_eq!(to_ascii_lowercase("@AZ[`az{"), "@az[`az{");
}

#[test]
fn reads_numbers_like_std() {
    for text in [
        "", "+", "-", "0", "+0", "-0", "7200", "007", "+12", "++1", " 1", "1 ", "1e3", "12a",
        "18446744073709551615", "18446744073709551616", "99999999999999999999999", "٣",
        "000000000000000000000000000000000000001",
    ] {
        assert_eq!(parse_u64(text), text.parse::<u64>().ok(), "{text}");
    }
}

#[test]
fn decimal_reads_back() {
    for number in [0, 1, 9, 10, 99, 100, 4_000, 209_715_200, u64::MAX - 1, u64::MAX] {
        assert_eq!(u64_to_decimal(number), number.to_string());
        assert_eq!(parse_u64(&u64_to_decimal(number)), Some(number));
    }
}

#[test]
fn writes_hexadecimal() {
    assert_eq!(to_hex(&[]), "");
    assert_eq!(to_hex(&[0x00, 0x0f, 0xa0, 0xff]), "000fa0ff");
}

#[test]
fn takes_file_names_like_std() {
    for path in [
        "", "/", "//", ".", "..", "./", "../", "a", "a/", "a//", "a/.", "a/./.", "a/..", "a/../.",
        "/a", "/a/b", "a/b//c/", "./a", "..a", "...", "a/...", ".a", "a.b.c", "a/.hidden",
        "a/.hidden.png", "x.", "x..", "中文/图片.PNG", "a\\b", "a/b\\c.png", "/..", "a/b/.png",
    ] {
        let expected = Path::new(path).file_name().and_then(|name| name.to_str());
        assert_eq!(file_name(path), expected, "{path}");
        let expected = Path::new(path).extension().and_then(|name| name.to_str());
        assert_eq!(extension(path), expected, "{path}");
        if let Some(name) = sanitized_file_name(Some(path)) {
            assert_eq!(sanitized_file_name(Some(&name)), Some(name.clone()));
            assert!(!name.contains('/'));
        }
    }
}

#[test]
fn refuses_names_that_are_too_long_or_hold_a_nul() {
    assert_eq!(sanitized_file_name(Some(&"a".repeat(255))), Some("a".repeat(255)));
    assert_eq!(sanitized_file_name(Some(&"a".repeat(256))), None);
    assert_eq!(sanitized_file_name(Some(&"中".repeat(85))), Some("中".repeat(85)));
    assert_eq!(sanitized_file_name(Some(&"中".repeat(86))), None);
    assert_eq!(sanitized_file_name(Some("a\0b")), None);
    assert_eq!(sanitized_file_name(Some("..")), None);
}

#[test]
fn knows_image_names() {
    for name in ["a.png", "a.JPG", "a.jpeg", "a.gif", "a.WebP", "a.bmp", "x/a.png", ".a.png"] {
        assert!(is_image_file_name(name), "{name}");
    }
    for name in ["a.svg", "png", ".png", "a.png.zip", "a", "", "a.png/.."] {
        assert!(!is_image_file_name(name), "{name}");
    }
}
