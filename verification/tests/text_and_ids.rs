use std::collections::hash_map::DefaultHasher;
use std::hash::{Hash, Hasher};

use trackhub::hash::{generate_fallback_id, FALLBACK_ID_PREFIX};
use trackhub::model::Artist;
use trackhub::text::{
    chars_of, contains_str, is_blank_str, push_decimal, push_hex, push_signed_decimal,
    starts_with_str, string_from_chars, trim_str, utf8_len_is,
};
use trackhub::video_id::extract_video_id;

fn std_hash(s: &str) -> u64 {
    let mut h = DefaultHasher::new();
    s.hash(&mut h);
    h.finish()
}

#[test]
fn fallback_id_is_prefix_underscore_hex_hash() {
    let id = generate_fallback_id("yt_gen", "Bad Bunny");
    assert_eq!(id, format!("yt_gen_{:x}", std_hash("Bad Bunny")));
}

#[test]
fn fallback_id_is_stable_and_depends_on_name() {
    assert_eq!(generate_fallback_id("p", "a"), generate_fallback_id("p", "a"));
    assert_ne!(generate_fallback_id("p", "a"), generate_fallback_id("p", "b"));
}

#[test]
fn generated_ids_are_recognised_as_fallback() {
    let artist = Artist { id: generate_fallback_id("yt_gen", "Someone"), name: "Someone".to_string() };
    assert!(artist.is_fallback_id());
    assert_eq!(artist.public_id(), None);
    assert_eq!(FALLBACK_ID_PREFIX, "yt_gen_");
}

#[test]
fn real_ids_are_not_fallback() {
    let artist = Artist { id: "UCabc".to_string(), name: "X".to_string() };
    assert!(!artist.is_fallback_id());
    assert_eq!(artist.public_id(), Some("UCabc".to_string()));
    let short = Artist { id: "yt_gen".to_string(), name: "X".to_string() };
    assert!(!short.is_fallback_id());
}

#[test]
fn decimal_and_hex_formatting() {
    let mut s = String::new();
    push_decimal(&mut s, 0);
    assert_eq!(s, "0");
    let mut s = String::new();
    push_decimal(&mut s, 7878);
    assert_eq!(s, "7878");
    let mut s = String::new();
    push_decimal(&mut s, u64::MAX);
    assert_eq!(s, u64::MAX.to_string());
    let mut s = String::new();
    push_hex(&mut s, 255);
    assert_eq!(s, "ff");
    let mut s = String::new();
    push_hex(&mut s, 0);
    assert_eq!(s, "0");
    let mut s = String::new();
    push_hex(&mut s, 0xdead_beef_0123);
    assert_eq!(s, "deadbeef0123");
    let mut s = String::from("d=");
    push_signed_decimal(&mut s, i32::MIN);
    assert_eq!(s, "d=-2147483648");
    let mut s = String::new();
    push_signed_decimal(&mut s, 215);
    assert_eq!(s, "215");
}

#[test]
fn trimming_and_blankness() {
    assert_eq!(trim_str("  hello world \n\t"), "hello world");
    assert_eq!(trim_str("\u{3000}x\u{a0}"), "x");
    assert_eq!(trim_str("   "), "");
    assert!(is_blank_str(" \n\t "));
    assert!(is_blank_str(""));
    assert!(!is_blank_str(" a "));
}

#[test]
fn trimming_twice_changes_nothing() {
    for s in ["  a b  ", "\t\nx", "", "   ", "y  "] {
        let once = trim_str(s);
        assert_eq!(trim_str(&once), once);
    }
}

#[test]
fn searching_and_lengths() {
    assert!(contains_str("abc ERROR: x", "ERROR:"));
    assert!(!contains_str("abc", "abcd"));
    assert!(contains_str("abc", ""));
    assert!(starts_with_str("yt_gen_12", "yt_gen_"));
    assert!(!starts_with_str("yt", "yt_gen_"));
    assert_eq!("ñandú".len(), 7);
    let cs = chars_of("ñandú");
    assert!(utf8_len_is(&cs, 7));
    assert!(!utf8_len_is(&cs, 5));
    assert_eq!(string_from_chars(&cs), "ñandú");
}

#[test]
fn bare_video_id_is_recognised() {
    assert_eq!(extract_video_id("dQw4w9WgXcQ"), Some("dQw4w9WgXcQ".to_string()));
    assert_eq!(extract_video_id("a_b-c_d-e_f"), Some("a_b-c_d-e_f".to_string()));
}

#[test]
fn watch_url_id_is_recognised() {
    assert_eq!(
        extract_video_id("https://www.youtube.com/watch?v=dQw4w9WgXcQ&t=42s"),
        Some("dQw4w9WgXcQ".to_string())
    );
    assert_eq!(
        extract_video_id("https://music.youtube.com/watch?v=dQw4w9WgXcQ"),
        Some("dQw4w9WgXcQ".to_string())
    );
}

#[test]
fn short_url_id_is_recognised() {
    assert_eq!(extract_video_id("https://youtu.be/dQw4w9WgXcQ?si=abc"), Some("dQw4w9WgXcQ".to_string()));
}

#[test]
fn other_text_names_no_video() {
    assert_eq!(extract_video_id("bad bunny"), None);
    // eleven bytes, but a space is not an ID character
    assert_eq!(extract_video_id("hello world"), None);
    // the v= value is too short
    assert_eq!(extract_video_id("https://www.youtube.com/watch?v=short&x=1"), None);
    // eleven characters but thirteen bytes
    assert_eq!(extract_video_id("ñandúabcdef"), None);
    assert_eq!(extract_video_id(""), None);
}

#[test]
fn short_url_is_tried_after_a_bad_watch_parameter() {
    assert_eq!(
        extract_video_id("https://youtu.be/dQw4w9WgXcQ?v=no"),
        Some("dQw4w9WgXcQ".to_string())
    );
}

const WHITE_SPACE: [u32; 25] = [
    0x09, 0x0a, 0x0b, 0x0c, 0x0d, 0x20, 0x85, 0xa0, 0x1680, 0x2000, 0x2001, 0x2002, 0x2003, 0x2004, 0x2005,
    0x2006, 0x2007, 0x2008, 0x2009, 0x200a, 0x2028, 0x2029, 0x202f, 0x205f, 0x3000,
];

#[test]
fn white_space_is_the_listed_code_points() {
    for u in 0..=0x10ffffu32 {
        if let Some(c) = char::from_u32(u) {
            assert_eq!(c.is_whitespace(), WHITE_SPACE.contains(&u), "U+{u:04X}");
        }
    }
    for u in WHITE_SPACE {
        let w = char::from_u32(u).unwrap();
        assert_eq!(trim_str(&format!("{w}{w}a b{w}")), "a b");
        assert!(is_blank_str(&format!("{w} {w}")));
    }
    assert_eq!(trim_str("\u{200b}a"), "\u{200b}a");
}

#[test]
fn ascii_alphanumerics_are_letters_and_digits() {
    for u in 0..0x80u8 {
        let c = u as char;
        assert_eq!(c.is_alphanumeric(), c.is_ascii_alphanumeric(), "{u}");
    }
    assert_eq!(extract_video_id("dQw4w9WgXcQ").as_deref(), Some("dQw4w9WgXcQ"));
    assert_eq!(extract_video_id("a_b-c9D0e1F").as_deref(), Some("a_b-c9D0e1F"));
    assert_eq!(extract_video_id("dQw4w9WgXc!"), None);
    assert_eq!(extract_video_id("dQw4w9 gXcQ"), None);
}
