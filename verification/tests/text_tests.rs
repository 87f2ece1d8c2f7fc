use process_files_in_ftp::text::{
    append_decimal, append_signed_decimal, append_zero_padded, count_newlines, is_white_space_char,
    last_path_segment, trim_text,
};

#[test]
fn trim_removes_ascii_white_space_at_both_ends() {
    assert_eq!(trim_text("  ftp.example.com \n"), "ftp.example.com");
    assert_eq!(trim_text("\t\r\n"), "");
    assert_eq!(trim_text(""), "");
    assert_eq!(trim_text("a b"), "a b");
}

#[test]
fn trim_matches_std_on_unicode_white_space() {
    let samples = [
        "\u{3000}usuario\u{2028}",
        "\u{a0}\u{85}x\u{1680}",
        "\u{200b}kept\u{200b}",
        " \u{2009} mid dle \u{205f}",
    ];
    for s in samples.iter() {
        assert_eq!(trim_text(s), s.trim());
    }
}

#[test]
fn white_space_agrees_with_char_is_whitespace() {
    for u in 0u32..0x3100 {
        if let Some(c) = char::from_u32(u) {
            assert_eq!(is_white_space_char(c), c.is_whitespace(), "code point {:x}", u);
        }
    }
}

#[test]
fn last_segment_is_what_split_gives_last() {
    let samples = ["/guias/2023/img_01.jpg", "plain.jpg", "dir/", "", "/", "a//b"];
    for s in samples.iter() {
        assert_eq!(last_path_segment(s), s.split('/').last().unwrap());
    }
    assert_eq!(last_path_segment("/guias/cpm/foto.jpg"), "foto.jpg");
}

#[test]
fn decimal_rendering_matches_to_string() {
    for n in [0u64, 7, 10, 99, 100, 12345, u64::MAX].iter() {
        let mut s = String::new();
        append_decimal(&mut s, *n);
        assert_eq!(s, n.to_string());
    }
    for n in [0i64, -1, 42, -42, i64::MIN, i64::MAX].iter() {
        let mut s = String::from("x");
        append_signed_decimal(&mut s, *n);
        assert_eq!(s, format!("x{}", n));
    }
}

#[test]
fn zero_padding_widens_short_numbers_only() {
    let mut s = String::new();
    append_zero_padded(&mut s, 7, 2);
    assert_eq!(s, "07");
    let mut s = String::new();
    append_zero_padded(&mut s, 123, 2);
    assert_eq!(s, "123");
    let mut s = String::new();
    append_zero_padded(&mut s, 5, 4);
    assert_eq!(s, "0005");
}

#[test]
fn newline_counting() {
    assert_eq!(count_newlines(""), 0);
    assert_eq!(count_newlines("a\nb\n\nc"), 3);
}
