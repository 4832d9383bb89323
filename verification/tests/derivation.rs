use fconvert::decimal::u64_to_decimal;
use fconvert::names::format_file_name;
use fconvert::names::output_file_name;

#[test]
fn base_name_strips_final_extension() {
    assert_eq!(format_file_name(&String::from("video1.mp4")), "video1");
    assert_eq!(format_file_name(&String::from("a.b.c")), "a.b");
    assert_eq!(format_file_name(&String::from("archive.tar.gz")), "archive.tar");
}

#[test]
fn base_name_of_extensionless_path_is_empty() {
    assert_eq!(format_file_name(&String::from("video1")), "");
    assert_eq!(format_file_name(&String::from("")), "");
}

#[test]
fn base_name_of_leading_dot_path() {
    assert_eq!(format_file_name(&String::from(".mp4")), "");
    assert_eq!(format_file_name(&String::from(".hidden.txt")), ".hidden");
}

#[test]
fn output_name_appends_format() {
    assert_eq!(
        output_file_name(&String::from("video1.mp4"), &String::from("mp3")),
        "video1.mp3"
    );
    assert_eq!(
        output_file_name(&String::from("a.b.c"), &String::from("ogg")),
        "a.b.ogg"
    );
}

#[test]
fn output_name_of_extensionless_path_keeps_literal_behaviour() {
    assert_eq!(
        output_file_name(&String::from("video1"), &String::from("mp3")),
        ".mp3"
    );
}

#[test]
fn output_name_uses_format_verbatim() {
    assert_eq!(
        output_file_name(&String::from("x.wav"), &String::from("not a format")),
        "x.not a format"
    );
}

#[test]
fn decimal_rendering_is_exact() {
    assert_eq!(u64_to_decimal(0), "0");
    assert_eq!(u64_to_decimal(7), "7");
    assert_eq!(u64_to_decimal(10), "10");
    assert_eq!(u64_to_decimal(42), "42");
    assert_eq!(u64_to_decimal(1000), "1000");
    assert_eq!(u64_to_decimal(1234567890), "1234567890");
    assert_eq!(u64_to_decimal(u64::MAX), "18446744073709551615");
}

#[test]
fn derivation_handles_multibyte_characters() {
    assert_eq!(format_file_name(&String::from("vidéo.mp4")), "vidéo");
    assert_eq!(
        output_file_name(&String::from("なまえ.wav"), &String::from("mp3")),
        "なまえ.mp3"
    );
}
