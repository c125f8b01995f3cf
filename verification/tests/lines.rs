use archiver::error::ArchiveError;
use archiver::line::{is_space_char, trim_line};
use archiver::method::CompressionMethod;
use archiver::request::{accept_line, Request};

#[test]
fn trims_the_line_end() {
    assert_eq!(trim_line("notes.txt\n"), "notes.txt");
    assert_eq!(trim_line("notes.txt\r\n"), "notes.txt");
}

#[test]
fn trims_both_ends_and_keeps_the_middle() {
    assert_eq!(trim_line("  \t my file.txt \n"), "my file.txt");
    assert_eq!(trim_line("a  b"), "a  b");
}

#[test]
fn blank_lines_trim_to_nothing() {
    assert_eq!(trim_line(""), "");
    assert_eq!(trim_line("\n"), "");
    assert_eq!(trim_line(" \t\r\n \u{3000}"), "");
}

#[test]
fn text_without_outer_space_is_unchanged() {
    assert_eq!(trim_line("x"), "x");
    assert_eq!(trim_line("dir/sub dir/name.bin"), "dir/sub dir/name.bin");
}

#[test]
fn trims_white_space_beyond_ascii() {
    assert_eq!(trim_line("\u{00A0}\u{2003}päth/ü.txt\u{0085}\u{2028}"), "päth/ü.txt");
    assert_eq!(trim_line("\u{200B}x\u{200B}"), "\u{200B}x\u{200B}");
}

#[test]
fn white_space_is_what_std_calls_white_space() {
    let mut count = 0;
    for code in 0u32..=0x10FFFF {
        if let Some(c) = char::from_u32(code) {
            assert_eq!(is_space_char(c), c.is_whitespace(), "U+{:04X}", code);
            if is_space_char(c) {
                count += 1;
            }
        }
    }
    assert_eq!(count, 25);
}

#[test]
fn trimming_agrees_with_std() {
    let samples = [
        "",
        " ",
        "a",
        " a",
        "a ",
        " a ",
        "\t\ta b\tc\n\n",
        "\u{1680}\u{2000}x y\u{205F}\u{202F}",
        "\u{FEFF} x",
        "  ünïcödé  ",
        "\r\n",
        "1\n",
    ];
    for sample in samples {
        assert_eq!(trim_line(sample), sample.trim(), "sample {:?}", sample);
    }
}

#[test]
fn trimming_twice_is_trimming_once() {
    for sample in ["  a b  ", "\n\n", "x", " \u{3000}y\t"] {
        assert_eq!(trim_line(trim_line(sample)), trim_line(sample));
    }
}

#[test]
fn a_line_that_was_read_is_trimmed() {
    assert_eq!(accept_line(Some("  out.zip\n")), Ok("out.zip"));
    assert_eq!(accept_line(Some("")), Ok(""));
}

#[test]
fn a_failed_read_is_input_read_failed() {
    assert_eq!(accept_line(None), Err(ArchiveError::InputReadFailed));
}

#[test]
fn request_from_three_lines() {
    let (request, fallback) = Request::from_lines("hello.txt\n", "out.zip\n", "2\n");
    assert_eq!(request.source, "hello.txt");
    assert_eq!(request.destination, "out.zip");
    assert_eq!(request.method, CompressionMethod::Store);
    assert!(!fallback);
}

#[test]
fn request_with_unlisted_selector_falls_back() {
    let (request, fallback) = Request::from_lines(" dir/in.bin ", "\tdir/out.zip", "9\n");
    assert_eq!(request.source, "dir/in.bin");
    assert_eq!(request.destination, "dir/out.zip");
    assert_eq!(request.method, CompressionMethod::Deflate);
    assert!(fallback);
}

#[test]
fn request_with_blank_selector_falls_back() {
    let (request, fallback) = Request::from_lines("a", "b", "\n");
    assert_eq!(request.method, CompressionMethod::Deflate);
    assert!(fallback);
}

#[test]
fn request_keeps_paths_as_given() {
    let (request, fallback) = Request::from_lines("\n", "no/such/dir/../x y.zip\n", " 4 \n");
    assert_eq!(request.source, "");
    assert_eq!(request.destination, "no/such/dir/../x y.zip");
    assert_eq!(request.method, CompressionMethod::Zstandard);
    assert!(!fallback);
}

#[test]
fn error_classes_and_their_texts() {
    assert_eq!(ArchiveError::SourceUnavailable.describe(), "source file could not be read");
    assert_eq!(
        ArchiveError::DestinationUnavailable.describe(),
        "destination file could not be created"
    );
    assert_eq!(ArchiveError::WriteFailed.describe(), "container could not be written");
    assert_eq!(ArchiveError::InputReadFailed.describe(), "input line could not be read");
}

#[test]
fn only_a_failed_input_read_is_fatal() {
    assert!(ArchiveError::InputReadFailed.is_fatal());
    assert!(!ArchiveError::SourceUnavailable.is_fatal());
    assert!(!ArchiveError::DestinationUnavailable.is_fatal());
    assert!(!ArchiveError::WriteFailed.is_fatal());
}
