use archiver::method::{key_method, select_method, CompressionMethod, Selection};

#[test]
fn selector_one_is_deflate_without_warning() {
    assert_eq!(
        select_method("1"),
        Selection { method: CompressionMethod::Deflate, fallback: false }
    );
}

#[test]
fn selector_two_is_store() {
    assert_eq!(
        select_method("2"),
        Selection { method: CompressionMethod::Store, fallback: false }
    );
}

#[test]
fn selector_three_is_bzip2() {
    assert_eq!(
        select_method("3"),
        Selection { method: CompressionMethod::Bzip2, fallback: false }
    );
}

#[test]
fn selector_four_is_zstandard() {
    assert_eq!(
        select_method("4"),
        Selection { method: CompressionMethod::Zstandard, fallback: false }
    );
}

#[test]
fn selector_nine_falls_back_to_deflate_with_warning() {
    assert_eq!(
        select_method("9"),
        Selection { method: CompressionMethod::Deflate, fallback: true }
    );
}

#[test]
fn empty_selector_falls_back() {
    assert_eq!(
        select_method(""),
        Selection { method: CompressionMethod::Deflate, fallback: true }
    );
}

#[test]
fn malformed_selectors_fall_back() {
    let fallback = Selection { method: CompressionMethod::Deflate, fallback: true };
    for selector in ["0", "5", "12", "11", "1 ", " 1", "2\n", "a", "deflate", "-1", "１", "٣", "4.0"] {
        assert_eq!(select_method(selector), fallback, "selector {:?}", selector);
    }
}

#[test]
fn every_single_character_but_the_keys_falls_back() {
    for code in 0u32..=0x10FFFF {
        if let Some(c) = char::from_u32(code) {
            let selection = select_method(&c.to_string());
            let listed = matches!(c, '1' | '2' | '3' | '4');
            assert_eq!(selection.fallback, !listed, "character {:?}", c);
            if !listed {
                assert_eq!(selection.method, CompressionMethod::Deflate);
            }
        }
    }
}

#[test]
fn keys_and_their_methods() {
    assert_eq!(key_method('1'), Some(CompressionMethod::Deflate));
    assert_eq!(key_method('2'), Some(CompressionMethod::Store));
    assert_eq!(key_method('3'), Some(CompressionMethod::Bzip2));
    assert_eq!(key_method('4'), Some(CompressionMethod::Zstandard));
    assert_eq!(key_method('0'), None);
    assert_eq!(key_method('5'), None);
    assert_eq!(key_method(' '), None);
}
