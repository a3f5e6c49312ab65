use wallpaper_windows::shobjidl;
use wallpaper_windows::user32;

#[test]
fn user32_check_result_takes_only_native_true() {
    assert_eq!(user32::check_result(1), Ok(()));
    assert_eq!(user32::check_result(0), Err(user32::Error::IOError(0)));
    assert_eq!(user32::check_result(-1), Err(user32::Error::IOError(-1)));
    assert_eq!(user32::check_result(2), Err(user32::Error::IOError(2)));
}

#[test]
fn user32_prepare_wallpaper_path_terminates() {
    assert_eq!(
        user32::prepare_wallpaper_path(&vec![0x43u16, 0x3A, 0x5C]),
        Ok(vec![0x43u16, 0x3A, 0x5C, 0])
    );
}

#[test]
fn user32_prepare_wallpaper_path_rejects_interior_nul() {
    assert_eq!(
        user32::prepare_wallpaper_path(&vec![0x43u16, 0, 0x5C, 0]),
        Err(user32::Error::NulError(1))
    );
}

#[test]
fn user32_prepare_wallpaper_path_str_encodes_ascii() {
    assert_eq!(
        user32::prepare_wallpaper_path_str("C:\\a.jpg"),
        Ok(vec![0x43u16, 0x3A, 0x5C, 0x61, 0x2E, 0x6A, 0x70, 0x67, 0])
    );
}

#[test]
fn user32_prepare_wallpaper_path_str_encodes_wide_chars() {
    // One unit for a basic-plane character, a surrogate pair for one beyond.
    assert_eq!(
        user32::prepare_wallpaper_path_str("\u{20AC}\u{1D11E}"),
        Ok(vec![0x20ACu16, 0xD834, 0xDD1E, 0])
    );
}

#[test]
fn user32_prepare_wallpaper_path_str_rejects_nul_char() {
    assert_eq!(
        user32::prepare_wallpaper_path_str("a\u{0}b"),
        Err(user32::Error::NulError(1))
    );
}

#[test]
fn user32_parse_wallpaper_buffer_reads_filled_buffer() {
    let mut buf = vec![0x43u16, 0x3A, 0x5C, 0x61];
    buf.resize(user32::WALLPAPER_BUF_LEN, 0);
    assert_eq!(user32::parse_wallpaper_buffer(&buf), Ok(vec![0x43u16, 0x3A, 0x5C, 0x61]));
}

#[test]
fn user32_parse_wallpaper_buffer_needs_terminator() {
    assert_eq!(
        user32::parse_wallpaper_buffer(&vec![0x43u16, 0x3A]),
        Err(user32::Error::MissingNulError)
    );
}

#[test]
fn user32_buffer_length_is_max_path() {
    assert_eq!(user32::WALLPAPER_BUF_LEN, 260);
}

#[test]
fn shobjidl_check_result_takes_non_negative() {
    assert_eq!(shobjidl::check_result(0), Ok(()));
    assert_eq!(shobjidl::check_result(1), Ok(()));
    assert_eq!(shobjidl::check_result(i32::MAX), Ok(()));
    assert_eq!(shobjidl::check_result(-1), Err(shobjidl::Error::IOError(-1)));
    assert_eq!(
        shobjidl::check_result(-2147024894),
        Err(shobjidl::Error::IOError(-2147024894))
    );
}

#[test]
fn shobjidl_marshal_wide_terminates() {
    assert_eq!(shobjidl::marshal_wide(&vec![0x4Du16, 0x31]), Ok(vec![0x4Du16, 0x31, 0]));
    assert_eq!(shobjidl::marshal_wide(&vec![0x4Du16, 0, 0x31]), Err(shobjidl::Error::NulError(1)));
}

#[test]
fn shobjidl_marshal_wide_str_encodes() {
    assert_eq!(shobjidl::marshal_wide_str("M1"), Ok(vec![0x4Du16, 0x31, 0]));
    assert_eq!(shobjidl::marshal_wide_str("M\u{0}1"), Err(shobjidl::Error::NulError(1)));
}

#[test]
fn shobjidl_marshal_optional_wide_passes_none_through() {
    assert_eq!(shobjidl::marshal_optional_wide(&None), Ok(None));
    assert_eq!(
        shobjidl::marshal_optional_wide(&Some(vec![0x4Du16])),
        Ok(Some(vec![0x4Du16, 0]))
    );
    assert_eq!(
        shobjidl::marshal_optional_wide(&Some(vec![0u16, 0x4D])),
        Err(shobjidl::Error::NulError(0))
    );
}
