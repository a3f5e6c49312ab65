use wallpaper_windows::wide::first_nul_position;
use wallpaper_windows::wide::make_nul_terminated;
use wallpaper_windows::wide::proper_from_wide;
use wallpaper_windows::wide::proper_to_wide;
use wallpaper_windows::wide::wide_prefix_before_nul;

#[test]
fn first_nul_position_finds_first() {
    assert_eq!(first_nul_position(&vec![7u16, 0, 9, 0]), Some(1));
    assert_eq!(first_nul_position(&vec![0u16]), Some(0));
    assert_eq!(first_nul_position(&vec![7u16, 9]), None);
    assert_eq!(first_nul_position(&vec![]), None);
}

#[test]
fn proper_to_wide_appends_terminator() {
    assert_eq!(proper_to_wide(&vec![7u16, 9]), vec![7u16, 9, 0]);
    assert_eq!(proper_to_wide(&vec![]), vec![0u16]);
}

#[test]
fn make_nul_terminated_accepts_clean_units() {
    assert_eq!(make_nul_terminated(&vec![7u16, 9]), Ok(vec![7u16, 9, 0]));
    assert_eq!(make_nul_terminated(&vec![]), Ok(vec![0u16]));
}

#[test]
fn make_nul_terminated_rejects_interior_nul() {
    assert_eq!(make_nul_terminated(&vec![7u16, 0, 9]), Err(1));
    assert_eq!(make_nul_terminated(&vec![0u16, 0]), Err(0));
}

#[test]
fn wide_prefix_stops_at_first_nul() {
    assert_eq!(wide_prefix_before_nul(&vec![7u16, 9, 0, 4]), Some(vec![7u16, 9]));
    assert_eq!(wide_prefix_before_nul(&vec![0u16, 4]), Some(vec![]));
    assert_eq!(wide_prefix_before_nul(&vec![7u16, 9]), None);
}

#[test]
fn proper_from_wide_truncates() {
    assert_eq!(proper_from_wide(&vec![7u16, 9, 0, 0, 4]), vec![7u16, 9]);
    assert_eq!(proper_from_wide(&vec![0u16]), Vec::<u16>::new());
}

#[test]
fn terminate_then_truncate_round_trips() {
    let units = vec![0x57u16, 0x61, 0x6C, 0x6C];
    let terminated = make_nul_terminated(&units).unwrap();
    assert_eq!(proper_from_wide(&terminated), units);
}
