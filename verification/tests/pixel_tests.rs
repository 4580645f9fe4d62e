use vibe_overlay::pixels::bgra_to_rgba;

#[test]
fn red_and_blue_trade_places() {
    let bgra = [1u8, 2, 3, 4, 5, 6, 7, 8];
    assert_eq!(bgra_to_rgba(&bgra), vec![3, 2, 1, 4, 7, 6, 5, 8]);
}

#[test]
fn trailing_partial_pixel_is_kept() {
    let bgra = [10u8, 20, 30, 40, 50, 60, 70];
    assert_eq!(bgra_to_rgba(&bgra), vec![30, 20, 10, 40, 50, 60, 70]);
}

#[test]
fn empty_buffer_stays_empty() {
    assert!(bgra_to_rgba(&[]).is_empty());
}

#[test]
fn swapping_twice_restores_pixels() {
    let bgra: Vec<u8> = (0u8..=41).collect();
    let once = bgra_to_rgba(&bgra);
    assert_ne!(once, bgra);
    assert_eq!(bgra_to_rgba(&once), bgra);
}
