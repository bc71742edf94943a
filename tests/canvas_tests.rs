use raytracer::canvas::Canvas;

#[test]
fn new_canvas_is_blank_and_sized_in_blocks() {
    let c = Canvas::new(8, 6, 2);
    assert_eq!(c.width(), 4);
    assert_eq!(c.height(), 3);
    for row in 0..3 {
        for col in 0..4 {
            assert_eq!(c.get(row, col), 0);
        }
    }
}

#[test]
fn set_then_clear() {
    let mut c = Canvas::new(4, 4, 1);
    c.set(1, 2, 0xABCDEF);
    assert_eq!(c.get(1, 2), 0xABCDEF);
    assert_eq!(c.get(2, 1), 0);
    c.clear();
    assert_eq!(c.width(), 4);
    assert_eq!(c.height(), 4);
    assert_eq!(c.get(1, 2), 0);
}

#[test]
fn merge_band_copies_only_its_rows() {
    let mut shared = Canvas::new(2, 4, 1);
    let mut band = Canvas::new(2, 4, 1);
    for row in 0..4 {
        for col in 0..2 {
            band.set(row, col, 10 * row + col + 1);
        }
    }
    shared.set(0, 0, 99);
    shared.merge_band(&band, 1, 3);
    assert_eq!(shared.get(0, 0), 99);
    assert_eq!(shared.get(0, 1), 0);
    assert_eq!(shared.get(1, 0), 11);
    assert_eq!(shared.get(1, 1), 12);
    assert_eq!(shared.get(2, 0), 21);
    assert_eq!(shared.get(2, 1), 22);
    assert_eq!(shared.get(3, 0), 0);
}

#[test]
fn merge_empty_band_changes_nothing() {
    let mut shared = Canvas::new(2, 2, 1);
    let mut band = Canvas::new(2, 2, 1);
    band.set(0, 0, 5);
    shared.merge_band(&band, 1, 1);
    assert_eq!(shared.get(0, 0), 0);
}

#[test]
fn to_screen_expands_blocks() {
    let mut c = Canvas::new(4, 2, 2);
    c.set(0, 0, 0x111111);
    c.set(0, 1, 0x222222);
    let screen = c.to_screen(2);
    assert_eq!(
        screen,
        vec![
            0x111111, 0x111111, 0x222222, 0x222222, //
            0x111111, 0x111111, 0x222222, 0x222222,
        ]
    );
}

#[test]
fn to_screen_unit_one_is_row_major() {
    let mut c = Canvas::new(3, 2, 1);
    c.set(1, 0, 7);
    c.set(0, 2, 9);
    assert_eq!(c.to_screen(1), vec![0, 0, 9, 7, 0, 0]);
}
