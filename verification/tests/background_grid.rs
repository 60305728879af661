//! Tests of the animated backdrop: the rendered frame has one
//! newline-closed text row per grid row, across generations.

use termfolio::background::Background;

#[test]
fn frame_text_has_one_row_per_grid_row() {
    let mut bg = Background::new(12, 5);
    let text = bg.next_frame();
    assert_eq!(text.chars().count(), 5 * (12 + 1));
    let rows: Vec<&str> = text.lines().collect();
    assert_eq!(rows.len(), 5);
    for row in rows {
        assert_eq!(row.chars().count(), 12);
    }
}

#[test]
fn dimensions_survive_many_generations() {
    let mut bg = Background::new(7, 3);
    for _ in 0..10 {
        let text = bg.next_frame();
        assert_eq!(text.chars().count(), 3 * (7 + 1));
    }
}

#[test]
fn empty_grid_renders_no_text() {
    let mut bg = Background::new(0, 0);
    assert_eq!(bg.next_frame(), "");
}
