//! Tests of the layout engine: centering, band stacking, the content
//! split, and the clamped backdrop.

use termfolio::layout::{
    backdrop_rect, centered_rect, clamp_rect, page_bands, split_content, stack_bands, Rect,
    CONTENT_HEIGHT, TABS_HEIGHT,
};

fn rect(x: u16, y: u16, width: u16, height: u16) -> Rect {
    Rect { x, y, width, height }
}

#[test]
fn desktop_rect_is_sixty_by_eighty_percent_centered() {
    let c = centered_rect(rect(0, 0, 100, 50), false);
    assert_eq!(c, rect(20, 5, 60, 40));
}

#[test]
fn mobile_rect_is_eighty_by_thirty_percent_centered() {
    let c = centered_rect(rect(0, 0, 100, 50), true);
    assert_eq!(c, rect(10, 17, 80, 15));
}

#[test]
fn centered_rect_respects_viewport_origin() {
    let c = centered_rect(rect(10, 4, 100, 50), false);
    assert_eq!(c, rect(30, 9, 60, 40));
}

#[test]
fn bands_stack_top_to_bottom_with_requested_heights() {
    let parent = rect(5, 3, 40, 30);
    let bands = stack_bands(parent, &vec![7, 3, 20]);
    assert_eq!(bands.len(), 3);
    assert_eq!(bands[0], rect(5, 3, 40, 7));
    assert_eq!(bands[1], rect(5, 10, 40, 3));
    assert_eq!(bands[2], rect(5, 13, 40, 20));
}

#[test]
fn bands_never_overlap_and_fit_any_parent() {
    for parent_h in [0u16, 1, 5, 9, 10, 11, 29, 30, 100] {
        let parent = rect(2, 2, 20, parent_h);
        let bands = stack_bands(parent, &vec![7, 3, 20]);
        let total: u32 = bands.iter().map(|b| b.height as u32).sum();
        assert!(total <= parent_h as u32);
        for i in 0..bands.len() {
            for j in (i + 1)..bands.len() {
                assert!(bands[i].y as u32 + bands[i].height as u32 <= bands[j].y as u32);
            }
            assert!(bands[i].x >= parent.x && bands[i].y >= parent.y);
            assert!(bands[i].x as u32 + bands[i].width as u32 <= parent.x as u32 + 20);
            assert!(
                bands[i].y as u32 + bands[i].height as u32
                    <= parent.y as u32 + parent_h as u32
            );
        }
    }
}

#[test]
fn short_parent_truncates_later_bands_first() {
    let bands = stack_bands(rect(0, 0, 10, 9), &vec![7, 3, 20]);
    assert_eq!(bands[0].height, 7);
    assert_eq!(bands[1].height, 2);
    assert_eq!(bands[2].height, 0);
}

#[test]
fn content_band_splits_fourteen_over_six() {
    let (top, bottom) = split_content(rect(1, 2, 30, 20));
    assert_eq!(top, rect(1, 2, 30, 14));
    assert_eq!(bottom, rect(1, 16, 30, 6));
}

#[test]
fn small_content_band_cuts_panels_in_turn() {
    let (top, bottom) = split_content(rect(0, 0, 30, 10));
    assert_eq!(top.height, 10);
    assert_eq!(bottom.height, 0);
    let (top, bottom) = split_content(rect(0, 0, 30, 16));
    assert_eq!(top.height, 14);
    assert_eq!(bottom.height, 2);
}

#[test]
fn page_bands_hold_banner_tabs_and_content() {
    let (centered, bands) = page_bands(rect(0, 0, 100, 50), false, 6);
    assert_eq!(centered, rect(20, 5, 60, 40));
    assert_eq!(bands.len(), 3);
    assert_eq!(bands[0], rect(20, 5, 60, 7));
    assert_eq!(bands[1], rect(20, 12, 60, TABS_HEIGHT));
    assert_eq!(bands[2], rect(20, 15, 60, CONTENT_HEIGHT));
}

#[test]
fn clamp_keeps_inner_rect_in_place() {
    let frame = rect(0, 0, 100, 50);
    assert_eq!(clamp_rect(rect(10, 10, 20, 20), frame), rect(10, 10, 20, 20));
}

#[test]
fn clamp_slides_and_shrinks_overflowing_rect() {
    let frame = rect(0, 0, 100, 50);
    assert_eq!(clamp_rect(rect(95, 45, 20, 20), frame), rect(80, 30, 20, 20));
    assert_eq!(clamp_rect(rect(0, 0, 200, 80), frame), rect(0, 0, 100, 50));
}

#[test]
fn backdrop_pads_the_content_rect() {
    let frame = rect(0, 0, 100, 50);
    let content = rect(20, 5, 60, 40);
    let back = backdrop_rect(content, &vec![7, 3, 20], frame);
    // Two columns left, one row up, four columns wider, band total
    // (7 + 3 + 20) plus three border rows tall.
    assert_eq!(back, rect(18, 4, 64, 33));
}

#[test]
fn backdrop_near_the_origin_is_clamped() {
    let frame = rect(0, 0, 100, 50);
    let back = backdrop_rect(rect(1, 0, 60, 40), &vec![7, 3, 20], frame);
    assert_eq!(back.x, 0);
    assert_eq!(back.y, 0);
    assert_eq!(back.width, 64);
    assert_eq!(back.height, 33);
}
