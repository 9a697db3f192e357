use window_controller::window_style::{
    ZOrder, SWP_FRAMECHANGED, SWP_NOACTIVATE, SWP_NOMOVE, SWP_NOSIZE, SWP_NOZORDER, SWP_SHOWWINDOW,
    WS_CAPTION, WS_EX_LAYERED, WS_EX_TOPMOST, WS_EX_TRANSPARENT,
};
use window_controller::{WindowController, WindowStyle};

fn style(flags: u32, extended: u32) -> WindowStyle {
    WindowStyle::new(WindowController::from_hwnd(3), flags, extended)
}

#[test]
fn new_keeps_what_it_was_given() {
    let s = style(0x14CF0000, 0x00000100);
    assert_eq!(s.window(), WindowController::from_hwnd(3));
    assert_eq!(s.style_flags(), 0x14CF0000);
    assert_eq!(s.extended_style_flags(), 0x00000100);
}

#[test]
fn flag_constants() {
    assert_eq!(WS_CAPTION, 0x00C00000);
    assert_eq!(WS_EX_TOPMOST, 0x00000008);
    assert_eq!(WS_EX_TRANSPARENT, 0x00000020);
    assert_eq!(WS_EX_LAYERED, 0x00080000);
}

#[test]
fn set_then_read_reflects_the_flag() {
    let mut s = style(0x10000000, 0x1);
    s.set_style(0x00040000, 0x80);
    assert_eq!(s.style_flags(), 0x10040000);
    assert_eq!(s.extended_style_flags(), 0x81);
    assert!(s.has_style(0x00040000, 0x80));
    assert!(s.has_style(0x10000000, 0x1));
}

#[test]
fn remove_then_read_reflects_absence() {
    let mut s = style(0x10040000, 0x81);
    s.remove_style(0x00040000, 0x80);
    assert_eq!(s.style_flags(), 0x10000000);
    assert_eq!(s.extended_style_flags(), 0x1);
    assert!(!s.has_style(0x00040000, 0));
    assert!(!s.has_style(0, 0x80));
    assert_eq!(s.style_flags() & 0x00040000, 0);
}

#[test]
fn set_and_remove_round_trip() {
    let mut s = style(0, 0);
    s.set_style(0xF0, 0x0F);
    s.remove_style(0x30, 0x03);
    assert_eq!((s.style_flags(), s.extended_style_flags()), (0xC0, 0x0C));
    s.set_style(0x30, 0x03);
    assert_eq!((s.style_flags(), s.extended_style_flags()), (0xF0, 0x0F));
}

#[test]
fn removing_an_absent_flag_changes_nothing() {
    let mut s = style(0xA, 0x5);
    s.remove_style(0x5, 0xA);
    assert_eq!((s.style_flags(), s.extended_style_flags()), (0xA, 0x5));
    s.set_style(0, 0);
    assert_eq!((s.style_flags(), s.extended_style_flags()), (0xA, 0x5));
}

#[test]
fn caption_toggles_the_caption_bits_only() {
    let mut s = style(0x10000000, 0x8);
    s.set_caption(true);
    assert_eq!((s.style_flags(), s.extended_style_flags()), (0x10C00000, 0x8));
    s.set_caption(false);
    assert_eq!((s.style_flags(), s.extended_style_flags()), (0x10000000, 0x8));
}

#[test]
fn always_on_top_toggles_the_topmost_bit_only() {
    let mut s = style(0x10C00000, 0x100);
    s.set_always_on_top(true);
    assert_eq!((s.style_flags(), s.extended_style_flags()), (0x10C00000, 0x108));
    s.set_always_on_top(false);
    assert_eq!((s.style_flags(), s.extended_style_flags()), (0x10C00000, 0x100));
}

#[test]
fn setters_chain() {
    let mut s = style(0, 0);
    s.set_caption(true).set_always_on_top(true).set_transcolor(0x00FF00FF);
    assert_eq!(s.style_flags(), 0x00C00000);
    assert_eq!(s.extended_style_flags(), 0x00080028);
}

#[test]
fn transcolor_marks_layered_and_transparent() {
    let mut s = style(0x1, 0x100);
    s.set_transcolor(0x00123456);
    assert_eq!(s.style_flags(), 0x1);
    assert_eq!(s.extended_style_flags(), 0x00080120);
}

#[test]
fn color_key_swaps_red_and_blue() {
    assert_eq!(WindowStyle::color_key(0x00123456), 0x00563412);
    assert_eq!(WindowStyle::color_key(0xAB0000FF), 0xABFF0000);
    assert_eq!(WindowStyle::color_key(0x00FF0000), 0x000000FF);
    assert_eq!(WindowStyle::color_key(0x0000FF00), 0x0000FF00);
    assert_eq!(WindowStyle::color_key(0xFFFFFFFF), 0xFFFFFFFF);
    assert_eq!(WindowStyle::color_key(0), 0);
}

#[test]
fn placement_flag_constants() {
    assert_eq!(SWP_NOSIZE, 0x0001);
    assert_eq!(SWP_NOMOVE, 0x0002);
    assert_eq!(SWP_NOZORDER, 0x0004);
    assert_eq!(SWP_NOACTIVATE, 0x0010);
    assert_eq!(SWP_FRAMECHANGED, 0x0020);
    assert_eq!(SWP_SHOWWINDOW, 0x0040);
}

#[test]
fn untouched_style_keeps_the_z_order() {
    let mut s = style(0, WS_EX_TOPMOST);
    assert_eq!(s.z_order(), ZOrder::Unchanged);
    assert_eq!(s.apply_flags(), 0x37);
    s.set_caption(true).set_transcolor(0x112233);
    s.set_style(0, WS_EX_TOPMOST);
    s.remove_style(0, WS_EX_TOPMOST);
    assert_eq!(s.z_order(), ZOrder::Unchanged);
    assert_eq!(s.apply_flags(), 0x37);
}

#[test]
fn always_on_top_raises_the_window_on_apply() {
    let mut s = style(0, 0);
    s.set_always_on_top(true);
    assert_eq!(s.z_order(), ZOrder::Topmost);
    assert_eq!(s.apply_flags(), 0x33);
    assert_eq!(s.apply_flags() & SWP_NOZORDER, 0);
    assert_eq!(s.apply_flags() & (SWP_NOMOVE | SWP_NOSIZE), SWP_NOMOVE | SWP_NOSIZE);
}

#[test]
fn giving_up_always_on_top_restores_the_window_on_apply() {
    let mut s = style(0, WS_EX_TOPMOST);
    s.set_always_on_top(false);
    assert_eq!(s.z_order(), ZOrder::NotTopmost);
    assert_eq!(s.apply_flags(), 0x33);
    assert_eq!(s.extended_style_flags(), 0);
}

#[test]
fn last_always_on_top_request_wins() {
    let mut s = style(0, 0);
    s.set_always_on_top(true).set_always_on_top(false).set_caption(false);
    assert_eq!(s.z_order(), ZOrder::NotTopmost);
    s.set_always_on_top(true);
    assert_eq!(s.z_order(), ZOrder::Topmost);
    assert_eq!(s.extended_style_flags(), WS_EX_TOPMOST);
}
