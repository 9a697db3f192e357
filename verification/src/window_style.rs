//! A batch of changes to a window's style bits.
//!
//! The bits are read once, changed here as often as needed, and written back
//! in one go by whoever owns the window. Standard and extended bits are kept
//! apart: a flag of one never touches the other. A request to keep the window
//! on top, or to let it go, is remembered, so that writing back also puts the
//! window where it belongs among the others.

use vstd::prelude::*;
use crate::window_controller::WindowController;

verus! {

/// Standard style: the window has a title bar.
pub const WS_CAPTION: u32 = 0x00C0_0000;

/// Extended style: the window stays above all others that are not topmost.
pub const WS_EX_TOPMOST: u32 = 0x0000_0008;

/// Extended style: the window lets input through to what lies below.
pub const WS_EX_TRANSPARENT: u32 = 0x0000_0020;

/// Extended style: the window is layered, as a colour key needs it.
pub const WS_EX_LAYERED: u32 = 0x0008_0000;

/// Placement flag: keep the size.
pub const SWP_NOSIZE: u32 = 0x0001;

/// Placement flag: keep the position.
pub const SWP_NOMOVE: u32 = 0x0002;

/// Placement flag: keep the place among the other windows.
pub const SWP_NOZORDER: u32 = 0x0004;

/// Placement flag: do not give the window the focus.
pub const SWP_NOACTIVATE: u32 = 0x0010;

/// Placement flag: the frame has changed and is drawn anew.
pub const SWP_FRAMECHANGED: u32 = 0x0020;

/// Placement flag: show the window.
pub const SWP_SHOWWINDOW: u32 = 0x0040;

/// Where writing a style back puts the window among the others.
#[derive(Clone, Copy, Debug, PartialEq, Eq, Structural)]
pub enum ZOrder {
    /// Where it is.
    Unchanged,
    /// Above all windows that are not topmost, and kept there.
    Topmost,
    /// Back among the windows that are not topmost.
    NotTopmost,
}

/// The place among the windows that a request to stay on top asks for.
pub open spec fn spec_z_order(request: Option<bool>) -> ZOrder {
    match request {
        None => ZOrder::Unchanged,
        Some(true) => ZOrder::Topmost,
        Some(false) => ZOrder::NotTopmost,
    }
}

/// The flags with which a style is written back: position and size stay,
/// the focus stays, the frame is drawn anew, and the place among the windows
/// stays unless a place is asked for.
pub open spec fn spec_apply_flags(order: ZOrder) -> u32 {
    if order == ZOrder::Unchanged {
        SWP_NOMOVE | SWP_NOSIZE | SWP_NOZORDER | SWP_FRAMECHANGED | SWP_NOACTIVATE
    } else {
        SWP_NOMOVE | SWP_NOSIZE | SWP_FRAMECHANGED | SWP_NOACTIVATE
    }
}

/// The byte of `value` at `index`, the lowest being byte 0.
pub open spec fn channel(value: u32, index: u32) -> u32 {
    (value >> (8 * index)) & 0xFF
}

/// Whether every bit of `flags` is set in `bits`.
pub open spec fn has_all(bits: u32, flags: u32) -> bool {
    bits & flags == flags
}

/// Whether no bit of `flags` is set in `bits`.
pub open spec fn has_none(bits: u32, flags: u32) -> bool {
    bits & flags == 0
}

/// The style bits of one window, with the changes made so far, and what was
/// last asked about keeping it on top.
pub struct WindowStyle {
    window: WindowController,
    style_flags: u32,
    extended_style_flags: u32,
    always_on_top: Option<bool>,
}

impl WindowStyle {
    /// The window whose style this is.
    pub closed spec fn target(&self) -> WindowController {
        self.window
    }

    /// The standard style bits as they now stand.
    pub closed spec fn flags(&self) -> u32 {
        self.style_flags
    }

    /// The extended style bits as they now stand.
    pub closed spec fn extended_flags(&self) -> u32 {
        self.extended_style_flags
    }

    /// What was last asked about keeping the window on top, if anything was.
    pub closed spec fn top_request(&self) -> Option<bool> {
        self.always_on_top
    }

    /// A style that starts from the bits the window has.
    pub fn new(window: WindowController, style_flags: u32, extended_style_flags: u32) -> (style:
        WindowStyle)
        ensures
            style.target() == window,
            style.flags() == style_flags,
            style.extended_flags() == extended_style_flags,
            style.top_request() is None,
    {
        WindowStyle { window, style_flags, extended_style_flags, always_on_top: None }
    }

    /// The window whose style this is.
    pub fn window(&self) -> (window: WindowController)
        ensures
            window == self.target(),
    {
        self.window
    }

    /// The standard style bits as they now stand.
    pub fn style_flags(&self) -> (flags: u32)
        ensures
            flags == self.flags(),
    {
        self.style_flags
    }

    /// The extended style bits as they now stand.
    pub fn extended_style_flags(&self) -> (flags: u32)
        ensures
            flags == self.extended_flags(),
    {
        self.extended_style_flags
    }

    /// Where writing this style back puts the window among the others.
    pub fn z_order(&self) -> (order: ZOrder)
        ensures
            order == spec_z_order(self.top_request()),
    {
        match self.always_on_top {
            None => ZOrder::Unchanged,
            Some(true) => ZOrder::Topmost,
            Some(false) => ZOrder::NotTopmost,
        }
    }

    /// The flags with which this style is written back.
    pub fn apply_flags(&self) -> (flags: u32)
        ensures
            flags == spec_apply_flags(spec_z_order(self.top_request())),
            has_all(flags, SWP_NOMOVE | SWP_NOSIZE),
            has_none(flags, SWP_NOZORDER) <==> self.top_request() is Some,
    {
        let keep: u32 = SWP_NOMOVE | SWP_NOSIZE | SWP_FRAMECHANGED | SWP_NOACTIVATE;
        assert((keep & (0x0002u32 | 0x0001)) == (0x0002u32 | 0x0001) && keep & 0x0004 == 0 && ((keep
            | 0x0004) & (0x0002u32 | 0x0001)) == (0x0002u32 | 0x0001) && (keep | 0x0004) & 0x0004 != 0
            && (keep | 0x0004) == (0x0002u32 | 0x0001 | 0x0004 | 0x0020 | 0x0010)) by (bit_vector)
            requires
                keep == 0x0002u32 | 0x0001 | 0x0020 | 0x0010,
        ;
        match self.always_on_top {
            None => keep | SWP_NOZORDER,
            Some(_) => keep,
        }
    }

    /// Whether all of the given bits are set.
    pub fn has_style(&self, flags: u32, extended_flags: u32) -> (set: bool)
        ensures
            set == (has_all(self.flags(), flags) && has_all(self.extended_flags(), extended_flags)),
    {
        self.style_flags & flags == flags && self.extended_style_flags & extended_flags
            == extended_flags
    }

    /// Sets the given bits and leaves the others as they are.
    pub fn set_style(&mut self, flags: u32, extended_flags: u32)
        ensures
            final(self).flags() == old(self).flags() | flags,
            final(self).extended_flags() == old(self).extended_flags() | extended_flags,
            final(self).target() == old(self).target(),
            final(self).top_request() == old(self).top_request(),
            has_all(final(self).flags(), flags),
            has_all(final(self).extended_flags(), extended_flags),
    {
        proof {
            lemma_set_then_read(self.style_flags, flags);
            lemma_set_then_read(self.extended_style_flags, extended_flags);
        }
        self.style_flags = self.style_flags | flags;
        self.extended_style_flags = self.extended_style_flags | extended_flags;
    }

    /// Clears the given bits and leaves the others as they are.
    pub fn remove_style(&mut self, flags: u32, extended_flags: u32)
        ensures
            final(self).flags() == old(self).flags() & !flags,
            final(self).extended_flags() == old(self).extended_flags() & !extended_flags,
            final(self).target() == old(self).target(),
            final(self).top_request() == old(self).top_request(),
            has_none(final(self).flags(), flags),
            has_none(final(self).extended_flags(), extended_flags),
    {
        proof {
            lemma_remove_then_read(self.style_flags, flags);
            lemma_remove_then_read(self.extended_style_flags, extended_flags);
        }
        self.style_flags = self.style_flags & !flags;
        self.extended_style_flags = self.extended_style_flags & !extended_flags;
    }

    /// A colour `0xAARRGGBB` as the key the system wants for it: the red and
    /// blue bytes exchanged, the other two as they are.
    pub fn color_key(color: u32) -> (key: u32)
        ensures
            channel(key, 0) == channel(color, 2),
            channel(key, 1) == channel(color, 1),
            channel(key, 2) == channel(color, 0),
            channel(key, 3) == channel(color, 3),
    {
        let key: u32 = (color & 0xFF00_0000) | ((color & 0xFF) << 16) | (((color >> 8) & 0xFF) << 8)
            | ((color >> 16) & 0xFF);
        assert(((key >> (8 * 0u32)) & 0xFF) == ((color >> (8 * 2u32)) & 0xFF) && ((key >> (8 * 1u32))
            & 0xFF) == ((color >> (8 * 1u32)) & 0xFF) && ((key >> (8 * 2u32)) & 0xFF) == ((color >> (8
            * 0u32)) & 0xFF) && ((key >> (8 * 3u32)) & 0xFF) == ((color >> (8 * 3u32)) & 0xFF))
            by (bit_vector)
            requires
                key == (color & 0xFF00_0000) | ((color & 0xFF) << 16) | (((color >> 8) & 0xFF) << 8) | (
                (color >> 16) & 0xFF),
        ;
        key
    }

    /// Prepares the window for a colour key: marks it layered and
    /// click-through. The key itself is [`WindowStyle::color_key`] of the
    /// colour; the bits do not depend on it.
    pub fn set_transcolor(&mut self, color: u32) -> (edited: &mut Self)
        ensures
            edited.flags() == old(self).flags(),
            edited.extended_flags() == old(self).extended_flags() | (WS_EX_LAYERED
                | WS_EX_TRANSPARENT),
            edited.target() == old(self).target(),
            edited.top_request() == old(self).top_request(),
            *final(self) == *final(edited),
    {
        let ghost before = self.style_flags;
        self.set_style(0, WS_EX_LAYERED | WS_EX_TRANSPARENT);
        assert(before | 0 == before) by (bit_vector);
        self
    }

    /// Shows or hides the title bar.
    pub fn set_caption(&mut self, show_caption: bool) -> (edited: &mut Self)
        ensures
            edited.flags() == if show_caption {
                old(self).flags() | WS_CAPTION
            } else {
                old(self).flags() & !WS_CAPTION
            },
            edited.extended_flags() == old(self).extended_flags(),
            edited.target() == old(self).target(),
            edited.top_request() == old(self).top_request(),
            *final(self) == *final(edited),
    {
        let ghost before = self.extended_style_flags;
        if show_caption {
            self.set_style(WS_CAPTION, 0);
            assert(before | 0 == before) by (bit_vector);
        } else {
            self.remove_style(WS_CAPTION, 0);
            assert(before & !0u32 == before) by (bit_vector);
        }
        self
    }

    /// Makes the window stay on top, or lets it go: sets or clears the
    /// topmost bit and remembers what was asked, so that writing the style
    /// back raises the window or puts it back among the others.
    pub fn set_always_on_top(&mut self, always_on_top: bool) -> (edited: &mut Self)
        ensures
            edited.extended_flags() == if always_on_top {
                old(self).extended_flags() | WS_EX_TOPMOST
            } else {
                old(self).extended_flags() & !WS_EX_TOPMOST
            },
            edited.flags() == old(self).flags(),
            edited.target() == old(self).target(),
            edited.top_request() == Some(always_on_top),
            *final(self) == *final(edited),
    {
        let ghost before = self.style_flags;
        self.always_on_top = Some(always_on_top);
        if always_on_top {
            self.set_style(0, WS_EX_TOPMOST);
            assert(before | 0 == before) by (bit_vector);
        } else {
            self.remove_style(0, WS_EX_TOPMOST);
            assert(before & !0u32 == before) by (bit_vector);
        }
        self
    }
}

/// Bits that were set read back as set, and the other bits read as before.
pub proof fn lemma_set_then_read(bits: u32, flags: u32)
    ensures
        has_all(bits | flags, flags),
        forall|other: u32| has_none(flags, other) ==> #[trigger] ((bits | flags) & other) == bits & other,
{
    assert((bits | flags) & flags == flags) by (bit_vector);
    assert forall|other: u32| has_none(flags, other) implies #[trigger] ((bits | flags) & other) == bits
        & other by {
        assert(flags & other == 0 ==> ((bits | flags) & other) == bits & other) by (bit_vector);
    }
}

/// Bits that were cleared read back as absent, and the other bits read as before.
pub proof fn lemma_remove_then_read(bits: u32, flags: u32)
    ensures
        has_none(bits & !flags, flags),
        forall|other: u32|
            has_none(flags, other) ==> #[trigger] ((bits & !flags) & other) == bits & other,
{
    assert((bits & !flags) & flags == 0) by (bit_vector);
    assert forall|other: u32| has_none(flags, other) implies #[trigger] ((bits & !flags) & other) == bits
        & other by {
        assert(flags & other == 0 ==> ((bits & !flags) & other) == bits & other) by (bit_vector);
    }
}

/// A flag that is set and then removed is absent; one that is removed and
/// then set is present.
pub proof fn lemma_last_change_wins(bits: u32, flags: u32)
    ensures
        has_none((bits | flags) & !flags, flags),
        has_all((bits & !flags) | flags, flags),
{
    assert(((bits | flags) & !flags) & flags == 0) by (bit_vector);
    assert(((bits & !flags) | flags) & flags == flags) by (bit_vector);
}

} // verus!
