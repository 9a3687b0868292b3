//! The unread-count badge: what each platform is told for a given count, and
//! the overlay icon drawn for it on Windows.
use vstd::prelude::*;
use crate::launch::Platform;
use crate::text::{i32_to_decimal, signed_decimal};

verus! {

/// Side of the square overlay icon, in pixels.
pub const ICON_SIZE: i32 = 32;

/// Counts above this are shown as "99+".
pub const MAX_SHOWN_COUNT: i32 = 99;

/// Font height for a count shown in full.
pub const FONT_SIZE_FULL: i32 = 20;

/// Font height for "99+".
pub const FONT_SIZE_CAPPED: i32 = 14;

/// Weight of the count's font (bold).
pub const FONT_WEIGHT: i32 = 700;

/// Colour of the icon's disc, as a Windows COLORREF (0x00BBGGRR): red.
pub const BACKGROUND_COLOUR: u32 = 0x0000_00FF;

/// Colour of the count, as a Windows COLORREF (0x00BBGGRR): white.
pub const TEXT_COLOUR: u32 = 0x00FF_FFFF;

/// A rectangle of the icon, in pixels from its top-left corner; `right` and
/// `bottom` are exclusive.
#[derive(Clone, Copy, Debug, PartialEq, Eq, Structural)]
pub struct IconRect {
    pub left: i32,
    pub top: i32,
    pub right: i32,
    pub bottom: i32,
}

/// The whole square of the icon.
pub open spec fn full_square() -> IconRect {
    IconRect { left: 0, top: 0, right: ICON_SIZE, bottom: ICON_SIZE }
}

/// The overlay icon drawn for a count on Windows: a red disc filling the
/// square with the count written in white in its centre.
#[derive(Clone, Debug)]
pub struct CountIcon {
    /// Side of the square icon, in pixels.
    pub size: i32,
    /// The box the disc is inscribed in.
    pub disc: IconRect,
    /// The box the text is laid out in.
    pub text_box: IconRect,
    /// The text is centred horizontally and vertically, on a single line.
    pub centred_single_line: bool,
    /// The text written on the disc.
    pub text: String,
    /// Font height of the text.
    pub font_size: i32,
    /// Font weight of the text.
    pub font_weight: i32,
    /// Font family of the text.
    pub font_face: String,
    /// Colour of the disc.
    pub background: u32,
    /// Colour of the text.
    pub foreground: u32,
    /// The one-bit transparency mask, one bit per pixel, every pixel opaque.
    pub mask: Vec<u8>,
}

/// What the platform is told about a new unread count.
#[derive(Clone, Debug)]
pub enum BadgeUpdate {
    /// Set the application badge to this number, or remove it.
    Count(Option<i64>),
    /// Remove the taskbar overlay icon.
    ClearOverlay,
    /// Put this icon over the taskbar button.
    Overlay(CountIcon),
}

/// The text shown for `count`: "99+" above 99, its decimal notation otherwise.
pub open spec fn spec_badge_text(count: i32) -> Seq<char> {
    if count > MAX_SHOWN_COUNT {
        "99+"@
    } else {
        signed_decimal(count as int)
    }
}

/// The text shown on the overlay icon for `count`.
pub fn badge_text(count: i32) -> (t: String)
    ensures
        t@ == spec_badge_text(count),
{
    if count > MAX_SHOWN_COUNT {
        String::from_str("99+")
    } else {
        i32_to_decimal(count)
    }
}

/// Number of bytes in the overlay's transparency mask: one bit per pixel.
pub open spec fn mask_len() -> int {
    ICON_SIZE * ICON_SIZE / 8
}

/// The overlay's transparency mask, every pixel opaque.
pub fn opaque_mask() -> (m: Vec<u8>)
    ensures
        m@.len() == mask_len(),
        forall|i: int| 0 <= i < m@.len() ==> m@[i] == 0xFFu8,
{
    let n: usize = ((ICON_SIZE * ICON_SIZE) / 8) as usize;
    let mut m: Vec<u8> = Vec::new();
    let mut i: usize = 0;
    while i < n
        invariant
            n == mask_len(),
            i <= n,
            m@.len() == i,
            forall|j: int| 0 <= j < m@.len() ==> m@[j] == 0xFFu8,
        decreases n - i,
    {
        m.push(0xFFu8);
        i = i + 1;
    }
    m
}

/// The overlay icon for `count`, whose font is smaller when the count is
/// capped at "99+".
pub fn count_icon(count: i32) -> (icon: CountIcon)
    ensures
        icon.size == ICON_SIZE,
        icon.disc == full_square(),
        icon.text_box == full_square(),
        icon.centred_single_line,
        icon.text@ == spec_badge_text(count),
        icon.font_size == if count > MAX_SHOWN_COUNT {
            FONT_SIZE_CAPPED
        } else {
            FONT_SIZE_FULL
        },
        icon.font_weight == FONT_WEIGHT,
        icon.font_face@ == "Segoe UI"@,
        icon.background == BACKGROUND_COLOUR,
        icon.foreground == TEXT_COLOUR,
        icon.mask@.len() == mask_len(),
        forall|i: int| 0 <= i < icon.mask@.len() ==> icon.mask@[i] == 0xFFu8,
{
    let font_size: i32 = if count > MAX_SHOWN_COUNT {
        FONT_SIZE_CAPPED
    } else {
        FONT_SIZE_FULL
    };
    let square = IconRect { left: 0, top: 0, right: ICON_SIZE, bottom: ICON_SIZE };
    CountIcon {
        size: ICON_SIZE,
        disc: square,
        text_box: square,
        centred_single_line: true,
        text: badge_text(count),
        font_size,
        font_weight: FONT_WEIGHT,
        font_face: String::from_str("Segoe UI"),
        background: BACKGROUND_COLOUR,
        foreground: TEXT_COLOUR,
        mask: opaque_mask(),
    }
}

/// The badge number on platforms other than Windows and macOS: the count when
/// it is positive, no badge otherwise.
pub open spec fn spec_other_badge(count: i32) -> Option<i64> {
    if count > 0 {
        Some(count as i64)
    } else {
        None
    }
}

/// What the platform is told when the unread count becomes `count`. macOS
/// always gets the number; Windows gets its overlay removed for zero and an
/// icon for any other count; elsewhere the badge shows positive counts only.
pub fn badge_update(count: i32, platform: Platform) -> (u: BadgeUpdate)
    ensures
        platform == Platform::MacOs ==> u == BadgeUpdate::Count(Some(count as i64)),
        platform == Platform::Other ==> u == BadgeUpdate::Count(spec_other_badge(count)),
        platform == Platform::Windows && count == 0 ==> u == BadgeUpdate::ClearOverlay,
        platform == Platform::Windows && count != 0 ==> match u {
            BadgeUpdate::Overlay(icon) => {
                &&& icon.text@ == spec_badge_text(count)
                &&& icon.size == ICON_SIZE
                &&& icon.disc == full_square()
                &&& icon.text_box == full_square()
                &&& icon.centred_single_line
                &&& icon.font_size == if count > MAX_SHOWN_COUNT {
                    FONT_SIZE_CAPPED
                } else {
                    FONT_SIZE_FULL
                }
                &&& icon.font_weight == FONT_WEIGHT
                &&& icon.font_face@ == "Segoe UI"@
                &&& icon.background == BACKGROUND_COLOUR
                &&& icon.foreground == TEXT_COLOUR
                &&& icon.mask@.len() == mask_len()
                &&& forall|i: int| 0 <= i < icon.mask@.len() ==> icon.mask@[i] == 0xFFu8
            },
            _ => false,
        },
{
    match platform {
        Platform::MacOs => BadgeUpdate::Count(Some(count as i64)),
        Platform::Windows => {
            if count == 0 {
                BadgeUpdate::ClearOverlay
            } else {
                BadgeUpdate::Overlay(count_icon(count))
            }
        },
        Platform::Other => {
            if count > 0 {
                BadgeUpdate::Count(Some(count as i64))
            } else {
                BadgeUpdate::Count(None)
            }
        },
    }
}

} // verus!
