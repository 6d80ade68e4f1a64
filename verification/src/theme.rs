//! Semantic color tokens for the whole window.
//!
//! Fields are named for what a color means, never for what it looks like: a
//! second theme is then a second set of values, not a second set of decisions
//! about which shade of red a rejected upload should be. A color solid enough
//! to sit behind white button text is too dark to read as text on the dark
//! panel, so the loud roles come in pairs, a fill and a text strength.

use vstd::prelude::*;

verus! {

/// A color as its four channels.
#[derive(Clone, Copy, Debug, PartialEq, Eq, Structural)]
pub struct Color {
    pub r: u8,
    pub g: u8,
    pub b: u8,
    pub a: u8,
}

impl Color {
    /// An opaque color.
    pub open spec fn opaque(r: u8, g: u8, b: u8) -> Color {
        Color { r, g, b, a: 255 }
    }

    /// An opaque color.
    pub fn rgb(r: u8, g: u8, b: u8) -> (c: Color)
        ensures
            c == Color::opaque(r, g, b),
    {
        Color { r, g, b, a: 255 }
    }

    /// An opaque gray.
    pub fn gray(l: u8) -> (c: Color)
        ensures
            c == Color::opaque(l, l, l),
    {
        Color { r: l, g: l, b: l, a: 255 }
    }
}

/// The semantic palette.
#[derive(Clone, Copy, Debug, PartialEq, Eq, Structural)]
pub struct Theme {
    /// Fill behind primary actions. Expects `on_accent` text on top.
    pub accent: Color,
    /// Hover state of `accent`.
    pub accent_hover: Color,
    /// Accent-tinted text on a dark surface.
    pub accent_text: Color,
    /// Outline of the focused widget.
    pub accent_border: Color,
    /// Marks something that is live.
    pub info: Color,
    /// The fill of a selected row.
    pub selection: Color,
    /// Destructive or failed. Fill strength.
    pub danger: Color,
    /// The same meaning as text on a dark surface.
    pub danger_text: Color,
    /// Tinted background for a danger banner.
    pub danger_surface: Color,
    /// Risky but not yet broken.
    pub warning: Color,
    /// The same meaning as text on a dark surface.
    pub warning_text: Color,
    /// Tinted background for a warning banner.
    pub warning_surface: Color,
    /// An account under Roblox moderation.
    pub moderated: Color,
    /// Completed successfully. Fill strength.
    pub success: Color,
    /// The same meaning as text on a dark surface.
    pub success_text: Color,
    pub presence_online: Color,
    pub presence_in_game: Color,
    pub presence_in_studio: Color,
    pub presence_offline: Color,
    /// Placeholder blocks.
    pub surface: Color,
    /// A neutral button that must not read as the primary action.
    pub surface_raised: Color,
    /// Floating chrome drawn over the window.
    pub overlay: Color,
    /// Secondary text.
    pub text_muted: Color,
    /// Text that recedes further still.
    pub text_faint: Color,
    /// Text drawn on top of a saturated fill.
    pub on_accent: Color,
    /// Border on a resting input or button.
    pub widget_border: Color,
    /// The same on hover.
    pub widget_border_hover: Color,
    /// Insertion line while reordering.
    pub drop_reorder: Color,
}

impl Theme {
    /// The values of the one built-in theme.
    pub open spec fn dark_palette() -> Theme {
        Theme {
            accent: Color::opaque(60, 130, 220),
            accent_hover: Color::opaque(80, 150, 240),
            accent_text: Color::opaque(130, 180, 255),
            accent_border: Color::opaque(110, 170, 230),
            info: Color::opaque(30, 144, 255),
            selection: Color::opaque(0, 92, 128),
            danger: Color::opaque(200, 60, 60),
            danger_text: Color::opaque(255, 110, 110),
            danger_surface: Color::opaque(80, 30, 30),
            warning: Color::opaque(220, 160, 40),
            warning_text: Color::opaque(240, 180, 80),
            warning_surface: Color::opaque(70, 50, 20),
            moderated: Color::opaque(230, 130, 40),
            success: Color::opaque(60, 180, 75),
            success_text: Color::opaque(130, 200, 130),
            presence_online: Color::opaque(60, 180, 75),
            presence_in_game: Color::opaque(30, 144, 255),
            presence_in_studio: Color::opaque(255, 165, 0),
            presence_offline: Color::opaque(130, 130, 130),
            surface: Color::opaque(60, 60, 70),
            surface_raised: Color::opaque(70, 70, 90),
            overlay: Color::opaque(60, 60, 60),
            text_muted: Color::opaque(180, 180, 180),
            text_faint: Color::opaque(160, 160, 170),
            on_accent: Color::opaque(255, 255, 255),
            widget_border: Color::opaque(80, 80, 80),
            widget_border_hover: Color::opaque(140, 140, 140),
            drop_reorder: Color::opaque(255, 200, 80),
        }
    }

    /// The one built-in theme.
    pub fn dark() -> (t: Theme)
        ensures
            t == Theme::dark_palette(),
    {
        Theme {
            accent: Color::rgb(60, 130, 220),
            accent_hover: Color::rgb(80, 150, 240),
            accent_text: Color::rgb(130, 180, 255),
            accent_border: Color::rgb(110, 170, 230),
            info: Color::rgb(30, 144, 255),
            selection: Color::rgb(0, 92, 128),
            danger: Color::rgb(200, 60, 60),
            danger_text: Color::rgb(255, 110, 110),
            danger_surface: Color::rgb(80, 30, 30),
            warning: Color::rgb(220, 160, 40),
            warning_text: Color::rgb(240, 180, 80),
            warning_surface: Color::rgb(70, 50, 20),
            moderated: Color::rgb(230, 130, 40),
            success: Color::rgb(60, 180, 75),
            success_text: Color::rgb(130, 200, 130),
            presence_online: Color::rgb(60, 180, 75),
            presence_in_game: Color::rgb(30, 144, 255),
            presence_in_studio: Color::rgb(255, 165, 0),
            presence_offline: Color::rgb(130, 130, 130),
            surface: Color::rgb(60, 60, 70),
            surface_raised: Color::rgb(70, 70, 90),
            overlay: Color::rgb(60, 60, 60),
            text_muted: Color::rgb(180, 180, 180),
            text_faint: Color::rgb(160, 160, 170),
            on_accent: Color::rgb(255, 255, 255),
            widget_border: Color::gray(80),
            widget_border_hover: Color::gray(140),
            drop_reorder: Color::rgb(255, 200, 80),
        }
    }

    /// The color of a Roblox presence type. A type that is not known reads as
    /// offline.
    pub open spec fn presence_color(self, presence_type: u8) -> Color {
        if presence_type == 1 {
            self.presence_online
        } else if presence_type == 2 {
            self.presence_in_game
        } else if presence_type == 3 {
            self.presence_in_studio
        } else {
            self.presence_offline
        }
    }

    /// The color of a Roblox presence type.
    pub fn presence(&self, presence_type: u8) -> (c: Color)
        ensures
            c == self.presence_color(presence_type),
    {
        match presence_type {
            1 => self.presence_online,
            2 => self.presence_in_game,
            3 => self.presence_in_studio,
            _ => self.presence_offline,
        }
    }

    /// A translucent wash of `color`: the same channels with another alpha.
    pub fn wash(color: Color, alpha: u8) -> (c: Color)
        ensures
            c == (Color { a: alpha, ..color }),
    {
        Color { r: color.r, g: color.g, b: color.b, a: alpha }
    }
}

impl Default for Theme {
    fn default() -> (t: Theme)
        ensures
            t == Theme::dark_palette(),
    {
        Theme::dark()
    }
}

} // verus!
