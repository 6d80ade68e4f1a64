//! The palette.

use eframe::egui;
use ram_ui::theme::{Color, Theme};

/// Several primary buttons take their fill from the selection color of the
/// toolkit, so the two must be the same.
#[test]
fn the_selection_token_matches_eguis_dark_default() {
    let ours = Theme::dark().selection;
    assert_eq!(
        egui::Color32::from_rgba_premultiplied(ours.r, ours.g, ours.b, ours.a),
        egui::Visuals::dark().selection.bg_fill
    );
}

#[test]
fn presence_covers_every_roblox_presence_type() {
    let t = Theme::dark();
    assert_eq!(t.presence(1), t.presence_online);
    assert_eq!(t.presence(2), t.presence_in_game);
    assert_eq!(t.presence(3), t.presence_in_studio);
    assert_eq!(t.presence(0), t.presence_offline);
    // Anything unknown must read as offline rather than render transparent.
    assert_eq!(t.presence(4), t.presence_offline);
    assert_eq!(t.presence(255), t.presence_offline);
}

#[test]
fn wash_keeps_the_hue_and_only_lowers_the_alpha() {
    let base = Color::rgb(255, 200, 80);
    let w = Theme::wash(base, 40);
    assert_eq!((w.r, w.g, w.b, w.a), (255, 200, 80, 40));
}

#[test]
fn the_default_theme_is_the_dark_one() {
    assert_eq!(Theme::default(), Theme::dark());
    assert_eq!(Theme::dark().danger, Color { r: 200, g: 60, b: 60, a: 255 });
    assert_eq!(Theme::dark().widget_border, Color::gray(80));
}
