use panel_core::color::Rgba;
use panel_core::element::PanelRenderElement;
use panel_core::geometry::{Extent, Loc, Rect};
use panel_core::mapped::{CosmicMappedInternal, OverflowButtonElement, Padding, PanelWindow, ToplevelContent};
use panel_core::overflow::ProtocolReply;
use panel_core::panel::{
    OverflowMenuBuffer, PanelConfig, PanelError, PanelSpace, PanelVisibility, SurfaceId,
};
use panel_core::render::{FrameReport, GfxProbe, MainPass};

fn config(border_radius: u32, anchor_gap: bool) -> PanelConfig {
    PanelConfig {
        anchor_gap,
        border_radius,
        bg_color: Rgba { r: 30, g: 30, b: 30, a: 128 },
    }
}

fn window(id: u64, loc: Loc, size: Extent) -> CosmicMappedInternal {
    CosmicMappedInternal::Window(PanelWindow {
        id,
        loc,
        toplevel: Some(ToplevelContent { buffer: size, commit: 0, negotiated: Some(size) }),
    })
}

fn gfx_ok() -> GfxProbe {
    GfxProbe { ok: true, buffer_age: 0 }
}

fn render_ok(panel: &mut PanelSpace) -> FrameReport {
    panel.render(0, gfx_ok()).unwrap()
}

#[test]
fn visible_panel_presents_one_element_per_mapped_window() {
    // Panel 300x40 physical, one window fully negotiated at 280x36 with a
    // native 280x36 buffer: exactly one surface element, no crop, no
    // background (flat config), one swap, flags dropped.
    let mut panel = PanelSpace::new(config(0, false), Extent::new(300, 40), 1);
    panel.map_element(window(1, Loc::new(10, 2), Extent::new(280, 36)));
    panel.mark_dirty(SurfaceId::MainSurface);
    panel.on_frame_done(SurfaceId::MainSurface);
    let report = render_ok(&mut panel);
    match report.main {
        MainPass::Presented { elements, clear_color, damage, notified, timestamp } => {
            assert_eq!(timestamp, 0);
            assert_eq!(elements.len(), 1);
            assert_eq!(elements[0].src().size, Extent::new(280, 36));
            assert_eq!(elements[0].geometry(), Rect::new(Loc::new(10, 2), Extent::new(280, 36)));
            // Pre-multiplied clear color: 30 * 128 / 255 == 15.
            assert_eq!(clear_color, Rgba { r: 15, g: 15, b: 15, a: 128 });
            // The fresh tracker damages the whole panel rectangle.
            assert_eq!(damage, vec![Rect::new(Loc::new(0, 0), Extent::new(300, 40))]);
            assert_eq!(notified, vec![1]);
        },
        other => panic!("expected a presentation, got {:?}", other),
    }
    assert!(report.popups_presented.is_empty());
    assert!(!panel.is_dirty);
    assert!(!panel.has_frame);
}

#[test]
fn background_element_appears_only_for_rounded_or_gapped_config() {
    let mut panel = PanelSpace::new(config(8, false), Extent::new(300, 40), 1);
    panel.map_element(window(1, Loc::new(10, 2), Extent::new(280, 36)));
    panel.mark_panel_changed();
    panel.mark_dirty(SurfaceId::MainSurface);
    panel.on_frame_done(SurfaceId::MainSurface);
    let report = render_ok(&mut panel);
    match report.main {
        MainPass::Presented { elements, .. } => {
            assert_eq!(elements.len(), 2);
            assert!(matches!(elements[0], PanelRenderElement::RoundedRectangle { .. }));
            assert_eq!(elements[0].geometry(), Rect::new(Loc::new(0, 0), Extent::new(300, 40)));
            assert!(matches!(elements[1], PanelRenderElement::Wayland { .. }));
        },
        other => panic!("expected a presentation, got {:?}", other),
    }
}

#[test]
fn windows_without_negotiated_content_are_excluded() {
    let mut panel = PanelSpace::new(config(0, false), Extent::new(300, 40), 1);
    panel.map_element(CosmicMappedInternal::Window(PanelWindow {
        id: 1,
        loc: Loc::new(0, 0),
        toplevel: None,
    }));
    panel.map_element(window(2, Loc::new(40, 2), Extent::new(100, 36)));
    let padding = Padding { top: 0, right: 0, bottom: 0, left: 0 };
    panel.map_element(CosmicMappedInternal::OverflowButton(OverflowButtonElement::new(
        3,
        Loc::new(260, 8),
        24,
        padding,
        false,
    )));
    panel.mark_dirty(SurfaceId::MainSurface);
    panel.on_frame_done(SurfaceId::MainSurface);
    let report = render_ok(&mut panel);
    match report.main {
        MainPass::Presented { elements, notified, .. } => {
            // The unmapped window and the button contribute nothing.
            assert_eq!(elements.len(), 1);
            assert_eq!(elements[0].id(), 2);
            // Both windows are notified; the button is not.
            assert_eq!(notified, vec![1, 2]);
        },
        other => panic!("expected a presentation, got {:?}", other),
    }
}

#[test]
fn hidden_panel_takes_fast_clear_path() {
    // Hidden 300x40: fast clear only — no element assembly, the tracker
    // is reset, one swap, flags dropped.
    let mut panel = PanelSpace::new(config(0, false), Extent::new(300, 40), 1);
    panel.map_element(window(1, Loc::new(10, 2), Extent::new(280, 36)));
    panel.set_visibility(PanelVisibility::Hidden);
    panel.mark_dirty(SurfaceId::MainSurface);
    panel.on_frame_done(SurfaceId::MainSurface);
    let report = render_ok(&mut panel);
    assert!(matches!(report.main, MainPass::FastCleared));
    assert!(report.popups_presented.is_empty());
    assert!(panel.tracker.full);
    assert!(!panel.is_dirty);
    assert!(!panel.has_frame);
}

#[test]
fn undersized_panel_skips_the_whole_pass() {
    // 10x10 is below the 20-pixel threshold: no swap, no state mutation.
    let mut panel = PanelSpace::new(config(0, false), Extent::new(10, 10), 1);
    panel.mark_dirty(SurfaceId::MainSurface);
    panel.on_frame_done(SurfaceId::MainSurface);
    let report = render_ok(&mut panel);
    assert!(matches!(report.main, MainPass::SkippedBelowThreshold));
    assert!(report.popups_presented.is_empty());
    assert!(panel.is_dirty);
    assert!(panel.has_frame);
}

#[test]
fn hidden_then_visible_repaints_the_full_panel() {
    // A presentation leaves partial damage tracking; hiding and showing
    // the panel resets it, and the next presentation repaints everything.
    let mut panel = PanelSpace::new(config(0, false), Extent::new(300, 40), 1);
    panel.map_element(window(1, Loc::new(10, 2), Extent::new(280, 36)));
    panel.mark_dirty(SurfaceId::MainSurface);
    panel.on_frame_done(SurfaceId::MainSurface);
    render_ok(&mut panel);
    assert!(!panel.tracker.full);
    panel.set_visibility(PanelVisibility::Hidden);
    panel.set_visibility(PanelVisibility::Visible);
    assert!(panel.tracker.full);
    panel.mark_dirty(SurfaceId::MainSurface);
    panel.on_frame_done(SurfaceId::MainSurface);
    let report = panel.render(0, GfxProbe { ok: true, buffer_age: 1 }).unwrap();
    match report.main {
        MainPass::Presented { damage, .. } => {
            assert_eq!(damage, vec![Rect::new(Loc::new(0, 0), Extent::new(300, 40))]);
        },
        other => panic!("expected a presentation, got {:?}", other),
    }
}

#[test]
fn unchanged_frame_produces_no_damage() {
    let mut panel = PanelSpace::new(config(0, false), Extent::new(300, 40), 1);
    panel.map_element(window(1, Loc::new(10, 2), Extent::new(280, 36)));
    panel.mark_dirty(SurfaceId::MainSurface);
    panel.on_frame_done(SurfaceId::MainSurface);
    render_ok(&mut panel);
    panel.mark_dirty(SurfaceId::MainSurface);
    panel.on_frame_done(SurfaceId::MainSurface);
    // Same elements, back buffer one frame old: nothing to repaint.
    let report = panel.render(0, GfxProbe { ok: true, buffer_age: 1 }).unwrap();
    match report.main {
        MainPass::Presented { damage, .. } => assert!(damage.is_empty()),
        other => panic!("expected a presentation, got {:?}", other),
    }
}

#[test]
fn graphics_failure_abandons_frame_and_keeps_flags() {
    let mut panel = PanelSpace::new(config(0, false), Extent::new(300, 40), 1);
    panel.mark_dirty(SurfaceId::MainSurface);
    panel.on_frame_done(SurfaceId::MainSurface);
    let r = panel.render(0, GfxProbe { ok: false, buffer_age: 0 });
    assert!(matches!(r, Err(PanelError::Graphics)));
    assert!(panel.is_dirty);
    assert!(panel.has_frame);
}

#[test]
fn clean_main_surface_is_skipped() {
    let mut panel = PanelSpace::new(config(0, false), Extent::new(300, 40), 1);
    let report = render_ok(&mut panel);
    assert!(matches!(report.main, MainPass::SkippedClean));
    assert!(report.popups_presented.is_empty());
}

#[test]
fn eligible_popup_is_presented_and_its_flags_drop() {
    let mut panel = PanelSpace::new(config(0, false), Extent::new(300, 40), 1);
    let padding = Padding { top: 0, right: 0, bottom: 0, left: 0 };
    panel.map_element(CosmicMappedInternal::OverflowButton(OverflowButtonElement::new(
        1,
        Loc::new(260, 8),
        24,
        padding,
        false,
    )));
    panel.toggle_overflow_popup(1, ProtocolReply::Granted { surface_id: 7 }).unwrap();
    panel.on_configure(7, Rect::new(Loc::new(0, 0), Extent::new(200, 150)));
    panel.set_popup_binding(7, true);
    panel.on_popup_commit(7, 3);
    panel.on_frame_done(SurfaceId::PopupSurface(7));
    let report = render_ok(&mut panel);
    assert!(matches!(report.main, MainPass::SkippedClean));
    assert_eq!(report.popups_presented, vec![7]);
    assert!(!panel.popups[0].dirty);
    assert!(!panel.popups[0].has_frame_callback);
    assert!(!panel.popups[0].tracker.full);
}

#[test]
fn cached_overflow_image_is_appended_last() {
    let mut panel = PanelSpace::new(config(0, false), Extent::new(300, 40), 1);
    panel.map_element(window(1, Loc::new(10, 2), Extent::new(100, 36)));
    let geometry = Rect::new(Loc::new(200, 0), Extent::new(80, 40));
    panel.set_overflow_menu_buffer(Some(OverflowMenuBuffer { id: 50, commit: 2, geometry }));
    panel.mark_dirty(SurfaceId::MainSurface);
    panel.on_frame_done(SurfaceId::MainSurface);
    let report = render_ok(&mut panel);
    match report.main {
        MainPass::Presented { elements, .. } => {
            assert_eq!(elements.len(), 2);
            assert!(matches!(elements[1], PanelRenderElement::OverflowMenu { .. }));
            assert_eq!(elements[1].id(), 50);
            assert_eq!(elements[1].current_commit(), 2);
            assert_eq!(elements[1].geometry(), geometry);
            assert_eq!(elements[1].src(), Rect::new(Loc::new(0, 0), Extent::new(80, 40)));
        },
        other => panic!("expected a presentation, got {:?}", other),
    }
}

#[test]
fn ineligible_popup_is_silently_skipped() {
    let mut panel = PanelSpace::new(config(0, false), Extent::new(300, 40), 1);
    let padding = Padding { top: 0, right: 0, bottom: 0, left: 0 };
    panel.map_element(CosmicMappedInternal::OverflowButton(OverflowButtonElement::new(
        1,
        Loc::new(260, 8),
        24,
        padding,
        false,
    )));
    panel.toggle_overflow_popup(1, ProtocolReply::Granted { surface_id: 7 }).unwrap();
    // Still waiting for its configure: not rendered, no error.
    panel.on_popup_commit(7, 1);
    panel.on_frame_done(SurfaceId::PopupSurface(7));
    let report = render_ok(&mut panel);
    assert!(report.popups_presented.is_empty());
    assert!(panel.popups[0].dirty);
}
