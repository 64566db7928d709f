use panel_core::color::Rgba;
use panel_core::geometry::{Extent, Loc, Rect};
use panel_core::mapped::{
    CosmicMappedInternal, OverflowButtonElement, Padding, PanelWindow, ToplevelContent,
};
use panel_core::overflow::{OverflowToggle, ProtocolReply};
use panel_core::panel::{PanelConfig, PanelError, PanelSpace, SurfaceId};
use panel_core::popup::PopupState;

fn config() -> PanelConfig {
    PanelConfig {
        anchor_gap: false,
        border_radius: 0,
        bg_color: Rgba { r: 0, g: 0, b: 0, a: 255 },
    }
}

fn panel_with_button(button_id: u64) -> PanelSpace {
    let mut panel = PanelSpace::new(config(), Extent::new(300, 40), 1);
    let padding = Padding { top: 0, right: 0, bottom: 0, left: 0 };
    let button = OverflowButtonElement::new(button_id, Loc::new(260, 8), 24, padding, false);
    panel.map_element(CosmicMappedInternal::OverflowButton(button));
    panel
}

#[test]
fn toggle_once_yields_one_wait_configure_record() {
    let mut panel = panel_with_button(1);
    let r = panel.toggle_overflow_popup(1, ProtocolReply::Granted { surface_id: 7 });
    match r {
        Ok(OverflowToggle::Opened { popup_id, anchor }) => {
            assert_eq!(popup_id, 7);
            // The anchor is the button's icon bounding box.
            assert_eq!(anchor, Rect::new(Loc::new(260, 8), Extent::new(24, 24)));
        },
        other => panic!("expected an open, got {:?}", other),
    }
    assert_eq!(panel.popups.len(), 1);
    assert!(matches!(panel.popups[0].state, PopupState::WaitConfigure));
    assert_eq!(panel.popups[0].id, 7);
    assert!(!panel.popups[0].dirty);
    assert!(panel.popups[0].has_frame_callback);
    assert!(!panel.popups[0].has_binding);
    assert!(panel.popups[0].s_alive && panel.popups[0].c_alive);
    assert!(!panel.popups[0].eligible());
}

#[test]
fn configure_moves_popup_to_configured_and_gates_eligibility() {
    let mut panel = panel_with_button(1);
    panel.toggle_overflow_popup(1, ProtocolReply::Granted { surface_id: 7 }).unwrap();
    let rect = Rect::new(Loc::new(0, 0), Extent::new(200, 150));
    panel.on_configure(7, rect);
    assert!(matches!(panel.popups[0].state, PopupState::Configured));
    assert_eq!(panel.popups[0].rect, rect);
    assert!(panel.popups[0].tracker.full);
    // Configured but not yet dirty, bound, or owed a frame: not eligible.
    assert!(!panel.popups[0].eligible());
    panel.set_popup_binding(7, true);
    panel.mark_dirty(SurfaceId::PopupSurface(7));
    panel.on_frame_done(SurfaceId::PopupSurface(7));
    assert!(panel.popups[0].eligible());
}

#[test]
fn toggle_twice_returns_to_popupless_state() {
    let mut panel = panel_with_button(1);
    panel.toggle_overflow_popup(1, ProtocolReply::Granted { surface_id: 7 }).unwrap();
    assert_eq!(panel.popups.len(), 1);
    let r = panel.toggle_overflow_popup(1, ProtocolReply::Granted { surface_id: 8 });
    match r {
        Ok(OverflowToggle::Closed { popup_id }) => assert_eq!(popup_id, 7),
        other => panic!("expected a close, got {:?}", other),
    }
    assert_eq!(panel.popups.len(), 0);
}

#[test]
fn refused_open_leaves_no_record() {
    let mut panel = panel_with_button(1);
    let r = panel.toggle_overflow_popup(1, ProtocolReply::Refused);
    assert_eq!(r, Err(PanelError::ProtocolDenied));
    assert_eq!(panel.popups.len(), 0);
}

#[test]
fn unknown_origin_aborts_the_open() {
    let mut panel = panel_with_button(1);
    let r = panel.toggle_overflow_popup(99, ProtocolReply::Granted { surface_id: 7 });
    assert_eq!(r, Err(PanelError::OriginNotTracked));
    assert_eq!(panel.popups.len(), 0);
}

#[test]
fn configure_for_unknown_popup_is_ignored() {
    let mut panel = panel_with_button(1);
    panel.toggle_overflow_popup(1, ProtocolReply::Granted { surface_id: 7 }).unwrap();
    panel.on_configure(12, Rect::new(Loc::new(0, 0), Extent::new(10, 10)));
    assert!(matches!(panel.popups[0].state, PopupState::WaitConfigure));
}

#[test]
fn close_popup_removes_only_the_addressed_record() {
    let mut panel = panel_with_button(1);
    panel.toggle_overflow_popup(1, ProtocolReply::Granted { surface_id: 7 }).unwrap();
    panel.close_popup(99);
    assert_eq!(panel.popups.len(), 1);
    panel.close_popup(7);
    assert_eq!(panel.popups.len(), 0);
}

#[test]
fn liveness_loss_marks_the_record() {
    let mut panel = panel_with_button(1);
    panel.toggle_overflow_popup(1, ProtocolReply::Granted { surface_id: 7 }).unwrap();
    panel.set_popup_liveness(7, false, true);
    assert!(!panel.popups[0].s_alive);
    assert!(panel.popups[0].c_alive);
    // A dead popup can never become eligible.
    panel.on_configure(7, Rect::new(Loc::new(0, 0), Extent::new(10, 10)));
    panel.set_popup_binding(7, true);
    panel.mark_dirty(SurfaceId::PopupSurface(7));
    panel.on_frame_done(SurfaceId::PopupSurface(7));
    assert!(!panel.popups[0].eligible());
}

#[test]
fn popup_commit_marks_damage_and_advances_commit() {
    let mut panel = panel_with_button(1);
    panel.toggle_overflow_popup(1, ProtocolReply::Granted { surface_id: 7 }).unwrap();
    panel.on_popup_commit(7, 12);
    assert!(panel.popups[0].dirty);
    assert_eq!(panel.popups[0].content_commit, 12);
}

#[test]
fn window_anchor_uses_negotiated_rectangle() {
    let mut panel = PanelSpace::new(config(), Extent::new(300, 40), 1);
    panel.map_element(CosmicMappedInternal::Window(PanelWindow {
        id: 4,
        loc: Loc::new(20, 2),
        toplevel: Some(ToplevelContent {
            buffer: Extent::new(64, 36),
            commit: 0,
            negotiated: Some(Extent::new(64, 36)),
        }),
    }));
    let r = panel.toggle_overflow_popup(4, ProtocolReply::Granted { surface_id: 9 });
    match r {
        Ok(OverflowToggle::Opened { anchor, .. }) => {
            assert_eq!(anchor, Rect::new(Loc::new(20, 2), Extent::new(64, 36)));
        },
        other => panic!("expected an open, got {:?}", other),
    }
}
