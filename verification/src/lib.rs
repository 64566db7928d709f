//! Rendering and popup-lifecycle core of a desktop shell panel.
//!
//! The panel composites a background, hosted client window surfaces and a
//! transient overflow popup, and presents frames under a damage-tracked,
//! frame-callback-gated schedule. This crate holds the decision logic of
//! that core — element assembly, damage accounting, the per-surface render
//! gates, the popup configure handshake and the overflow toggle — stated
//! over plain integer geometry so that every rule is verified. The display
//! protocol and the GPU are driven by the surrounding shell, which hands
//! their outcomes in as plain values and carries the returned frame plans
//! out.

pub mod color;
pub mod damage;
pub mod element;
pub mod geometry;
pub mod mapped;
pub mod overflow;
pub mod panel;
pub mod popup;
pub mod render;
