//! Elements mapped into the panel's space: client windows and the
//! overflow button that opens the overflow popup.
//!
//! A window only contributes to a frame once a top-level content has been
//! negotiated for it; the button never contributes a surface element and
//! only routes its click to the overflow toggle.

use vstd::prelude::*;

use crate::geometry::{Extent, Loc, Rect, COORD_LIMIT};

verus! {

/// The negotiated top-level content a mapped window exposes.
#[derive(Clone, Copy, Debug)]
pub struct ToplevelContent {
    /// Native size of the client's current buffer, in buffer pixels.
    pub buffer: Extent,
    /// Commit counter of the content, advanced on every client commit.
    pub commit: u64,
    /// Content size the client agreed to during its configure handshake,
    /// in logical pixels; `None` while no size was negotiated.
    pub negotiated: Option<Extent>,
}

impl ToplevelContent {
    /// All sizes within the coordinate limit.
    pub open spec fn bounded(self) -> bool {
        self.buffer.bounded() && match self.negotiated {
            Some(n) => n.bounded(),
            None => true,
        }
    }
}

/// A client window tracked by the panel.
#[derive(Clone, Copy, Debug)]
pub struct PanelWindow {
    /// Stable identity of the window.
    pub id: u64,
    /// Logical position assigned by the panel's layout.
    pub loc: Loc,
    /// The mapped top-level content, once the client negotiated one.
    pub toplevel: Option<ToplevelContent>,
}

impl PanelWindow {
    pub open spec fn bounded(self) -> bool {
        self.loc.bounded() && match self.toplevel {
            Some(t) => t.bounded(),
            None => true,
        }
    }
}

/// Padding around the overflow button's icon, in logical pixels.
#[derive(Clone, Copy, Debug, PartialEq, Eq, Structural)]
pub struct Padding {
    pub top: u16,
    pub right: u16,
    pub bottom: u16,
    pub left: u16,
}

impl Padding {
    /// Total horizontal padding.
    pub fn horizontal(&self) -> (r: u32)
        ensures
            r == self.left + self.right,
    {
        self.left as u32 + self.right as u32
    }

    /// Total vertical padding.
    pub fn vertical(&self) -> (r: u32)
        ensures
            r == self.top + self.bottom,
    {
        self.top as u32 + self.bottom as u32
    }
}

/// A message the overflow button's widget can emit.
#[derive(Clone, Copy, Debug, PartialEq, Eq, Structural)]
pub enum Message {
    /// The button was pressed: toggle the overflow popup.
    TogglePopup,
}

/// The overflow button's own state.
#[derive(Clone, Debug)]
pub struct OverflowButton {
    /// Identity of the button; also the origin id handed to the toggle.
    pub id: u64,
    /// Logical position on the panel.
    pub pos: Loc,
    /// Icon edge length, in logical pixels.
    pub icon_size: u16,
    /// Padding around the icon.
    pub button_padding: Padding,
    /// Whether the overflow popup is currently open.
    pub selected: bool,
}

impl OverflowButton {
    pub fn new(id: u64, pos: Loc, icon_size: u16, button_padding: Padding, selected: bool) -> (r:
        OverflowButton)
        ensures
            r == (OverflowButton { id, pos, icon_size, button_padding, selected }),
    {
        OverflowButton { id, pos, icon_size, button_padding, selected }
    }

    /// Routes a widget message: a press asks the shell to toggle the
    /// overflow popup for this button as origin.
    pub fn update(&self, message: Message) -> (r: u64)
        ensures
            r == self.id,
    {
        match message {
            Message::TogglePopup => self.id,
        }
    }
}

impl PartialEq for OverflowButton {
    /// Buttons are equal exactly when their identities are.
    fn eq(&self, other: &Self) -> (r: bool) {
        self.id == other.id
    }
}

impl vstd::std_specs::cmp::PartialEqSpecImpl for OverflowButton {
    open spec fn obeys_eq_spec() -> bool {
        true
    }

    open spec fn eq_spec(&self, other: &Self) -> bool {
        self.id == other.id
    }
}

impl Eq for OverflowButton {}

/// The overflow button as an element of the panel space: the button state
/// together with the padded size the widget was laid out at.
#[derive(Clone, Debug)]
pub struct OverflowButtonElement {
    pub button: OverflowButton,
    /// Laid-out size: icon size grown by the padding on each axis.
    pub size: Extent,
}

impl OverflowButtonElement {
    pub fn new(id: u64, pos: Loc, icon_size: u16, button_padding: Padding, selected: bool) -> (r:
        OverflowButtonElement)
        ensures
            r.button == (OverflowButton { id, pos, icon_size, button_padding, selected }),
            r.size.w == icon_size + button_padding.left + button_padding.right,
            r.size.h == icon_size + button_padding.top + button_padding.bottom,
    {
        let w = icon_size as i32 + button_padding.horizontal() as i32;
        let h = icon_size as i32 + button_padding.vertical() as i32;
        OverflowButtonElement {
            button: OverflowButton::new(id, pos, icon_size, button_padding, selected),
            size: Extent { w, h },
        }
    }

    /// The button is not backed by a client surface and never dies.
    pub fn alive(&self) -> (r: bool)
        ensures
            r == true,
    {
        true
    }

    /// Bounding box of the icon at the button's position.
    pub fn bbox(&self) -> (r: Rect)
        ensures
            r == (Rect {
                loc: self.button.pos,
                size: Extent { w: self.button.icon_size as i32, h: self.button.icon_size as i32 },
            }),
    {
        Rect {
            loc: self.button.pos,
            size: Extent { w: self.button.icon_size as i32, h: self.button.icon_size as i32 },
        }
    }

    /// Whether a pointer position falls on the button.
    pub fn is_in_input_region(&self, point: Loc) -> (r: bool)
        requires
            self.button.pos.bounded(),
        ensures
            r == self.bbox_spec().spec_contains(point),
    {
        self.bbox().contains(point)
    }

    /// Spec-level form of [`OverflowButtonElement::bbox`].
    pub open spec fn bbox_spec(&self) -> Rect {
        Rect {
            loc: self.button.pos,
            size: Extent { w: self.button.icon_size as i32, h: self.button.icon_size as i32 },
        }
    }
}

/// The overflow popup's own content: a plain container sized to the
/// items that did not fit the panel.
#[derive(Clone, Copy, Debug)]
pub struct OverflowPopup {
    pub id: u64,
    /// Content width, in logical pixels.
    pub logical_width: i32,
    /// Content height, in logical pixels.
    pub logical_height: i32,
}

/// The overflow popup's content with the size its surface is laid out at.
#[derive(Clone, Copy, Debug)]
pub struct OverflowPopupElement {
    pub popup: OverflowPopup,
    pub size: Extent,
}

/// Builds the element rendered into the overflow popup's surface, laid
/// out at exactly the content's logical size.
pub fn overflow_popup_element(id: u64, logical_width: i32, logical_height: i32) -> (r:
    OverflowPopupElement)
    ensures
        r.popup == (OverflowPopup { id, logical_width, logical_height }),
        r.size == (Extent { w: logical_width, h: logical_height }),
{
    OverflowPopupElement {
        popup: OverflowPopup { id, logical_width, logical_height },
        size: Extent { w: logical_width, h: logical_height },
    }
}

/// One element mapped into the panel's space.
#[derive(Clone, Debug)]
pub enum CosmicMappedInternal {
    OverflowButton(OverflowButtonElement),
    Window(PanelWindow),
}

impl CosmicMappedInternal {
    /// The negotiated top-level content, if this element is a window that
    /// exposes one. The overflow button exposes none.
    pub fn toplevel(&self) -> (r: Option<ToplevelContent>)
        ensures
            r == self.spec_toplevel(),
    {
        match self {
            CosmicMappedInternal::Window(w) => w.toplevel,
            _ => None,
        }
    }

    /// Spec-level form of [`CosmicMappedInternal::toplevel`].
    pub open spec fn spec_toplevel(&self) -> Option<ToplevelContent> {
        match self {
            CosmicMappedInternal::Window(w) => w.toplevel,
            _ => None,
        }
    }

    /// Exec form of [`CosmicMappedInternal::spec_loc`].
    pub fn loc(&self) -> (r: Loc)
        ensures
            r == self.spec_loc(),
    {
        match self {
            CosmicMappedInternal::OverflowButton(b) => b.button.pos,
            CosmicMappedInternal::Window(w) => w.loc,
        }
    }

    /// Exec form of [`CosmicMappedInternal::spec_id`].
    pub fn id(&self) -> (r: u64)
        ensures
            r == self.spec_id(),
    {
        match self {
            CosmicMappedInternal::OverflowButton(b) => b.button.id,
            CosmicMappedInternal::Window(w) => w.id,
        }
    }

    /// Logical position of the element in the panel's space.
    pub open spec fn spec_loc(&self) -> Loc {
        match self {
            CosmicMappedInternal::OverflowButton(b) => b.button.pos,
            CosmicMappedInternal::Window(w) => w.loc,
        }
    }

    /// Identity of the element.
    pub open spec fn spec_id(&self) -> u64 {
        match self {
            CosmicMappedInternal::OverflowButton(b) => b.button.id,
            CosmicMappedInternal::Window(w) => w.id,
        }
    }

    /// Whether this element is a window (only windows receive
    /// frame-presented notifications).
    pub open spec fn spec_is_window(&self) -> bool {
        match self {
            CosmicMappedInternal::Window(_) => true,
            _ => false,
        }
    }

    /// All geometry within the coordinate limit.
    pub open spec fn bounded(&self) -> bool {
        match self {
            CosmicMappedInternal::OverflowButton(b) => b.button.pos.bounded() && b.size.bounded()
                && b.button.icon_size <= COORD_LIMIT,
            CosmicMappedInternal::Window(w) => w.bounded(),
        }
    }
}

} // verus!
