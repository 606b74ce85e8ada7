//! Plain-value vocabulary shared with the driver: what the display server
//! reports (events, replies) and what the manager asks of it (commands).

use vstd::prelude::*;

verus! {

/// The identifier that means "no window".
pub const NO_WINDOW: u32 = 0;

/// Root window and pixel size of the screen, fixed once the session is set up.
#[derive(Clone, Copy, Debug, PartialEq, Eq, Structural)]
pub struct ScreenInfo {
    pub root: u32,
    pub width: u16,
    pub height: u16,
}

/// Position and inner size of a window as the server reports them.
#[derive(Clone, Copy, Debug, PartialEq, Eq, Structural)]
pub struct Geometry {
    pub x: i16,
    pub y: i16,
    pub width: u16,
    pub height: u16,
}

/// Pointer position in root-window coordinates.
#[derive(Clone, Copy, Debug, PartialEq, Eq, Structural)]
pub struct Pointer {
    pub root_x: i16,
    pub root_y: i16,
}

/// Whether the server shows a window.
#[derive(Clone, Copy, Debug, PartialEq, Eq, Structural)]
pub enum MapState {
    Unmapped,
    Unviewable,
    Viewable,
}

/// The part of a window's attributes that adoption depends on.
#[derive(Clone, Copy, Debug, PartialEq, Eq, Structural)]
pub struct WindowAttributes {
    pub map_state: MapState,
    pub override_redirect: bool,
}

/// One child of the root as found at startup. `attributes` is `None` when
/// the attribute query for that child failed.
#[derive(Clone, Copy, Debug, PartialEq, Eq, Structural)]
pub struct ChildReport {
    pub window: u32,
    pub attributes: Option<WindowAttributes>,
}

/// A set of event classes whose delivery is requested.
#[derive(Clone, Copy, Debug, PartialEq, Eq, Structural)]
pub struct EventSelection {
    pub substructure_redirect: bool,
    pub structure_notify: bool,
    pub substructure_notify: bool,
    pub property_change: bool,
    pub button_press: bool,
    pub button_release: bool,
    pub button_motion: bool,
    pub pointer_motion_hint: bool,
    pub enter_window: bool,
    pub focus_change: bool,
}

/// A pointer button that a grab can name: any button, or one of the five
/// the server numbers.
#[derive(Clone, Copy, Debug, PartialEq, Eq, Structural)]
pub enum Button {
    Any,
    B1,
    B2,
    B3,
    B4,
    B5,
}

/// The modifier a button grab is bound to.
#[derive(Clone, Copy, Debug, PartialEq, Eq, Structural)]
pub enum Modifier {
    Unmodified,
    Mod4,
}

/// A request to the display server. The driver sends each in the order
/// given; none of them has a reply that the manager reads.
#[derive(Clone, Copy, Debug, PartialEq, Eq, Structural)]
pub enum Command {
    /// Ask for delivery of the selected event classes on `window`.
    SelectEvents { window: u32, events: EventSelection },
    /// Revoke every button grab held on `grab_window`, whatever the button
    /// and the modifiers.
    UngrabAllButtons { grab_window: u32 },
    /// Grab `button` pressed with `modifier` anywhere under `grab_window`,
    /// asynchronously, confined to that window, with the selected events.
    GrabButton { grab_window: u32, events: EventSelection, button: Button, modifier: Modifier },
    /// Capture the pointer on `grab_window` for the selected events.
    GrabPointer { grab_window: u32, events: EventSelection },
    /// Release the pointer capture.
    UngrabPointer,
    /// Set position, size and border width of `window` in one request.
    Place { window: u32, x: i32, y: i32, width: u32, height: u32, border: u32 },
    /// Move `window` so that its top-left corner is at `(x, y)`.
    MoveTo { window: u32, x: i32, y: i32 },
    /// Give `window` the inner size `width` by `height`.
    ResizeTo { window: u32, width: u32, height: u32 },
    /// Put `window` on top of the stacking order.
    Raise { window: u32 },
    /// Give `window` the input focus, reverting to the pointer root.
    SetInputFocus { window: u32 },
    /// Paint the border of `window` with `pixel`.
    SetBorderColor { window: u32, pixel: u32 },
    /// Make `window` visible.
    MapWindow { window: u32 },
    /// Send everything issued so far.
    Flush,
}

/// A notification from the display server, reduced to what the manager reads.
#[derive(Clone, Copy, Debug, PartialEq, Eq, Structural)]
pub enum Event {
    CreateNotify { window: u32 },
    DestroyNotify { window: u32 },
    MapRequest { window: u32 },
    /// `state` holds the modifier and button bits held before the press,
    /// `child` the window under the pointer (`NO_WINDOW` over empty area),
    /// `detail` the number of the button.
    ButtonPress { state: u32, child: u32, root_x: i16, root_y: i16, detail: u8 },
    ButtonRelease,
    MotionNotify,
    EnterNotify { window: u32 },
    FocusIn { window: u32 },
    FocusOut { window: u32 },
    /// A structural notice that is accepted and deliberately left unanswered.
    Ignored,
    /// Anything the manager does not recognise.
    Unknown,
}

impl Button {
    /// The number that a press of this button reports as its detail;
    /// zero for `Any`, which no press reports.
    pub open spec fn number_spec(self) -> u8 {
        match self {
            Button::Any => 0,
            Button::B1 => 1,
            Button::B2 => 2,
            Button::B3 => 3,
            Button::B4 => 4,
            Button::B5 => 5,
        }
    }

    /// The number that a press of this button reports as its detail.
    pub fn number(self) -> (r: u8)
        ensures
            r == self.number_spec(),
    {
        match self {
            Button::Any => 0,
            Button::B1 => 1,
            Button::B2 => 2,
            Button::B3 => 3,
            Button::B4 => 4,
            Button::B5 => 5,
        }
    }
}

impl EventSelection {
    /// The selection that holds no event class.
    pub open spec fn empty() -> EventSelection {
        EventSelection {
            substructure_redirect: false,
            structure_notify: false,
            substructure_notify: false,
            property_change: false,
            button_press: false,
            button_release: false,
            button_motion: false,
            pointer_motion_hint: false,
            enter_window: false,
            focus_change: false,
        }
    }

    /// What the manager selects on the root window to act as window manager.
    pub open spec fn root() -> EventSelection {
        EventSelection {
            substructure_redirect: true,
            structure_notify: true,
            substructure_notify: true,
            property_change: true,
            ..Self::empty()
        }
    }

    /// Events of the click-to-raise grab.
    pub open spec fn click() -> EventSelection {
        EventSelection { button_press: true, ..Self::empty() }
    }

    /// Events of the two drag grabs.
    pub open spec fn drag_button() -> EventSelection {
        EventSelection { button_press: true, button_release: true, ..Self::empty() }
    }

    /// Events delivered while the pointer is captured for a drag.
    pub open spec fn drag_pointer() -> EventSelection {
        EventSelection {
            button_release: true,
            button_motion: true,
            pointer_motion_hint: true,
            ..Self::empty()
        }
    }

    /// Events selected on every managed window.
    pub open spec fn client() -> EventSelection {
        EventSelection { enter_window: true, focus_change: true, ..Self::empty() }
    }

    pub fn new_empty() -> (r: EventSelection)
        ensures
            r == Self::empty(),
    {
        EventSelection {
            substructure_redirect: false,
            structure_notify: false,
            substructure_notify: false,
            property_change: false,
            button_press: false,
            button_release: false,
            button_motion: false,
            pointer_motion_hint: false,
            enter_window: false,
            focus_change: false,
        }
    }

    pub fn new_root() -> (r: EventSelection)
        ensures
            r == Self::root(),
    {
        let mut r = Self::new_empty();
        r.substructure_redirect = true;
        r.structure_notify = true;
        r.substructure_notify = true;
        r.property_change = true;
        r
    }

    pub fn new_click() -> (r: EventSelection)
        ensures
            r == Self::click(),
    {
        let mut r = Self::new_empty();
        r.button_press = true;
        r
    }

    pub fn new_drag_button() -> (r: EventSelection)
        ensures
            r == Self::drag_button(),
    {
        let mut r = Self::new_empty();
        r.button_press = true;
        r.button_release = true;
        r
    }

    pub fn new_drag_pointer() -> (r: EventSelection)
        ensures
            r == Self::drag_pointer(),
    {
        let mut r = Self::new_empty();
        r.button_release = true;
        r.button_motion = true;
        r.pointer_motion_hint = true;
        r
    }

    pub fn new_client() -> (r: EventSelection)
        ensures
            r == Self::client(),
    {
        let mut r = Self::new_empty();
        r.enter_window = true;
        r.focus_change = true;
        r
    }
}

} // verus!
