//! The manager itself: the registry of windows, the drag session, and the
//! answer to every event.
//!
//! The manager never talks to the display server. `handle_event` turns one
//! event into the commands to send and, where the answer depends on a live
//! query, names the query as a `Followup`; the driver performs it and hands
//! the reply to `start_drag` or `drag_motion`.

use vstd::prelude::*;
use std::collections::HashMap;
use crate::protocol::{
    Button, ChildReport, Command, Event, EventSelection, Geometry, MapState, Modifier, Pointer,
    ScreenInfo, NO_WINDOW,
};
use crate::geometry::{
    bordered, lemma_move_stays_on_screen, move_target, move_target_spec, resize_axis_spec,
    resize_target, resize_target_spec, MIN_SIZE,
};
use crate::placement::{decide_initial_geometry, initial_placement};

verus! {

broadcast use vstd::std_specs::hash::group_hash_axioms;

/// Border colour of the window that holds the input focus.
pub const ACTIVE_BORDER: u32 = 0x0055ff;

/// Border colour of every other window.
pub const INACTIVE_BORDER: u32 = 0x000000;

/// Number of the button that starts a move drag.
pub const MOVE_BUTTON: u8 = 1;

/// Number of the button that starts a resize drag.
pub const RESIZE_BUTTON: u8 = 3;

/// What the registry keeps of a window: its identifier and nothing else.
/// Geometry is asked of the server whenever it is needed.
#[derive(Clone, Copy, Debug, PartialEq, Eq, Structural)]
pub struct Window {
    pub x_window: u32,
}

/// What a drag does to its window.
#[derive(Clone, Copy, Debug, PartialEq, Eq, Structural)]
pub enum DragMode {
    Move,
    Resize,
}

/// A drag in progress. The offset is the distance from the window's origin
/// to the pointer at the moment the button went down.
#[derive(Clone, Copy, Debug, PartialEq, Eq, Structural)]
pub struct DragSession {
    pub mode: DragMode,
    pub window: u32,
    pub off_x: i32,
    pub off_y: i32,
}

/// A modified button press over a window, kept until the window's geometry
/// is known.
#[derive(Clone, Copy, Debug, PartialEq, Eq, Structural)]
pub struct Press {
    pub window: u32,
    pub button: u8,
    pub root_x: i16,
    pub root_y: i16,
}

/// What the driver owes the manager after sending a step's commands.
#[derive(Clone, Copy, Debug, PartialEq, Eq, Structural)]
pub enum Followup {
    /// Nothing: wait for the next event.
    Done,
    /// Query the geometry of `press.window` and call `start_drag`.
    StartDrag { press: Press },
    /// Query the pointer on the root and the geometry of `window`, and
    /// call `drag_motion`.
    ContinueDrag { window: u32 },
}

/// The answer to one event.
#[derive(Debug)]
pub struct Step {
    pub commands: Vec<Command>,
    pub followup: Followup,
}

/// The manager's state as a mathematical value.
pub struct ManagerState {
    pub screen: ScreenInfo,
    pub windows: Map<u32, Window>,
    pub drag: Option<DragSession>,
}

/// The manager: the screen it runs on, the registry of windows, and the
/// drag in progress, if any.
pub struct Manager {
    screen: ScreenInfo,
    windows: HashMap<u32, Window>,
    drag_state: Option<DragSession>,
}

impl DragSession {
    /// The button that started a drag of this mode.
    pub open spec fn button_spec(self) -> u8 {
        match self.mode {
            DragMode::Move => MOVE_BUTTON,
            DragMode::Resize => RESIZE_BUTTON,
        }
    }

    /// The button that started this drag.
    pub fn button(&self) -> (r: u8)
        ensures
            r == self.button_spec(),
    {
        match self.mode {
            DragMode::Move => MOVE_BUTTON,
            DragMode::Resize => RESIZE_BUTTON,
        }
    }
}

impl DragMode {
    /// The button whose modified press starts a drag of this mode.
    pub open spec fn grab_button(self) -> Button {
        match self {
            DragMode::Move => Button::B1,
            DragMode::Resize => Button::B3,
        }
    }
}

impl ManagerState {
    /// The registry holds finitely many windows, and every entry is filed
    /// under its own identifier.
    pub open spec fn wf(self) -> bool {
        &&& self.windows.dom().finite()
        &&& forall|id: u32| #[trigger]
            self.windows.contains_key(id) ==> self.windows[id] == (Window { x_window: id })
    }
}

/// Commands that set the manager up on the root window: select the
/// structural events, revoke every button grab left on the root, and grab
/// the three button combinations it reacts to: the first button alone for
/// click-to-raise, and each drag mode's button together with the modifier.
pub open spec fn startup_commands(root: u32) -> Seq<Command> {
    seq![
        Command::SelectEvents { window: root, events: EventSelection::root() },
        Command::UngrabAllButtons { grab_window: root },
        Command::GrabButton {
            grab_window: root,
            events: EventSelection::click(),
            button: Button::B1,
            modifier: Modifier::Unmodified,
        },
        Command::GrabButton {
            grab_window: root,
            events: EventSelection::drag_button(),
            button: DragMode::Move.grab_button(),
            modifier: Modifier::Mod4,
        },
        Command::GrabButton {
            grab_window: root,
            events: EventSelection::drag_button(),
            button: DragMode::Resize.grab_button(),
            modifier: Modifier::Mod4,
        },
        Command::Flush,
    ]
}

/// Commands that show `window`: place it, select its enter and focus
/// events, map it.
pub open spec fn map_commands(window: u32) -> Seq<Command> {
    let p = initial_placement(window);
    seq![
        Command::Place {
            window,
            x: p.x,
            y: p.y,
            width: p.width,
            height: p.height,
            border: p.border,
        },
        Command::SelectEvents { window, events: EventSelection::client() },
        Command::MapWindow { window },
    ]
}

/// Whether a child found at startup is taken over: its attributes were
/// read, it is not unmapped, and it does not opt out of management.
pub open spec fn adopts(report: ChildReport) -> bool {
    match report.attributes {
        Some(a) => a.map_state != MapState::Unmapped && !a.override_redirect,
        None => false,
    }
}

/// The registry after one reported child has been looked at: the child is
/// added if it is taken over, and nothing changes if it is not.
pub open spec fn adopt_into(windows: Map<u32, Window>, report: ChildReport) -> Map<u32, Window> {
    if adopts(report) {
        windows.insert(report.window, Window { x_window: report.window })
    } else {
        windows
    }
}

/// The commands issued for one reported child: those that show it if it
/// is taken over, none if it is not.
pub open spec fn adopt_commands(report: ChildReport) -> Seq<Command> {
    if adopts(report) {
        map_commands(report.window)
    } else {
        Seq::empty()
    }
}

/// The registry after startup enumeration over `reports`.
pub open spec fn adopted_windows(reports: Seq<ChildReport>) -> Map<u32, Window>
    decreases reports.len(),
{
    if reports.len() == 0 {
        Map::empty()
    } else {
        adopt_into(adopted_windows(reports.drop_last()), reports.last())
    }
}

/// The commands that show every adopted child, in the order of `reports`.
pub open spec fn adoption_commands(reports: Seq<ChildReport>) -> Seq<Command>
    decreases reports.len(),
{
    if reports.len() == 0 {
        Seq::empty()
    } else {
        adoption_commands(reports.drop_last()) + adopt_commands(reports.last())
    }
}

/// The state after `ev`, before any follow-up.
pub open spec fn event_state(s: ManagerState, ev: Event) -> ManagerState {
    match ev {
        Event::CreateNotify { window } => ManagerState {
            windows: s.windows.insert(window, Window { x_window: window }),
            ..s
        },
        Event::DestroyNotify { window } => ManagerState { windows: s.windows.remove(window), ..s },
        Event::ButtonRelease => ManagerState { drag: None, ..s },
        _ => s,
    }
}

/// The commands issued in answer to `ev`.
pub open spec fn event_commands(s: ManagerState, ev: Event) -> Seq<Command> {
    match ev {
        Event::MapRequest { window } => map_commands(window).push(Command::Flush),
        Event::ButtonPress { state, child, root_x, root_y, detail } => {
            if child == NO_WINDOW {
                Seq::empty()
            } else if state == 0 {
                seq![Command::Raise { window: child }, Command::Flush]
            } else {
                seq![
                    Command::Raise { window: child },
                    Command::GrabPointer {
                        grab_window: s.screen.root,
                        events: EventSelection::drag_pointer(),
                    },
                    Command::Flush,
                ]
            }
        },
        Event::ButtonRelease => seq![Command::UngrabPointer, Command::Flush],
        Event::EnterNotify { window } => seq![Command::SetInputFocus { window }, Command::Flush],
        Event::FocusIn { window } => seq![
            Command::SetBorderColor { window, pixel: ACTIVE_BORDER },
            Command::Flush,
        ],
        Event::FocusOut { window } => seq![
            Command::SetBorderColor { window, pixel: INACTIVE_BORDER },
            Command::Flush,
        ],
        _ => Seq::empty(),
    }
}

/// The query, if any, that answering `ev` goes on with.
pub open spec fn event_followup(s: ManagerState, ev: Event) -> Followup {
    match ev {
        Event::ButtonPress { state, child, root_x, root_y, detail } => {
            if child != NO_WINDOW && state != 0 {
                Followup::StartDrag { press: Press { window: child, button: detail, root_x, root_y } }
            } else {
                Followup::Done
            }
        },
        Event::MotionNotify => match s.drag {
            Some(d) => Followup::ContinueDrag { window: d.window },
            None => Followup::Done,
        },
        _ => Followup::Done,
    }
}

/// The session that a press begins on a window of the given geometry:
/// a move for the move button, a resize for the resize button, none for
/// any other.
pub open spec fn drag_from(press: Press, geometry: Geometry) -> Option<DragSession> {
    let off_x = (press.root_x - geometry.x) as i32;
    let off_y = (press.root_y - geometry.y) as i32;
    if press.button == MOVE_BUTTON {
        Some(DragSession { mode: DragMode::Move, window: press.window, off_x, off_y })
    } else if press.button == RESIZE_BUTTON {
        Some(DragSession { mode: DragMode::Resize, window: press.window, off_x, off_y })
    } else {
        None
    }
}

/// The commands that a motion issues during the session `drag`, given the
/// live pointer and the live geometry of the dragged window.
pub open spec fn drag_commands(
    drag: Option<DragSession>,
    screen: ScreenInfo,
    pointer: Pointer,
    geometry: Geometry,
) -> Seq<Command> {
    match drag {
        None => Seq::empty(),
        Some(d) => match d.mode {
            DragMode::Move => {
                let t = move_target_spec(d.off_x as int, d.off_y as int, pointer, geometry, screen);
                seq![
                    Command::MoveTo { window: d.window, x: t.0 as i32, y: t.1 as i32 },
                    Command::Flush,
                ]
            },
            DragMode::Resize => match resize_target_spec(pointer, geometry) {
                Some((w, h)) => seq![
                    Command::ResizeTo { window: d.window, width: w as u32, height: h as u32 },
                    Command::Flush,
                ],
                None => Seq::empty(),
            },
        },
    }
}

/// Commands that place, subscribe and map `window`.
pub fn map_window(window: u32) -> (r: Vec<Command>)
    ensures
        r@ == map_commands(window),
{
    let p = decide_initial_geometry(window);
    vec![
        Command::Place {
            window,
            x: p.x,
            y: p.y,
            width: p.width,
            height: p.height,
            border: p.border,
        },
        Command::SelectEvents { window, events: EventSelection::new_client() },
        Command::MapWindow { window },
    ]
}

/// The command that raises `window` above all others.
pub fn bring_window_to_front(window: u32) -> (r: Command)
    ensures
        r == (Command::Raise { window }),
{
    Command::Raise { window }
}

/// The command that gives `window` the input focus.
pub fn focus_window(window: u32) -> (r: Command)
    ensures
        r == (Command::SetInputFocus { window }),
{
    Command::SetInputFocus { window }
}

/// Decides whether a child found at startup is taken over.
pub fn should_adopt(report: &ChildReport) -> (r: bool)
    ensures
        r == adopts(*report),
{
    match report.attributes {
        Some(a) => {
            let unmapped = match a.map_state {
                MapState::Unmapped => true,
                _ => false,
            };
            !unmapped && !a.override_redirect
        },
        None => false,
    }
}

impl View for Manager {
    type V = ManagerState;

    closed spec fn view(&self) -> ManagerState {
        ManagerState { screen: self.screen, windows: self.windows@, drag: self.drag_state }
    }
}

impl Manager {
    /// A manager for `screen` with an empty registry and no drag, and the
    /// commands that establish it on the root window.
    pub fn connect(screen: ScreenInfo) -> (r: (Manager, Vec<Command>))
        ensures
            r.0@ == (ManagerState { screen, windows: Map::empty(), drag: None }),
            r.0@.wf(),
            r.1@ == startup_commands(screen.root),
    {
        let root = screen.root;
        let commands = vec![
            Command::SelectEvents { window: root, events: EventSelection::new_root() },
            Command::UngrabAllButtons { grab_window: root },
            Command::GrabButton {
                grab_window: root,
                events: EventSelection::new_click(),
                button: Button::B1,
                modifier: Modifier::Unmodified,
            },
            Command::GrabButton {
                grab_window: root,
                events: EventSelection::new_drag_button(),
                button: Button::B1,
                modifier: Modifier::Mod4,
            },
            Command::GrabButton {
                grab_window: root,
                events: EventSelection::new_drag_button(),
                button: Button::B3,
                modifier: Modifier::Mod4,
            },
            Command::Flush,
        ];
        (Manager { screen, windows: HashMap::new(), drag_state: None }, commands)
    }

    /// Empties the registry; the first step of startup enumeration, taken
    /// before the server is asked for the root's children.
    pub fn forget_windows(&mut self)
        ensures
            final(self)@ == (ManagerState { windows: Map::empty(), ..old(self)@ }),
            final(self)@.wf(),
    {
        self.windows.clear();
    }

    /// Looks at one child found at startup: if it qualifies it is tracked
    /// and the commands that show it are returned; otherwise nothing
    /// changes and nothing is issued. A child whose attributes could not be
    /// read does not qualify.
    pub fn adopt_existing(&mut self, report: ChildReport) -> (commands: Vec<Command>)
        ensures
            final(self)@ == (ManagerState {
                windows: adopt_into(old(self)@.windows, report),
                ..old(self)@
            }),
            old(self)@.wf() ==> final(self)@.wf(),
            commands@ == adopt_commands(report),
    {
        if should_adopt(&report) {
            self.windows.insert(report.window, Window { x_window: report.window });
            map_window(report.window)
        } else {
            Vec::new()
        }
    }

    /// Startup enumeration as a whole: forgets every tracked window, then
    /// looks at each reported child in the order reported, and ends with a
    /// flush.
    pub fn attach_existing_windows(&mut self, reports: &Vec<ChildReport>) -> (commands: Vec<Command>)
        ensures
            final(self)@ == (ManagerState { windows: adopted_windows(reports@), ..old(self)@ }),
            final(self)@.wf(),
            commands@ == adoption_commands(reports@).push(Command::Flush),
    {
        self.forget_windows();
        let mut commands: Vec<Command> = Vec::new();
        let mut i: usize = 0;
        while i < reports.len()
            invariant
                0 <= i <= reports.len(),
                self@ == (ManagerState {
                    windows: adopted_windows(reports@.take(i as int)),
                    ..old(self)@
                }),
                self@.wf(),
                commands@ == adoption_commands(reports@.take(i as int)),
            decreases reports.len() - i,
        {
            let report = reports[i];
            proof {
                let next = reports@.take(i + 1);
                assert(next.drop_last() == reports@.take(i as int));
                assert(next.last() == report);
            }
            let mut shown = self.adopt_existing(report);
            commands.append(&mut shown);
            i += 1;
        }
        proof {
            assert(reports@.take(i as int) == reports@);
        }
        commands.push(Command::Flush);
        commands
    }

    /// Starts tracking `window`, whether or not it was tracked before.
    pub fn on_create(&mut self, window: u32)
        ensures
            final(self)@ == event_state(old(self)@, Event::CreateNotify { window }),
            old(self)@.wf() ==> final(self)@.wf(),
    {
        self.windows.insert(window, Window { x_window: window });
    }

    /// Stops tracking `window`; nothing happens if it was not tracked.
    pub fn on_destroy(&mut self, window: u32)
        ensures
            final(self)@ == event_state(old(self)@, Event::DestroyNotify { window }),
            old(self)@.wf() ==> final(self)@.wf(),
    {
        self.windows.remove(&window);
    }

    /// Answers one event: updates the registry and the drag session, and
    /// returns the commands to send and the follow-up query, if any.
    pub fn handle_event(&mut self, ev: Event) -> (step: Step)
        ensures
            final(self)@ == event_state(old(self)@, ev),
            step.commands@ == event_commands(old(self)@, ev),
            step.followup == event_followup(old(self)@, ev),
            old(self)@.wf() ==> final(self)@.wf(),
    {
        match ev {
            Event::CreateNotify { window } => {
                self.on_create(window);
                Step { commands: Vec::new(), followup: Followup::Done }
            },
            Event::DestroyNotify { window } => {
                self.on_destroy(window);
                Step { commands: Vec::new(), followup: Followup::Done }
            },
            Event::MapRequest { window } => {
                let mut commands = map_window(window);
                commands.push(Command::Flush);
                Step { commands, followup: Followup::Done }
            },
            Event::ButtonPress { state, child, root_x, root_y, detail } => {
                if child == NO_WINDOW {
                    Step { commands: Vec::new(), followup: Followup::Done }
                } else if state == 0 {
                    Step {
                        commands: vec![bring_window_to_front(child), Command::Flush],
                        followup: Followup::Done,
                    }
                } else {
                    Step {
                        commands: vec![
                            bring_window_to_front(child),
                            Command::GrabPointer {
                                grab_window: self.screen.root,
                                events: EventSelection::new_drag_pointer(),
                            },
                            Command::Flush,
                        ],
                        followup: Followup::StartDrag {
                            press: Press { window: child, button: detail, root_x, root_y },
                        },
                    }
                }
            },
            Event::ButtonRelease => {
                self.drag_state = None;
                Step { commands: vec![Command::UngrabPointer, Command::Flush], followup: Followup::Done }
            },
            Event::MotionNotify => {
                let followup = match self.drag_state {
                    Some(d) => Followup::ContinueDrag { window: d.window },
                    None => Followup::Done,
                };
                Step { commands: Vec::new(), followup }
            },
            Event::EnterNotify { window } => Step {
                commands: vec![focus_window(window), Command::Flush],
                followup: Followup::Done,
            },
            Event::FocusIn { window } => Step {
                commands: vec![
                    Command::SetBorderColor { window, pixel: ACTIVE_BORDER },
                    Command::Flush,
                ],
                followup: Followup::Done,
            },
            Event::FocusOut { window } => Step {
                commands: vec![
                    Command::SetBorderColor { window, pixel: INACTIVE_BORDER },
                    Command::Flush,
                ],
                followup: Followup::Done,
            },
            Event::Ignored => Step { commands: Vec::new(), followup: Followup::Done },
            Event::Unknown => Step { commands: Vec::new(), followup: Followup::Done },
        }
    }

    /// Completes a modified press once the pressed window's geometry is
    /// known: the session becomes the one that the press begins, replacing
    /// whatever session there was.
    pub fn start_drag(&mut self, press: Press, geometry: Geometry)
        ensures
            final(self)@ == (ManagerState { drag: drag_from(press, geometry), ..old(self)@ }),
            old(self)@.wf() ==> final(self)@.wf(),
    {
        let off_x: i32 = press.root_x as i32 - geometry.x as i32;
        let off_y: i32 = press.root_y as i32 - geometry.y as i32;
        self.drag_state = if press.button == MOVE_BUTTON {
            Some(DragSession { mode: DragMode::Move, window: press.window, off_x, off_y })
        } else if press.button == RESIZE_BUTTON {
            Some(DragSession { mode: DragMode::Resize, window: press.window, off_x, off_y })
        } else {
            None
        };
    }

    /// Answers a motion during a drag, given the live pointer position and
    /// the live geometry of the dragged window. The session is read and
    /// left as it is.
    pub fn drag_motion(&self, pointer: Pointer, geometry: Geometry) -> (commands: Vec<Command>)
        ensures
            commands@ == drag_commands(self@.drag, self@.screen, pointer, geometry),
    {
        match self.drag_state {
            None => Vec::new(),
            Some(d) => match d.mode {
                DragMode::Move => {
                    let (x, y) = move_target(d.off_x, d.off_y, pointer, geometry, self.screen);
                    vec![Command::MoveTo { window: d.window, x, y }, Command::Flush]
                },
                DragMode::Resize => match resize_target(pointer, geometry) {
                    Some((width, height)) => vec![
                        Command::ResizeTo { window: d.window, width, height },
                        Command::Flush,
                    ],
                    None => Vec::new(),
                },
            },
        }
    }

    /// The drag in progress, if there is one.
    pub fn drag_session(&self) -> (r: Option<DragSession>)
        ensures
            r == self@.drag,
    {
        self.drag_state
    }

    /// Whether `window` is in the registry.
    pub fn is_tracked(&self, window: u32) -> (r: bool)
        ensures
            r == self@.windows.contains_key(window),
    {
        self.windows.contains_key(&window)
    }

    /// How many windows the registry holds.
    pub fn tracked_count(&self) -> (r: usize)
        ensures
            self@.windows.dom().finite(),
            r == self@.windows.len(),
    {
        self.windows.len()
    }

    /// The registry of a manager holds finitely many windows, however the
    /// manager came about.
    pub proof fn lemma_registry_finite(&self)
        ensures
            self@.windows.dom().finite(),
    {
    }

    /// The screen the manager was set up on.
    pub fn screen(&self) -> (r: ScreenInfo)
        ensures
            r == self@.screen,
    {
        self.screen
    }

    /// The registry's entry for `window`, if it has one.
    pub fn window(&self, window: u32) -> (r: Option<Window>)
        ensures
            r == if self@.windows.contains_key(window) {
                Some(self@.windows[window])
            } else {
                None
            },
    {
        match self.windows.get(&window) {
            Some(w) => Some(*w),
            None => None,
        }
    }
}

/// Startup enumeration tracks exactly the reported children that qualify,
/// each under its own identifier.
pub proof fn lemma_adopted_windows(reports: Seq<ChildReport>, id: u32)
    ensures
        adopted_windows(reports).contains_key(id) <==> exists|i: int|
            0 <= i < reports.len() && (#[trigger] reports[i]).window == id && adopts(reports[i]),
        adopted_windows(reports).contains_key(id) ==> adopted_windows(reports)[id] == (Window {
            x_window: id,
        }),
    decreases reports.len(),
{
    if reports.len() > 0 {
        let init = reports.drop_last();
        let last = reports.len() - 1;
        lemma_adopted_windows(init, id);
        if adopted_windows(reports).contains_key(id) {
            if adopts(reports.last()) && reports.last().window == id {
                assert(reports[last].window == id && adopts(reports[last]));
            } else {
                let i = choose|i: int|
                    0 <= i < init.len() && (#[trigger] init[i]).window == id && adopts(init[i]);
                assert(reports[i] == init[i]);
            }
        }
        if exists|i: int|
            0 <= i < reports.len() && (#[trigger] reports[i]).window == id && adopts(reports[i]) {
            let i = choose|i: int|
                0 <= i < reports.len() && (#[trigger] reports[i]).window == id && adopts(
                    reports[i],
                );
            if i < last {
                assert(init[i] == reports[i]);
            }
        }
    }
}

/// Startup enumeration leaves every entry filed under its own identifier.
pub proof fn lemma_adopted_windows_wf(s: ManagerState, reports: Seq<ChildReport>)
    ensures
        (ManagerState { windows: adopted_windows(reports), ..s }).wf(),
{
    lemma_adopted_windows_finite(reports);
    assert forall|id: u32| #[trigger] adopted_windows(reports).contains_key(id) implies
        adopted_windows(reports)[id] == (Window { x_window: id }) by {
        lemma_adopted_windows(reports, id);
    }
}

/// Startup enumeration tracks finitely many windows.
pub proof fn lemma_adopted_windows_finite(reports: Seq<ChildReport>)
    ensures
        adopted_windows(reports).dom().finite(),
    decreases reports.len(),
{
    if reports.len() > 0 {
        lemma_adopted_windows_finite(reports.drop_last());
    }
}

/// Startup enumeration is the registry emptied and each child looked at
/// in turn: looking at one more child extends both the registry and the
/// commands by that child's share.
pub proof fn lemma_adoption_steps(reports: Seq<ChildReport>, report: ChildReport)
    ensures
        adopted_windows(Seq::empty()) == Map::<u32, Window>::empty(),
        adoption_commands(Seq::empty()) == Seq::<Command>::empty(),
        adopted_windows(reports.push(report)) == adopt_into(adopted_windows(reports), report),
        adoption_commands(reports.push(report)) == adoption_commands(reports) + adopt_commands(
            report,
        ),
{
    assert(reports.push(report).drop_last() == reports);
}

/// Each drag mode is started by the button that the startup commands grab
/// for it: a press begins a session exactly if its button number is that
/// of some mode's grabbed button, and then the session is of that mode.
pub proof fn lemma_grabbed_buttons_start_drags(press: Press, geometry: Geometry)
    ensures
        DragMode::Move.grab_button().number_spec() == MOVE_BUTTON,
        DragMode::Resize.grab_button().number_spec() == RESIZE_BUTTON,
        match drag_from(press, geometry) {
            Some(d) => d.mode.grab_button().number_spec() == press.button && d.button_spec()
                == press.button,
            None => press.button != DragMode::Move.grab_button().number_spec() && press.button
                != DragMode::Resize.grab_button().number_spec(),
        },
{
}

/// No event and no start of a drag files a window under another
/// window's identifier.
pub proof fn lemma_registry_stays_wf(s: ManagerState, ev: Event, press: Press, geometry: Geometry)
    requires
        s.wf(),
    ensures
        event_state(s, ev).wf(),
        (ManagerState { drag: drag_from(press, geometry), ..s }).wf(),
{
}

/// A motion changes nothing in the manager, and while the pointer rests a
/// move drag keeps asking for the same position: the commands for the
/// window as it was before the first motion and as it is after it, moved
/// but of the same size, are the same.
pub proof fn lemma_move_repeats(
    s: ManagerState,
    pointer: Pointer,
    before: Geometry,
    after: Geometry,
)
    requires
        s.drag.is_some(),
        s.drag.unwrap().mode == DragMode::Move,
        after.width == before.width,
        after.height == before.height,
    ensures
        event_state(s, Event::MotionNotify) == s,
        drag_commands(s.drag, s.screen, pointer, after) == drag_commands(
            s.drag,
            s.screen,
            pointer,
            before,
        ),
{
}

/// A move drag issues one move and a flush, and on a screen that the
/// bordered window fits the move keeps the whole bordered window on it:
/// neither coordinate is negative, and neither is beyond the last position
/// at which the bordered window still ends on the screen.
pub proof fn lemma_move_command_on_screen(
    session: DragSession,
    screen: ScreenInfo,
    pointer: Pointer,
    geometry: Geometry,
)
    requires
        session.mode == DragMode::Move,
        bordered(geometry.width as int) <= screen.width,
        bordered(geometry.height as int) <= screen.height,
    ensures
        ({
            let (x, y) = move_target_spec(
                session.off_x as int,
                session.off_y as int,
                pointer,
                geometry,
                screen,
            );
            &&& 0 <= x <= screen.width - bordered(geometry.width as int)
            &&& 0 <= y <= screen.height - bordered(geometry.height as int)
            &&& drag_commands(Some(session), screen, pointer, geometry) == seq![
                Command::MoveTo { window: session.window, x: x as i32, y: y as i32 },
                Command::Flush,
            ]
        }),
{
    lemma_move_stays_on_screen(
        session.off_x as int,
        session.off_y as int,
        pointer,
        geometry,
        screen,
    );
}

/// A resize drag issues nothing when the candidate width or height is
/// below `MIN_SIZE`; otherwise it issues one resize to exactly the
/// candidate size, which is at least `MIN_SIZE` both ways, and a flush.
pub proof fn lemma_resize_respects_floor(
    session: DragSession,
    screen: ScreenInfo,
    pointer: Pointer,
    geometry: Geometry,
)
    requires
        session.mode == DragMode::Resize,
    ensures
        ({
            let w = resize_axis_spec(pointer.root_x as int, geometry.x as int);
            let h = resize_axis_spec(pointer.root_y as int, geometry.y as int);
            let commands = drag_commands(Some(session), screen, pointer, geometry);
            if w < MIN_SIZE || h < MIN_SIZE {
                commands == Seq::<Command>::empty()
            } else {
                &&& w <= u32::MAX
                &&& h <= u32::MAX
                &&& commands == seq![
                    Command::ResizeTo { window: session.window, width: w as u32, height: h as u32 },
                    Command::Flush,
                ]
            }
        }),
{
}

/// A button release ends the drag whatever the state was, touches nothing
/// else, and issues one pointer release followed by a flush. Without a
/// drag in progress the state is left exactly as it was.
pub proof fn lemma_release_clears_drag(s: ManagerState)
    ensures
        event_state(s, Event::ButtonRelease).drag.is_none(),
        event_state(s, Event::ButtonRelease).windows == s.windows,
        event_state(s, Event::ButtonRelease).screen == s.screen,
        event_commands(s, Event::ButtonRelease) == seq![Command::UngrabPointer, Command::Flush],
        event_followup(s, Event::ButtonRelease) == Followup::Done,
        s.drag.is_none() ==> event_state(s, Event::ButtonRelease) == s,
{
}

/// A destruction notice removes the window from the registry and keeps
/// every other entry as it was; the count falls by one if the window was
/// tracked and stays if it was not. A second notice for the same window
/// changes nothing: neither the state nor the commands, of which there
/// are none.
pub proof fn lemma_destroy_idempotent(s: ManagerState, window: u32)
    ensures
        !event_state(s, Event::DestroyNotify { window }).windows.contains_key(window),
        event_state(event_state(s, Event::DestroyNotify { window }), Event::DestroyNotify { window })
            == event_state(s, Event::DestroyNotify { window }),
        event_commands(s, Event::DestroyNotify { window }) == Seq::<Command>::empty(),
        event_followup(s, Event::DestroyNotify { window }) == Followup::Done,
        forall|other: u32|
            other != window ==> (#[trigger] event_state(
                s,
                Event::DestroyNotify { window },
            ).windows.contains_key(other) <==> s.windows.contains_key(other)),
        forall|other: u32|
            other != window && s.windows.contains_key(other) ==> #[trigger] event_state(
                s,
                Event::DestroyNotify { window },
            ).windows[other] == s.windows[other],
        s.windows.dom().finite() && s.windows.contains_key(window) ==> event_state(
            s,
            Event::DestroyNotify { window },
        ).windows.len() == s.windows.len() - 1,
        s.windows.dom().finite() && !s.windows.contains_key(window) ==> event_state(
            s,
            Event::DestroyNotify { window },
        ).windows.len() == s.windows.len(),
{
    let once = event_state(s, Event::DestroyNotify { window });
    let twice = event_state(once, Event::DestroyNotify { window });
    assert(twice.windows =~= once.windows);
    if s.windows.dom().finite() {
        if s.windows.contains_key(window) {
            assert(once.windows.dom() =~= s.windows.dom().remove(window));
        } else {
            assert(once.windows.dom() =~= s.windows.dom());
        }
    }
}

/// A creation notice adds the window to the registry under its own
/// identifier; the count grows by one if the window was not tracked and
/// stays if it was, so that afterwards at least one window is tracked.
pub proof fn lemma_create_tracks(s: ManagerState, window: u32)
    requires
        s.windows.dom().finite(),
    ensures
        event_state(s, Event::CreateNotify { window }).windows.contains_key(window),
        event_state(s, Event::CreateNotify { window }).windows[window] == (Window {
            x_window: window,
        }),
        s.windows.contains_key(window) ==> event_state(
            s,
            Event::CreateNotify { window },
        ).windows.len() == s.windows.len(),
        !s.windows.contains_key(window) ==> event_state(
            s,
            Event::CreateNotify { window },
        ).windows.len() == s.windows.len() + 1,
        event_state(s, Event::CreateNotify { window }).windows.len() >= 1,
{
    let after = event_state(s, Event::CreateNotify { window });
    assert(after.windows.dom() =~= s.windows.dom().insert(window));
    if s.windows.contains_key(window) {
        assert(after.windows.dom() =~= s.windows.dom());
    }
}

/// Whatever the manager issues in answer to an event, a motion during a
/// drag or the startup enumeration, it ends with a flush: the server has
/// seen every command before the manager waits again.
pub proof fn lemma_commands_end_with_flush(
    s: ManagerState,
    ev: Event,
    pointer: Pointer,
    geometry: Geometry,
    reports: Seq<ChildReport>,
)
    ensures
        event_commands(s, ev).len() > 0 ==> event_commands(s, ev).last() == Command::Flush,
        drag_commands(s.drag, s.screen, pointer, geometry).len() > 0 ==> drag_commands(
            s.drag,
            s.screen,
            pointer,
            geometry,
        ).last() == Command::Flush,
        adoption_commands(reports).push(Command::Flush).last() == Command::Flush,
        startup_commands(s.screen.root).last() == Command::Flush,
{
}

/// What an event may touch: the screen never changes; only a button
/// release changes the drag session; only creation and destruction notices
/// change the registry. In particular a motion changes nothing, and a
/// destruction notice leaves the drag session alone, also where the
/// destroyed window is the one being dragged.
pub proof fn lemma_event_frame(s: ManagerState, ev: Event)
    ensures
        event_state(s, ev).screen == s.screen,
        !(ev is ButtonRelease) ==> event_state(s, ev).drag == s.drag,
        !(ev is CreateNotify) && !(ev is DestroyNotify) ==> event_state(s, ev).windows == s.windows,
        ev is MotionNotify ==> event_state(s, ev) == s,
        ev is MotionNotify ==> event_commands(s, ev).len() == 0,
{
}

/// The pointer is released on a button release and on no other event.
pub proof fn lemma_ungrab_only_on_release(s: ManagerState, ev: Event)
    ensures
        event_commands(s, ev).contains(Command::UngrabPointer) <==> ev is ButtonRelease,
{
    let commands = event_commands(s, ev);
    if ev is ButtonRelease {
        assert(commands[0] == Command::UngrabPointer);
    } else {
        assert forall|i: int| 0 <= i < commands.len() implies commands[i]
            != Command::UngrabPointer by {}
    }
}

} // verus!
