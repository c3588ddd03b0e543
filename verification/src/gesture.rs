//! The drag state machine behind the global mouse hook.
//!
//! The hook hands each mouse event to [`AppState::handle_mouse`] together with
//! what it learnt from the system for that event (which keys are down, which
//! window is under the cursor, whether the dragged window still exists). The
//! state machine decides the next state, whether the event is consumed, and
//! which window operation the hook performs.

use vstd::prelude::*;

use crate::config::{held, modifiers_held, KeysDown, Modifier};
use crate::geometry::{
    drag_fits, drag_in_range, drag_rect, drag_result, fits_i32, grab_edges, grab_fits,
    grab_in_range, no_edges, resize_edges_for_point, Rect, ResizeEdges, MIN_SIZE,
};
use crate::text::str_eq;

verus! {

/// A cursor position in physical screen pixels.
#[derive(Clone, Copy, PartialEq, Eq, Debug, Structural)]
pub struct Point {
    pub x: i32,
    pub y: i32,
}

/// The gesture in progress.
#[derive(Clone, Copy, PartialEq, Eq, Debug, Structural)]
pub enum Mode {
    /// Left button: the window follows the cursor.
    Move,
    /// Right button: the grabbed edges follow the cursor.
    Resize,
}

/// What is captured at the moment a drag begins, used to compute the window
/// geometry on every later mouse move.
#[derive(Clone, Copy, PartialEq, Eq, Debug, Structural)]
pub struct Drag {
    /// Handle of the dragged top-level window.
    pub window: usize,
    pub mode: Mode,
    /// Cursor position when the button went down.
    pub start: Point,
    /// Window rectangle when the button went down.
    pub orig: Rect,
    /// Edges that follow the cursor (none for a move).
    pub edges: ResizeEdges,
}

/// All mutable application state.
#[derive(Clone, Copy, PartialEq, Eq, Debug, Structural)]
pub struct AppState {
    /// Gestures are recognised at all.
    pub enabled: bool,
    /// Keys that must be held to start a gesture.
    pub modifier: Modifier,
    /// Raise the window (without activating it) when a gesture starts.
    pub bring_to_front: bool,
    /// The gesture in progress, if any.
    pub drag: Option<Drag>,
}

/// The top-level window under the cursor when a button went down.
#[derive(Clone, Copy, PartialEq, Eq, Debug, Structural)]
pub struct TargetWindow {
    pub window: usize,
    /// The window is maximized; such windows are left alone.
    pub maximized: bool,
    /// Its bounds, or `None` when they could not be read.
    pub rect: Option<Rect>,
}

/// What the hook does when a gesture starts.
#[derive(Clone, Copy, PartialEq, Eq, Debug, Structural)]
pub struct DragStart {
    pub window: usize,
    /// Raise the window in Z-order without activating it.
    pub raise: bool,
    /// Show the silhouette over this rectangle.
    pub overlay: Rect,
}

/// The result of a mouse move for the gesture in progress.
#[derive(Clone, Copy, PartialEq, Eq, Debug, Structural)]
pub enum DragUpdate {
    /// No gesture is in progress.
    Idle,
    /// The dragged window is gone: the gesture was dropped, hide the overlay.
    Abandoned,
    /// Reposition the window (and the overlay) to `rect`.
    Place { window: usize, rect: Rect },
}

/// A mouse event as the hook sees it, with the facts gathered for it.
#[derive(Clone, Copy, PartialEq, Eq, Debug, Structural)]
pub enum HookEvent {
    /// Left (`Move`) or right (`Resize`) button pressed at `pt`. `target` need
    /// only be looked up when [`AppState::accepts_gesture`] holds for `keys`.
    ButtonDown { mode: Mode, pt: Point, keys: KeysDown, target: Option<TargetWindow> },
    /// The cursor moved to `pt`; `window_alive` tells whether the window of
    /// the gesture in progress still exists.
    Moved { pt: Point, window_alive: bool },
    /// Left (`Move`) or right (`Resize`) button released.
    ButtonUp { mode: Mode },
    /// Any other mouse event.
    Other,
}

/// The window operation that the hook performs for an event.
#[derive(Clone, Copy, PartialEq, Eq, Debug, Structural)]
pub enum HookEffect {
    Nothing,
    /// A gesture started.
    Start(DragStart),
    /// Reposition the dragged window and the overlay.
    Place { window: usize, rect: Rect },
    /// Hide the overlay.
    Hide,
}

/// The hook's answer for one event.
#[derive(Clone, Copy, PartialEq, Eq, Debug, Structural)]
pub struct HookReply {
    /// Consume the event instead of passing it on.
    pub swallow: bool,
    pub effect: HookEffect,
}

/// The state at startup: enabled, Ctrl+Alt, bring to front, no gesture.
pub open spec fn initial_state() -> AppState {
    AppState { enabled: true, modifier: Modifier::CtrlAlt, bring_to_front: true, drag: None }
}

/// The drag that a button press starts on `target`, if any: gestures are on,
/// none is in progress, the modifier is held, and there is a window that is
/// not maximized and whose bounds are known.
pub open spec fn begun_drag(
    s: AppState,
    mode: Mode,
    pt: Point,
    keys: KeysDown,
    target: Option<TargetWindow>,
) -> Option<Drag> {
    match target {
        Some(t) => match t.rect {
            Some(r) => if s.accepts(keys) && !t.maximized {
                Some(
                    Drag {
                        window: t.window,
                        mode,
                        start: pt,
                        orig: r,
                        edges: if mode == Mode::Resize {
                            grab_edges(r, pt.x as int, pt.y as int)
                        } else {
                            no_edges()
                        },
                    },
                )
            } else {
                None
            },
            None => None,
        },
        None => None,
    }
}

/// A button press computes without overflow. Only a resize press that is
/// accepted, on a window that is not maximized and whose bounds are known,
/// classifies the grab; every other press computes nothing.
pub open spec fn begin_in_range(
    s: AppState,
    mode: Mode,
    pt: Point,
    keys: KeysDown,
    target: Option<TargetWindow>,
) -> bool {
    match target {
        Some(t) => match t.rect {
            Some(r) => s.accepts(keys) && !t.maximized && mode == Mode::Resize ==> grab_in_range(
                r,
                pt.x as int,
                pt.y as int,
            ),
            None => true,
        },
        None => true,
    }
}

/// The cursor delta of `pt` from the drag's start.
pub open spec fn delta_x(d: Drag, pt: Point) -> int {
    pt.x - d.start.x
}

/// The cursor delta of `pt` from the drag's start.
pub open spec fn delta_y(d: Drag, pt: Point) -> int {
    pt.y - d.start.y
}

/// Where the dragged window goes when the cursor is at `pt`.
pub open spec fn drag_target(d: Drag, pt: Point) -> Rect {
    drag_rect(d.orig, d.edges, d.mode == Mode::Resize, delta_x(d, pt), delta_y(d, pt))
}

/// A mouse move during drag `d` computes without overflow.
pub open spec fn step_in_range(d: Drag, pt: Point) -> bool {
    &&& fits_i32(delta_x(d, pt))
    &&& fits_i32(delta_y(d, pt))
    &&& drag_in_range(d.orig, d.edges, d.mode == Mode::Resize, delta_x(d, pt), delta_y(d, pt))
}

impl AppState {
    /// `self` with the gesture slot replaced.
    pub open spec fn with_drag(self, d: Option<Drag>) -> AppState {
        AppState { drag: d, ..self }
    }

    /// A gesture may start with `keys` down.
    pub open spec fn accepts(self, keys: KeysDown) -> bool {
        self.enabled && self.drag is None && held(self.modifier, keys)
    }

    /// A mouse move to `pt` computes without overflow.
    pub open spec fn update_in_range(self, pt: Point, window_alive: bool) -> bool {
        match self.drag {
            Some(d) => window_alive ==> step_in_range(d, pt),
            None => true,
        }
    }

    /// The state and result after a mouse move to `pt`.
    pub open spec fn after_update(self, pt: Point, window_alive: bool) -> (AppState, DragUpdate) {
        match self.drag {
            None => (self, DragUpdate::Idle),
            Some(d) => if window_alive {
                (self, DragUpdate::Place { window: d.window, rect: drag_target(d, pt) })
            } else {
                (self.with_drag(None), DragUpdate::Abandoned)
            },
        }
    }

    /// The state after a release of the `mode` button, and whether it ended
    /// the gesture in progress.
    pub open spec fn after_end(self, mode: Mode) -> (AppState, bool) {
        match self.drag {
            Some(d) => if d.mode == mode {
                (self.with_drag(None), true)
            } else {
                (self, false)
            },
            None => (self, false),
        }
    }

    /// `ev` computes without overflow.
    pub open spec fn hook_in_range(self, ev: HookEvent) -> bool {
        match ev {
            HookEvent::ButtonDown { mode, pt, keys, target } => begin_in_range(
                self,
                mode,
                pt,
                keys,
                target,
            ),
            HookEvent::Moved { pt, window_alive } => self.update_in_range(pt, window_alive),
            _ => true,
        }
    }

    /// The state and the hook's answer after event `ev`.
    pub open spec fn after_event(self, ev: HookEvent) -> (AppState, HookReply) {
        match ev {
            HookEvent::ButtonDown { mode, pt, keys, target } => match begun_drag(
                self,
                mode,
                pt,
                keys,
                target,
            ) {
                Some(d) => (
                    self.with_drag(Some(d)),
                    HookReply {
                        swallow: true,
                        effect: HookEffect::Start(
                            DragStart { window: d.window, raise: self.bring_to_front, overlay: d.orig },
                        ),
                    },
                ),
                None => (self, HookReply { swallow: false, effect: HookEffect::Nothing }),
            },
            HookEvent::Moved { pt, window_alive } => {
                let (next, u) = self.after_update(pt, window_alive);
                (
                    next,
                    HookReply {
                        swallow: false,
                        effect: match u {
                            DragUpdate::Idle => HookEffect::Nothing,
                            DragUpdate::Abandoned => HookEffect::Hide,
                            DragUpdate::Place { window, rect } => HookEffect::Place { window, rect },
                        },
                    },
                )
            },
            HookEvent::ButtonUp { mode } => {
                let (next, ended) = self.after_end(mode);
                (
                    next,
                    HookReply {
                        swallow: ended,
                        effect: if ended {
                            HookEffect::Hide
                        } else {
                            HookEffect::Nothing
                        },
                    },
                )
            },
            HookEvent::Other => (self, HookReply { swallow: false, effect: HookEffect::Nothing }),
        }
    }

    /// The state at startup.
    pub fn new() -> (s: Self)
        ensures
            s == initial_state(),
    {
        AppState { enabled: true, modifier: Modifier::CtrlAlt, bring_to_front: true, drag: None }
    }

    /// Whether a gesture may start with `keys` down: gestures are on, none is
    /// in progress and every key of the modifier is held.
    pub fn accepts_gesture(&self, keys: KeysDown) -> (r: bool)
        ensures
            r == self.accepts(keys),
    {
        self.enabled && self.drag.is_none() && modifiers_held(self.modifier, keys)
    }

    /// The window of the gesture in progress.
    pub fn drag_window(&self) -> (r: Option<usize>)
        ensures
            r == (match self.drag {
                Some(d) => Some(d.window),
                None => None,
            }),
    {
        match self.drag {
            Some(d) => Some(d.window),
            None => None,
        }
    }

    /// Try to start a gesture. Returns what the hook must do only if a drag
    /// actually began on a manageable window; otherwise nothing changes.
    pub fn begin_drag(
        &mut self,
        mode: Mode,
        pt: Point,
        keys: KeysDown,
        target: Option<TargetWindow>,
    ) -> (r: Option<DragStart>)
        requires
            begin_in_range(*old(self), mode, pt, keys, target),
        ensures
            *final(self) == old(self).with_drag(
                match begun_drag(*old(self), mode, pt, keys, target) {
                    Some(d) => Some(d),
                    None => old(self).drag,
                },
            ),
            r == (match begun_drag(*old(self), mode, pt, keys, target) {
                Some(d) => Some(
                    DragStart { window: d.window, raise: old(self).bring_to_front, overlay: d.orig },
                ),
                None => None,
            }),
            r is Some ==> old(self).enabled && old(self).drag is None && held(
                old(self).modifier,
                keys,
            ),
            match r {
                Some(ds) => {
                    &&& ds.raise == old(self).bring_to_front
                    &&& target == Some(
                        TargetWindow { window: ds.window, maximized: false, rect: Some(ds.overlay) },
                    )
                    &&& final(self).drag == Some(
                        Drag {
                            window: ds.window,
                            mode,
                            start: pt,
                            orig: ds.overlay,
                            edges: final(self).drag->0.edges,
                        },
                    )
                },
                None => *final(self) == *old(self),
            },
    {
        if !self.accepts_gesture(keys) {
            return None;
        }
        let t = match target {
            Some(t) => t,
            None => return None,
        };
        // Leave maximized windows alone.
        if t.maximized {
            return None;
        }
        let orig = match t.rect {
            Some(r) => r,
            None => return None,
        };
        let edges = match mode {
            Mode::Resize => resize_edges_for_point(orig, pt.x, pt.y),
            Mode::Move => ResizeEdges::default(),
        };
        self.drag = Some(Drag { window: t.window, mode, start: pt, orig, edges });
        Some(DragStart { window: t.window, raise: self.bring_to_front, overlay: orig })
    }

    /// Apply the cursor position `pt` to the gesture in progress. A gesture
    /// whose window no longer exists is dropped.
    pub fn update_drag(&mut self, pt: Point, window_alive: bool) -> (r: DragUpdate)
        requires
            old(self).update_in_range(pt, window_alive),
        ensures
            (*final(self), r) == old(self).after_update(pt, window_alive),
    {
        let d = match self.drag {
            Some(d) => d,
            None => return DragUpdate::Idle,
        };
        if !window_alive {
            self.drag = None;
            return DragUpdate::Abandoned;
        }
        let dx = pt.x - d.start.x;
        let dy = pt.y - d.start.y;
        let rect = drag_result(d.orig, d.edges, d.mode == Mode::Resize, dx, dy);
        DragUpdate::Place { window: d.window, rect }
    }

    /// End the gesture if the released button matches it.
    pub fn end_drag(&mut self, mode: Mode) -> (r: bool)
        ensures
            (*final(self), r) == old(self).after_end(mode),
    {
        match self.drag {
            Some(d) => {
                if d.mode == mode {
                    self.drag = None;
                    true
                } else {
                    false
                }
            },
            None => false,
        }
    }

    /// Whether [`AppState::handle_mouse`] accepts `ev`: no intermediate
    /// coordinate of it overflows.
    pub fn event_fits(&self, ev: &HookEvent) -> (r: bool)
        ensures
            r == self.hook_in_range(*ev),
    {
        match *ev {
            HookEvent::ButtonDown { mode, pt, keys, target } => match target {
                Some(t) => match t.rect {
                    Some(rect) => {
                        if !self.accepts_gesture(keys) || t.maximized {
                            return true;
                        }
                        match mode {
                            Mode::Resize => grab_fits(rect, pt.x, pt.y),
                            Mode::Move => true,
                        }
                    },
                    None => true,
                },
                None => true,
            },
            HookEvent::Moved { pt, window_alive } => match self.drag {
                Some(d) => {
                    if !window_alive {
                        return true;
                    }
                    let dx: i64 = pt.x as i64 - d.start.x as i64;
                    let dy: i64 = pt.y as i64 - d.start.y as i64;
                    if dx < -2147483648i64 || dx > 2147483647i64 || dy < -2147483648i64 || dy
                        > 2147483647i64 {
                        return false;
                    }
                    drag_fits(d.orig, d.edges, d.mode == Mode::Resize, dx as i32, dy as i32)
                },
                None => true,
            },
            _ => true,
        }
    }

    /// Handle one mouse event: a button press may start a gesture, a move
    /// repositions the dragged window, and a release of the gesture's own
    /// button ends it. Only the press that starts a gesture and the release
    /// that ends it are consumed; a mouse move is always passed on, since
    /// consuming it would freeze the cursor.
    pub fn handle_mouse(&mut self, ev: HookEvent) -> (r: HookReply)
        requires
            old(self).hook_in_range(ev),
        ensures
            (*final(self), r) == old(self).after_event(ev),
            ev is Moved ==> !r.swallow,
            final(self).enabled == old(self).enabled,
            final(self).modifier == old(self).modifier,
            final(self).bring_to_front == old(self).bring_to_front,
            match r.effect {
                HookEffect::Start(ds) => {
                    &&& ds.raise == old(self).bring_to_front
                    &&& r.swallow
                    &&& ev is ButtonDown
                    &&& old(self).drag is None
                    &&& final(self).drag matches Some(d) && d.window == ds.window && d.orig
                        == ds.overlay
                },
                _ => true,
            },
            ev is ButtonDown ==> (r.swallow <==> r.effect is Start),
    {
        match ev {
            HookEvent::ButtonDown { mode, pt, keys, target } => {
                match self.begin_drag(mode, pt, keys, target) {
                    Some(start) => HookReply { swallow: true, effect: HookEffect::Start(start) },
                    None => HookReply { swallow: false, effect: HookEffect::Nothing },
                }
            },
            HookEvent::Moved { pt, window_alive } => {
                let effect = match self.update_drag(pt, window_alive) {
                    DragUpdate::Idle => HookEffect::Nothing,
                    DragUpdate::Abandoned => HookEffect::Hide,
                    DragUpdate::Place { window, rect } => HookEffect::Place { window, rect },
                };
                HookReply { swallow: false, effect }
            },
            HookEvent::ButtonUp { mode } => {
                if self.end_drag(mode) {
                    HookReply { swallow: true, effect: HookEffect::Hide }
                } else {
                    HookReply { swallow: false, effect: HookEffect::Nothing }
                }
            },
            HookEvent::Other => HookReply { swallow: false, effect: HookEffect::Nothing },
        }
    }
}

/// Window classes that are never moved or resized: the desktop and the
/// shell's taskbars.
pub open spec fn shell_class(name: Seq<char>) -> bool {
    name == "Shell_TrayWnd"@ || name == "Shell_SecondaryTrayWnd"@ || name == "Progman"@ || name
        == "WorkerW"@
}

/// Whether `name` is the class of the desktop or of a shell taskbar.
pub fn is_shell_class(name: &str) -> (r: bool)
    ensures
        r == shell_class(name@),
        r <==> (name@ == "Shell_TrayWnd"@ || name@ == "Shell_SecondaryTrayWnd"@ || name@
            == "Progman"@ || name@ == "WorkerW"@),
{
    str_eq(name, "Shell_TrayWnd") || str_eq(name, "Shell_SecondaryTrayWnd") || str_eq(
        name,
        "Progman",
    ) || str_eq(name, "WorkerW")
}

/// The window handle that stands for "no window".
pub open spec fn no_window() -> usize {
    0
}

/// Decide whether the top-level window `root` found under the cursor may be
/// dragged: it must be a window, and neither the desktop window, nor the
/// shell window, nor of a shell class.
pub fn manageable_root(root: usize, desktop: usize, shell: usize, root_class: &str) -> (r: Option<
    usize,
>)
    ensures
        r == (if root == no_window() || root == desktop || root == shell || shell_class(
            root_class@,
        ) {
            None
        } else {
            Some(root)
        }),
        root != 0 && root != desktop && root != shell && root_class@ != "Shell_TrayWnd"@
            && root_class@ != "Shell_SecondaryTrayWnd"@ && root_class@ != "Progman"@
            && root_class@ != "WorkerW"@ ==> r == Some(root),
        r is Some ==> r == Some(root) && root != 0 && root != desktop && root != shell,
{
    if root == 0 || root == desktop || root == shell || is_shell_class(root_class) {
        None
    } else {
        Some(root)
    }
}

/// A button press while a gesture is in progress changes nothing and is
/// passed on: there is never more than one gesture.
pub proof fn lemma_single_gesture(s: AppState, ev: HookEvent)
    requires
        s.drag is Some,
        ev is ButtonDown,
    ensures
        s.after_event(ev).0 == s,
        !s.after_event(ev).1.swallow,
{
}

/// A release ends only a gesture of its own button: releasing the other
/// button leaves the gesture running.
pub proof fn lemma_release_matches_mode(s: AppState, mode: Mode)
    requires
        s.drag matches Some(d) && d.mode != mode,
    ensures
        s.after_event(HookEvent::ButtonUp { mode }).0 == s,
        !s.after_event(HookEvent::ButtonUp { mode }).1.swallow,
{
}

/// A gesture that starts and is released with the same button leaves the
/// state as it was before the press.
pub proof fn lemma_press_release_restores(
    s: AppState,
    mode: Mode,
    pt: Point,
    keys: KeysDown,
    target: Option<TargetWindow>,
)
    requires
        begun_drag(s, mode, pt, keys, target) is Some,
    ensures
        s.after_event(HookEvent::ButtonDown { mode, pt, keys, target }).0.after_event(
            HookEvent::ButtonUp { mode },
        ).0 == s,
{
    assert(s.drag is None);
}

/// A gesture that starts raises its window exactly when "bring window to
/// front" is on, shows the overlay over the window's bounds at the press, and
/// only starts on a window that is not maximized, with gestures on, no gesture
/// in progress and the modifier held.
pub proof fn lemma_start_follows_settings(s: AppState, ev: HookEvent)
    ensures
        match s.after_event(ev).1.effect {
            HookEffect::Start(ds) => match ev {
                HookEvent::ButtonDown { mode, pt, keys, target } => {
                    &&& ds.raise == s.bring_to_front
                    &&& s.enabled
                    &&& s.drag is None
                    &&& held(s.modifier, keys)
                    &&& target == Some(
                        TargetWindow { window: ds.window, maximized: false, rect: Some(ds.overlay) },
                    )
                    &&& s.after_event(ev).1.swallow
                },
                _ => false,
            },
            _ => true,
        },
{
}

/// Exactly four window classes are shell classes; every other class name,
/// such as a file-explorer window's, leaves a window manageable.
pub proof fn lemma_shell_classes_exact(name: Seq<char>)
    ensures
        shell_class(name) <==> (name == "Shell_TrayWnd"@ || name == "Shell_SecondaryTrayWnd"@
            || name == "Progman"@ || name == "WorkerW"@),
{
}

/// Returning the cursor to where the drag started puts the window back where
/// it was, for a move always and for a resize when the window was at least
/// [`MIN_SIZE`] in both directions.
pub proof fn lemma_back_to_start(d: Drag)
    requires
        d.mode == Mode::Resize ==> d.orig.w >= MIN_SIZE && d.orig.h >= MIN_SIZE,
    ensures
        drag_target(d, d.start) == d.orig,
{
}

} // verus!
