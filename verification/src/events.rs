//! What the window reports, and what the handler remembers of it.

use std::collections::HashMap;
use vstd::prelude::*;

verus! {

/// The key code of Escape. A frame in which it goes down asks the window
/// to close.
pub const KEY_ESCAPE: i32 = 256;

/// What happened to a key or a mouse button.
#[derive(Clone, Copy, PartialEq, Eq, Debug)]
pub enum Action {
    Release,
    Press,
    Repeat,
}

/// The mouse buttons that the handler tells apart.
#[derive(Clone, Copy, PartialEq, Eq, Debug)]
pub enum MouseButton {
    Left,
    Right,
    Other,
}

/// One message of the window. `V` is the kind of value that a cursor
/// position or a scroll offset arrives as.
pub enum InputEvent<V> {
    Key { key: i32, action: Action },
    CursorPos(V),
    MouseButton { button: MouseButton, action: Action },
    Scroll(V),
    FramebufferSize(i32, i32),
    /// Any message that the handler has no use for.
    Other,
}

/// What is known of the keyboard, the mouse and the window.
pub struct EventHandler<V> {
    /// The keys that are down, each with the number of keys that were down
    /// when it went down.
    pub keys_pressed: HashMap<i32, usize>,
    pub mouse_pos: V,
    pub scroll: V,
    pub width: i32,
    pub height: i32,
    pub lmb: bool,
    pub rmb: bool,
}

/// What an event handler remembers, as plain mathematics.
pub struct EventState<V> {
    pub keys_pressed: Map<i32, usize>,
    pub mouse_pos: V,
    pub scroll: V,
    pub width: i32,
    pub height: i32,
    pub lmb: bool,
    pub rmb: bool,
}

impl<V> View for EventHandler<V> {
    type V = EventState<V>;

    open spec fn view(&self) -> EventState<V> {
        EventState {
            keys_pressed: self.keys_pressed@,
            mouse_pos: self.mouse_pos,
            scroll: self.scroll,
            width: self.width,
            height: self.height,
            lmb: self.lmb,
            rmb: self.rmb,
        }
    }
}

impl<V> EventHandler<V> {
    /// A handler that has seen nothing yet: no key down, no button down, a
    /// window of one by one.
    pub fn new(mouse_pos: V, scroll: V) -> (handler: Self)
        ensures
            handler@ == (EventState {
                keys_pressed: Map::empty(),
                mouse_pos,
                scroll,
                width: 1,
                height: 1,
                lmb: false,
                rmb: false,
            }),
    {
        Self {
            keys_pressed: HashMap::new(),
            mouse_pos,
            scroll,
            width: 1,
            height: 1,
            rmb: false,
            lmb: false,
        }
    }

    /// Notes that `key` is down, with the number of keys that were down
    /// before it.
    pub fn on_key_press(&mut self, key: i32)
        ensures
            final(self)@ == (EventState {
                keys_pressed: old(self)@.keys_pressed.insert(
                    key,
                    old(self)@.keys_pressed.len() as usize,
                ),
                ..old(self)@
            }),
    {
        let key_handle: usize = self.keys_pressed.len();
        self.keys_pressed.insert(key, key_handle);
    }

    /// Forgets that `key` was down.
    pub fn on_key_release(&mut self, key: i32)
        ensures
            final(self)@ == (EventState {
                keys_pressed: old(self)@.keys_pressed.remove(key),
                ..old(self)@
            }),
    {
        self.keys_pressed.remove(&key);
    }

    pub fn on_mouse_move(&mut self, position: V)
        ensures
            final(self)@ == (EventState { mouse_pos: position, ..old(self)@ }),
    {
        self.mouse_pos = position;
    }

    pub fn on_lmb_press(&mut self)
        ensures
            final(self)@ == (EventState { lmb: true, ..old(self)@ }),
    {
        self.lmb = true;
    }

    pub fn on_lmb_release(&mut self)
        ensures
            final(self)@ == (EventState { lmb: false, ..old(self)@ }),
    {
        self.lmb = false;
    }

    pub fn on_rmb_press(&mut self)
        ensures
            final(self)@ == (EventState { rmb: true, ..old(self)@ }),
    {
        self.rmb = true;
    }

    pub fn on_rmb_release(&mut self)
        ensures
            final(self)@ == (EventState { rmb: false, ..old(self)@ }),
    {
        self.rmb = false;
    }

    pub fn on_scroll_change(&mut self, change: V)
        ensures
            final(self)@ == (EventState { scroll: change, ..old(self)@ }),
    {
        self.scroll = change;
    }

    /// Takes the new size of the framebuffer in pixels.
    pub fn on_window_resize(&mut self, w: i32, h: i32)
        ensures
            final(self)@ == (EventState { width: w, height: h, ..old(self)@ }),
    {
        self.width = w;
        self.height = h;
    }

    /// Takes one message of the window in and says whether it asks the
    /// window to close.
    pub fn handle_event(&mut self, event: InputEvent<V>) -> (close: bool)
        ensures
            final(self)@ == old(self)@.after(event),
            close == asks_to_close(event),
    {
        match event {
            InputEvent::Key { key, action } => {
                match action {
                    Action::Press => {
                        if key == KEY_ESCAPE {
                            return true;
                        }
                        self.on_key_press(key);
                    },
                    Action::Release => {
                        self.on_key_release(key);
                    },
                    Action::Repeat => {},
                }
            },
            InputEvent::CursorPos(position) => {
                self.on_mouse_move(position);
            },
            InputEvent::MouseButton { button, action } => {
                match action {
                    Action::Press => {
                        match button {
                            MouseButton::Left => {
                                self.on_lmb_press();
                            },
                            MouseButton::Right => {
                                self.on_rmb_press();
                            },
                            MouseButton::Other => {},
                        }
                    },
                    Action::Release => {
                        match button {
                            MouseButton::Left => {
                                self.on_lmb_release();
                            },
                            MouseButton::Right => {
                                self.on_rmb_release();
                            },
                            MouseButton::Other => {},
                        }
                    },
                    Action::Repeat => {},
                }
            },
            InputEvent::Scroll(change) => {
                self.on_scroll_change(change);
            },
            InputEvent::FramebufferSize(w, h) => {
                self.on_window_resize(w, h);
            },
            InputEvent::Other => {},
        }
        false
    }

    /// A frame's worth of messages: the scroll offset goes back to `rest`,
    /// then the messages are taken in one after the other. Says whether
    /// any of them asks the window to close.
    pub fn update(&mut self, rest: V, events: Vec<InputEvent<V>>) -> (close: bool)
        ensures
            final(self)@ == (EventState { scroll: rest, ..old(self)@ }).after_all(events@),
            close == exists|i: int| 0 <= i < events@.len() && asks_to_close(#[trigger] events@[i]),
    {
        self.scroll = rest;
        let mut close = false;
        let ghost start = self@;
        for event in pending: events
            invariant
                pending.seq() == events@,
                self@ == start.after_all(events@.take(pending.index() as int)),
                close == exists|i: int| 0 <= i < pending.index() && asks_to_close(#[trigger] events@[i]),
        {
            let ghost seen = events@.take(pending.index() as int);
            let ghost seen_next = events@.take(pending.index() + 1);
            assert(seen_next.drop_last() =~= seen);
            assert(seen_next.last() == event);
            if self.handle_event(event) {
                close = true;
            }
        }
        assert(events@.take(events@.len() as int) =~= events@);
        close
    }
}

/// Whether `event` asks the window to close: Escape going down.
pub open spec fn asks_to_close<V>(event: InputEvent<V>) -> bool {
    event matches InputEvent::Key { key, action } && key == KEY_ESCAPE && action == Action::Press
}

impl<V> EventState<V> {
    /// The state after `event`. A key that goes down is noted with the
    /// number of keys that were down before it, except Escape, which is
    /// never noted; a key that goes up is struck out. The cursor, the
    /// scroll offset and the size of the window are taken as they come. The
    /// left and the right button are tracked, and nothing else changes
    /// anything.
    pub open spec fn after(self, event: InputEvent<V>) -> EventState<V> {
        match event {
            InputEvent::Key { key, action } => match action {
                Action::Press => if key == KEY_ESCAPE {
                    self
                } else {
                    EventState {
                        keys_pressed: self.keys_pressed.insert(key, self.keys_pressed.len() as usize),
                        ..self
                    }
                },
                Action::Release => EventState { keys_pressed: self.keys_pressed.remove(key), ..self },
                Action::Repeat => self,
            },
            InputEvent::CursorPos(position) => EventState { mouse_pos: position, ..self },
            InputEvent::MouseButton { button, action } => match (button, action) {
                (MouseButton::Left, Action::Press) => EventState { lmb: true, ..self },
                (MouseButton::Left, Action::Release) => EventState { lmb: false, ..self },
                (MouseButton::Right, Action::Press) => EventState { rmb: true, ..self },
                (MouseButton::Right, Action::Release) => EventState { rmb: false, ..self },
                _ => self,
            },
            InputEvent::Scroll(change) => EventState { scroll: change, ..self },
            InputEvent::FramebufferSize(w, h) => EventState { width: w, height: h, ..self },
            InputEvent::Other => self,
        }
    }

    /// Taking the messages of two frames in is taking them in as one.
    pub proof fn after_all_of_joined_frames(
        self,
        first: Seq<InputEvent<V>>,
        second: Seq<InputEvent<V>>,
    )
        ensures
            self.after_all(first + second) == self.after_all(first).after_all(second),
        decreases second.len(),
    {
        if second.len() == 0 {
            assert(first + second =~= first);
        } else {
            self.after_all_of_joined_frames(first, second.drop_last());
            assert((first + second).drop_last() =~= first + second.drop_last());
            assert((first + second).last() == second.last());
        }
    }

    /// The state after all of `events`, first to last.
    pub open spec fn after_all(self, events: Seq<InputEvent<V>>) -> EventState<V>
        decreases events.len(),
    {
        if events.len() == 0 {
            self
        } else {
            self.after_all(events.drop_last()).after(events.last())
        }
    }
}

} // verus!
