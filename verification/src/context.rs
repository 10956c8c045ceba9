//! The state of the window between frames: which keys and mouse buttons are
//! down, which were down a frame ago, whether the window is still wanted, and
//! the colour that the frame is cleared to.
//!
//! The window itself belongs to the program. Once a frame it hands over the
//! events that arrived, and asks what they amount to.

use vstd::prelude::*;
use crate::math::scalar::Scalar;
use crate::math::vec4::Vec4;
use crate::system::config::Config;

verus! {

/// The number of keys that are tracked: every key code is below it.
pub const KEY_COUNT: usize = 1024;

/// The number of mouse buttons that are tracked.
pub const MOUSE_BUTTON_COUNT: usize = 16;

/// What happened to a key or a button.
#[derive(Clone, Copy, Debug, PartialEq, Eq)]
pub enum Action {
    Release,
    Press,
    Repeat,
}

/// An event of the window, as far as the context reads it.
#[derive(Clone, Copy, Debug, PartialEq, Eq)]
pub enum WindowEvent {
    /// A key, by its code.
    Key(usize, Action),
    /// A mouse button, by its number.
    MouseButton(usize, Action),
    /// Anything else.
    Other,
}

impl WindowEvent {
    /// The key or button of the event is one that is tracked.
    pub open spec fn in_range(self) -> bool {
        match self {
            WindowEvent::Key(key, _) => key < KEY_COUNT,
            WindowEvent::MouseButton(button, _) => button < MOUSE_BUTTON_COUNT,
            WindowEvent::Other => true,
        }
    }
}

/// The keys that the context itself reacts to, by their codes.
#[derive(Clone, Copy, Debug, PartialEq, Eq)]
pub struct KeyBindings {
    /// Closes the window when pressed.
    pub quit: usize,
    /// Darkens the clear colour while down.
    pub darker: usize,
    /// Lightens the clear colour while down.
    pub lighter: usize,
}

/// What the events decide: the keys and buttons that are down, and whether the
/// window is still wanted.
pub struct Input {
    pub keys: Seq<bool>,
    pub buttons: Seq<bool>,
    pub running: bool,
}

/// The input after one more event. A press of the quit key closes the window
/// and is not recorded as a key that is down; any other press or release is
/// recorded; a repeated key changes nothing.
pub open spec fn input_after(input: Input, event: WindowEvent, quit: usize) -> Input {
    match event {
        WindowEvent::Key(key, Action::Press) => if key == quit {
            Input { running: false, ..input }
        } else {
            Input { keys: input.keys.update(key as int, true), ..input }
        },
        WindowEvent::Key(key, Action::Release) => Input {
            keys: input.keys.update(key as int, false),
            ..input
        },
        WindowEvent::MouseButton(button, Action::Press) => Input {
            buttons: input.buttons.update(button as int, true),
            ..input
        },
        WindowEvent::MouseButton(button, Action::Release) => Input {
            buttons: input.buttons.update(button as int, false),
            ..input
        },
        _ => input,
    }
}

/// The input after a run of events, taken in order.
pub open spec fn input_after_all(input: Input, events: Seq<WindowEvent>, quit: usize) -> Input
    decreases events.len(),
{
    if events.len() == 0 {
        input
    } else {
        input_after(input_after_all(input, events.drop_last(), quit), events.last(), quit)
    }
}

/// A hundredth: the step by which the clear colour changes per frame.
pub open spec fn color_step_spec<T: Scalar>() -> T {
    T::one_spec().over_spec(T::from_u32_spec(100))
}

/// `red` a step darker, and zero where the step would leave nothing positive.
pub open spec fn darker_spec<T: Scalar>(red: T) -> T {
    let lower = red.minus_spec(color_step_spec::<T>());
    if lower.is_positive_spec() {
        lower
    } else {
        T::zero_spec()
    }
}

/// `red` a step lighter, and one where the step would not stay below one.
pub open spec fn lighter_spec<T: Scalar>(red: T) -> T {
    let higher = red.plus_spec(color_step_spec::<T>());
    if T::one_spec().minus_spec(higher).is_positive_spec() {
        higher
    } else {
        T::one_spec()
    }
}

/// The red of the clear colour after a frame in which the keys `keys` are
/// down: darkened if the darker key is down, then lightened if the lighter key
/// is.
pub open spec fn red_after_frame<T: Scalar>(red: T, keys: Seq<bool>, bindings: KeyBindings) -> T {
    let dimmed = if keys[bindings.darker as int] {
        darker_spec(red)
    } else {
        red
    };
    if keys[bindings.lighter as int] {
        lighter_spec(dimmed)
    } else {
        dimmed
    }
}

/// The width and height of the window that a configuration asks for: its
/// members `iWindowWidth` and `iWindowHeight`, each cut to 32 bits.
pub open spec fn window_size_spec(conf: &Config) -> Option<(u32, u32)> {
    match (conf.u64_spec("iWindowWidth"@), conf.u64_spec("iWindowHeight"@)) {
        (Some(w), Some(h)) => Some(((w % 0x1_0000_0000) as u32, (h % 0x1_0000_0000) as u32)),
        _ => None,
    }
}

/// The window size that `conf` asks for, or `None` where it lacks one of the
/// two members or one of them is no unsigned number.
pub fn window_size(conf: &Config) -> (r: Option<(u32, u32)>)
    ensures
        r == window_size_spec(conf),
{
    match (conf.find_u64("iWindowWidth"), conf.find_u64("iWindowHeight")) {
        (Some(w), Some(h)) => Some(((w % 0x1_0000_0000) as u32, (h % 0x1_0000_0000) as u32)),
        _ => None,
    }
}

fn all_up(count: usize) -> (r: Vec<bool>)
    ensures
        r@ == Seq::new(count as nat, |i: int| false),
{
    let mut r: Vec<bool> = Vec::new();
    while r.len() < count
        invariant
            r@.len() <= count,
            forall|i: int| 0 <= i < r@.len() ==> !r@[i],
        decreases count - r@.len(),
    {
        r.push(false);
    }
    assert(r@ =~= Seq::new(count as nat, |i: int| false));
    r
}

/// The state of the window between frames.
pub struct Context<T> {
    window_width: u32,
    window_height: u32,
    bindings: KeyBindings,
    key_state: Vec<bool>,
    prev_key_state: Vec<bool>,
    mouse_state: Vec<bool>,
    prev_mouse_state: Vec<bool>,
    running: bool,
    clear_color: Vec4<T>,
}

impl<T: Scalar> Context<T> {
    /// The tables have their sizes and the bound keys are keys.
    pub closed spec fn wf(&self) -> bool {
        &&& self.key_state@.len() == KEY_COUNT
        &&& self.prev_key_state@.len() == KEY_COUNT
        &&& self.mouse_state@.len() == MOUSE_BUTTON_COUNT
        &&& self.prev_mouse_state@.len() == MOUSE_BUTTON_COUNT
        &&& self.bindings.quit < KEY_COUNT
        &&& self.bindings.darker < KEY_COUNT
        &&& self.bindings.lighter < KEY_COUNT
    }

    /// The width and the height of the window.
    pub closed spec fn window_size_spec(&self) -> (u32, u32) {
        (self.window_width, self.window_height)
    }

    /// The keys that the context reacts to.
    pub closed spec fn bindings_spec(&self) -> KeyBindings {
        self.bindings
    }

    /// What the events so far have decided.
    pub closed spec fn input_spec(&self) -> Input {
        Input { keys: self.key_state@, buttons: self.mouse_state@, running: self.running }
    }

    /// The keys that were down when the last frame began.
    pub closed spec fn prev_keys_spec(&self) -> Seq<bool> {
        self.prev_key_state@
    }

    /// The buttons that were down when the last frame began.
    pub closed spec fn prev_buttons_spec(&self) -> Seq<bool> {
        self.prev_mouse_state@
    }

    /// The colour that the frame is cleared to.
    pub closed spec fn clear_color_spec(&self) -> Vec4<T> {
        self.clear_color
    }

    /// The clear colour of a new context: a dark grey, a fifth of white.
    pub open spec fn default_clear_color_spec() -> Vec4<T> {
        let one = T::one_spec();
        let fifth = one.over_spec(T::from_u32_spec(5));
        Vec4 { x: fifth, y: fifth, z: fifth, w: one }
    }

    /// A well-formed context knows every tracked key and button.
    pub proof fn lemma_tables_are_full(&self)
        requires
            self.wf(),
        ensures
            self.input_spec().keys.len() == KEY_COUNT,
            self.input_spec().buttons.len() == MOUSE_BUTTON_COUNT,
            self.prev_keys_spec().len() == KEY_COUNT,
            self.prev_buttons_spec().len() == MOUSE_BUTTON_COUNT,
            self.bindings_spec().quit < KEY_COUNT,
            self.bindings_spec().darker < KEY_COUNT,
            self.bindings_spec().lighter < KEY_COUNT,
    {
    }

    /// The context of a window that has just been opened with the size that
    /// `conf` asks for: no key or button is down, the window is wanted, and the
    /// clear colour is the default. A configuration without a window size is a
    /// caller's error, and so is a binding to a key that is not tracked.
    pub fn new(conf: &Config, bindings: KeyBindings) -> (r: Context<T>)
        requires
            window_size_spec(conf) is Some,
            bindings.quit < KEY_COUNT,
            bindings.darker < KEY_COUNT,
            bindings.lighter < KEY_COUNT,
        ensures
            r.wf(),
            Some(r.window_size_spec()) == window_size_spec(conf),
            r.bindings_spec() == bindings,
            r.input_spec() == (Input {
                keys: Seq::new(KEY_COUNT as nat, |i: int| false),
                buttons: Seq::new(MOUSE_BUTTON_COUNT as nat, |i: int| false),
                running: true,
            }),
            r.prev_keys_spec() == r.input_spec().keys,
            r.prev_buttons_spec() == r.input_spec().buttons,
            r.clear_color_spec() == Self::default_clear_color_spec(),
    {
        let (window_width, window_height) = window_size(conf).unwrap();
        let one = T::one();
        let fifth = one.over(T::from_u32(5));
        Context {
            window_width,
            window_height,
            bindings,
            key_state: all_up(KEY_COUNT),
            prev_key_state: all_up(KEY_COUNT),
            mouse_state: all_up(MOUSE_BUTTON_COUNT),
            prev_mouse_state: all_up(MOUSE_BUTTON_COUNT),
            running: true,
            clear_color: Vec4::new(fifth, fifth, fifth, one),
        }
    }

    fn handle_window_event(&mut self, event: WindowEvent)
        requires
            old(self).wf(),
            event.in_range(),
        ensures
            final(self).wf(),
            final(self).input_spec() == input_after(
                old(self).input_spec(),
                event,
                old(self).bindings.quit,
            ),
            final(self).bindings == old(self).bindings,
            final(self).prev_key_state == old(self).prev_key_state,
            final(self).prev_mouse_state == old(self).prev_mouse_state,
            final(self).clear_color == old(self).clear_color,
            final(self).window_size_spec() == old(self).window_size_spec(),
    {
        match event {
            WindowEvent::Key(key, Action::Press) => {
                if key == self.bindings.quit {
                    self.running = false;
                } else {
                    self.key_state.set(key, true);
                }
            },
            WindowEvent::Key(key, Action::Release) => {
                self.key_state.set(key, false);
            },
            WindowEvent::MouseButton(button, Action::Press) => {
                self.mouse_state.set(button, true);
            },
            WindowEvent::MouseButton(button, Action::Release) => {
                self.mouse_state.set(button, false);
            },
            _ => {},
        }
    }

    /// Takes in the events of the window, in the order in which they arrived.
    /// An event for a key or button that is not tracked is a caller's error.
    pub fn handle_window_events(&mut self, events: &[WindowEvent])
        requires
            old(self).wf(),
            forall|i: int| 0 <= i < events@.len() ==> (#[trigger] events@[i]).in_range(),
        ensures
            final(self).wf(),
            final(self).input_spec() == input_after_all(
                old(self).input_spec(),
                events@,
                old(self).bindings_spec().quit,
            ),
            final(self).bindings_spec() == old(self).bindings_spec(),
            final(self).prev_keys_spec() == old(self).prev_keys_spec(),
            final(self).prev_buttons_spec() == old(self).prev_buttons_spec(),
            final(self).clear_color_spec() == old(self).clear_color_spec(),
            final(self).window_size_spec() == old(self).window_size_spec(),
    {
        let ghost start = self.input_spec();
        let ghost quit = self.bindings.quit;
        let mut i: usize = 0;
        assert(events@.take(0) =~= Seq::<WindowEvent>::empty());
        while i < events.len()
            invariant
                i <= events@.len(),
                self.wf(),
                forall|j: int| 0 <= j < events@.len() ==> (#[trigger] events@[j]).in_range(),
                self.input_spec() == input_after_all(start, events@.take(i as int), quit),
                self.bindings == old(self).bindings,
                quit == old(self).bindings.quit,
                self.prev_key_state == old(self).prev_key_state,
                self.prev_mouse_state == old(self).prev_mouse_state,
                self.clear_color == old(self).clear_color,
                self.window_width == old(self).window_width,
                self.window_height == old(self).window_height,
            decreases events@.len() - i,
        {
            proof {
                let next = events@.take(i + 1);
                assert(next.drop_last() =~= events@.take(i as int));
                assert(next.last() == events@[i as int]);
            }
            self.handle_window_event(events[i]);
            i += 1;
        }
        assert(events@.take(i as int) =~= events@);
    }

    /// Begins a frame's input: what is down now becomes what was down a frame
    /// ago, and then the events are taken in.
    pub fn handle_events(&mut self, events: &[WindowEvent])
        requires
            old(self).wf(),
            forall|i: int| 0 <= i < events@.len() ==> (#[trigger] events@[i]).in_range(),
        ensures
            final(self).wf(),
            final(self).input_spec() == input_after_all(
                old(self).input_spec(),
                events@,
                old(self).bindings_spec().quit,
            ),
            final(self).prev_keys_spec() == old(self).input_spec().keys,
            final(self).prev_buttons_spec() == old(self).input_spec().buttons,
            final(self).bindings_spec() == old(self).bindings_spec(),
            final(self).clear_color_spec() == old(self).clear_color_spec(),
            final(self).window_size_spec() == old(self).window_size_spec(),
    {
        self.prev_key_state = self.key_state.clone();
        self.prev_mouse_state = self.mouse_state.clone();
        assert(self.prev_key_state@ =~= self.key_state@);
        assert(self.prev_mouse_state@ =~= self.mouse_state@);
        self.handle_window_events(events);
    }

    /// The width of the window.
    pub fn window_width(&self) -> (r: u32)
        ensures
            r == self.window_size_spec().0,
    {
        self.window_width
    }

    /// The height of the window.
    pub fn window_height(&self) -> (r: u32)
        ensures
            r == self.window_size_spec().1,
    {
        self.window_height
    }

    /// Whether `key` went down in this frame.
    pub fn is_key_hit(&self, key: usize) -> (r: bool)
        requires
            self.wf(),
            key < KEY_COUNT,
        ensures
            r == (self.input_spec().keys[key as int] && !self.prev_keys_spec()[key as int]),
    {
        self.key_state[key] && !self.prev_key_state[key]
    }

    /// Whether `key` came up in this frame.
    pub fn is_key_released(&self, key: usize) -> (r: bool)
        requires
            self.wf(),
            key < KEY_COUNT,
        ensures
            r == (!self.input_spec().keys[key as int] && self.prev_keys_spec()[key as int]),
    {
        !self.key_state[key] && self.prev_key_state[key]
    }

    /// Whether `key` is down.
    pub fn is_key_down(&self, key: usize) -> (r: bool)
        requires
            self.wf(),
            key < KEY_COUNT,
        ensures
            r == self.input_spec().keys[key as int],
    {
        self.key_state[key]
    }

    /// Whether the mouse button `mb` went down in this frame.
    pub fn is_mouse_hit(&self, mb: usize) -> (r: bool)
        requires
            self.wf(),
            mb < MOUSE_BUTTON_COUNT,
        ensures
            r == (self.input_spec().buttons[mb as int] && !self.prev_buttons_spec()[mb as int]),
    {
        self.mouse_state[mb] && !self.prev_mouse_state[mb]
    }

    /// Whether the mouse button `mb` came up in this frame.
    pub fn is_mouse_released(&self, mb: usize) -> (r: bool)
        requires
            self.wf(),
            mb < MOUSE_BUTTON_COUNT,
        ensures
            r == (!self.input_spec().buttons[mb as int] && self.prev_buttons_spec()[mb as int]),
    {
        !self.mouse_state[mb] && self.prev_mouse_state[mb]
    }

    /// Whether the mouse button `mb` is down.
    pub fn is_mouse_down(&self, mb: usize) -> (r: bool)
        requires
            self.wf(),
            mb < MOUSE_BUTTON_COUNT,
        ensures
            r == self.input_spec().buttons[mb as int],
    {
        self.mouse_state[mb]
    }

    /// Whether the window is still wanted: nobody has pressed the quit key.
    pub fn is_running(&self) -> (r: bool)
        ensures
            r == self.input_spec().running,
    {
        self.running
    }

    /// The colour to clear the frame to.
    pub fn clear_color(&self) -> (r: Vec4<T>)
        ensures
            r == self.clear_color_spec(),
    {
        self.clear_color
    }

    /// Begins a frame: takes in the events as [`Context::handle_events`]
    /// does, then moves the red of the clear colour a step down while the
    /// darker key is down and a step up while the lighter key is. The colour to
    /// clear the frame to is returned.
    pub fn start_frame(&mut self, events: &[WindowEvent]) -> (r: Vec4<T>)
        requires
            old(self).wf(),
            forall|i: int| 0 <= i < events@.len() ==> (#[trigger] events@[i]).in_range(),
        ensures
            final(self).wf(),
            final(self).input_spec() == input_after_all(
                old(self).input_spec(),
                events@,
                old(self).bindings_spec().quit,
            ),
            final(self).prev_keys_spec() == old(self).input_spec().keys,
            final(self).prev_buttons_spec() == old(self).input_spec().buttons,
            final(self).bindings_spec() == old(self).bindings_spec(),
            final(self).window_size_spec() == old(self).window_size_spec(),
            final(self).clear_color_spec() == (Vec4 {
                x: red_after_frame(
                    old(self).clear_color_spec().x,
                    final(self).input_spec().keys,
                    old(self).bindings_spec(),
                ),
                ..old(self).clear_color_spec()
            }),
            r == final(self).clear_color_spec(),
    {
        self.handle_events(events);
        let one = T::one();
        let step = one.over(T::from_u32(100));
        if self.key_state[self.bindings.darker] {
            let newr = self.clear_color.x.minus(step);
            if newr.is_positive() {
                self.clear_color.x = newr;
            } else {
                self.clear_color.x = T::zero();
            }
        }
        if self.key_state[self.bindings.lighter] {
            let newr = self.clear_color.x.plus(step);
            if one.minus(newr).is_positive() {
                self.clear_color.x = newr;
            } else {
                self.clear_color.x = one;
            }
        }
        self.clear_color
    }
}

} // verus!
