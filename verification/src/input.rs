//! Interacting with user keyboard or mouse inputs.

use std::collections::HashMap;
use vstd::prelude::*;

verus! {

broadcast use vstd::std_specs::hash::group_hash_axioms;

/// The state of any of the inputs. The difference between pressed
/// and down is that down fires while it's held down, and pressed
/// is only for the first frame.
#[derive(Clone, Copy, Debug, PartialEq, Eq, Structural)]
pub enum InputState {
    Up,
    Pressed,
    Down,
    Released,
}

/// What the window system reports of a key or a button.
#[derive(Clone, Copy, Debug, PartialEq, Eq)]
pub enum ElementState {
    Pressed,
    Released,
}

impl InputState {
    /// The state one frame later, when nothing was heard of the input in
    /// between: a press has become a hold, a release has become rest.
    pub open spec fn settled(self) -> InputState {
        match self {
            InputState::Pressed => InputState::Down,
            InputState::Released => InputState::Up,
            InputState::Up => InputState::Up,
            InputState::Down => InputState::Down,
        }
    }

    /// Whether an input in this state answers a question for `asked`. A
    /// fresh press also counts as down and a fresh release also counts as up.
    pub open spec fn answers(self, asked: InputState) -> bool {
        match asked {
            InputState::Down => self == InputState::Down || self == InputState::Pressed,
            InputState::Up => self == InputState::Up || self == InputState::Released,
            InputState::Pressed => self == InputState::Pressed,
            InputState::Released => self == InputState::Released,
        }
    }

    /// The state of an input after the window system reported `event` of
    /// it. A press does not start anew on an input that is held down.
    pub open spec fn after(self, event: ElementState) -> InputState {
        match event {
            ElementState::Pressed => if self == InputState::Down {
                InputState::Down
            } else {
                InputState::Pressed
            },
            ElementState::Released => InputState::Released,
        }
    }

    fn settle(self) -> (next: InputState)
        ensures
            next == self.settled(),
    {
        match self {
            InputState::Pressed => InputState::Down,
            InputState::Released => InputState::Up,
            other => other,
        }
    }

    fn matches_query(self, asked: InputState) -> (yes: bool)
        ensures
            yes == self.answers(asked),
    {
        match asked {
            InputState::Down => self == asked || self == InputState::Pressed,
            InputState::Up => self == asked || self == InputState::Released,
            _ => self == asked,
        }
    }
}

/// A button of the mouse.
#[derive(Clone, Copy, Debug, PartialEq, Eq)]
pub enum MouseButton {
    Left,
    Right,
    Middle,
    Other(u16),
}

impl MouseButton {
    /// The number under which the state of a button is kept. No two buttons
    /// share one.
    spec fn code(self) -> u32 {
        match self {
            MouseButton::Left => 0,
            MouseButton::Right => 1,
            MouseButton::Middle => 2,
            MouseButton::Other(n) => (n + 3) as u32,
        }
    }

    fn to_code(self) -> (code: u32)
        ensures
            code == self.code(),
    {
        match self {
            MouseButton::Left => 0,
            MouseButton::Right => 1,
            MouseButton::Middle => 2,
            MouseButton::Other(n) => n as u32 + 3,
        }
    }
}

/// The family of operating systems that the keyboard is read on. Each has
/// its own numbering of the keys.
#[derive(Clone, Copy, Debug, PartialEq, Eq)]
pub enum Platform {
    Linux,
    MacOs,
    Windows,
}

/// An abstraction of the keyboard scancode that applies itself to the
/// correct system's keyboard to scancode layout.
#[derive(Clone, Copy, Debug)]
pub enum Key {
    Backspace,
    Escape,
    Tab,
    Num(u8),
    Fn(u8),
    Char(char),
    Other(u32),
}

/// The scancode of a character key on Linux and Windows, which agree on
/// them: the rows of a QWERTY keyboard, counted from left to right.
pub open spec fn pc_char_scancode(c: char) -> Option<u32> {
    match c {
        '-' => Some(12),
        '=' => Some(13),
        '\t' => Some(15),
        'q' => Some(16),
        'w' => Some(17),
        'e' => Some(18),
        'r' => Some(19),
        't' => Some(20),
        'y' => Some(21),
        'u' => Some(22),
        'i' => Some(23),
        'o' => Some(24),
        'p' => Some(25),
        'a' => Some(30),
        's' => Some(31),
        'd' => Some(32),
        'f' => Some(33),
        'g' => Some(34),
        'h' => Some(35),
        'j' => Some(36),
        'k' => Some(37),
        'l' => Some(38),
        'z' => Some(44),
        'x' => Some(45),
        'c' => Some(46),
        'v' => Some(47),
        'b' => Some(48),
        'n' => Some(49),
        'm' => Some(50),
        _ => None,
    }
}

/// The scancode of a key on Linux, where it has one.
pub open spec fn linux_scancode(key: Key) -> Option<u32> {
    match key {
        Key::Escape => Some(1),
        Key::Backspace => Some(14),
        Key::Tab => Some(15),
        Key::Num(num) => if num == 0 {
            Some(11)
        } else if num < 10 {
            Some((num + 1) as u32)
        } else {
            None
        },
        Key::Fn(num) => if 1 <= num <= 10 {
            Some((num + 58) as u32)
        } else if num == 11 {
            Some(87)
        } else if num == 12 {
            Some(88)
        } else if 13 <= num <= 24 {
            Some((num + 170) as u32)
        } else {
            None
        },
        Key::Char(c) => pc_char_scancode(c),
        Key::Other(scancode) => Some(scancode),
    }
}

/// The scancode of a key on Windows, where it has one.
pub open spec fn windows_scancode(key: Key) -> Option<u32> {
    match key {
        Key::Escape => Some(1),
        Key::Backspace => Some(14),
        Key::Tab => Some(15),
        Key::Num(num) => if num == 0 {
            Some(11)
        } else if num < 10 {
            Some((num + 1) as u32)
        } else {
            None
        },
        Key::Fn(num) => if 1 <= num <= 10 {
            Some((num + 10) as u32)
        } else if num == 11 {
            Some(87)
        } else if num == 12 {
            Some(88)
        } else if 13 <= num <= 19 {
            Some((num + 95) as u32)
        } else {
            None
        },
        Key::Char(c) => pc_char_scancode(c),
        Key::Other(scancode) => Some(scancode),
    }
}

/// The scancode of a key on macOS, where it has one.
pub open spec fn macos_scancode(key: Key) -> Option<u32> {
    match key {
        Key::Escape => Some(53),
        Key::Backspace => Some(51),
        Key::Tab => Some(48),
        Key::Num(num) => match num {
            0 => Some(29),
            1 => Some(18),
            2 => Some(19),
            3 => Some(20),
            4 => Some(21),
            5 => Some(23),
            6 => Some(22),
            7 => Some(26),
            8 => Some(28),
            9 => Some(25),
            _ => None,
        },
        Key::Fn(num) => match num {
            1 => Some(122),
            2 => Some(120),
            3 => Some(99),
            4 => Some(118),
            5 => Some(96),
            6 => Some(97),
            7 => Some(98),
            8 => Some(100),
            9 => Some(101),
            10 => Some(109),
            11 => Some(103),
            12 => Some(111),
            16 => Some(106),
            17 => Some(64),
            18 => Some(79),
            19 => Some(80),
            _ => None,
        },
        Key::Char(c) => match c {
            'a' => Some(0),
            's' => Some(1),
            'd' => Some(2),
            'f' => Some(3),
            'h' => Some(4),
            'g' => Some(5),
            'z' => Some(6),
            'x' => Some(7),
            'c' => Some(8),
            'v' => Some(9),
            'b' => Some(11),
            'q' => Some(12),
            'w' => Some(13),
            'e' => Some(14),
            'r' => Some(15),
            'y' => Some(16),
            't' => Some(17),
            '=' => Some(24),
            '-' => Some(27),
            'o' => Some(31),
            'u' => Some(32),
            'i' => Some(34),
            'p' => Some(35),
            'l' => Some(37),
            'j' => Some(38),
            'k' => Some(40),
            'n' => Some(45),
            'm' => Some(46),
            '\t' => Some(48),
            _ => None,
        },
        Key::Other(scancode) => Some(scancode),
    }
}

impl Key {
    /// The scancode of this key on `platform`, or `None` where the key is
    /// not known there: a digit above 9, a function key or a character that
    /// the platform's table does not hold.
    pub open spec fn scancode_on(self, platform: Platform) -> Option<u32> {
        match platform {
            Platform::Linux => linux_scancode(self),
            Platform::MacOs => macos_scancode(self),
            Platform::Windows => windows_scancode(self),
        }
    }

    /// Whether two keys are one key on the keyboard: the tab key can be
    /// named in two ways.
    pub open spec fn same_as(self, other: Key) -> bool {
        ||| self == other
        ||| (self == Key::Tab && other == Key::Char('\t'))
        ||| (self == Key::Char('\t') && other == Key::Tab)
    }

    /// The scancode of this key on `platform`, where it has one.
    pub fn scancode(self, platform: Platform) -> (code: Option<u32>)
        ensures
            code == self.scancode_on(platform),
    {
        match platform {
            Platform::Linux => self.on_pc(false),
            Platform::MacOs => self.on_mac(),
            Platform::Windows => self.on_pc(true),
        }
    }

    fn on_pc(self, windows: bool) -> (code: Option<u32>)
        ensures
            code == (if windows {
                windows_scancode(self)
            } else {
                linux_scancode(self)
            }),
    {
        match self {
            Key::Escape => Some(1),
            Key::Num(0) => Some(11),
            Key::Num(num) => {
                if num < 10 {
                    Some(num as u32 + 1)
                } else {
                    None
                }
            },
            Key::Char('-') => Some(12),
            Key::Char('=') => Some(13),
            Key::Backspace => Some(14),
            Key::Tab | Key::Char('\t') => Some(15),
            Key::Char('q') => Some(16),
            Key::Char('w') => Some(17),
            Key::Char('e') => Some(18),
            Key::Char('r') => Some(19),
            Key::Char('t') => Some(20),
            Key::Char('y') => Some(21),
            Key::Char('u') => Some(22),
            Key::Char('i') => Some(23),
            Key::Char('o') => Some(24),
            Key::Char('p') => Some(25),
            Key::Char('a') => Some(30),
            Key::Char('s') => Some(31),
            Key::Char('d') => Some(32),
            Key::Char('f') => Some(33),
            Key::Char('g') => Some(34),
            Key::Char('h') => Some(35),
            Key::Char('j') => Some(36),
            Key::Char('k') => Some(37),
            Key::Char('l') => Some(38),
            Key::Char('z') => Some(44),
            Key::Char('x') => Some(45),
            Key::Char('c') => Some(46),
            Key::Char('v') => Some(47),
            Key::Char('b') => Some(48),
            Key::Char('n') => Some(49),
            Key::Char('m') => Some(50),
            Key::Fn(num) => {
                if windows {
                    match num {
                        1..=10 => Some(num as u32 + 0xa),
                        11 => Some(0x57),
                        12 => Some(0x58),
                        13..=19 => Some(num as u32 + 95),
                        _ => None,
                    }
                } else {
                    match num {
                        1..=10 => Some(num as u32 + 58),
                        11 => Some(87),
                        12 => Some(88),
                        13..=24 => Some(num as u32 + 170),
                        _ => None,
                    }
                }
            },
            Key::Char(_) => None,
            Key::Other(scancode) => Some(scancode),
        }
    }

    fn on_mac(self) -> (code: Option<u32>)
        ensures
            code == macos_scancode(self),
    {
        match self {
            Key::Char('a') => Some(0),
            Key::Char('s') => Some(1),
            Key::Char('d') => Some(2),
            Key::Char('f') => Some(3),
            Key::Char('h') => Some(4),
            Key::Char('g') => Some(5),
            Key::Char('z') => Some(6),
            Key::Char('x') => Some(7),
            Key::Char('c') => Some(8),
            Key::Char('v') => Some(9),
            Key::Char('b') => Some(11),
            Key::Char('q') => Some(12),
            Key::Char('w') => Some(13),
            Key::Char('e') => Some(14),
            Key::Char('r') => Some(15),
            Key::Char('y') => Some(16),
            Key::Char('t') => Some(17),
            Key::Num(1) => Some(18),
            Key::Num(2) => Some(19),
            Key::Num(3) => Some(20),
            Key::Num(4) => Some(21),
            Key::Num(6) => Some(22),
            Key::Num(5) => Some(23),
            Key::Char('=') => Some(24),
            Key::Num(9) => Some(25),
            Key::Num(7) => Some(26),
            Key::Char('-') => Some(27),
            Key::Num(8) => Some(28),
            Key::Num(0) => Some(29),
            Key::Char('o') => Some(31),
            Key::Char('u') => Some(32),
            Key::Char('i') => Some(34),
            Key::Char('p') => Some(35),
            Key::Char('l') => Some(37),
            Key::Char('j') => Some(38),
            Key::Char('k') => Some(40),
            Key::Char('n') => Some(45),
            Key::Char('m') => Some(46),
            Key::Tab | Key::Char('\t') => Some(48),
            Key::Backspace => Some(51),
            Key::Escape => Some(53),
            Key::Other(scancode) => Some(scancode),
            Key::Fn(17) => Some(64),
            Key::Fn(18) => Some(79),
            Key::Fn(19) => Some(80),
            Key::Fn(5) => Some(96),
            Key::Fn(6) => Some(97),
            Key::Fn(7) => Some(98),
            Key::Fn(3) => Some(99),
            Key::Fn(8) => Some(100),
            Key::Fn(9) => Some(101),
            Key::Fn(11) => Some(103),
            Key::Fn(16) => Some(106),
            Key::Fn(10) => Some(109),
            Key::Fn(12) => Some(111),
            Key::Fn(4) => Some(118),
            Key::Fn(2) => Some(120),
            Key::Fn(1) => Some(122),
            Key::Fn(_) => None,
            Key::Num(_) => None,
            Key::Char(_) => None,
        }
    }
}

/// The state that `map` holds for `code`: what was put down for it, or up
/// where nothing was.
spec fn state_in(map: Map<u32, InputState>, code: u32) -> InputState {
    if map.contains_key(code) {
        map[code]
    } else {
        InputState::Up
    }
}

/// Whether `code` stands among the first `n` of `codes`.
spec fn among(codes: Seq<u32>, n: int, code: u32) -> bool {
    exists|j: int| 0 <= j < n && codes[j] == code
}

/// One more of `codes` brings in the code that stands there, and no other.
proof fn lemma_among_grows(codes: Seq<u32>, n: int, code: u32)
    requires
        0 <= n < codes.len(),
    ensures
        among(codes, n + 1, code) <==> among(codes, n, code) || codes[n] == code,
{
    if among(codes, n + 1, code) {
        let j = choose|j: int| 0 <= j < n + 1 && codes[j] == code;
        if j < n {
            assert(0 <= j < n && codes[j] == code);
        }
    }
    if among(codes, n, code) {
        let j = choose|j: int| 0 <= j < n && codes[j] == code;
        assert(0 <= j < n + 1 && codes[j] == code);
    }
    if codes[n] == code {
        assert(0 <= n < n + 1 && codes[n] == code);
    }
}

/// Lets one frame pass for every input in `map`.
fn settle_all(map: &mut HashMap<u32, InputState>)
    ensures
        forall|code: u32|
            #[trigger] state_in(final(map)@, code) == state_in(old(map)@, code).settled(),
{
    let mut codes: Vec<u32> = Vec::new();
    for code in it: map.keys()
        invariant
            codes@.len() == it.index(),
            forall|i: int| 0 <= i < codes@.len() ==> codes@[i] == *it.seq()[i],
    {
        codes.push(*code);
    }
    assert forall|code: u32| map@.contains_key(code) implies among(
        codes@,
        codes@.len() as int,
        code,
    ) by {
        let j = codes@.index_of(code);
        assert(0 <= j < codes@.len() && codes@[j] == code);
    }
    let mut i: usize = 0;
    while i < codes.len()
        invariant
            i <= codes@.len(),
            forall|code: u32|
                old(map)@.contains_key(code) ==> among(codes@, codes@.len() as int, code),
            forall|code: u32|
                #[trigger] state_in(map@, code) == (if among(codes@, i as int, code) {
                    state_in(old(map)@, code).settled()
                } else {
                    state_in(old(map)@, code)
                }),
        decreases codes@.len() - i,
    {
        let code: u32 = codes[i];
        let ghost before = map@;
        match map.get(&code) {
            Some(state) => {
                let next = state.settle();
                map.insert(code, next);
            },
            None => {},
        }
        proof {
            assert forall|other: u32|
                #[trigger] state_in(map@, other) == (if among(codes@, i + 1, other) {
                    state_in(old(map)@, other).settled()
                } else {
                    state_in(old(map)@, other)
                }) by {
                lemma_among_grows(codes@, i as int, other);
                assert(state_in(before, other) == state_in(map@, other) || other == code);
            }
        }
        i += 1;
    }
}

/// Takes in what the window system reported of the input `code`.
fn record(map: &mut HashMap<u32, InputState>, code: u32, event: ElementState)
    ensures
        state_in(final(map)@, code) == state_in(old(map)@, code).after(event),
        forall|other: u32|
            other != code ==> #[trigger] state_in(final(map)@, other) == state_in(
                old(map)@,
                other,
            ),
{
    match event {
        ElementState::Pressed => {
            let held: bool = match map.get(&code) {
                Some(state) => *state == InputState::Down,
                None => false,
            };
            if !held {
                map.insert(code, InputState::Pressed);
            }
        },
        ElementState::Released => {
            map.insert(code, InputState::Released);
        },
    }
}

/// Whether the input `code` answers a question for `asked`.
fn query(map: &HashMap<u32, InputState>, code: u32, asked: InputState) -> (yes: bool)
    ensures
        yes == state_in(map@, code).answers(asked),
{
    let actual: InputState = match map.get(&code) {
        Some(state) => *state,
        None => InputState::Up,
    };
    actual.matches_query(asked)
}

/// Handler of all user inputs.
pub struct Input {
    /// The numbering of the keys that is in use.
    platform: Platform,
    /// The keys and their states.
    keys: HashMap<u32, InputState>,
    /// The mouse buttons and their states.
    buttons: HashMap<u32, InputState>,
}

impl Input {
    /// The numbering of the keys that this handler reads keys by.
    pub closed spec fn platform(&self) -> Platform {
        self.platform
    }

    /// The state of the key with the scancode `code`.
    pub closed spec fn key_state(&self, code: u32) -> InputState {
        state_in(self.keys@, code)
    }

    /// The state of a button of the mouse.
    pub closed spec fn button_state(&self, button: MouseButton) -> InputState {
        state_in(self.buttons@, button.code())
    }

    /// A handler that has heard of no input yet: every key and every button
    /// is up.
    pub fn new(platform: Platform) -> (input: Input)
        ensures
            input.platform() == platform,
            forall|code: u32| #[trigger] input.key_state(code) == InputState::Up,
            forall|button: MouseButton| #[trigger] input.button_state(button) == InputState::Up,
    {
        Input { platform, keys: HashMap::new(), buttons: HashMap::new() }
    }

    /// Check if a mouse button is pressed.
    pub fn is_button(&self, button: MouseButton, state: InputState) -> (yes: bool)
        ensures
            yes == self.button_state(button).answers(state),
    {
        query(&self.buttons, button.to_code(), state)
    }

    /// Check if a keyboard key is pressed.
    pub fn is_key(&self, key: Key, state: InputState) -> (yes: bool)
        requires
            key.scancode_on(self.platform()) is Some,
        ensures
            yes == self.key_state(key.scancode_on(self.platform())->Some_0).answers(state),
    {
        match key.scancode(self.platform) {
            Some(code) => query(&self.keys, code, state),
            None => false,
        }
    }

    /// Lets one frame pass: what was pressed is now held down, what was
    /// released is now up.
    pub fn update(&mut self)
        ensures
            final(self).platform() == old(self).platform(),
            forall|code: u32|
                #[trigger] final(self).key_state(code) == old(self).key_state(code).settled(),
            forall|button: MouseButton|
                #[trigger] final(self).button_state(button) == old(self).button_state(
                    button,
                ).settled(),
    {
        settle_all(&mut self.keys);
        settle_all(&mut self.buttons);
    }

    /// Takes in what the window system reported of the key with the scancode
    /// `scancode`.
    pub fn handle_key(&mut self, scancode: u32, state: ElementState)
        ensures
            final(self).platform() == old(self).platform(),
            final(self).key_state(scancode) == old(self).key_state(scancode).after(state),
            forall|other: u32|
                other != scancode ==> #[trigger] final(self).key_state(other) == old(
                    self,
                ).key_state(other),
            forall|button: MouseButton|
                #[trigger] final(self).button_state(button) == old(self).button_state(button),
    {
        record(&mut self.keys, scancode, state);
    }

    /// Takes in what the window system reported of a button of the mouse.
    pub fn handle_button(&mut self, button: MouseButton, state: ElementState)
        ensures
            final(self).platform() == old(self).platform(),
            final(self).button_state(button) == old(self).button_state(button).after(state),
            forall|other: MouseButton|
                other != button ==> #[trigger] final(self).button_state(other) == old(
                    self,
                ).button_state(other),
            forall|code: u32| #[trigger] final(self).key_state(code) == old(self).key_state(code),
    {
        record(&mut self.buttons, button.to_code(), state);
    }
}

/// After a frame has passed no input is in a state that lasts one frame
/// only, and further frames without news change nothing.
pub proof fn lemma_settled_is_steady(state: InputState)
    ensures
        state.settled() == InputState::Up || state.settled() == InputState::Down,
        state.settled().settled() == state.settled(),
        state.settled().answers(InputState::Down) == state.answers(InputState::Down),
        state.settled().answers(InputState::Up) == state.answers(InputState::Up),
{
}

/// An input reads as down from the moment it is pressed and as up from the
/// moment it is released, and a frame later it is held down or at rest. A
/// press reads as a fresh press unless the input was held down already.
pub proof fn lemma_events_show_at_once(state: InputState)
    ensures
        state.after(ElementState::Pressed).answers(InputState::Down),
        state.after(ElementState::Released).answers(InputState::Up),
        state.after(ElementState::Released).answers(InputState::Released),
        state != InputState::Down ==> state.after(ElementState::Pressed).answers(
            InputState::Pressed,
        ),
        state.after(ElementState::Pressed).settled() == InputState::Down,
        state.after(ElementState::Released).settled() == InputState::Up,
{
}

/// Linux and Windows number every key alike but the function keys.
pub proof fn lemma_linux_and_windows_agree(key: Key)
    requires
        !(key is Fn),
    ensures
        key.scancode_on(Platform::Linux) == key.scancode_on(Platform::Windows),
{
}

/// On Linux and on macOS no two keys share a scancode: where two keys that
/// are named by what they are, not by a raw scancode, have the same
/// scancode, they are one key.
pub proof fn lemma_scancodes_tell_keys_apart(platform: Platform, a: Key, b: Key)
    requires
        platform != Platform::Windows,
        !(a is Other),
        !(b is Other),
        a.scancode_on(platform) is Some,
        a.scancode_on(platform) == b.scancode_on(platform),
    ensures
        a.same_as(b),
{
}

} // verus!
