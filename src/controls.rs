use vstd::prelude::*;

use crate::commands::Command;
use crate::events::{Event, PositionChange};
use crate::playback::PlayerState;
use crate::timestamp::NANOS_PER_SEC;

verus! {

/// Milliseconds between two ticks of a terminal front end.
pub const TICK_RATE: u64 = 200;

/// The number of buttons of the control panel.
pub const BUTTON_COUNT: usize = 4;

/// A key press as a terminal front end sees it.
#[derive(Clone, Copy, Debug, PartialEq, Eq, Structural)]
pub enum Key {
    Enter,
    Tab,
    Backspace,
    Esc,
    Left,
    Right,
    Up,
    Down,
    Ins,
    Delete,
    Home,
    End,
    PageUp,
    PageDown,
    Char(char),
    Ctrl(char),
    Alt(char),
    Unknown,
}

/// What a user can ask of a terminal front end.
#[derive(Clone, Copy, Debug, PartialEq, Eq, Structural)]
pub enum Action {
    MoveLeft,
    MoveRight,
    MoveUp,
    MoveDown,
    CycleArea,
    Enter,
    Quit,
    PlayPause,
    Rewind,
}

/// An input of a terminal front end: a key, or a tick of its clock.
#[derive(Debug)]
pub enum Input<I> {
    Input(I),
    Tick,
}

/// The settings of a terminal front end's input.
#[derive(Clone, Copy, Debug, PartialEq, Eq, Structural)]
pub struct InputConfig {
    /// The key that ends the application.
    pub exit_key: Key,
    /// Milliseconds between two ticks.
    pub tick_rate: u64,
}

impl Default for InputConfig {
    fn default() -> (r: InputConfig)
        ensures
            r == (InputConfig { exit_key: Key::Ctrl('c'), tick_rate: TICK_RATE }),
    {
        InputConfig { exit_key: Key::Ctrl('c'), tick_rate: TICK_RATE }
    }
}

/// Every action, in the order in which help lists them.
pub open spec fn all_actions() -> Seq<Action> {
    seq![
        Action::MoveLeft,
        Action::MoveRight,
        Action::MoveUp,
        Action::MoveDown,
        Action::CycleArea,
        Action::Enter,
        Action::Quit,
        Action::PlayPause,
        Action::Rewind,
    ]
}

/// The place of an action in help order.
pub open spec fn action_index(a: Action) -> int {
    match a {
        Action::MoveLeft => 0,
        Action::MoveRight => 1,
        Action::MoveUp => 2,
        Action::MoveDown => 3,
        Action::CycleArea => 4,
        Action::Enter => 5,
        Action::Quit => 6,
        Action::PlayPause => 7,
        Action::Rewind => 8,
    }
}

/// The keys bound to an action.
pub open spec fn keys_of(a: Action) -> Seq<Key> {
    match a {
        Action::MoveLeft => seq![Key::Left],
        Action::MoveRight => seq![Key::Right],
        Action::MoveUp => seq![Key::Up],
        Action::MoveDown => seq![Key::Down],
        Action::CycleArea => seq![Key::Tab],
        Action::Enter => seq![Key::Enter],
        Action::Quit => seq![Key::Ctrl('c'), Key::Char('q')],
        Action::PlayPause => seq![Key::Char('p'), Key::Char(' ')],
        Action::Rewind => seq![Key::Char('r')],
    }
}

/// The label of an action in help.
pub open spec fn action_label(a: Action) -> Seq<char> {
    match a {
        Action::MoveLeft => "Left"@,
        Action::MoveRight => "Right"@,
        Action::MoveUp => "Up"@,
        Action::MoveDown => "Down"@,
        Action::CycleArea => "Change Area"@,
        Action::Enter => "Enter Selection"@,
        Action::Quit => "Quit"@,
        Action::PlayPause => "Play/Pause"@,
        Action::Rewind => "Rewind"@,
    }
}

/// The action that a key is bound to, if any.
pub open spec fn action_for_key(k: Key) -> Option<Action> {
    match k {
        Key::Left => Some(Action::MoveLeft),
        Key::Right => Some(Action::MoveRight),
        Key::Up => Some(Action::MoveUp),
        Key::Down => Some(Action::MoveDown),
        Key::Tab => Some(Action::CycleArea),
        Key::Enter => Some(Action::Enter),
        Key::Ctrl('c') => Some(Action::Quit),
        Key::Char('q') => Some(Action::Quit),
        Key::Char('p') => Some(Action::PlayPause),
        Key::Char(' ') => Some(Action::PlayPause),
        Key::Char('r') => Some(Action::Rewind),
        _ => None,
    }
}

/// A key is in the mapping of exactly the action that it is bound to.
pub proof fn lemma_key_bindings(k: Key, a: Action)
    ensures
        keys_of(a).contains(k) <==> action_for_key(k) == Some(a),
{
    if action_for_key(k) == Some(a) {
        if keys_of(a)[0] == k {
            assert(keys_of(a).contains(k));
        } else {
            assert(keys_of(a)[1] == k);
            assert(keys_of(a).contains(k));
        }
    }
    if keys_of(a).contains(k) {
        let i = choose|i: int| 0 <= i < keys_of(a).len() && keys_of(a)[i] == k;
        assert(i == 0 || i == 1);
    }
}

fn contains_key(keys: &Vec<Key>, k: &Key) -> (r: bool)
    ensures
        r == keys@.contains(*k),
{
    let mut i: usize = 0;
    while i < keys.len()
        invariant
            i <= keys@.len(),
            forall|j: int| 0 <= j < i ==> keys@[j] != *k,
        decreases keys.len() - i,
    {
        if keys[i] == *k {
            return true;
        }
        i = i + 1;
    }
    false
}

impl Action {
    /// Every action, in the order in which help lists them.
    pub fn iterator() -> (r: Vec<Action>)
        ensures
            r@ == all_actions(),
    {
        let r = vec![
            Action::MoveLeft,
            Action::MoveRight,
            Action::MoveUp,
            Action::MoveDown,
            Action::CycleArea,
            Action::Enter,
            Action::Quit,
            Action::PlayPause,
            Action::Rewind,
        ];
        assert(r@ =~= all_actions());
        r
    }

    /// The keys bound to this action.
    pub fn key_mapping(&self) -> (r: Vec<Key>)
        ensures
            r@ == keys_of(*self),
    {
        let r = match self {
            Action::MoveLeft => vec![Key::Left],
            Action::MoveRight => vec![Key::Right],
            Action::MoveUp => vec![Key::Up],
            Action::MoveDown => vec![Key::Down],
            Action::CycleArea => vec![Key::Tab],
            Action::Enter => vec![Key::Enter],
            Action::Quit => vec![Key::Ctrl('c'), Key::Char('q')],
            Action::PlayPause => vec![Key::Char('p'), Key::Char(' ')],
            Action::Rewind => vec![Key::Char('r')],
        };
        assert(r@ =~= keys_of(*self));
        r
    }

    /// The first action, in help order, whose mapping holds `key`.
    pub fn from_key(key: &Key) -> (r: Option<Action>)
        ensures
            r == action_for_key(*key),
    {
        let actions = Action::iterator();
        let mut i: usize = 0;
        while i < actions.len()
            invariant
                i <= actions@.len(),
                actions@ == all_actions(),
                forall|j: int| 0 <= j < i ==> action_for_key(*key) != Some(#[trigger] all_actions()[j]),
            decreases actions.len() - i,
        {
            let action = actions[i];
            proof {
                lemma_key_bindings(*key, action);
            }
            if contains_key(&action.key_mapping(), key) {
                return Some(action);
            }
            i = i + 1;
        }
        proof {
            if let Some(a) = action_for_key(*key) {
                assert(a == all_actions()[action_index(a)]);
            }
        }
        None
    }

    /// The label of this action in help.
    pub fn to_string(&self) -> (r: String)
        ensures
            r@ == action_label(*self),
    {
        match self {
            Action::MoveLeft => String::from_str("Left"),
            Action::MoveRight => String::from_str("Right"),
            Action::MoveUp => String::from_str("Up"),
            Action::MoveDown => String::from_str("Down"),
            Action::CycleArea => String::from_str("Change Area"),
            Action::Enter => String::from_str("Enter Selection"),
            Action::Quit => String::from_str("Quit"),
            Action::PlayPause => String::from_str("Play/Pause"),
            Action::Rewind => String::from_str("Rewind"),
        }
    }
}

/// What a terminal front end keeps of the engine and of its control panel.
#[derive(Clone, Copy, Debug, PartialEq, Eq, Structural)]
pub struct App {
    pub current_state: PlayerState,
    pub current_position: PositionChange,
    /// Set once the front end is to close.
    pub kill_signal: bool,
    /// The highlighted button: Play, Pause, Rewind or Quit.
    pub selected_button: usize,
}

/// The command that the button at `index` sends.
pub open spec fn button_command(index: usize) -> Option<Command> {
    if index == 0 {
        Some(Command::Play)
    } else if index == 1 {
        Some(Command::Pause)
    } else if index == 2 {
        Some(Command::Rewind)
    } else if index == 3 {
        Some(Command::Quit)
    } else {
        None
    }
}

impl App {
    /// The command that an action sends, if any.
    pub open spec fn action_command(self, a: Action) -> Option<Command> {
        match a {
            Action::Enter => button_command(self.selected_button),
            Action::Quit => Some(Command::Quit),
            Action::PlayPause => if self.current_state == PlayerState::Initial
                || self.current_state == PlayerState::Paused {
                Some(Command::Play)
            } else if self.current_state == PlayerState::Playing {
                Some(Command::Pause)
            } else {
                None
            },
            Action::Rewind => Some(Command::Rewind),
            _ => None,
        }
    }

    /// The front end after an action.
    pub open spec fn after_action(self, a: Action) -> App {
        match a {
            Action::MoveLeft => App {
                selected_button: if self.selected_button > 0 {
                    (self.selected_button - 1) as usize
                } else {
                    0
                },
                ..self
            },
            Action::MoveRight => App {
                selected_button: if self.selected_button < BUTTON_COUNT - 1 {
                    (self.selected_button + 1) as usize
                } else {
                    self.selected_button
                },
                ..self
            },
            Action::Quit => App { kill_signal: true, ..self },
            Action::Enter => if self.selected_button == 3 {
                App { kill_signal: true, ..self }
            } else {
                self
            },
            _ => self,
        }
    }

    /// The front end after an event of the engine.
    pub open spec fn after_event(self, e: Event) -> App {
        match e {
            Event::PlayerStateChanged(s) => App { current_state: s.state, ..self },
            Event::PlayerPositionChanged(p) => App { current_position: p, ..self },
            Event::QuitCommanded => App { kill_signal: true, ..self },
            _ => self,
        }
    }

    /// A front end before any event, with the first button highlighted.
    pub fn new() -> (r: App)
        ensures
            r == (App {
                current_state: PlayerState::Initial,
                current_position: PositionChange {
                    position: 0,
                    max_position: 0,
                    time_position: 0,
                    time_total: 0,
                },
                kill_signal: false,
                selected_button: 0,
            }),
    {
        App {
            current_state: PlayerState::Initial,
            current_position: PositionChange::default(),
            kill_signal: false,
            selected_button: 0,
        }
    }

    /// Handles an action of the user and returns the command to send, if any.
    pub fn handle_action(&mut self, action: Action) -> (r: Option<Command>)
        ensures
            *final(self) == old(self).after_action(action),
            r == old(self).action_command(action),
    {
        match action {
            Action::MoveLeft => self.handle_left(),
            Action::MoveRight => self.handle_right(),
            Action::MoveUp => None,
            Action::MoveDown => None,
            Action::Enter => self.handle_enter(),
            Action::Quit => self.handle_quit(),
            Action::PlayPause => self.handle_playpause(),
            Action::Rewind => self.handle_rewind(),
            Action::CycleArea => self.handle_cycle_area(),
        }
    }

    fn handle_quit(&mut self) -> (r: Option<Command>)
        ensures
            *final(self) == (App { kill_signal: true, ..*old(self) }),
            r == Some(Command::Quit),
    {
        self.kill_signal = true;
        Some(Command::Quit)
    }

    fn handle_left(&mut self) -> (r: Option<Command>)
        ensures
            *final(self) == old(self).after_action(Action::MoveLeft),
            r is None,
    {
        if self.selected_button > 0 {
            self.selected_button = self.selected_button - 1;
        }
        None
    }

    fn handle_right(&mut self) -> (r: Option<Command>)
        ensures
            *final(self) == old(self).after_action(Action::MoveRight),
            r is None,
    {
        if self.selected_button < BUTTON_COUNT - 1 {
            self.selected_button = self.selected_button + 1;
        }
        None
    }

    fn handle_enter(&mut self) -> (r: Option<Command>)
        ensures
            *final(self) == old(self).after_action(Action::Enter),
            r == button_command(old(self).selected_button),
    {
        if self.selected_button == 0 {
            Some(Command::Play)
        } else if self.selected_button == 1 {
            Some(Command::Pause)
        } else if self.selected_button == 2 {
            Some(Command::Rewind)
        } else if self.selected_button == 3 {
            self.kill_signal = true;
            Some(Command::Quit)
        } else {
            None
        }
    }

    fn handle_playpause(&self) -> (r: Option<Command>)
        ensures
            r == self.action_command(Action::PlayPause),
    {
        if self.current_state == PlayerState::Initial || self.current_state == PlayerState::Paused {
            Some(Command::Play)
        } else if self.current_state == PlayerState::Playing {
            Some(Command::Pause)
        } else {
            None
        }
    }

    fn handle_rewind(&self) -> (r: Option<Command>)
        ensures
            r == Some(Command::Rewind),
    {
        Some(Command::Rewind)
    }

    fn handle_cycle_area(&self) -> (r: Option<Command>)
        ensures
            r is None,
    {
        None
    }

    /// Takes in an event of the engine.
    pub fn handle_event(&mut self, event: Event)
        ensures
            *final(self) == old(self).after_event(event),
    {
        match event {
            Event::PlayerStateChanged(s) => {
                self.current_state = s.state;
            },
            Event::PlayerPositionChanged(p) => {
                self.current_position = p;
            },
            Event::QuitCommanded => {
                self.kill_signal = true;
            },
            _ => {},
        }
    }

    /// How far playback has come, in whole percent of the recording's whole
    /// seconds; 0 where it lasts less than a second.
    pub fn progress_percent(&self) -> (r: u64)
        ensures
            ({
                let reached = (self.current_position.time_position / NANOS_PER_SEC) as int;
                let total = (self.current_position.time_total / NANOS_PER_SEC) as int;
                r == if total == 0 {
                    0
                } else {
                    (reached * 100) / total
                }
            }),
    {
        let reached = self.current_position.time_position / NANOS_PER_SEC;
        let total = self.current_position.time_total / NANOS_PER_SEC;
        if total == 0 {
            0
        } else {
            (reached * 100) / total
        }
    }
}

} // verus!
