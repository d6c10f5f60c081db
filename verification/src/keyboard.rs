//! Keyboard shortcut handling: folding raw key events into combinations
//! with the control modifier, and the shortcut tables the preferences
//! enable.

use vstd::prelude::*;
use vstd::string::StringExecFns;
use crate::config::AxessConfiguration;
use crate::payload::{DeviceState, UiPayload};
use crate::text::push_char;

verus! {

/// One raw key event: the virtual key code and the platform's raw data.
#[derive(Debug, Clone, Copy)]
pub enum UiEvent {
    KeyDown(usize, u32),
    KeyUp(usize, u32),
}

/// The state of the control modifier between events.
#[derive(Debug, Clone, Copy, PartialEq, Eq, Structural)]
pub struct KeyboardState {
    pub ctrl: bool,
}

impl Default for KeyboardState {
    fn default() -> (r: Self)
        ensures
            r.ctrl == false,
    {
        KeyboardState { ctrl: false }
    }
}

/// A key press, with or without the control modifier held.
#[derive(Debug, Clone, Copy, PartialEq, Eq, Structural)]
pub enum KeyboardCombination {
    Key(usize),
    CtrlKey(usize),
}

impl KeyboardState {
    /// Folds one event: the control key only moves the modifier state;
    /// any other key going down yields the combination under the current
    /// modifier; other keys going up yield nothing.
    pub fn handle_event(&mut self, ev: &UiEvent) -> (r: Option<KeyboardCombination>)
        ensures
            *ev matches UiEvent::KeyDown(k, _) ==> {
                &&& k == 0x11 ==> final(self).ctrl == true && r is None
                &&& k != 0x11 ==> *final(self) == *old(self) && r == Some(
                    if old(self).ctrl {
                        KeyboardCombination::CtrlKey(k)
                    } else {
                        KeyboardCombination::Key(k)
                    },
                )
            },
            *ev matches UiEvent::KeyUp(k, _) ==> {
                &&& k == 0x11 ==> final(self).ctrl == false && r is None
                &&& k != 0x11 ==> *final(self) == *old(self) && r is None
            },
    {
        match *ev {
            UiEvent::KeyDown(k, _) => {
                if k == 0x11 {
                    self.ctrl = true;
                    None
                } else if self.ctrl {
                    Some(KeyboardCombination::CtrlKey(k))
                } else {
                    Some(KeyboardCombination::Key(k))
                }
            },
            UiEvent::KeyUp(k, _) => {
                if k == 0x11 {
                    self.ctrl = false;
                }
                None
            },
        }
    }
}

/// The named keys shortcuts can bind.
#[derive(Debug, Clone, Copy, PartialEq, Eq, Structural)]
pub enum Keys {
    Enter,
    PageUp,
    PageDown,
    Space,
    Tab,
    Number0,
    Number1,
    Number2,
    Number3,
    Number4,
    Number5,
    Number6,
    Number7,
    Number8,
    Number9,
    Fn1,
    Fn2,
    Fn3,
    Fn4,
    Fn5,
    Fn6,
    Fn7,
    Fn8,
    Fn9,
    Fn10,
    Fn11,
    Fn12,
    Fn13,
    Fn14,
    Fn15,
    Fn16,
}

/// The virtual key code of a named key.
pub open spec fn spec_key_code(k: Keys) -> usize {
    match k {
        Keys::Enter => 13,
        Keys::PageUp => 33,
        Keys::PageDown => 34,
        Keys::Space => 32,
        Keys::Tab => 9,
        Keys::Number0 => 48,
        Keys::Number1 => 49,
        Keys::Number2 => 50,
        Keys::Number3 => 51,
        Keys::Number4 => 52,
        Keys::Number5 => 53,
        Keys::Number6 => 54,
        Keys::Number7 => 55,
        Keys::Number8 => 56,
        Keys::Number9 => 57,
        Keys::Fn1 => 0x70,
        Keys::Fn2 => 0x71,
        Keys::Fn3 => 0x72,
        Keys::Fn4 => 0x73,
        Keys::Fn5 => 0x74,
        Keys::Fn6 => 0x75,
        Keys::Fn7 => 0x76,
        Keys::Fn8 => 0x77,
        Keys::Fn9 => 0x78,
        Keys::Fn10 => 0x79,
        Keys::Fn11 => 0x7A,
        Keys::Fn12 => 0x7B,
        Keys::Fn13 => 0x7C,
        Keys::Fn14 => 0x7D,
        Keys::Fn15 => 0x7E,
        Keys::Fn16 => 0x7F,
    }
}

/// The digit keys in order.
pub open spec fn spec_number_key(i: u8) -> Keys {
    match i {
        0u8 => Keys::Number0,
        1u8 => Keys::Number1,
        2u8 => Keys::Number2,
        3u8 => Keys::Number3,
        4u8 => Keys::Number4,
        5u8 => Keys::Number5,
        6u8 => Keys::Number6,
        7u8 => Keys::Number7,
        8u8 => Keys::Number8,
        _ => Keys::Number9,
    }
}

/// The function keys in order.
pub open spec fn spec_fn_key(i: u8) -> Keys {
    match i {
        0u8 => Keys::Fn1,
        1u8 => Keys::Fn2,
        2u8 => Keys::Fn3,
        3u8 => Keys::Fn4,
        4u8 => Keys::Fn5,
        5u8 => Keys::Fn6,
        6u8 => Keys::Fn7,
        7u8 => Keys::Fn8,
        8u8 => Keys::Fn9,
        9u8 => Keys::Fn10,
        10u8 => Keys::Fn11,
        11u8 => Keys::Fn12,
        12u8 => Keys::Fn13,
        13u8 => Keys::Fn14,
        14u8 => Keys::Fn15,
        _ => Keys::Fn16,
    }
}

/// The virtual key code of a named key.
pub fn key_code(k: Keys) -> (r: usize)
    ensures
        r == spec_key_code(k),
{
    match k {
        Keys::Enter => 13,
        Keys::PageUp => 33,
        Keys::PageDown => 34,
        Keys::Space => 32,
        Keys::Tab => 9,
        Keys::Number0 => 48,
        Keys::Number1 => 49,
        Keys::Number2 => 50,
        Keys::Number3 => 51,
        Keys::Number4 => 52,
        Keys::Number5 => 53,
        Keys::Number6 => 54,
        Keys::Number7 => 55,
        Keys::Number8 => 56,
        Keys::Number9 => 57,
        Keys::Fn1 => 0x70,
        Keys::Fn2 => 0x71,
        Keys::Fn3 => 0x72,
        Keys::Fn4 => 0x73,
        Keys::Fn5 => 0x74,
        Keys::Fn6 => 0x75,
        Keys::Fn7 => 0x76,
        Keys::Fn8 => 0x77,
        Keys::Fn9 => 0x78,
        Keys::Fn10 => 0x79,
        Keys::Fn11 => 0x7A,
        Keys::Fn12 => 0x7B,
        Keys::Fn13 => 0x7C,
        Keys::Fn14 => 0x7D,
        Keys::Fn15 => 0x7E,
        Keys::Fn16 => 0x7F,
    }
}

fn number_key(i: u8) -> (r: Keys)
    ensures
        r == spec_number_key(i),
{
    match i {
        0 => Keys::Number0,
        1 => Keys::Number1,
        2 => Keys::Number2,
        3 => Keys::Number3,
        4 => Keys::Number4,
        5 => Keys::Number5,
        6 => Keys::Number6,
        7 => Keys::Number7,
        8 => Keys::Number8,
        _ => Keys::Number9,
    }
}

fn fn_key(i: u8) -> (r: Keys)
    ensures
        r == spec_fn_key(i),
{
    match i {
        0 => Keys::Fn1,
        1 => Keys::Fn2,
        2 => Keys::Fn3,
        3 => Keys::Fn4,
        4 => Keys::Fn5,
        5 => Keys::Fn6,
        6 => Keys::Fn7,
        7 => Keys::Fn8,
        8 => Keys::Fn9,
        9 => Keys::Fn10,
        10 => Keys::Fn11,
        11 => Keys::Fn12,
        12 => Keys::Fn13,
        13 => Keys::Fn14,
        14 => Keys::Fn15,
        _ => Keys::Fn16,
    }
}

/// A shortcut binding: a key, with or without control.
#[derive(Debug, Clone, Copy, PartialEq, Eq, Structural)]
pub enum KeyboardShortcutKey {
    Key(Keys),
    CtrlKey(Keys),
}

/// What a shortcut does when pressed.
#[derive(Debug, Clone)]
pub enum ShortcutCommand {
    UiPayload(UiPayload),
    SelectPresetOrScene,
}

/// One bound shortcut with its human-readable description.
#[derive(Debug, Clone)]
pub struct KeyboardShortcut {
    pub key: KeyboardShortcutKey,
    pub command_description: String,
    pub command: ShortcutCommand,
}

/// The always-present head of the shortcut table, and the editor-style
/// block when it is enabled.
pub open spec fn spec_base_table_ok(s: Seq<KeyboardShortcut>, axe: bool) -> bool {
    &&& s.len() >= 1
    &&& s[0].key == KeyboardShortcutKey::Key(Keys::Enter)
    &&& s[0].command is SelectPresetOrScene
    &&& axe ==> {
        &&& s.len() >= 11
        &&& s[1].key == KeyboardShortcutKey::CtrlKey(Keys::PageUp)
        &&& s[1].command == ShortcutCommand::UiPayload(
            UiPayload::DeviceState(DeviceState::DeltaPreset { delta: 1i16 }),
        )
        &&& s[2].key == KeyboardShortcutKey::CtrlKey(Keys::PageDown)
        &&& s[2].command == ShortcutCommand::UiPayload(
            UiPayload::DeviceState(DeviceState::DeltaPreset { delta: -1i16 }),
        )
        &&& forall|i: int|
            0 <= i < 8 ==> (#[trigger] s[3 + i]).key == KeyboardShortcutKey::CtrlKey(
                spec_number_key((i + 1) as u8),
            ) && s[3 + i].command == ShortcutCommand::UiPayload(
                UiPayload::DeviceState(DeviceState::SetScene { scene: i as u8 }),
            )
    }
}

/// The main window's shortcut table under the given preferences: the
/// select shortcut always; under the editor-style set, control-paged
/// preset steps and control-number scene selection; under the
/// function-key set, function-key scene selection and preset steps.
pub fn get_main_keyboard_shortcuts(config: &AxessConfiguration) -> (r: Vec<KeyboardShortcut>)
    ensures
        r@.len() == 1 + (if config.keyboard_shortcuts_axe_edit {
            10int
        } else {
            0int
        }) + (if config.keyboard_shortcuts_presets_and_scenes_function_keys {
            10int
        } else {
            0int
        }),
        spec_base_table_ok(r@, config.keyboard_shortcuts_axe_edit),
        config.keyboard_shortcuts_presets_and_scenes_function_keys ==> {
            let base = if config.keyboard_shortcuts_axe_edit {
                11int
            } else {
                1int
            };
            &&& forall|i: int|
                0 <= i < 8 ==> (#[trigger] r@[base + i]).key == KeyboardShortcutKey::Key(
                    spec_fn_key(i as u8),
                ) && r@[base + i].command == ShortcutCommand::UiPayload(
                    UiPayload::DeviceState(DeviceState::SetScene { scene: i as u8 }),
                )
            &&& r@[base + 8].key == KeyboardShortcutKey::Key(Keys::Fn9)
            &&& r@[base + 8].command == ShortcutCommand::UiPayload(
                UiPayload::DeviceState(DeviceState::DeltaPreset { delta: -1i16 }),
            )
            &&& r@[base + 9].key == KeyboardShortcutKey::Key(Keys::Fn10)
            &&& r@[base + 9].command == ShortcutCommand::UiPayload(
                UiPayload::DeviceState(DeviceState::DeltaPreset { delta: 1i16 }),
            )
        },
{
    let axe = config.keyboard_shortcuts_axe_edit;
    let fnk = config.keyboard_shortcuts_presets_and_scenes_function_keys;
    let mut s: Vec<KeyboardShortcut> = Vec::new();
    s.push(
        KeyboardShortcut {
            key: KeyboardShortcutKey::Key(Keys::Enter),
            command_description: String::from_str("Select the preset or scene"),
            command: ShortcutCommand::SelectPresetOrScene,
        },
    );

    if axe {
        s.push(
            KeyboardShortcut {
                key: KeyboardShortcutKey::CtrlKey(Keys::PageUp),
                command_description: String::from_str("Preset Up"),
                command: ShortcutCommand::UiPayload(
                    UiPayload::DeviceState(DeviceState::DeltaPreset { delta: 1 }),
                ),
            },
        );
        s.push(
            KeyboardShortcut {
                key: KeyboardShortcutKey::CtrlKey(Keys::PageDown),
                command_description: String::from_str("Preset Down"),
                command: ShortcutCommand::UiPayload(
                    UiPayload::DeviceState(DeviceState::DeltaPreset { delta: -1 }),
                ),
            },
        );
        let mut i: u8 = 0;
        while i < 8
            invariant
                i <= 8,
                s@.len() == 3 + i,
                s@[0].key == KeyboardShortcutKey::Key(Keys::Enter),
                s@[0].command is SelectPresetOrScene,
                s@[1].key == KeyboardShortcutKey::CtrlKey(Keys::PageUp),
                s@[1].command == ShortcutCommand::UiPayload(
                    UiPayload::DeviceState(DeviceState::DeltaPreset { delta: 1i16 }),
                ),
                s@[2].key == KeyboardShortcutKey::CtrlKey(Keys::PageDown),
                s@[2].command == ShortcutCommand::UiPayload(
                    UiPayload::DeviceState(DeviceState::DeltaPreset { delta: -1i16 }),
                ),
                forall|j: int|
                    0 <= j < i ==> (#[trigger] s@[3 + j]).key == KeyboardShortcutKey::CtrlKey(
                        spec_number_key((j + 1) as u8),
                    ) && s@[3 + j].command == ShortcutCommand::UiPayload(
                        UiPayload::DeviceState(DeviceState::SetScene { scene: j as u8 }),
                    ),
            decreases 8 - i,
        {
            let key = number_key(i + 1);
            let mut desc = String::from_str("Select Scene ");
            push_char(&mut desc, (0x31 + i) as char);
            s.push(
                KeyboardShortcut {
                    key: KeyboardShortcutKey::CtrlKey(key),
                    command_description: desc,
                    command: ShortcutCommand::UiPayload(
                        UiPayload::DeviceState(DeviceState::SetScene { scene: i }),
                    ),
                },
            );
            i = i + 1;
        }
    }
    proof {
        assert(spec_base_table_ok(s@, axe));
    }

    if fnk {
        let ghost base = s@.len() as int;
        proof {
            assert(base == (if axe {
                11int
            } else {
                1int
            }));
        }
        let mut i: u8 = 0;
        while i < 8
            invariant
                i <= 8,
                s@.len() == base + i,
                base >= 1,
                spec_base_table_ok(s@, axe),
                base == (if axe {
                    11int
                } else {
                    1int
                }),
                forall|j: int|
                    0 <= j < i ==> (#[trigger] s@[base + j]).key == KeyboardShortcutKey::Key(
                        spec_fn_key(j as u8),
                    ) && s@[base + j].command == ShortcutCommand::UiPayload(
                        UiPayload::DeviceState(DeviceState::SetScene { scene: j as u8 }),
                    ),
            decreases 8 - i,
        {
            let key = fn_key(i);
            let mut desc = String::from_str("Select Scene ");
            push_char(&mut desc, (0x31 + i) as char);
            s.push(
                KeyboardShortcut {
                    key: KeyboardShortcutKey::Key(key),
                    command_description: desc,
                    command: ShortcutCommand::UiPayload(
                        UiPayload::DeviceState(DeviceState::SetScene { scene: i }),
                    ),
                },
            );
            i = i + 1;
        }
        s.push(
            KeyboardShortcut {
                key: KeyboardShortcutKey::Key(Keys::Fn9),
                command_description: String::from_str("Preset Down"),
                command: ShortcutCommand::UiPayload(
                    UiPayload::DeviceState(DeviceState::DeltaPreset { delta: -1 }),
                ),
            },
        );
        s.push(
            KeyboardShortcut {
                key: KeyboardShortcutKey::Key(Keys::Fn10),
                command_description: String::from_str("Preset Up"),
                command: ShortcutCommand::UiPayload(
                    UiPayload::DeviceState(DeviceState::DeltaPreset { delta: 1 }),
                ),
            },
        );
    }
    s
}

} // verus!
