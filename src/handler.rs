use crate::app::{
    cancelled, finalise_outcome, finalised, keyed, requested, save_effect, App, AppView, Effect,
    EffectView, InputRequest,
};
use vstd::prelude::*;

verus! {

/// The shift modifier's bit.
pub const SHIFT: u8 = 1;

/// The control modifier's bit.
pub const CONTROL: u8 = 2;

/// The keys that the dispatcher and the text buffer tell apart.
#[derive(Clone, Copy, Debug, PartialEq, Eq, Structural)]
pub enum Key {
    Char(char),
    Esc,
    Enter,
    Backspace,
    Delete,
    Left,
    Right,
    Home,
    End,
    Other,
}

/// Whether a key went down, repeats, or went up.
#[derive(Clone, Copy, Debug, PartialEq, Eq, Structural)]
pub enum KeyKind {
    Press,
    Repeat,
    Release,
}

/// A key event: the key, the exact set of modifiers held (one bit each, as
/// the terminal reports them) and its kind.
#[derive(Clone, Copy, Debug, PartialEq, Eq, Structural)]
pub struct KeyPress {
    pub code: Key,
    pub modifiers: u8,
    pub kind: KeyKind,
}

/// The operation that a key stands for.
#[derive(Clone, Copy, Debug, PartialEq, Eq, Structural)]
pub enum KeyAction {
    Quit,
    RequestLoad,
    SaveNow,
    RequestSave,
    Cancel,
    Commit,
    Edit,
    Ignore,
}

/// The operation of a key in normal mode: only presses count.
pub open spec fn normal_action(code: Key, modifiers: u8, kind: KeyKind) -> KeyAction {
    if kind != KeyKind::Press {
        KeyAction::Ignore
    } else {
        match code {
            Key::Esc | Key::Char('q') => KeyAction::Quit,
            Key::Char('l') => if modifiers == CONTROL {
                KeyAction::RequestLoad
            } else {
                KeyAction::Ignore
            },
            Key::Char('s') => if modifiers == CONTROL {
                KeyAction::SaveNow
            } else if modifiers == CONTROL | SHIFT {
                KeyAction::RequestSave
            } else {
                KeyAction::Ignore
            },
            _ => KeyAction::Ignore,
        }
    }
}

/// The operation of a key while text is captured.
pub open spec fn capture_action(code: Key) -> KeyAction {
    match code {
        Key::Esc | Key::Char('q') => KeyAction::Cancel,
        Key::Enter => KeyAction::Commit,
        _ => KeyAction::Edit,
    }
}

/// The operation of a key: control-c quits in either mode, otherwise the
/// mode decides.
pub open spec fn key_op(code: Key, modifiers: u8, kind: KeyKind, capturing: bool) -> KeyAction {
    if (code == Key::Char('c') || code == Key::Char('C')) && modifiers == CONTROL {
        KeyAction::Quit
    } else if capturing {
        capture_action(code)
    } else {
        normal_action(code, modifiers, kind)
    }
}

fn default_key_events(key: &KeyPress) -> (r: KeyAction)
    ensures
        r == normal_action(key.code, key.modifiers, key.kind),
{
    if key.kind != KeyKind::Press {
        return KeyAction::Ignore;
    }
    match key.code {
        Key::Esc | Key::Char('q') => KeyAction::Quit,
        Key::Char('l') => if key.modifiers == CONTROL {
            KeyAction::RequestLoad
        } else {
            KeyAction::Ignore
        },
        Key::Char('s') => if key.modifiers == CONTROL {
            KeyAction::SaveNow
        } else if key.modifiers == CONTROL | SHIFT {
            KeyAction::RequestSave
        } else {
            KeyAction::Ignore
        },
        _ => KeyAction::Ignore,
    }
}

fn input_key_events(key: &KeyPress) -> (r: KeyAction)
    ensures
        r == capture_action(key.code),
{
    match key.code {
        Key::Esc | Key::Char('q') => KeyAction::Cancel,
        Key::Enter => KeyAction::Commit,
        _ => KeyAction::Edit,
    }
}

/// The operation that `key` stands for, in capture mode or not.
pub fn key_action(key: &KeyPress, capturing: bool) -> (r: KeyAction)
    ensures
        r == key_op(key.code, key.modifiers, key.kind, capturing),
{
    if (key.code == Key::Char('c') || key.code == Key::Char('C')) && key.modifiers == CONTROL {
        KeyAction::Quit
    } else if capturing {
        input_key_events(key)
    } else {
        default_key_events(key)
    }
}

/// Applies a key to the application and returns what the caller is to do
/// next (read or write a file, show a message).
pub fn handle_key_events(key: KeyPress, app: &mut App) -> (r: Effect)
    requires
        old(app).wf(),
    ensures
        final(app).wf(),
        ({
            let s = old(app)@;
            let t = final(app)@;
            match key_op(key.code, key.modifiers, key.kind, s.request is Some) {
                KeyAction::Quit => t == (AppView { running: false, ..s }) && r@ == EffectView::Nothing,
                KeyAction::RequestLoad => t == requested(s, InputRequest::WordsLoad) && r@ == EffectView::Nothing,
                KeyAction::SaveNow => t == s && r@ == save_effect(s),
                KeyAction::RequestSave => t == requested(s, InputRequest::WordsSave) && r@ == EffectView::Nothing,
                KeyAction::Cancel => t == cancelled(s) && r@ == EffectView::Nothing,
                KeyAction::Commit => t == finalised(s) && finalise_outcome(s, r@),
                KeyAction::Edit => keyed(s, key, t) && r@ == EffectView::Nothing,
                KeyAction::Ignore => t == s && r@ == EffectView::Nothing,
            }
        }),
{
    let capturing = app.get_input_request().is_some();
    match key_action(&key, capturing) {
        KeyAction::Quit => {
            app.quit();
            Effect::Nothing
        },
        KeyAction::RequestLoad => {
            app.maybe_request_input(InputRequest::WordsLoad);
            Effect::Nothing
        },
        KeyAction::SaveNow => app.save_words(),
        KeyAction::RequestSave => {
            app.maybe_request_input(InputRequest::WordsSave);
            Effect::Nothing
        },
        KeyAction::Cancel => {
            app.reset_input();
            Effect::Nothing
        },
        KeyAction::Commit => app.finalise_input(),
        KeyAction::Edit => {
            app.input_key(key);
            Effect::Nothing
        },
        KeyAction::Ignore => Effect::Nothing,
    }
}

} // verus!
