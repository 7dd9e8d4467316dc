use crate::entries::{entries_view, EntryView, WordEntry};
use crate::handler::{Key, KeyKind, KeyPress, SHIFT};
use crate::loader::{decode, encode, read_words, LoadError, LoadErrorView};
use crossterm::event::KeyCode;
use vstd::prelude::*;

verus! {

#[verifier::external_type_specification]
#[verifier::external_body]
pub struct ExInput(tui_input::Input);

/// The text that a `tui_input::Input` holds.
pub uninterp spec fn buffer_text(input: tui_input::Input) -> Seq<char>;

/// The cursor of a `tui_input::Input`: how many characters precede it.
pub uninterp spec fn buffer_cursor(input: tui_input::Input) -> nat;

/// The text and cursor after a press of `code` with the exact modifier set
/// `modifiers`, as single-line editing defines it; none where the key edits
/// in a way not stated here (word motions and deletions under other modifiers).
pub open spec fn line_edit(text: Seq<char>, cursor: nat, code: Key, modifiers: u8) -> Option<(Seq<char>, nat)> {
    if cursor > text.len() {
        None
    } else {
        match code {
            Key::Char(c) => if modifiers == 0 || modifiers == SHIFT {
                Some((text.take(cursor as int) + seq![c] + text.skip(cursor as int), cursor + 1))
            } else {
                None
            },
            Key::Esc | Key::Enter | Key::Other => Some((text, cursor)),
            Key::Backspace => if modifiers != 0 {
                None
            } else if cursor == 0 {
                Some((text, cursor))
            } else {
                Some((text.take(cursor - 1) + text.skip(cursor as int), (cursor - 1) as nat))
            },
            Key::Delete => if modifiers != 0 {
                None
            } else if cursor == text.len() {
                Some((text, cursor))
            } else {
                Some((text.take(cursor as int) + text.skip((cursor + 1) as int), cursor))
            },
            Key::Left => if modifiers != 0 {
                None
            } else if cursor == 0 {
                Some((text, cursor))
            } else {
                Some((text, (cursor - 1) as nat))
            },
            Key::Right => if modifiers != 0 {
                None
            } else if cursor == text.len() {
                Some((text, cursor))
            } else {
                Some((text, cursor + 1))
            },
            Key::Home => if modifiers != 0 {
                None
            } else {
                Some((text, 0))
            },
            Key::End => if modifiers != 0 {
                None
            } else {
                Some((text, text.len()))
            },
        }
    }
}

/// Relies on `tui_input::Input::default`: empty value, cursor at 0.
#[verifier::external_body]
fn empty_input() -> (r: tui_input::Input)
    ensures
        buffer_text(r) == Seq::<char>::empty(),
        buffer_cursor(r) == 0,
{
    tui_input::Input::default()
}

/// Relies on `tui_input::Input::reset`: empty value, cursor at 0.
#[verifier::external_body]
fn clear_input(input: &mut tui_input::Input)
    ensures
        buffer_text(*final(input)) == Seq::<char>::empty(),
        buffer_cursor(*final(input)) == 0,
{
    input.reset()
}

/// Relies on `tui_input::Input::value`: the text held.
#[verifier::external_body]
fn input_text(input: &tui_input::Input) -> (r: String)
    ensures
        r@ == buffer_text(*input),
{
    input.value().to_string()
}

/// Relies on tui-input's crossterm `EventHandler::handle_event` for a key
/// press: `to_input_request` picks the edit, `Input::handle` performs it and
/// keeps the cursor within the text.
#[verifier::external_body]
fn edit_input(input: &mut tui_input::Input, code: Key, modifiers: u8)
    requires
        buffer_cursor(*old(input)) <= buffer_text(*old(input)).len(),
    ensures
        buffer_cursor(*final(input)) <= buffer_text(*final(input)).len(),
        line_edit(buffer_text(*old(input)), buffer_cursor(*old(input)), code, modifiers) matches Some((t, c))
            ==> buffer_text(*final(input)) == t && buffer_cursor(*final(input)) == c,
{
    let code = match code {
        Key::Char(c) => KeyCode::Char(c),
        Key::Esc => KeyCode::Esc,
        Key::Enter => KeyCode::Enter,
        Key::Backspace => KeyCode::Backspace,
        Key::Delete => KeyCode::Delete,
        Key::Left => KeyCode::Left,
        Key::Right => KeyCode::Right,
        Key::Home => KeyCode::Home,
        Key::End => KeyCode::End,
        Key::Other => KeyCode::Null,
    };
    let key = crossterm::event::KeyEvent::new(code, crossterm::event::KeyModifiers::from_bits_retain(modifiers));
    tui_input::backend::crossterm::EventHandler::handle_event(input, &crossterm::event::Event::Key(key));
}

/// The operation that text entry will perform once committed.
#[derive(Clone, Copy, Debug, PartialEq, Eq, Structural)]
pub enum InputRequest {
    WordsLoad,
    WordsSave,
}

/// What an `App` holds: whether it runs, the list, the path it was last
/// loaded from or saved to, the pending request (none in normal mode) and the
/// text being entered.
pub struct AppView {
    pub running: bool,
    pub words: Seq<EntryView>,
    pub source: Option<Seq<char>>,
    pub request: Option<InputRequest>,
    pub buffer: Seq<char>,
    pub cursor: nat,
}

/// The application state.
pub struct App {
    /// Whether the application keeps running.
    pub running: bool,
    /// The vocabulary list.
    pub words: Vec<WordEntry>,
    /// Where the list was last loaded from or saved to.
    pub words_loaded_from: Option<String>,
    input_request: Option<InputRequest>,
    input: tui_input::Input,
}

impl View for App {
    type V = AppView;

    closed spec fn view(&self) -> AppView {
        AppView {
            running: self.running,
            words: entries_view(self.words@),
            source: match self.words_loaded_from {
                Some(p) => Some(p@),
                None => None,
            },
            request: self.input_request,
            buffer: buffer_text(self.input),
            cursor: buffer_cursor(self.input),
        }
    }
}

/// What the caller is asked to do after an operation.
#[derive(Debug, PartialEq, Eq)]
pub enum Effect {
    /// Nothing.
    Nothing,
    /// Read the file at `path` and hand its contents to `App::load_words`.
    Load { path: String },
    /// Write `data` to the file at `path`.
    Save { path: String, data: Vec<u8> },
    /// Show `message` to the user.
    Report { message: String },
}

/// What an `Effect` holds.
pub enum EffectView {
    Nothing,
    Load(Seq<char>),
    Save(Seq<char>, Seq<u8>),
    Report(Seq<char>),
}

impl View for Effect {
    type V = EffectView;

    open spec fn view(&self) -> EffectView {
        match self {
            Effect::Nothing => EffectView::Nothing,
            Effect::Load { path } => EffectView::Load(path@),
            Effect::Save { path, data } => EffectView::Save(path@, data@),
            Effect::Report { message } => EffectView::Report(message@),
        }
    }
}

/// The state of a new application.
pub open spec fn initial() -> AppView {
    AppView {
        running: true,
        words: Seq::empty(),
        source: None,
        request: None,
        buffer: Seq::empty(),
        cursor: 0,
    }
}

/// Back in normal mode with an empty buffer, the rest unchanged.
pub open spec fn cancelled(s: AppView) -> AppView {
    AppView { request: None, buffer: Seq::empty(), cursor: 0, ..s }
}

/// Capturing for `req` with an empty buffer, unless a request is already
/// pending.
pub open spec fn requested(s: AppView, req: InputRequest) -> AppView {
    if s.request is None {
        AppView { request: Some(req), buffer: Seq::empty(), cursor: 0, ..s }
    } else {
        s
    }
}

/// The state after committing the entered text.
pub open spec fn finalised(s: AppView) -> AppView {
    match s.request {
        Some(InputRequest::WordsSave) => cancelled(AppView { source: Some(s.buffer), ..s }),
        _ => cancelled(s),
    }
}

/// The message shown when text is committed in normal mode.
pub open spec fn misuse_message() -> Seq<char> {
    "WARNING: called finalise_input without having requested input at some point."@
}

/// What saving the list of `s` asks for: nothing without a path, else the
/// encoded list to be written there.
pub open spec fn save_effect(s: AppView) -> EffectView {
    match s.source {
        None => EffectView::Nothing,
        Some(p) => EffectView::Save(p, encode(s.words)),
    }
}

/// The state after a key reaches the buffer: in normal mode and for a key
/// that is not a press nothing changes; otherwise the key edits the text as
/// `line_edit` says, and nothing else changes.
pub open spec fn keyed(s: AppView, key: KeyPress, t: AppView) -> bool {
    &&& t == (AppView { buffer: t.buffer, cursor: t.cursor, ..s })
    &&& t.cursor <= t.buffer.len()
    &&& (s.request is None || key.kind != KeyKind::Press) ==> t == s
    &&& (s.request is Some && key.kind == KeyKind::Press) ==> (
        line_edit(s.buffer, s.cursor, key.code, key.modifiers) matches Some((b, c))
            ==> t.buffer == b && t.cursor == c)
}

/// The outcome of committing the entered text in state `s`.
pub open spec fn finalise_outcome(s: AppView, e: EffectView) -> bool {
    match s.request {
        None => e == EffectView::Report(misuse_message()),
        Some(InputRequest::WordsLoad) => e == EffectView::Load(s.buffer),
        Some(InputRequest::WordsSave) => e == save_effect(finalised(s)),
    }
}

/// The state after a load from `path` whose read gave `contents`: the decoded
/// list and the path on success, else the state unchanged.
pub open spec fn loaded(s: AppView, path: Seq<char>, contents: Result<Seq<u8>, Seq<char>>) -> AppView {
    match contents {
        Ok(d) => match decode(d) {
            Ok(ws) => AppView { words: ws, source: Some(path), ..s },
            Err(_) => s,
        },
        Err(_) => s,
    }
}

/// The result of a load from `path` whose read gave `contents`.
pub open spec fn load_outcome(path: Seq<char>, contents: Result<Seq<u8>, Seq<char>>) -> Result<(), LoadErrorView> {
    match contents {
        Ok(d) => match decode(d) {
            Ok(_) => Ok(()),
            Err(e) => Err(e),
        },
        Err(m) => Err(LoadErrorView::Io(path, m)),
    }
}

impl Default for App {
    fn default() -> (r: App)
        ensures
            r@ == initial(),
    {
        App::new()
    }
}

impl App {
    /// The cursor lies within the entered text.
    pub open spec fn wf(&self) -> bool {
        self@.cursor <= self@.buffer.len()
    }

    /// A running application in normal mode with an empty list and no path.
    pub fn new() -> (r: App)
        ensures
            r@ == initial(),
            r.wf(),
    {
        let r = App {
            running: true,
            words: Vec::new(),
            words_loaded_from: None,
            input_request: None,
            input: empty_input(),
        };
        assert(r@.words =~= Seq::<EntryView>::empty());
        r
    }

    /// Handles the tick event of the terminal.
    pub fn tick(&self) {
    }

    /// Stops the application.
    pub fn quit(&mut self)
        ensures
            final(self)@ == (AppView { running: false, ..old(self)@ }),
    {
        self.running = false;
    }

    /// Discards the entered text and returns to normal mode.
    pub fn reset_input(&mut self)
        ensures
            final(self)@ == cancelled(old(self)@),
    {
        clear_input(&mut self.input);
        self.input_request = None;
    }

    /// Hands a key press to the text buffer while capturing; in normal mode,
    /// and for a key that is not a press, nothing changes.
    pub fn input_key(&mut self, key: KeyPress)
        requires
            old(self).wf(),
        ensures
            keyed(old(self)@, key, final(self)@),
    {
        if self.input_request.is_some() && key.kind == KeyKind::Press {
            edit_input(&mut self.input, key.code, key.modifiers);
        }
    }

    /// Enters text capture for `request`, with an empty buffer, unless a
    /// request is pending already.
    pub fn maybe_request_input(&mut self, request: InputRequest)
        ensures
            final(self)@ == requested(old(self)@, request),
    {
        if self.input_request.is_none() {
            clear_input(&mut self.input);
            self.input_request = Some(request);
        }
    }

    /// Enters text capture for `request`, with an empty buffer; fails,
    /// changing nothing, while a request is pending.
    pub fn request_input(&mut self, request: InputRequest) -> (r: Result<(), String>)
        ensures
            r is Ok <==> old(self)@.request is None,
            final(self)@ == requested(old(self)@, request),
    {
        if self.input_request.is_none() {
            clear_input(&mut self.input);
            self.input_request = Some(request);
            Ok(())
        } else {
            Err("Attempted to request input while input was already being requested.".to_string())
        }
    }

    /// The pending request, none in normal mode.
    pub fn get_input_request(&self) -> (r: Option<InputRequest>)
        ensures
            r == self@.request,
    {
        self.input_request
    }

    /// The text entered so far.
    pub fn input_value(&self) -> (r: String)
        ensures
            r@ == self@.buffer,
    {
        input_text(&self.input)
    }

    /// The text buffer, for drawing.
    pub fn input(&self) -> (r: &tui_input::Input)
        ensures
            buffer_text(*r) == self@.buffer,
    {
        &self.input
    }

    /// Saves the list to the path it was last loaded from or saved to: the
    /// bytes to write there, nothing without such a path.
    pub fn save_words(&self) -> (r: Effect)
        ensures
            r@ == save_effect(self@),
    {
        match &self.words_loaded_from {
            None => Effect::Nothing,
            Some(path) => match crate::loader::write_words(&self.words) {
                Ok(data) => Effect::Save { path: path.clone(), data },
                Err(e) => Effect::Report { message: e.message() },
            },
        }
    }

    /// Commits the entered text: a load request asks for the file at that
    /// path to be read; a save request records the path and asks for the list
    /// to be written there. Always ends in normal mode with an empty buffer.
    pub fn finalise_input(&mut self) -> (r: Effect)
        ensures
            final(self)@ == finalised(old(self)@),
            finalise_outcome(old(self)@, r@),
    {
        let effect = match self.input_request {
            None => {
                let m = "WARNING: called finalise_input without having requested input at some point.";
                proof {
                    reveal_strlit("WARNING: called finalise_input without having requested input at some point.");
                }
                Effect::Report { message: m.to_string() }
            },
            Some(InputRequest::WordsLoad) => Effect::Load { path: input_text(&self.input) },
            Some(InputRequest::WordsSave) => {
                self.words_loaded_from = Some(input_text(&self.input));
                self.save_words()
            },
        };
        self.reset_input();
        effect
    }

    /// Takes in the contents read from `word_path`, or the message of the
    /// read's failure. On a successful decode the list is replaced and the
    /// path recorded; on any failure nothing changes and the error is returned.
    pub fn load_words(&mut self, word_path: &str, contents: Result<Vec<u8>, String>) -> (r: Result<(), LoadError>)
        ensures
            final(self)@ == loaded(old(self)@, word_path@, match contents {
                Ok(d) => Ok(d@),
                Err(m) => Err(m@),
            }),
            (match r {
                Ok(()) => Ok(()),
                Err(e) => Err(e@),
            }) == load_outcome(word_path@, match contents {
                Ok(d) => Ok(d@),
                Err(m) => Err(m@),
            }),
    {
        match contents {
            Err(message) => Err(LoadError::Io { path: word_path.to_string(), message }),
            Ok(data) => match read_words(data.as_slice()) {
                Ok(words) => {
                    self.words = words;
                    self.words_loaded_from = Some(word_path.to_string());
                    Ok(())
                },
                Err(e) => Err(e),
            },
        }
    }
}

/// Requests are exclusive: once one is pending, a second request (strict or
/// lenient) changes nothing and the first stays pending, so the strict
/// `request_input` fails the second time.
pub proof fn lemma_request_exclusive(s: AppView, first: InputRequest, second: InputRequest)
    requires
        s.request is None,
    ensures
        requested(s, first).request == Some(first),
        requested(requested(s, first), second) == requested(s, first),
        !(requested(s, first).request is None),
{
}

/// After committing or cancelling, the buffer is empty, its cursor at the
/// start, and the mode normal.
pub proof fn lemma_buffer_isolation(s: AppView)
    ensures
        finalised(s).buffer == Seq::<char>::empty(),
        finalised(s).request is None,
        cancelled(s).buffer == Seq::<char>::empty(),
        cancelled(s).request is None,
        finalised(s).cursor == 0,
        cancelled(s).cursor == 0,
{
}

/// A load that fails, in the read or in the decoding, leaves the state as it
/// was: list, path, mode and buffer.
pub proof fn lemma_failed_load_keeps_state(s: AppView, path: Seq<char>, contents: Result<Seq<u8>, Seq<char>>)
    requires
        load_outcome(path, contents) is Err,
    ensures
        loaded(s, path, contents) == s,
{
}

} // verus!
