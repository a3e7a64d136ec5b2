//! The viewer's state and the navigation state machine.
//!
//! The state machine takes one event at a time. It never reads the file:
//! where a transition needs a page that is not cached, the action it returns
//! names the page, and the driver reads it and hands it in.

use crate::error::ViewerError;
use crate::events::{Event, KeyCode, Keystroke, MOD_CONTROL};
use crate::numeral::{
    all_hex_digits,
    hex_char_value,
    hex_value,
    is_hex_digit,
    is_hex_numeral,
    lemma_hex_value_push,
};
use crate::sedecim_file_info::{MoveValues, SedecimFileInfo, WindowView};
use vstd::prelude::*;

verus! {

broadcast use vstd::string::group_string_axioms;

/// What a confirmed jump prompt asks for: the address typed, or the reason
/// why there is none. Text that is empty or holds anything but lowercase
/// hexadecimal digits is no number; a number above the file size is out of
/// range.
pub open spec fn jump_target(text: Seq<char>, file_size: int) -> Result<int, ViewerError> {
    if !is_hex_numeral(text) {
        Err(ViewerError::ParseFailure)
    } else if hex_value(text) > file_size {
        Err(ViewerError::RangeFailure)
    } else {
        Ok(hex_value(text) as int)
    }
}

/// Reads the text of the jump prompt as a hexadecimal address within a file
/// of `file_size` bytes.
pub fn parse_jump(text: &str, file_size: u64) -> (target: Result<u64, ViewerError>)
    ensures
        match target {
            Ok(address) => jump_target(text@, file_size as int) == Ok::<int, ViewerError>(
                address as int,
            ),
            Err(e) => jump_target(text@, file_size as int) == Err::<int, ViewerError>(e),
        },
{
    let mut value: u64 = 0;
    let mut beyond = false;
    let mut empty = true;
    for c in it: text.chars()
        invariant
            it.seq() == text@,
            all_hex_digits(text@.subrange(0, it.index())),
            beyond ==> hex_value(text@.subrange(0, it.index())) > file_size,
            !beyond ==> value == hex_value(text@.subrange(0, it.index())) && value <= file_size,
            empty <==> it.index() == 0,
    {
        let ghost read = text@.subrange(0, it.index());
        assert(text@.subrange(0, it.index() + 1) =~= read.push(c));
        match hex_char_value(c) {
            None => {
                return Err(ViewerError::ParseFailure);
            },
            Some(digit) => {
                proof {
                    lemma_hex_value_push(read, c);
                }
                if !beyond {
                    let next: u128 = (value as u128) * 16 + (digit as u128);
                    if next > file_size as u128 {
                        beyond = true;
                    } else {
                        value = next as u64;
                    }
                }
                empty = false;
            },
        }
    }
    assert(text@.subrange(0, text@.len() as int) =~= text@);
    if empty {
        Err(ViewerError::ParseFailure)
    } else if beyond {
        Err(ViewerError::RangeFailure)
    } else {
        Ok(value)
    }
}

/// Number of dump lines on screen.
pub const VISIBLE_LINES: i32 = 20;

/// Number of bytes on a dump line.
pub const LINE_BYTES: i32 = 10;

/// The two modes of the viewer.
#[derive(Clone, Copy, Debug, PartialEq, Eq, Structural)]
pub enum AppMode {
    /// Keys move the cursor and scroll the window.
    Standard,
    /// Keys edit the address at the jump prompt.
    Jump,
}

/// What the driver has to do after an event was handled.
#[derive(Clone, Copy, Debug, PartialEq, Eq, Structural)]
pub enum Action {
    /// Nothing: draw the next frame.
    Continue,
    /// Leave the viewer.
    Quit,
    /// Read the page that starts at this offset and hand it in.
    Load(u64),
}

impl Action {
    /// The action that answers a page request.
    pub open spec fn of_request(request: Option<u64>) -> Action {
        match request {
            Some(start) => Action::Load(start),
            None => Action::Continue,
        }
    }

    /// The action that answers a page request.
    pub fn from_request(request: Option<u64>) -> (action: Action)
        ensures
            action == Action::of_request(request),
    {
        match request {
            Some(start) => Action::Load(start),
            None => Action::Continue,
        }
    }
}

/// The mathematical model of the viewer's state.
#[verifier::ext_equal]
pub struct AppView {
    /// The file window.
    pub window: WindowView,
    /// Line of the cursor on screen, counted from the top.
    pub selected_line: int,
    /// Column of the cursor within its line.
    pub selected_value: int,
    /// The current mode.
    pub mode: AppMode,
    /// The digits typed at the jump prompt.
    pub jump_value: Seq<char>,
    /// The last user-visible error; empty if there was none.
    pub error: Seq<char>,
}

impl AppView {
    /// The state right after a file was named: the cursor at the top left,
    /// Standard mode, nothing typed, no error, the window unopened.
    pub open spec fn opened(name: Seq<char>) -> AppView {
        AppView {
            window: WindowView::unopened(name),
            selected_line: 0,
            selected_value: 0,
            mode: AppMode::Standard,
            jump_value: Seq::empty(),
            error: Seq::empty(),
        }
    }

    /// The cursor is on one of the twenty lines and one of the ten columns.
    pub open spec fn cursor_in_range(self) -> bool {
        0 <= self.selected_line <= 19 && 0 <= self.selected_value <= 9
    }

    /// The invariant of the state: a well-formed window, the cursor on
    /// screen, only lowercase hexadecimal digits at the jump prompt, and
    /// nothing at the prompt outside Jump mode.
    pub open spec fn wf(self) -> bool {
        &&& self.window.wf()
        &&& self.cursor_in_range()
        &&& all_hex_digits(self.jump_value)
        &&& self.mode is Standard ==> self.jump_value.len() == 0
    }

    /// Absolute offset of the byte under the cursor.
    pub open spec fn cursor_offset(self) -> int {
        self.window.offset + self.selected_line * 10 + self.selected_value
    }

    /// The state after a key was pressed in Standard mode. Ctrl-g opens the
    /// jump prompt. Up and Down move the cursor by a line; at the top and at
    /// the bottom line the cursor stays and the window scrolls by a line
    /// instead. Left and Right move the cursor by a column and wrap round.
    /// PageUp and PageDown scroll the window by a page and leave the cursor.
    /// Any other key changes nothing.
    pub open spec fn step_standard(self, key: Keystroke) -> AppView {
        match key.code {
            KeyCode::Char(c) => if c == 'g' && key.modifiers == MOD_CONTROL {
                AppView { mode: AppMode::Jump, jump_value: Seq::empty(), ..self }
            } else {
                self
            },
            KeyCode::Up => if self.selected_line > 0 {
                AppView { selected_line: self.selected_line - 1, ..self }
            } else {
                AppView {
                    selected_line: 0,
                    window: self.window.scrolled(MoveValues::UpLine),
                    ..self
                }
            },
            KeyCode::Down => if self.selected_line < 19 {
                AppView { selected_line: self.selected_line + 1, ..self }
            } else {
                AppView {
                    selected_line: 19,
                    window: self.window.scrolled(MoveValues::DownLine),
                    ..self
                }
            },
            KeyCode::Left => AppView {
                selected_value: if self.selected_value > 0 {
                    self.selected_value - 1
                } else {
                    9
                },
                ..self
            },
            KeyCode::Right => AppView {
                selected_value: if self.selected_value < 9 {
                    self.selected_value + 1
                } else {
                    0
                },
                ..self
            },
            KeyCode::PageUp => AppView { window: self.window.scrolled(MoveValues::UpPage), ..self },
            KeyCode::PageDown => AppView {
                window: self.window.scrolled(MoveValues::DownPage),
                ..self
            },
            _ => self,
        }
    }

    /// What the driver has to do after a key was pressed in Standard mode:
    /// leave on `q`, read the page under the new offset where the window
    /// scrolled onto a page that is not cached, and nothing otherwise.
    pub open spec fn action_standard(self, key: Keystroke) -> Action {
        match key.code {
            KeyCode::Char(c) => if c == 'q' {
                Action::Quit
            } else {
                Action::Continue
            },
            KeyCode::Up => if self.selected_line > 0 {
                Action::Continue
            } else {
                Action::of_request(self.window.scroll_request(MoveValues::UpLine))
            },
            KeyCode::Down => if self.selected_line < 19 {
                Action::Continue
            } else {
                Action::of_request(self.window.scroll_request(MoveValues::DownLine))
            },
            KeyCode::PageUp => Action::of_request(self.window.scroll_request(MoveValues::UpPage)),
            KeyCode::PageDown => Action::of_request(
                self.window.scroll_request(MoveValues::DownPage),
            ),
            _ => Action::Continue,
        }
    }

    /// The state after a confirmed jump to `address`: the window on the line
    /// that holds the address, the cursor on the address, Standard mode, the
    /// prompt emptied.
    pub open spec fn jumped_to(self, address: int) -> AppView {
        AppView {
            window: self.window.moved_to(address - address % 10),
            selected_line: 0,
            selected_value: address % 10,
            mode: AppMode::Standard,
            jump_value: Seq::empty(),
            ..self
        }
    }

    /// The state after a key was pressed in Jump mode. A lowercase
    /// hexadecimal digit is appended to the prompt, Backspace removes the last
    /// digit, Esc empties the prompt and returns to Standard mode. Enter jumps
    /// to the address at the prompt, or sets the error message and stays where
    /// the prompt holds no address within the file. Any other key changes
    /// nothing.
    pub open spec fn step_jump(self, key: Keystroke) -> AppView {
        match key.code {
            KeyCode::Esc => AppView { mode: AppMode::Standard, jump_value: Seq::empty(), ..self },
            KeyCode::Char(c) => if is_hex_digit(c) {
                AppView { jump_value: self.jump_value.push(c), ..self }
            } else {
                self
            },
            KeyCode::Backspace => if self.jump_value.len() > 0 {
                AppView { jump_value: self.jump_value.drop_last(), ..self }
            } else {
                self
            },
            KeyCode::Enter => match jump_target(self.jump_value, self.window.size) {
                Ok(address) => self.jumped_to(address),
                Err(e) => AppView { error: e.message_text(), ..self },
            },
            _ => self,
        }
    }

    /// What the driver has to do after a key was pressed in Jump mode: read
    /// the page under the new offset after a jump onto a page that is not
    /// cached, and nothing otherwise.
    pub open spec fn action_jump(self, key: Keystroke) -> Action {
        match key.code {
            KeyCode::Enter => match jump_target(self.jump_value, self.window.size) {
                Ok(address) => Action::of_request(self.jumped_to(address).window.warm_request()),
                Err(_) => Action::Continue,
            },
            _ => Action::Continue,
        }
    }

    /// The state after one event. A tick changes nothing.
    pub open spec fn step(self, event: Event<Keystroke>) -> AppView {
        match event {
            Event::Input(key) => match self.mode {
                AppMode::Standard => self.step_standard(key),
                AppMode::Jump => self.step_jump(key),
            },
            Event::Tick => self,
        }
    }

    /// What the driver has to do after one event.
    pub open spec fn action(self, event: Event<Keystroke>) -> Action {
        match event {
            Event::Input(key) => match self.mode {
                AppMode::Standard => self.action_standard(key),
                AppMode::Jump => self.action_jump(key),
            },
            Event::Tick => Action::Continue,
        }
    }
}

/// The viewer's state: the file window, the cursor, the mode, and what the
/// jump prompt and the error line hold.
pub struct App {
    file_info: SedecimFileInfo,
    selected_line: i32,
    selected_value: i32,
    mode: AppMode,
    jump_value: String,
    error: String,
}

impl View for App {
    type V = AppView;

    closed spec fn view(&self) -> AppView {
        AppView {
            window: self.file_info@,
            selected_line: self.selected_line as int,
            selected_value: self.selected_value as int,
            mode: self.mode,
            jump_value: self.jump_value@,
            error: self.error@,
        }
    }
}

impl App {
    /// The state is valid: the page cache is coherent and the model meets
    /// its invariant.
    pub closed spec fn wf(&self) -> bool {
        &&& self.file_info.wf()
        &&& self@.cursor_in_range()
        &&& all_hex_digits(self@.jump_value)
        &&& self@.mode is Standard ==> self@.jump_value.len() == 0
    }

    /// The model of a valid state meets the model's invariant.
    pub proof fn lemma_view_wf(&self)
        requires
            self.wf(),
        ensures
            self@.wf(),
    {
        self.file_info.lemma_view_wf();
    }

    /// The viewer for the file named by the first argument after the
    /// program's name.
    pub fn new(args: Vec<String>) -> (app: App)
        requires
            args@.len() >= 2,
        ensures
            app.wf(),
            app@ == AppView::opened(args@[1]@),
    {
        let file_info = SedecimFileInfo::new(args[1].clone());
        let selected_line: i32 = 0;
        let selected_value: i32 = 0;
        let mode = AppMode::Standard;
        let jump_value: String = String::new();
        let error: String = String::new();
        App { file_info, selected_line, selected_value, mode, jump_value, error }
    }

    /// Handles one event and says what the driver has to do next.
    pub fn handle_input(&mut self, event: Event<Keystroke>) -> (action: Action)
        requires
            old(self).wf(),
        ensures
            final(self).wf(),
            final(self)@ == old(self)@.step(event),
            action == old(self)@.action(event),
    {
        match self.mode {
            AppMode::Standard => self.handle_input_standard(event),
            AppMode::Jump => self.handle_input_jump(event),
        }
    }

    fn handle_input_standard(&mut self, event: Event<Keystroke>) -> (action: Action)
        requires
            old(self).wf(),
            old(self)@.mode is Standard,
        ensures
            final(self).wf(),
            final(self)@ == old(self)@.step(event),
            action == old(self)@.action(event),
    {
        match event {
            Event::Input(key) => match key.code {
                KeyCode::Char(c) => {
                    if c == 'g' {
                        if key.modifiers == MOD_CONTROL {
                            self.mode = AppMode::Jump;
                            self.jump_value = String::new();
                        }
                        Action::Continue
                    } else if c == 'q' {
                        Action::Quit
                    } else {
                        Action::Continue
                    }
                },
                KeyCode::Up => {
                    if self.selected_line > 0 {
                        self.selected_line = self.selected_line - 1;
                        Action::Continue
                    } else {
                        self.selected_line = 0;
                        let request = self.file_info.scroll(MoveValues::UpLine);
                        Action::from_request(request)
                    }
                },
                KeyCode::Down => {
                    if self.selected_line < VISIBLE_LINES - 1 {
                        self.selected_line = self.selected_line + 1;
                        Action::Continue
                    } else {
                        self.selected_line = VISIBLE_LINES - 1;
                        let request = self.file_info.scroll(MoveValues::DownLine);
                        Action::from_request(request)
                    }
                },
                KeyCode::Right => {
                    if self.selected_value < LINE_BYTES - 1 {
                        self.selected_value = self.selected_value + 1;
                    } else {
                        self.selected_value = 0;
                    }
                    Action::Continue
                },
                KeyCode::Left => {
                    if self.selected_value > 0 {
                        self.selected_value = self.selected_value - 1;
                    } else {
                        self.selected_value = LINE_BYTES - 1;
                    }
                    Action::Continue
                },
                KeyCode::PageUp => {
                    let request = self.file_info.scroll(MoveValues::UpPage);
                    Action::from_request(request)
                },
                KeyCode::PageDown => {
                    let request = self.file_info.scroll(MoveValues::DownPage);
                    Action::from_request(request)
                },
                _ => Action::Continue,
            },
            Event::Tick => Action::Continue,
        }
    }

    fn handle_input_jump(&mut self, event: Event<Keystroke>) -> (action: Action)
        requires
            old(self).wf(),
            old(self)@.mode is Jump,
        ensures
            final(self).wf(),
            final(self)@ == old(self)@.step(event),
            action == old(self)@.action(event),
    {
        match event {
            Event::Input(key) => match key.code {
                KeyCode::Esc => {
                    self.mode = AppMode::Standard;
                    self.jump_value = String::new();
                    Action::Continue
                },
                KeyCode::Char(chr) => {
                    if hex_char_value(chr).is_some() {
                        self.jump_value.push(chr);
                    }
                    Action::Continue
                },
                KeyCode::Backspace => {
                    let _ = self.jump_value.pop();
                    Action::Continue
                },
                KeyCode::Enter => {
                    match parse_jump(self.jump_value.as_str(), self.file_info.file_size()) {
                        Ok(address) => {
                            let offset = address % 10;
                            let request = self.file_info.set_address(address - offset);
                            self.selected_value = offset as i32;
                            self.selected_line = 0;
                            self.mode = AppMode::Standard;
                            self.jump_value = String::new();
                            Action::from_request(request)
                        },
                        Err(e) => {
                            self.error = e.message();
                            Action::Continue
                        },
                    }
                },
                _ => Action::Continue,
            },
            Event::Tick => Action::Continue,
        }
    }

    /// Takes in a page that the driver has read: see
    /// [`SedecimFileInfo::insert_page`]. Nothing but the window changes.
    pub fn insert_page(&mut self, load_address: u64, data: &[u8], file_size: u64)
        requires
            old(self).wf(),
        ensures
            final(self).wf(),
            final(self)@ == (AppView {
                window: old(self)@.window.with_page(load_address as int, data@, file_size as int),
                ..old(self)@
            }),
    {
        self.file_info.insert_page(load_address, data, file_size);
    }

    /// Makes `error` the last user-visible error. Nothing else changes.
    pub fn record_error(&mut self, error: ViewerError)
        requires
            old(self).wf(),
        ensures
            final(self).wf(),
            final(self)@ == (AppView { error: error.message_text(), ..old(self)@ }),
    {
        self.error = error.message();
    }

    /// The file window.
    pub fn file_info(&self) -> (info: &SedecimFileInfo)
        ensures
            info@ == self@.window,
            self.wf() ==> info.wf(),
    {
        &self.file_info
    }

    /// Line of the cursor on screen, counted from the top.
    pub fn selected_line(&self) -> (line: i32)
        ensures
            line == self@.selected_line,
            self.wf() ==> 0 <= line <= 19,
    {
        self.selected_line
    }

    /// Column of the cursor within its line.
    pub fn selected_value(&self) -> (column: i32)
        ensures
            column == self@.selected_value,
            self.wf() ==> 0 <= column <= 9,
    {
        self.selected_value
    }

    /// The current mode.
    pub fn mode(&self) -> (mode: AppMode)
        ensures
            mode == self@.mode,
    {
        self.mode
    }

    /// The digits typed at the jump prompt.
    pub fn jump_value(&self) -> (text: &String)
        ensures
            text@ == self@.jump_value,
    {
        &self.jump_value
    }

    /// The last user-visible error; empty if there was none.
    pub fn error(&self) -> (text: &String)
        ensures
            text@ == self@.error,
    {
        &self.error
    }

    /// Absolute offset of the byte under the cursor.
    pub fn cursor_offset(&self) -> (offset: u128)
        requires
            self.wf(),
        ensures
            offset == self@.cursor_offset(),
    {
        let line = self.selected_line as u128;
        let column = self.selected_value as u128;
        self.file_info.file_offset() as u128 + line * 10 + column
    }
}

} // verus!
