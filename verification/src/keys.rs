//! What a key does on each screen.

use crate::app::{Action, ActionView, App, AppView, CurrentScreen, PendingView, COLUMN_STEP, PAGE_STEP};
use crate::model::{
    awaiting, changing_selected, choice, chosen, copy_begun, copy_ended, copying, creation,
    failed, left, listing_request, minus, moved_next, moved_previous, no_selection, paged_down,
    paged_up, plus, removal, renaming, scrolled_to_column, scrolled_to_line, toggled,
};
use crate::text::{alphanumeric, is_alphanumeric, trim, trimmed};
use vstd::prelude::*;
use vstd::string::*;

verus! {

/// The keys that the browser tells apart.
#[derive(Debug, Clone, Copy, PartialEq, Eq, Structural)]
pub enum Key {
    Char(char),
    Esc,
    Enter,
    Backspace,
    Delete,
    Up,
    Down,
    Left,
    Right,
    PageUp,
    PageDown,
    Other,
}

/// One press of a key: the key, and the last character of the key's printed
/// label, which is what a text dialog takes from a key that has no meaning
/// of its own there.
#[derive(Debug, Clone, Copy, PartialEq, Eq, Structural)]
pub struct KeyPress {
    pub key: Key,
    pub glyph: Option<char>,
}

/// How many lines an arrow key scrolls the preview.
pub const LINE_STEP: usize = 10;

/// How many lines a page key scrolls the preview.
pub const LINE_PAGE: usize = 50;

/// A state together with what the host is to do next.
#[verifier::ext_equal]
pub struct Step {
    pub state: AppView,
    pub action: ActionView,
}

/// The step into `state` that asks nothing of the host.
pub open spec fn stay(state: AppView) -> Step {
    Step { state, action: ActionView::Wait }
}

/// The step into `state` that asks the host for what the state awaits: the
/// directory's listing, or nothing.
pub open spec fn ask(state: AppView) -> Step {
    Step { state, action: listing_request(state) }
}

/// The state with another screen shown.
pub open spec fn on_screen(v: AppView, screen: CurrentScreen) -> AppView {
    AppView { screen, ..v }
}

/// The state with `screen` shown where an entry is selected; else the
/// error popup says that none is.
pub open spec fn on_screen_for_selected(v: AppView, screen: CurrentScreen) -> AppView {
    match v.selected {
        Some(_) => on_screen(v, screen),
        None => failed(v, no_selection()),
    }
}

/// The state with the selected entry marked for copying, where it is a
/// plain file. Where nothing is selected, the error popup says so.
pub open spec fn marked(v: AppView) -> AppView {
    match v.selected {
        Some(file) => if file.kind_name == "File"@ {
            AppView { to_copy: Some(file), ..v }
        } else {
            v
        },
        None => failed(v, no_selection()),
    }
}

/// The state with the paste dialog shown where an entry is marked for
/// copying; else the error popup says that none is.
pub open spec fn pasting(v: AppView) -> AppView {
    match v.to_copy {
        Some(_) => on_screen(v, CurrentScreen::ConfirmCopyingPopUp),
        None => failed(v, no_selection()),
    }
}

/// What a key does on the main screen.
pub open spec fn main_keyed(v: AppView, key: Key) -> Step {
    match key {
        Key::Char(c) => if c == 'q' {
            Step { state: v, action: ActionView::Quit }
        } else if c == 'n' {
            stay(on_screen(v, CurrentScreen::IsNewFileADir))
        } else if c == 'h' {
            stay(on_screen(v, CurrentScreen::Help))
        } else if c == 'd' {
            stay(on_screen_for_selected(v, CurrentScreen::ConfirmDelete))
        } else if c == 'c' {
            stay(marked(v))
        } else if c == 'p' {
            stay(pasting(v))
        } else if c == 'r' {
            stay(on_screen_for_selected(v, CurrentScreen::Rename))
        } else if c == '/' {
            stay(AppView { search: Seq::empty(), screen: CurrentScreen::Search, ..v })
        } else if c == '.' {
            ask(toggled(v))
        } else {
            stay(v)
        },
        Key::Esc => Step { state: v, action: ActionView::Quit },
        Key::PageDown => stay(paged_down(v, PAGE_STEP as usize)),
        Key::PageUp => stay(paged_up(v, PAGE_STEP as usize)),
        Key::Down => stay(moved_next(v)),
        Key::Up => stay(moved_previous(v)),
        Key::Enter => Step { state: chosen(v), action: choice(v) },
        Key::Right => Step { state: chosen(v), action: choice(v) },
        Key::Backspace => ask(left(v)),
        Key::Left => ask(left(v)),
        _ => stay(v),
    }
}

/// Whether a character can be typed into a text dialog.
pub open spec fn accepted(c: char) -> bool {
    alphanumeric(c) || c == '.'
}

/// The state with a search in the current directory's listing awaited.
pub open spec fn searching(v: AppView, confirm: bool) -> AppView {
    awaiting(v, PendingView::Searching { confirm })
}

/// What a key does on the search screen: every change of the text searched
/// for starts the search anew.
pub open spec fn search_keyed(v: AppView, press: KeyPress) -> Step {
    match press.key {
        Key::Esc => ask(awaiting(v, PendingView::Refreshing)),
        Key::Backspace => ask(
            searching(
                AppView {
                    search: if v.search.len() > 0 {
                        v.search.drop_last()
                    } else {
                        v.search
                    },
                    ..v
                },
                false,
            ),
        ),
        Key::Enter => ask(searching(v, true)),
        Key::Delete => ask(searching(AppView { search: Seq::empty(), ..v }, false)),
        _ => match press.glyph {
            Some(c) => if accepted(c) {
                ask(searching(AppView { search: v.search.push(c), ..v }, false))
            } else {
                stay(v)
            },
            None => stay(v),
        },
    }
}

/// What a key does on the preview screen.
pub open spec fn preview_keyed(v: AppView, key: Key) -> AppView {
    match key {
        Key::Char(c) => if c == 'q' {
            on_screen(v, CurrentScreen::Main)
        } else {
            v
        },
        Key::Esc => on_screen(v, CurrentScreen::Main),
        Key::Down => scrolled_to_line(v, plus(v.v_scroll, LINE_STEP)),
        Key::PageDown => scrolled_to_line(v, plus(v.v_scroll, LINE_PAGE)),
        Key::Up => scrolled_to_line(v, minus(v.v_scroll, LINE_STEP)),
        Key::PageUp => scrolled_to_line(v, minus(v.v_scroll, LINE_PAGE)),
        Key::Left => scrolled_to_column(v, minus(v.h_scroll, COLUMN_STEP)),
        Key::Right => scrolled_to_column(v, plus(v.h_scroll, COLUMN_STEP)),
        _ => v,
    }
}

/// What a key does in the dialog that asks whether the new entry is a file
/// or a directory.
pub open spec fn kind_keyed(v: AppView, key: Key) -> AppView {
    match key {
        Key::Char(c) => if c == 'd' {
            AppView { new_file_is_dir: true, screen: CurrentScreen::CreateNewFile, ..v }
        } else if c == 'f' {
            AppView { new_file_is_dir: false, screen: CurrentScreen::CreateNewFile, ..v }
        } else {
            AppView { new_file_is_dir: false, screen: CurrentScreen::Main, ..v }
        },
        _ => AppView { new_file_is_dir: false, screen: CurrentScreen::Main, ..v },
    }
}

/// The name being typed after one more key: an accepted character is
/// appended, but no dot behind a dot.
pub open spec fn name_typed(name: Seq<char>, glyph: Option<char>) -> Seq<char> {
    match glyph {
        Some(c) => if accepted(c) && !(c == '.' && name.len() > 0 && name.last() == '.') {
            name.push(c)
        } else {
            name
        },
        None => name,
    }
}

/// What a key that edits the name being typed does to it, and `None` for
/// the keys that do something else in a name dialog.
pub open spec fn name_edited(name: Seq<char>, press: KeyPress) -> Option<Seq<char>> {
    match press.key {
        Key::Esc => None,
        Key::Enter => None,
        Key::Backspace => Some(
            if name.len() > 0 {
                name.drop_last()
            } else {
                name
            },
        ),
        Key::Delete => Some(Seq::empty()),
        _ => Some(name_typed(name, press.glyph)),
    }
}

/// Whether a name can be given to an entry: it holds more than white space.
pub open spec fn usable_name(name: Seq<char>) -> bool {
    trimmed(name).len() > 0
}

/// What a key does in the dialog that takes the new entry's name.
pub open spec fn create_keyed(v: AppView, press: KeyPress) -> Step {
    match name_edited(v.new_file, press) {
        Some(name) => stay(AppView { new_file: name, ..v }),
        None => if press.key == Key::Esc {
            stay(on_screen(v, CurrentScreen::Main))
        } else if usable_name(v.new_file) {
            Step {
                state: awaiting(v, PendingView::Changing),
                action: creation(v, v.new_file),
            }
        } else {
            stay(v)
        },
    }
}

/// What a key does in the dialog that takes the selected entry's new name.
pub open spec fn rename_keyed(v: AppView, press: KeyPress) -> Step {
    match name_edited(v.new_file, press) {
        Some(name) => stay(AppView { new_file: name, ..v }),
        None => if press.key == Key::Esc {
            stay(on_screen(v, CurrentScreen::Main))
        } else if usable_name(v.new_file) {
            Step { state: changing_selected(v), action: renaming(v, v.new_file) }
        } else {
            stay(v)
        },
    }
}

/// Whether a key says yes in a dialog that asks to confirm.
pub open spec fn says_yes(key: Key) -> bool {
    key == Key::Char('y')
}

/// What a key does in the dialog that asks to confirm a deletion.
pub open spec fn delete_keyed(v: AppView, key: Key) -> Step {
    if says_yes(key) {
        Step { state: changing_selected(v), action: removal(v) }
    } else {
        stay(on_screen(v, CurrentScreen::Main))
    }
}

/// What a key does in the dialog that asks to confirm a copy.
pub open spec fn paste_keyed(v: AppView, key: Key) -> Step {
    if says_yes(key) {
        Step {
            state: copy_begun(on_screen(v, CurrentScreen::CopyingProgressBar)),
            action: copying(v),
        }
    } else {
        stay(on_screen(v, CurrentScreen::Main))
    }
}

/// Whether a key leaves a screen: `q` or escape.
pub open spec fn leaves(key: Key) -> bool {
    key == Key::Char('q') || key == Key::Esc
}

/// What a key does while a copy runs.
pub open spec fn progress_keyed(v: AppView, key: Key) -> Step {
    if leaves(key) {
        ask(copy_ended(v))
    } else {
        stay(v)
    }
}

/// What a press of a key does in a state, by the screen on display.
pub open spec fn keyed(v: AppView, press: KeyPress) -> Step {
    match v.screen {
        CurrentScreen::Main => main_keyed(v, press.key),
        CurrentScreen::Search => search_keyed(v, press),
        CurrentScreen::Preview => stay(preview_keyed(v, press.key)),
        CurrentScreen::IsNewFileADir => stay(kind_keyed(v, press.key)),
        CurrentScreen::CreateNewFile => create_keyed(v, press),
        CurrentScreen::ConfirmDelete => delete_keyed(v, press.key),
        CurrentScreen::ConfirmCopyingPopUp => paste_keyed(v, press.key),
        CurrentScreen::CopyingProgressBar => progress_keyed(v, press.key),
        CurrentScreen::Rename => rename_keyed(v, press),
        CurrentScreen::ErrorPopUp => stay(
            AppView { error: None, screen: CurrentScreen::Main, ..v },
        ),
        CurrentScreen::Help => stay(on_screen(v, CurrentScreen::Main)),
    }
}

/// Whether a character can be typed into a text dialog.
pub fn is_accepted(c: char) -> (r: bool)
    ensures
        r == accepted(c),
{
    is_alphanumeric(c) || c == '.'
}

/// Whether a name holds more than white space.
pub fn is_usable_name(name: &str) -> (r: bool)
    ensures
        r == usable_name(name@),
{
    !trim(name).is_empty()
}

/// Edits the name being typed as the key asks, and says whether the key
/// was one that edits.
pub fn edit_name(name: &mut String, press: KeyPress) -> (edited: bool)
    ensures
        edited == name_edited(old(name)@, press) is Some,
        final(name)@ == match name_edited(old(name)@, press) {
            Some(text) => text,
            None => old(name)@,
        },
{
    match press.key {
        Key::Esc => false,
        Key::Enter => false,
        Key::Backspace => {
            name.pop();
            true
        },
        Key::Delete => {
            *name = String::new();
            true
        },
        _ => {
            match press.glyph {
                Some(c) => {
                    if is_accepted(c) {
                        let length: usize = name.as_str().unicode_len();
                        let after_dot = length > 0 && name.as_str().get_char(length - 1) == '.';
                        if !(c == '.' && after_dot) {
                            name.push(c);
                        }
                    }
                },
                None => {},
            }
            true
        },
    }
}

impl App {
    /// Shows another screen.
    fn go(&mut self, screen: CurrentScreen)
        ensures
            final(self)@ == on_screen(old(self)@, screen),
    {
        self.current_screen = screen;
    }

    /// Shows `screen` where an entry is selected; else the error popup.
    fn go_for_selected(&mut self, screen: CurrentScreen)
        ensures
            final(self)@ == on_screen_for_selected(old(self)@, screen),
    {
        if self.selected_file.is_some() {
            self.current_screen = screen;
        } else {
            self.fail_unselected();
        }
    }

    /// Marks the selected entry for copying, where it is a plain file.
    fn mark(&mut self)
        ensures
            final(self)@ == marked(old(self)@),
    {
        let marked = match &self.selected_file {
            Some(file) => {
                let plain = "File".to_owned();
                if file.kind_name == plain {
                    Some(file.duplicate())
                } else {
                    None
                }
            },
            None => {
                self.fail_unselected();
                return ;
            },
        };
        match marked {
            Some(file) => {
                self.file_to_copy = Some(file);
            },
            None => {},
        }
    }

    /// Takes in a key on the main screen.
    fn key_on_main(&mut self, key: Key) -> (action: Action)
        requires
            old(self).wf(),
        ensures
            final(self)@ == main_keyed(old(self)@, key).state,
            action@ == main_keyed(old(self)@, key).action,
            final(self).wf(),
    {
        match key {
            Key::Char(c) => {
                if c == 'q' {
                    return Action::Quit;
                } else if c == 'n' {
                    self.go(CurrentScreen::IsNewFileADir);
                } else if c == 'h' {
                    self.go(CurrentScreen::Help);
                } else if c == 'd' {
                    self.go_for_selected(CurrentScreen::ConfirmDelete);
                } else if c == 'c' {
                    self.mark();
                } else if c == 'p' {
                    if self.file_to_copy.is_some() {
                        self.go(CurrentScreen::ConfirmCopyingPopUp);
                    } else {
                        self.fail_unselected();
                    }
                } else if c == 'r' {
                    self.go_for_selected(CurrentScreen::Rename);
                } else if c == '/' {
                    self.search_input = String::new();
                    self.current_screen = CurrentScreen::Search;
                } else if c == '.' {
                    return self.toggle_hidden();
                }
                Action::Wait
            },
            Key::Esc => Action::Quit,
            Key::PageDown => {
                self.page_down();
                Action::Wait
            },
            Key::PageUp => {
                self.page_up();
                Action::Wait
            },
            Key::Down => {
                self.down();
                Action::Wait
            },
            Key::Up => {
                self.up();
                Action::Wait
            },
            Key::Enter => self.handle_selected_file(),
            Key::Right => self.handle_selected_file(),
            Key::Backspace => self.previus_dir(),
            Key::Left => self.previus_dir(),
            _ => Action::Wait,
        }
    }

    /// Takes in a key on the search screen.
    fn key_on_search(&mut self, press: KeyPress) -> (action: Action)
        requires
            old(self).wf(),
        ensures
            final(self)@ == search_keyed(old(self)@, press).state,
            action@ == search_keyed(old(self)@, press).action,
            final(self).wf(),
    {
        match press.key {
            Key::Esc => self.reset(),
            Key::Backspace => {
                self.search_input.pop();
                self.search()
            },
            Key::Enter => self.search_in_listing(true),
            Key::Delete => {
                self.search_input = String::new();
                self.search()
            },
            _ => {
                match press.glyph {
                    Some(c) => {
                        if is_accepted(c) {
                            self.search_input.push(c);
                            self.search()
                        } else {
                            Action::Wait
                        }
                    },
                    None => Action::Wait,
                }
            },
        }
    }

    /// Takes in a key on the preview screen.
    fn key_on_preview(&mut self, key: Key)
        ensures
            final(self)@ == preview_keyed(old(self)@, key),
    {
        match key {
            Key::Char(c) => {
                if c == 'q' {
                    self.go(CurrentScreen::Main);
                }
            },
            Key::Esc => self.go(CurrentScreen::Main),
            Key::Down => self.scroll_down(LINE_STEP),
            Key::PageDown => self.scroll_down(LINE_PAGE),
            Key::Up => self.scroll_up(LINE_STEP),
            Key::PageUp => self.scroll_up(LINE_PAGE),
            Key::Left => self.scroll_left(),
            Key::Right => self.scroll_right(),
            _ => {},
        }
    }

    /// Takes in a key in the dialog that asks for the kind of a new entry.
    fn key_on_kind(&mut self, key: Key)
        ensures
            final(self)@ == kind_keyed(old(self)@, key),
    {
        let mut as_dir = false;
        let mut go_on = false;
        match key {
            Key::Char(c) => {
                if c == 'd' {
                    as_dir = true;
                    go_on = true;
                } else if c == 'f' {
                    go_on = true;
                }
            },
            _ => {},
        }
        self.new_file_is_dir = as_dir;
        if go_on {
            self.current_screen = CurrentScreen::CreateNewFile;
        } else {
            self.current_screen = CurrentScreen::Main;
        }
    }

    /// Takes in a key in the dialog that takes a new entry's name.
    fn key_on_create(&mut self, press: KeyPress) -> (action: Action)
        requires
            old(self).wf(),
        ensures
            final(self)@ == create_keyed(old(self)@, press).state,
            action@ == create_keyed(old(self)@, press).action,
            final(self).wf(),
    {
        if edit_name(&mut self.new_file, press) {
            return Action::Wait;
        }
        match press.key {
            Key::Esc => {
                self.go(CurrentScreen::Main);
                Action::Wait
            },
            _ => {
                if is_usable_name(self.new_file.as_str()) {
                    let name = self.new_file.clone();
                    self.new_file(name.as_str())
                } else {
                    Action::Wait
                }
            },
        }
    }

    /// Takes in a key in the dialog that takes the selected entry's new
    /// name.
    fn key_on_rename(&mut self, press: KeyPress) -> (action: Action)
        requires
            old(self).wf(),
        ensures
            final(self)@ == rename_keyed(old(self)@, press).state,
            action@ == rename_keyed(old(self)@, press).action,
            final(self).wf(),
    {
        if edit_name(&mut self.new_file, press) {
            return Action::Wait;
        }
        match press.key {
            Key::Esc => {
                self.go(CurrentScreen::Main);
                Action::Wait
            },
            _ => {
                if is_usable_name(self.new_file.as_str()) {
                    let name = self.new_file.clone();
                    self.rename(name.as_str())
                } else {
                    Action::Wait
                }
            },
        }
    }

    /// Takes in one press of a key and says what the host is to do next.
    /// What the key means depends on the screen on display.
    pub fn handle_key(&mut self, press: KeyPress) -> (action: Action)
        requires
            old(self).wf(),
        ensures
            final(self)@ == keyed(old(self)@, press).state,
            action@ == keyed(old(self)@, press).action,
            final(self).wf(),
    {
        let yes = press.key == Key::Char('y');
        let leave = press.key == Key::Char('q') || press.key == Key::Esc;
        match self.current_screen {
            CurrentScreen::Main => self.key_on_main(press.key),
            CurrentScreen::Search => self.key_on_search(press),
            CurrentScreen::Preview => {
                self.key_on_preview(press.key);
                Action::Wait
            },
            CurrentScreen::IsNewFileADir => {
                self.key_on_kind(press.key);
                Action::Wait
            },
            CurrentScreen::CreateNewFile => self.key_on_create(press),
            CurrentScreen::ConfirmDelete => {
                if yes {
                    self.rm()
                } else {
                    self.go(CurrentScreen::Main);
                    Action::Wait
                }
            },
            CurrentScreen::ConfirmCopyingPopUp => {
                if yes {
                    self.go(CurrentScreen::CopyingProgressBar);
                    self.copy()
                } else {
                    self.go(CurrentScreen::Main);
                    Action::Wait
                }
            },
            CurrentScreen::CopyingProgressBar => {
                if leave {
                    self.cancel_copy()
                } else {
                    Action::Wait
                }
            },
            CurrentScreen::Rename => self.key_on_rename(press),
            CurrentScreen::ErrorPopUp => {
                self.error_message = None;
                self.current_screen = CurrentScreen::Main;
                Action::Wait
            },
            CurrentScreen::Help => {
                self.go(CurrentScreen::Main);
                Action::Wait
            },
        }
    }
}

} // verus!
