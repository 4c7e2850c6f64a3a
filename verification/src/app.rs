//! The browser's state and the operations on it.
//!
//! The browser never touches the file system or the terminal itself. An
//! operation that needs outside work hands the host an [`Action`], the host
//! performs it and answers with a [`Reply`] to [`App::resume`].

use crate::channel::{progress_channel, try_receive, CopySignal};
use crate::files::{
    file_views, filter_by_name, list_files, raw_views, same_entry, FileView, RawEntry, StfmFile,
};
use crate::model::{
    awaiting, changing_selected, choice, chosen, copy_begun, copy_ended, copying, creation,
    failed, initial, left, listing_request, minus, moved_next, moved_previous, no_selection,
    paged_down, paged_up, plus, progress_request, progressed, removal, renaming, resumed,
    scrolled_to_column, scrolled_to_line, selects, shows, toggled, ReplyView,
};
use crate::path::{rendered, DirPath};
use crate::text::text_view;
use crate::widgets::{list_selected, scrollbar_content_length, scrollbar_position};
use ratatui::widgets::{ListState, ScrollbarState};
use std::sync::mpsc::{Receiver, Sender};
use vstd::prelude::*;
use vstd::string::*;

verus! {

/// The screen on display, which decides what input means.
#[derive(Debug, Clone, Copy, PartialEq, Eq, Structural)]
pub enum CurrentScreen {
    Search,
    Main,
    Preview,
    CreateNewFile,
    ConfirmDelete,
    IsNewFileADir,
    Rename,
    ErrorPopUp,
    Help,
    ConfirmCopyingPopUp,
    CopyingProgressBar,
}

/// The outside work that the browser waits for.
#[derive(Debug)]
pub enum Pending {
    /// None.
    Nothing,
    /// Entering the directory of this name below the current one.
    Entering(String),
    /// A creation, deletion or renaming.
    Changing,
    /// A listing for a full refresh.
    Refreshing,
    /// A listing to search in; `confirm` where the search ends with it.
    Searching { confirm: bool },
    /// The text of the selected file.
    Reading,
}

/// The mathematical value of a [`Pending`].
pub enum PendingView {
    Nothing,
    Entering(Seq<char>),
    Changing,
    Refreshing,
    Searching { confirm: bool },
    Reading,
}

impl View for Pending {
    type V = PendingView;

    open spec fn view(&self) -> PendingView {
        match *self {
            Pending::Nothing => PendingView::Nothing,
            Pending::Entering(name) => PendingView::Entering(name@),
            Pending::Changing => PendingView::Changing,
            Pending::Refreshing => PendingView::Refreshing,
            Pending::Searching { confirm } => PendingView::Searching { confirm },
            Pending::Reading => PendingView::Reading,
        }
    }
}

/// What the host is to do next.
#[derive(Debug)]
pub enum Action {
    /// Nothing: draw, and wait for input.
    Wait,
    /// End the program.
    Quit,
    /// Read the directory and answer with [`Reply::Listing`].
    List { dir: String },
    /// Create an empty file and answer with [`Reply::Done`].
    CreateFile { path: String },
    /// Create a directory and answer with [`Reply::Done`].
    MakeDir { path: String },
    /// Delete a file and answer with [`Reply::Done`].
    DeleteFile { path: String },
    /// Delete a directory with all it holds and answer with [`Reply::Done`].
    DeleteDir { path: String },
    /// Rename an entry and answer with [`Reply::Done`].
    Rename { from: String, to: String },
    /// Make the directory the working directory and answer with
    /// [`Reply::Done`].
    ChangeDir { path: String },
    /// Read a file as text and answer with [`Reply::Text`].
    ReadText { path: String },
    /// Start a worker that copies `from` to `to` and sends the number of
    /// bytes written so far through `progress` after each chunk. No answer
    /// is due.
    Copy { from: String, to: String, progress: Sender<u64> },
}

/// The mathematical value of an [`Action`]; the sending end of a copy's
/// channel has none.
pub enum ActionView {
    Wait,
    Quit,
    List { dir: Seq<char> },
    CreateFile { path: Seq<char> },
    MakeDir { path: Seq<char> },
    DeleteFile { path: Seq<char> },
    DeleteDir { path: Seq<char> },
    Rename { from: Seq<char>, to: Seq<char> },
    ChangeDir { path: Seq<char> },
    ReadText { path: Seq<char> },
    Copy { from: Seq<char>, to: Seq<char> },
}

impl View for Action {
    type V = ActionView;

    open spec fn view(&self) -> ActionView {
        match *self {
            Action::Wait => ActionView::Wait,
            Action::Quit => ActionView::Quit,
            Action::List { dir } => ActionView::List { dir: dir@ },
            Action::CreateFile { path } => ActionView::CreateFile { path: path@ },
            Action::MakeDir { path } => ActionView::MakeDir { path: path@ },
            Action::DeleteFile { path } => ActionView::DeleteFile { path: path@ },
            Action::DeleteDir { path } => ActionView::DeleteDir { path: path@ },
            Action::Rename { from, to } => ActionView::Rename { from: from@, to: to@ },
            Action::ChangeDir { path } => ActionView::ChangeDir { path: path@ },
            Action::ReadText { path } => ActionView::ReadText { path: path@ },
            Action::Copy { from, to, progress } => ActionView::Copy { from: from@, to: to@ },
        }
    }
}

/// The host's answer to an [`Action`].
#[derive(Debug)]
pub enum Reply {
    /// How a change to the file system ended: the error's text where it
    /// failed.
    Done(Result<(), String>),
    /// What the directory holds. A directory that cannot be read counts as
    /// empty.
    Listing(Vec<RawEntry>),
    /// The text of a file, or the error's text.
    Text(Result<String, String>),
}

impl View for Reply {
    type V = ReplyView;

    open spec fn view(&self) -> ReplyView {
        match *self {
            Reply::Done(Ok(_)) => ReplyView::Done(Ok(())),
            Reply::Done(Err(e)) => ReplyView::Done(Err(e@)),
            Reply::Listing(raw) => ReplyView::Listing(raw_views(raw@)),
            Reply::Text(Ok(content)) => ReplyView::Text(Ok(content@)),
            Reply::Text(Err(e)) => ReplyView::Text(Err(e@)),
        }
    }
}

/// The browser's state.
#[derive(Debug)]
pub struct App {
    /// The screen on display.
    pub current_screen: CurrentScreen,
    /// The entries on display.
    pub files: Vec<StfmFile>,
    /// The directory on display.
    pub current_dir: DirPath,
    /// The index of the selected entry.
    pub index_selected: Option<usize>,
    /// A copy of the selected entry.
    pub selected_file: Option<StfmFile>,
    /// The list widget's state.
    pub list_state: ListState,
    /// The text in the preview.
    pub preview_string: String,
    /// The preview's vertical scrollbar.
    pub v_preview_scroll_state: ScrollbarState,
    /// The preview's vertical scroll offset.
    pub vertical_scroll: usize,
    /// The preview's horizontal scrollbar.
    pub h_preview_scroll_state: ScrollbarState,
    /// The preview's horizontal scroll offset.
    pub horizontal_scroll: usize,
    /// The name typed for a new or renamed entry.
    pub new_file: String,
    /// Whether the new entry is to be a directory.
    pub new_file_is_dir: bool,
    /// The last error's text.
    pub error_message: Option<String>,
    /// Whether hidden entries are shown.
    pub show_hidden: bool,
    /// The text typed to search for.
    pub search_input: String,
    /// The entry marked for copying.
    pub file_to_copy: Option<StfmFile>,
    /// The bytes that the running copy has written so far.
    pub readed_bytes: u64,
    /// The receiving end of the running copy's channel.
    pub progress_receiver: Option<Receiver<u64>>,
    /// The outside work that the browser waits for.
    pub pending: Pending,
}

/// The mathematical value of an [`App`].
#[verifier::ext_equal]
pub struct AppView {
    pub screen: CurrentScreen,
    pub files: Seq<FileView>,
    pub dir: Seq<Seq<char>>,
    pub index: Option<usize>,
    pub selected: Option<FileView>,
    pub list_selected: Option<usize>,
    pub preview: Seq<char>,
    pub v_bar_length: usize,
    pub v_bar_position: usize,
    pub v_scroll: usize,
    pub h_bar_length: usize,
    pub h_bar_position: usize,
    pub h_scroll: usize,
    pub new_file: Seq<char>,
    pub new_file_is_dir: bool,
    pub error: Option<Seq<char>>,
    pub show_hidden: bool,
    pub search: Seq<char>,
    pub to_copy: Option<FileView>,
    pub copied: u64,
    pub copying: bool,
    pub pending: PendingView,
}

/// The value of an optional entry.
pub open spec fn file_view(file: Option<StfmFile>) -> Option<FileView> {
    match file {
        Some(f) => Some(f@),
        None => None,
    }
}

impl View for App {
    type V = AppView;

    open spec fn view(&self) -> AppView {
        AppView {
            screen: self.current_screen,
            files: file_views(self.files@),
            dir: self.current_dir@,
            index: self.index_selected,
            selected: file_view(self.selected_file),
            list_selected: list_selected(self.list_state),
            preview: self.preview_string@,
            v_bar_length: scrollbar_content_length(self.v_preview_scroll_state),
            v_bar_position: scrollbar_position(self.v_preview_scroll_state),
            v_scroll: self.vertical_scroll,
            h_bar_length: scrollbar_content_length(self.h_preview_scroll_state),
            h_bar_position: scrollbar_position(self.h_preview_scroll_state),
            h_scroll: self.horizontal_scroll,
            new_file: self.new_file@,
            new_file_is_dir: self.new_file_is_dir,
            error: text_view(self.error_message),
            show_hidden: self.show_hidden,
            search: self.search_input@,
            to_copy: file_view(self.file_to_copy),
            copied: self.readed_bytes,
            copying: self.progress_receiver is Some,
            pending: self.pending@,
        }
    }
}

/// The selection in a fresh listing: the first entry, if there is one.
pub open spec fn first_index(files: Seq<FileView>) -> Option<usize> {
    if files.len() > 0 {
        Some(0usize)
    } else {
        None
    }
}

/// The entry at an index of a listing, if the index is one.
pub open spec fn entry_at(files: Seq<FileView>, index: Option<usize>) -> Option<FileView> {
    match index {
        Some(i) => if i < files.len() {
            Some(files[i as int])
        } else {
            None
        },
        None => None,
    }
}

/// Whether the selection fits the listing: nothing is selected exactly when
/// the listing is empty, a selected index lies within the listing, the
/// selected entry is the one at that index, and the list widget marks the
/// same index.
pub open spec fn selection_fits(v: AppView) -> bool {
    &&& v.index is None <==> v.files.len() == 0
    &&& v.index matches Some(i) ==> i < v.files.len()
    &&& v.selected == entry_at(v.files, v.index)
    &&& v.list_selected == v.index
}

/// How many entries a page key moves the selection.
pub const PAGE_STEP: u16 = 5;

/// How many columns a key scrolls the preview sideways.
pub const COLUMN_STEP: usize = 10;

impl App {
    /// Whether this state is one that the browser can be in.
    pub open spec fn wf(&self) -> bool {
        selection_fits(self@)
    }

    /// Whether this state is one that the browser can be in. Every state
    /// that the browser's operations lead to is; a host that writes the
    /// fields itself can ask here before it goes on.
    pub fn is_consistent(&self) -> (ok: bool)
        ensures
            ok == self.wf(),
    {
        let marked = self.list_state.selected();
        match self.index_selected {
            Some(i) => {
                if i >= self.files.len() {
                    return false;
                }
                let same = match &self.selected_file {
                    Some(file) => same_entry(file, &self.files[i]),
                    None => false,
                };
                same && marked == Some(i)
            },
            None => self.files.len() == 0 && self.selected_file.is_none() && marked.is_none(),
        }
    }

    /// The browser in the directory `dir`, which holds what `raw` lists:
    /// on the main screen, with hidden entries shown and the first entry
    /// selected.
    pub fn new(dir: DirPath, raw: Vec<RawEntry>) -> (app: App)
        ensures
            app@ == initial(dir@, raw_views(raw@)),
            app.wf(),
    {
        let mut app = App {
            current_screen: CurrentScreen::Main,
            files: Vec::new(),
            current_dir: dir,
            index_selected: None,
            selected_file: None,
            list_state: ListState::default(),
            preview_string: String::new(),
            v_preview_scroll_state: ScrollbarState::default(),
            vertical_scroll: 0,
            h_preview_scroll_state: ScrollbarState::default(),
            horizontal_scroll: 0,
            new_file: String::new(),
            new_file_is_dir: false,
            error_message: None,
            show_hidden: true,
            search_input: String::new(),
            file_to_copy: None,
            readed_bytes: 0,
            progress_receiver: None,
            pending: Pending::Nothing,
        };
        app.show(list_files(&raw, true));
        app
    }

    /// Selects what the list widget marks.
    fn follow_list(&mut self)
        requires
            list_selected(old(self).list_state) matches Some(i) && i < old(self).files.len(),
        ensures
            final(self)@ == selects(old(self)@, list_selected(old(self).list_state)),
    {
        self.index_selected = self.list_state.selected();
        match self.index_selected {
            Some(i) => {
                self.selected_file = Some(self.files[i].duplicate());
            },
            None => {},
        }
    }

    /// Puts a new listing on display and selects its first entry.
    pub(crate) fn show(&mut self, files: Vec<StfmFile>)
        ensures
            final(self)@ == shows(old(self)@, file_views(files@)),
            final(self).wf(),
    {
        self.files = files;
        if self.files.len() > 0 {
            self.list_state.select_first();
            self.index_selected = self.list_state.selected();
            self.selected_file = Some(self.files[0].duplicate());
        } else {
            self.list_state.select(None);
            self.index_selected = None;
            self.selected_file = None;
        }
    }

    /// Keeps the error's text and shows the error popup.
    pub(crate) fn fail(&mut self, message: String)
        ensures
            final(self)@ == failed(old(self)@, message@),
    {
        self.error_message = Some(message);
        self.current_screen = CurrentScreen::ErrorPopUp;
        self.pending = Pending::Nothing;
    }

    /// Shows the error popup that says that no entry is selected or marked.
    pub(crate) fn fail_unselected(&mut self)
        ensures
            final(self)@ == failed(old(self)@, no_selection()),
    {
        self.fail("No file selected".to_owned());
    }

    /// Moves the selection one entry down, from the last entry on to the
    /// first. Nothing moves in an empty listing.
    pub fn down(&mut self)
        requires
            old(self).wf(),
        ensures
            final(self)@ == moved_next(old(self)@),
            final(self).wf(),
    {
        match self.index_selected {
            Some(index) => {
                if self.files.len() == 0 {
                    return ;
                }
                if index == self.files.len() - 1 {
                    self.list_state.select_first();
                } else {
                    self.list_state.select_next();
                }
                self.follow_list();
            },
            None => {},
        }
    }

    /// Moves the selection one entry up, from the first entry on to the
    /// last. Nothing moves in an empty listing.
    pub fn up(&mut self)
        requires
            old(self).wf(),
        ensures
            final(self)@ == moved_previous(old(self)@),
            final(self).wf(),
    {
        match self.index_selected {
            Some(index) => {
                if self.files.len() == 0 {
                    return ;
                }
                if index == 0 {
                    self.list_state.select(Some(self.files.len() - 1));
                } else {
                    self.list_state.select_previous();
                }
                self.follow_list();
            },
            None => {},
        }
    }

    /// Moves the selection a page up, at most to the first entry.
    pub fn page_up(&mut self)
        requires
            old(self).wf(),
        ensures
            final(self)@ == paged_up(old(self)@, PAGE_STEP as usize),
            final(self).wf(),
    {
        if self.index_selected.is_some() && self.files.len() > 0 {
            self.list_state.scroll_up_by(PAGE_STEP);
            self.follow_list();
        }
    }

    /// Moves the selection a page down, at most to the last entry.
    pub fn page_down(&mut self)
        requires
            old(self).wf(),
        ensures
            final(self)@ == paged_down(old(self)@, PAGE_STEP as usize),
            final(self).wf(),
    {
        if self.index_selected.is_some() && self.files.len() > 0 {
            self.list_state.scroll_down_by(PAGE_STEP);
            let last: usize = self.files.len() - 1;
            match self.list_state.selected() {
                Some(i) => {
                    if i > last {
                        self.list_state.select(Some(last));
                    }
                },
                None => {},
            }
            self.follow_list();
        }
    }

    /// Asks the host for the current directory's listing.
    fn list_current(&self) -> (action: Action)
        ensures
            action@ == (ActionView::List { dir: rendered(self@.dir) }),
    {
        Action::List { dir: self.current_dir.render() }
    }

    /// Asks for a full refresh: the host is to list the current directory.
    pub fn reset(&mut self) -> (action: Action)
        requires
            old(self).wf(),
        ensures
            final(self)@ == awaiting(old(self)@, PendingView::Refreshing),
            action@ == listing_request(final(self)@),
            final(self).wf(),
    {
        self.pending = Pending::Refreshing;
        self.list_current()
    }

    /// Switches the display of hidden entries and asks for a full refresh.
    pub fn toggle_hidden(&mut self) -> (action: Action)
        requires
            old(self).wf(),
        ensures
            final(self)@ == toggled(old(self)@),
            action@ == listing_request(final(self)@),
            final(self).wf(),
    {
        self.show_hidden = !self.show_hidden;
        self.reset()
    }

    /// Asks to enter the directory `dir_name` below the current one. The
    /// current directory changes when the host has entered it.
    pub fn cd(&mut self, dir_name: String) -> (action: Action)
        requires
            old(self).wf(),
        ensures
            final(self)@ == awaiting(old(self)@, PendingView::Entering(dir_name@)),
            action@ == (ActionView::ChangeDir { path: rendered(old(self)@.dir.push(dir_name@)) }),
            final(self).wf(),
    {
        let path = self.current_dir.child(dir_name.as_str());
        self.pending = Pending::Entering(dir_name);
        Action::ChangeDir { path }
    }

    /// Leaves the current directory for the one above it, stays in the
    /// root, and asks for a full refresh.
    pub fn previus_dir(&mut self) -> (action: Action)
        requires
            old(self).wf(),
        ensures
            final(self)@ == left(old(self)@),
            action@ == listing_request(final(self)@),
            final(self).wf(),
    {
        self.current_dir.pop();
        self.reset()
    }

    /// Chooses the selected entry: asks to enter it where it is a
    /// directory, else shows the preview screen and asks for the file's
    /// text. Nothing happens where nothing is selected.
    pub fn handle_selected_file(&mut self) -> (action: Action)
        requires
            old(self).wf(),
        ensures
            final(self)@ == chosen(old(self)@),
            action@ == choice(old(self)@),
            final(self).wf(),
    {
        let (is_dir, name, path) = match &self.selected_file {
            Some(file) => (file.is_dir, file.name.clone(), file.full_path.clone()),
            None => {
                return Action::Wait;
            },
        };
        if is_dir {
            self.cd(name)
        } else {
            self.current_screen = CurrentScreen::Preview;
            self.pending = Pending::Reading;
            Action::ReadText { path }
        }
    }

    /// Asks to create the entry `file_name` in the current directory: a
    /// directory where the dialog asked for one, else an empty file.
    pub fn new_file(&mut self, file_name: &str) -> (action: Action)
        requires
            old(self).wf(),
        ensures
            final(self)@ == awaiting(old(self)@, PendingView::Changing),
            action@ == creation(old(self)@, file_name@),
            final(self).wf(),
    {
        let path = self.current_dir.child(file_name);
        self.pending = Pending::Changing;
        if self.new_file_is_dir {
            Action::MakeDir { path }
        } else {
            Action::CreateFile { path }
        }
    }

    /// Asks to delete the selected entry, a directory with all it holds.
    /// Where nothing is selected, the error popup says so.
    pub fn rm(&mut self) -> (action: Action)
        requires
            old(self).wf(),
        ensures
            final(self)@ == changing_selected(old(self)@),
            action@ == removal(old(self)@),
            final(self).wf(),
    {
        let (is_dir, path) = match &self.selected_file {
            Some(file) => (file.is_dir, file.full_path.clone()),
            None => {
                self.fail_unselected();
                return Action::Wait;
            },
        };
        self.pending = Pending::Changing;
        if is_dir {
            Action::DeleteDir { path }
        } else {
            Action::DeleteFile { path }
        }
    }

    /// Asks to give the selected entry the name `new_name` in the current
    /// directory. Where nothing is selected, the error popup says so.
    pub fn rename(&mut self, new_name: &str) -> (action: Action)
        requires
            old(self).wf(),
        ensures
            final(self)@ == changing_selected(old(self)@),
            action@ == renaming(old(self)@, new_name@),
            final(self).wf(),
    {
        let from = match &self.selected_file {
            Some(file) => file.full_path.clone(),
            None => {
                self.fail_unselected();
                return Action::Wait;
            },
        };
        let to = self.current_dir.child(new_name);
        self.pending = Pending::Changing;
        Action::Rename { from, to }
    }

    /// Asks for the current directory's listing to search in; `confirm`
    /// where the search ends with it.
    pub(crate) fn search_in_listing(&mut self, confirm: bool) -> (action: Action)
        requires
            old(self).wf(),
        ensures
            final(self)@ == awaiting(old(self)@, PendingView::Searching { confirm }),
            action@ == listing_request(final(self)@),
            final(self).wf(),
    {
        self.pending = Pending::Searching { confirm };
        self.list_current()
    }

    /// Asks for the current directory's listing, to show those of its
    /// entries whose name holds the text typed to search for.
    pub fn search(&mut self) -> (action: Action)
        requires
            old(self).wf(),
        ensures
            final(self)@ == awaiting(old(self)@, PendingView::Searching { confirm: false }),
            action@ == listing_request(final(self)@),
            final(self).wf(),
    {
        self.search_in_listing(false)
    }

    /// Starts to copy the marked entry into the current directory: opens a
    /// channel for the worker's byte counts, keeps its receiving end and
    /// hands the host the other. Where no entry is marked, the marked entry
    /// is a directory or a copy is running, nothing starts and the error
    /// popup says why.
    pub fn copy(&mut self) -> (action: Action)
        requires
            old(self).wf(),
        ensures
            final(self)@ == copy_begun(old(self)@),
            action@ == copying(old(self)@),
            final(self).wf(),
    {
        let (is_dir, name, from) = match &self.file_to_copy {
            Some(file) => (file.is_dir, file.name.clone(), file.full_path.clone()),
            None => {
                self.fail_unselected();
                return Action::Wait;
            },
        };
        if self.progress_receiver.is_some() {
            self.fail("A copy is already running".to_owned());
            return Action::Wait;
        }
        if is_dir {
            self.fail("Cannot copy directories".to_owned());
            return Action::Wait;
        }
        let to = self.current_dir.child(name.as_str());
        let (progress, receiver) = progress_channel();
        self.readed_bytes = 0;
        self.progress_receiver = Some(receiver);
        self.error_message = None;
        Action::Copy { from, to, progress }
    }

    /// Ends the copy: unmarks the entry, drops the channel and asks for a
    /// full refresh.
    fn end_copy(&mut self) -> (action: Action)
        requires
            old(self).wf(),
        ensures
            final(self)@ == copy_ended(old(self)@),
            action@ == (ActionView::List { dir: rendered(old(self)@.dir) }),
            final(self).wf(),
    {
        self.file_to_copy = None;
        self.readed_bytes = 0;
        self.progress_receiver = None;
        self.reset()
    }

    /// Gives up the running copy, if there is one, and asks for a full
    /// refresh. The worker is not stopped.
    pub fn cancel_copy(&mut self) -> (action: Action)
        requires
            old(self).wf(),
        ensures
            final(self)@ == copy_ended(old(self)@),
            action@ == listing_request(final(self)@),
            final(self).wf(),
    {
        self.end_copy()
    }

    /// Takes in what a poll of the copy's channel found. The count received
    /// is kept; when it reaches the size of the entry being copied, or when
    /// the worker is gone, the copy ends and a full refresh is asked for.
    /// Without a running copy nothing changes.
    pub fn copy_progress(&mut self, signal: CopySignal) -> (action: Action)
        requires
            old(self).wf(),
        ensures
            final(self)@ == progressed(old(self)@, signal),
            action@ == progress_request(old(self)@, signal),
            final(self).wf(),
    {
        if self.progress_receiver.is_none() {
            return Action::Wait;
        }
        match signal {
            CopySignal::Progress(n) => {
                self.readed_bytes = n;
                let done = match &self.file_to_copy {
                    Some(file) => n == file.size,
                    None => false,
                };
                if done {
                    self.end_copy()
                } else {
                    Action::Wait
                }
            },
            CopySignal::Quiet => Action::Wait,
            CopySignal::Disconnected => self.end_copy(),
        }
    }

    /// Polls the running copy's channel once, without blocking, and takes
    /// in what it finds as [`App::copy_progress`] does.
    pub fn poll_copy(&mut self) -> (action: Action)
        requires
            old(self).wf(),
        ensures
            exists|signal: CopySignal|
                final(self)@ == progressed(old(self)@, signal) && action@ == progress_request(
                    old(self)@,
                    signal,
                ),
            final(self).wf(),
    {
        let signal = match &self.progress_receiver {
            Some(receiver) => try_receive(receiver),
            None => CopySignal::Quiet,
        };
        self.copy_progress(signal)
    }

    /// Takes in the host's reply to the last action and says what is to be
    /// done next. On success the awaited work goes on: the directory is
    /// entered, the listing is refreshed or searched, the text is put into
    /// the preview. On failure the error popup shows the error's text and
    /// nothing else changes. A reply that was not awaited only ends the
    /// waiting.
    pub fn resume(&mut self, reply: Reply) -> (action: Action)
        requires
            old(self).wf(),
        ensures
            final(self)@ == resumed(old(self)@, reply@),
            action@ == listing_request(final(self)@),
            final(self).wf(),
    {
        let mut pending = Pending::Nothing;
        core::mem::swap(&mut self.pending, &mut pending);
        match (pending, reply) {
            (Pending::Entering(name), Reply::Done(Ok(_))) => {
                self.current_dir.push(name);
                self.reset()
            },
            (Pending::Entering(_), Reply::Done(Err(e))) => {
                self.fail(e);
                Action::Wait
            },
            (Pending::Changing, Reply::Done(Ok(_))) => self.reset(),
            (Pending::Changing, Reply::Done(Err(e))) => {
                self.fail(e);
                Action::Wait
            },
            (Pending::Refreshing, Reply::Listing(raw)) => {
                self.show(list_files(&raw, self.show_hidden));
                self.search_input = String::new();
                self.new_file = String::new();
                self.new_file_is_dir = false;
                self.error_message = None;
                self.preview_string = String::new();
                self.vertical_scroll = 0;
                self.horizontal_scroll = 0;
                self.progress_receiver = None;
                self.current_screen = CurrentScreen::Main;
                Action::Wait
            },
            (Pending::Searching { confirm }, Reply::Listing(raw)) => {
                let all = list_files(&raw, self.show_hidden);
                self.show(filter_by_name(all, self.search_input.as_str()));
                if confirm {
                    self.current_screen = CurrentScreen::Main;
                }
                Action::Wait
            },
            (Pending::Reading, Reply::Text(Ok(content))) => {
                let length: usize = content.as_str().len();
                self.preview_string = content;
                self.v_preview_scroll_state = self.v_preview_scroll_state.content_length(length);
                self.vertical_scroll = 0;
                self.h_preview_scroll_state = self.h_preview_scroll_state.content_length(length);
                self.horizontal_scroll = 0;
                Action::Wait
            },
            (Pending::Reading, Reply::Text(Err(e))) => {
                self.fail(e);
                Action::Wait
            },
            _ => Action::Wait,
        }
    }

    /// Scrolls the preview up by `position` lines, at most to the first.
    pub fn scroll_up(&mut self, position: usize)
        ensures
            final(self)@ == scrolled_to_line(old(self)@, minus(old(self)@.v_scroll, position)),
    {
        self.vertical_scroll = self.vertical_scroll.saturating_sub(position);
        self.v_preview_scroll_state = self.v_preview_scroll_state.position(self.vertical_scroll);
    }

    /// Scrolls the preview down by `position` lines, as far as `usize`
    /// counts.
    pub fn scroll_down(&mut self, position: usize)
        ensures
            final(self)@ == scrolled_to_line(old(self)@, plus(old(self)@.v_scroll, position)),
    {
        self.vertical_scroll = self.vertical_scroll.saturating_add(position);
        self.v_preview_scroll_state = self.v_preview_scroll_state.position(self.vertical_scroll);
    }

    /// Scrolls the preview left by [`COLUMN_STEP`] columns, at most to the
    /// first.
    pub fn scroll_left(&mut self)
        ensures
            final(self)@ == scrolled_to_column(
                old(self)@,
                minus(old(self)@.h_scroll, COLUMN_STEP),
            ),
    {
        self.horizontal_scroll = self.horizontal_scroll.saturating_sub(COLUMN_STEP);
        self.h_preview_scroll_state = self.h_preview_scroll_state.position(
            self.horizontal_scroll,
        );
    }

    /// Scrolls the preview right by [`COLUMN_STEP`] columns, as far as
    /// `usize` counts.
    pub fn scroll_right(&mut self)
        ensures
            final(self)@ == scrolled_to_column(
                old(self)@,
                plus(old(self)@.h_scroll, COLUMN_STEP),
            ),
    {
        self.horizontal_scroll = self.horizontal_scroll.saturating_add(COLUMN_STEP);
        self.h_preview_scroll_state = self.h_preview_scroll_state.position(
            self.horizontal_scroll,
        );
    }
}

} // verus!
