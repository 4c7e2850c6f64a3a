//! The browser's transitions as functions on its mathematical value. The
//! contracts of the operations in the other files are written with these.

use crate::app::{
    entry_at, first_index, ActionView, AppView, CurrentScreen, PendingView,
};
use crate::channel::CopySignal;
use crate::files::{listing, matching, FileView, RawView};
use crate::path::{parent_of, rendered};
use crate::text::byte_len;
use vstd::prelude::*;

verus! {

/// The mathematical value of a reply.
pub enum ReplyView {
    Done(Result<(), Seq<char>>),
    Listing(Seq<RawView>),
    Text(Result<Seq<char>, Seq<char>>),
}

/// The state with the given outside work awaited.
pub open spec fn awaiting(v: AppView, pending: PendingView) -> AppView {
    AppView { pending, ..v }
}

/// The state after a failure: the error's text is kept and the error popup
/// is shown; nothing else changes, but that no outside work is awaited.
pub open spec fn failed(v: AppView, message: Seq<char>) -> AppView {
    AppView {
        error: Some(message),
        screen: CurrentScreen::ErrorPopUp,
        pending: PendingView::Nothing,
        ..v
    }
}

/// The state with the given index selected.
pub open spec fn selects(v: AppView, index: Option<usize>) -> AppView {
    AppView { index, selected: entry_at(v.files, index), list_selected: index, ..v }
}

/// The state with a new listing on display and its first entry selected.
pub open spec fn shows(v: AppView, files: Seq<FileView>) -> AppView {
    selects(AppView { files, ..v }, first_index(files))
}

/// The state that the browser starts in, in the directory `dir` that holds
/// what `raw` lists: the main screen with the directory's listing, hidden
/// entries included, and its first entry selected; no text, no error, no
/// entry marked, no copy running, nothing awaited.
pub open spec fn initial(dir: Seq<Seq<char>>, raw: Seq<RawView>) -> AppView {
    shows(
        AppView {
            screen: CurrentScreen::Main,
            files: Seq::empty(),
            dir,
            index: None,
            selected: None,
            list_selected: None,
            preview: Seq::empty(),
            v_bar_length: 0,
            v_bar_position: 0,
            v_scroll: 0,
            h_bar_length: 0,
            h_bar_position: 0,
            h_scroll: 0,
            new_file: Seq::empty(),
            new_file_is_dir: false,
            error: None,
            show_hidden: true,
            search: Seq::empty(),
            to_copy: None,
            copied: 0,
            copying: false,
            pending: PendingView::Nothing,
        },
        listing(raw, true),
    )
}

/// The state after a full refresh from a directory snapshot: the snapshot's
/// listing is on display with its first entry selected, the texts being
/// typed, the error, the preview and its scroll offsets are cleared, a
/// copy's channel is dropped, and the main screen is shown.
pub open spec fn refreshed(v: AppView, raw: Seq<RawView>) -> AppView {
    AppView {
        search: Seq::empty(),
        new_file: Seq::empty(),
        new_file_is_dir: false,
        error: None,
        preview: Seq::empty(),
        v_scroll: 0,
        h_scroll: 0,
        copying: false,
        screen: CurrentScreen::Main,
        pending: PendingView::Nothing,
        ..shows(v, listing(raw, v.show_hidden))
    }
}

/// The state after a search in a directory snapshot: those entries of the
/// snapshot's listing whose name holds the text searched for are on display
/// with the first of them selected; the main screen is shown where the
/// search ends with it.
pub open spec fn searched(v: AppView, raw: Seq<RawView>, confirm: bool) -> AppView {
    AppView {
        screen: if confirm {
            CurrentScreen::Main
        } else {
            v.screen
        },
        pending: PendingView::Nothing,
        ..shows(v, matching(listing(raw, v.show_hidden), v.search))
    }
}

/// The index after the given one, or the first after the last.
pub open spec fn next_index(index: usize, len: nat) -> usize {
    if index + 1 >= len {
        0
    } else {
        (index + 1) as usize
    }
}

/// The index before the given one, or the last before the first.
pub open spec fn previous_index(index: usize, len: nat) -> usize {
    if index == 0 {
        (len - 1) as usize
    } else {
        (index - 1) as usize
    }
}

/// The index `step` entries further down, or the last index if there are
/// not that many.
pub open spec fn index_below(index: usize, step: usize, len: nat) -> usize {
    if index + step >= len {
        (len - 1) as usize
    } else {
        (index + step) as usize
    }
}

/// The index `step` entries further up, or the first index if there are not
/// that many.
pub open spec fn index_above(index: usize, step: usize) -> usize {
    if index >= step {
        (index - step) as usize
    } else {
        0
    }
}

/// The state with the selection moved by `to`, which gets the selected
/// index. Nothing moves where nothing is selected.
pub open spec fn moved(v: AppView, to: spec_fn(usize) -> usize) -> AppView {
    match v.index {
        Some(i) => if v.files.len() == 0 {
            v
        } else {
            selects(v, Some(to(i)))
        },
        None => v,
    }
}

/// The state with the selection one entry down, from the last entry on to
/// the first.
pub open spec fn moved_next(v: AppView) -> AppView {
    moved(v, |i: usize| next_index(i, v.files.len()))
}

/// The state with the selection one entry up, from the first entry on to
/// the last.
pub open spec fn moved_previous(v: AppView) -> AppView {
    moved(v, |i: usize| previous_index(i, v.files.len()))
}

/// The state with the selection `step` entries down, at most to the last.
pub open spec fn paged_down(v: AppView, step: usize) -> AppView {
    moved(v, |i: usize| index_below(i, step, v.files.len()))
}

/// The state with the selection `step` entries up, at most to the first.
pub open spec fn paged_up(v: AppView, step: usize) -> AppView {
    moved(v, |i: usize| index_above(i, step))
}

/// `a - b`, or 0 where `b` is the larger.
pub open spec fn minus(a: usize, b: usize) -> usize {
    if a >= b {
        (a - b) as usize
    } else {
        0
    }
}

/// `a + b`, or `usize::MAX` where that would be passed.
pub open spec fn plus(a: usize, b: usize) -> usize {
    if a + b <= usize::MAX {
        (a + b) as usize
    } else {
        usize::MAX
    }
}

/// The state with the preview scrolled to the given line.
pub open spec fn scrolled_to_line(v: AppView, line: usize) -> AppView {
    AppView { v_scroll: line, v_bar_position: line, ..v }
}

/// The state with the preview scrolled to the given column.
pub open spec fn scrolled_to_column(v: AppView, column: usize) -> AppView {
    AppView { h_scroll: column, h_bar_position: column, ..v }
}

/// The state with the display of hidden entries switched and a refresh
/// awaited.
pub open spec fn toggled(v: AppView) -> AppView {
    AppView { show_hidden: !v.show_hidden, pending: PendingView::Refreshing, ..v }
}

/// The state in the directory `name` below the current one, with a refresh
/// awaited.
pub open spec fn entered(v: AppView, name: Seq<char>) -> AppView {
    AppView { dir: v.dir.push(name), pending: PendingView::Refreshing, ..v }
}

/// The state in the directory above the current one, or still in the root,
/// with a refresh awaited.
pub open spec fn left(v: AppView) -> AppView {
    AppView { dir: parent_of(v.dir), pending: PendingView::Refreshing, ..v }
}

/// The state with the preview screen shown and the file's text awaited.
pub open spec fn opened(v: AppView) -> AppView {
    AppView { screen: CurrentScreen::Preview, pending: PendingView::Reading, ..v }
}

/// The state with the given text in the preview, scrolled to its start.
pub open spec fn previewed(v: AppView, content: Seq<char>) -> AppView {
    AppView {
        preview: content,
        v_bar_length: byte_len(content),
        v_scroll: 0,
        h_bar_length: byte_len(content),
        h_scroll: 0,
        pending: PendingView::Nothing,
        ..v
    }
}

/// The state after the host's reply: what the awaited work asks for on
/// success, the error popup on failure; a reply that was not awaited only
/// ends the waiting.
pub open spec fn resumed(v: AppView, reply: ReplyView) -> AppView {
    match (v.pending, reply) {
        (PendingView::Entering(name), ReplyView::Done(Ok(_))) => entered(v, name),
        (PendingView::Entering(_), ReplyView::Done(Err(e))) => failed(v, e),
        (PendingView::Changing, ReplyView::Done(Ok(_))) => awaiting(v, PendingView::Refreshing),
        (PendingView::Changing, ReplyView::Done(Err(e))) => failed(v, e),
        (PendingView::Refreshing, ReplyView::Listing(raw)) => refreshed(v, raw),
        (PendingView::Searching { confirm }, ReplyView::Listing(raw)) => searched(
            v,
            raw,
            confirm,
        ),
        (PendingView::Reading, ReplyView::Text(Ok(content))) => previewed(v, content),
        (PendingView::Reading, ReplyView::Text(Err(e))) => failed(v, e),
        _ => awaiting(v, PendingView::Nothing),
    }
}

/// What the host is asked for in a state: the listing of the directory
/// where a refresh or a search awaits one, else nothing.
pub open spec fn listing_request(v: AppView) -> ActionView {
    match v.pending {
        PendingView::Refreshing => ActionView::List { dir: rendered(v.dir) },
        PendingView::Searching { confirm } => ActionView::List { dir: rendered(v.dir) },
        _ => ActionView::Wait,
    }
}

/// The state with a copy running and nothing written yet.
pub open spec fn copy_started(v: AppView) -> AppView {
    AppView { copied: 0, copying: true, error: None, ..v }
}

/// The state after a copy has ended or was given up: no entry is marked for
/// copying, the channel is dropped, and a refresh is awaited.
pub open spec fn copy_ended(v: AppView) -> AppView {
    AppView { to_copy: None, copied: 0, copying: false, pending: PendingView::Refreshing, ..v }
}

/// The state after a poll of the copy's channel. The count received is
/// kept; the copy ends when the count reaches the size of the entry being
/// copied, or when the worker is gone. Without a running copy nothing
/// changes.
pub open spec fn progressed(v: AppView, signal: CopySignal) -> AppView {
    if !v.copying {
        v
    } else {
        match signal {
            CopySignal::Progress(n) => match v.to_copy {
                Some(file) => if n == file.size {
                    copy_ended(v)
                } else {
                    AppView { copied: n, ..v }
                },
                None => AppView { copied: n, ..v },
            },
            CopySignal::Quiet => v,
            CopySignal::Disconnected => copy_ended(v),
        }
    }
}

/// The error's text where an operation needs a selected or marked entry
/// and there is none.
pub open spec fn no_selection() -> Seq<char> {
    "No file selected"@
}

/// The error's text where a directory is to be copied.
pub open spec fn no_directory_copy() -> Seq<char> {
    "Cannot copy directories"@
}

/// The error's text where a copy is to start while another runs.
pub open spec fn copy_running() -> Seq<char> {
    "A copy is already running"@
}

/// The state after the selected entry was chosen: entering it is awaited
/// where it is a directory, else the preview screen is shown and the file's
/// text awaited. Nothing changes where nothing is selected.
pub open spec fn chosen(v: AppView) -> AppView {
    match v.selected {
        Some(file) => if file.is_dir {
            awaiting(v, PendingView::Entering(file.name))
        } else {
            opened(v)
        },
        None => v,
    }
}

/// What the host is asked for when the selected entry is chosen.
pub open spec fn choice(v: AppView) -> ActionView {
    match v.selected {
        Some(file) => if file.is_dir {
            ActionView::ChangeDir { path: rendered(v.dir.push(file.name)) }
        } else {
            ActionView::ReadText { path: file.full_path }
        },
        None => ActionView::Wait,
    }
}

/// What the host is asked for to create the entry `name` in the current
/// directory.
pub open spec fn creation(v: AppView, name: Seq<char>) -> ActionView {
    if v.new_file_is_dir {
        ActionView::MakeDir { path: rendered(v.dir.push(name)) }
    } else {
        ActionView::CreateFile { path: rendered(v.dir.push(name)) }
    }
}

/// The state after a change to the selected entry was asked for: the change
/// is awaited, or the error popup says that nothing is selected.
pub open spec fn changing_selected(v: AppView) -> AppView {
    match v.selected {
        Some(_) => awaiting(v, PendingView::Changing),
        None => failed(v, no_selection()),
    }
}

/// What the host is asked for to delete the selected entry.
pub open spec fn removal(v: AppView) -> ActionView {
    match v.selected {
        Some(file) => if file.is_dir {
            ActionView::DeleteDir { path: file.full_path }
        } else {
            ActionView::DeleteFile { path: file.full_path }
        },
        None => ActionView::Wait,
    }
}

/// What the host is asked for to give the selected entry the name `name`.
pub open spec fn renaming(v: AppView, name: Seq<char>) -> ActionView {
    match v.selected {
        Some(file) => ActionView::Rename {
            from: file.full_path,
            to: rendered(v.dir.push(name)),
        },
        None => ActionView::Wait,
    }
}

/// Whether a copy can start: an entry is marked, it is no directory, and no
/// copy is running.
pub open spec fn can_copy(v: AppView) -> bool {
    v.to_copy matches Some(file) && !v.copying && !file.is_dir
}

/// The state after a copy was asked for: the copy runs, or the error popup
/// says why it cannot.
pub open spec fn copy_begun(v: AppView) -> AppView {
    match v.to_copy {
        Some(file) => if v.copying {
            failed(v, copy_running())
        } else if file.is_dir {
            failed(v, no_directory_copy())
        } else {
            copy_started(v)
        },
        None => failed(v, no_selection()),
    }
}

/// What the host is asked for when a copy is asked for: to copy the marked
/// entry into the current directory under its own name.
pub open spec fn copying(v: AppView) -> ActionView {
    if can_copy(v) {
        ActionView::Copy { from: v.to_copy->0.full_path, to: rendered(v.dir.push(v.to_copy->0.name)) }
    } else {
        ActionView::Wait
    }
}

/// Whether a poll of the copy's channel ends the running copy.
pub open spec fn copy_ends(v: AppView, signal: CopySignal) -> bool {
    v.copying && match signal {
        CopySignal::Progress(n) => v.to_copy matches Some(file) && n == file.size,
        CopySignal::Quiet => false,
        CopySignal::Disconnected => true,
    }
}

/// What the host is asked for after a poll of the copy's channel: the
/// directory's listing where the copy has ended.
pub open spec fn progress_request(v: AppView, signal: CopySignal) -> ActionView {
    if copy_ends(v, signal) {
        ActionView::List { dir: rendered(v.dir) }
    } else {
        ActionView::Wait
    }
}

} // verus!
