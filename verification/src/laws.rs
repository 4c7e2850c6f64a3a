//! What holds of the browser's transitions, proved from their definitions.

use crate::app::{selection_fits, AppView, CurrentScreen, PendingView};
use crate::channel::CopySignal;
use crate::copy::{lemma_counts_rise, total};
use crate::files::RawView;
use crate::keys::{keyed, KeyPress};
use crate::model::{
    awaiting, copy_ended, entered, initial, left, moved_next, moved_previous, progressed,
    refreshed, resumed, toggled, ReplyView,
};
use vstd::prelude::*;

verus! {

/// The selection fits the listing in the state that the browser starts in.
pub proof fn lemma_selection_fits_at_the_start(dir: Seq<Seq<char>>, raw: Seq<RawView>)
    ensures
        selection_fits(initial(dir, raw)),
{
}

/// Whatever key is pressed, whatever the host replies and whatever a poll
/// of the copy's channel finds: from a state whose selection fits its
/// listing the browser goes to a state whose selection fits its listing.
/// So in every state that the browser reaches, nothing is selected exactly
/// when the listing is empty, a selected index lies within the listing, and
/// the selected entry is the entry at the selected index.
pub proof fn lemma_selection_always_fits(
    v: AppView,
    press: KeyPress,
    reply: ReplyView,
    signal: CopySignal,
)
    requires
        selection_fits(v),
    ensures
        selection_fits(keyed(v, press).state),
        selection_fits(resumed(v, reply)),
        selection_fits(progressed(v, signal)),
{
}

/// Whether an error's text is kept only while the error popup shows it,
/// and the browser then awaits nothing but the listing for a refresh.
pub open spec fn error_is_shown(v: AppView) -> bool {
    v.error is Some ==> v.screen == CurrentScreen::ErrorPopUp && (v.pending
        == PendingView::Nothing || v.pending == PendingView::Refreshing)
}

/// An error's text is kept only while the error popup shows it: that holds
/// in the state that the browser starts in, and a key, a reply of the host
/// and a poll of the copy's channel keep it so. Leaving the popup clears
/// the text.
pub proof fn lemma_error_is_always_shown(
    v: AppView,
    dir: Seq<Seq<char>>,
    raw: Seq<RawView>,
    press: KeyPress,
    reply: ReplyView,
    signal: CopySignal,
)
    requires
        error_is_shown(v),
    ensures
        error_is_shown(initial(dir, raw)),
        error_is_shown(keyed(v, press).state),
        error_is_shown(resumed(v, reply)),
        error_is_shown(progressed(v, signal)),
        v.screen == CurrentScreen::ErrorPopUp ==> keyed(v, press).state.error is None && keyed(
            v,
            press,
        ).state.screen == CurrentScreen::Main,
{
}

/// Whether the browser can go from one screen to another in one step. The
/// error popup can follow every screen, since any operation may fail. The
/// main screen leads to the preview, the search, the help and the dialogs;
/// the dialog that asks for the kind of a new entry leads on to the one
/// that takes its name, the dialog that confirms a copy to the progress
/// screen; every other way leads back to the main screen.
pub open spec fn may_follow(from: CurrentScreen, to: CurrentScreen) -> bool {
    from == to || to == CurrentScreen::ErrorPopUp || match from {
        CurrentScreen::Main => to != CurrentScreen::CreateNewFile && to
            != CurrentScreen::CopyingProgressBar,
        CurrentScreen::IsNewFileADir => to == CurrentScreen::CreateNewFile || to
            == CurrentScreen::Main,
        CurrentScreen::ConfirmCopyingPopUp => to == CurrentScreen::CopyingProgressBar || to
            == CurrentScreen::Main,
        _ => to == CurrentScreen::Main,
    }
}

/// The screen changes only in the ways that [`may_follow`] allows: a key
/// and a reply of the host lead to a screen that may follow the one on
/// display, and a poll of the copy's channel leaves the screen as it is.
pub proof fn lemma_screens_follow_in_order(
    v: AppView,
    press: KeyPress,
    reply: ReplyView,
    signal: CopySignal,
)
    ensures
        may_follow(v.screen, keyed(v, press).state.screen),
        may_follow(v.screen, resumed(v, reply).screen),
        progressed(v, signal).screen == v.screen,
{
}

/// The state after the selection went `steps` entries down, one at a time.
pub open spec fn moved_next_by(v: AppView, steps: nat) -> AppView
    decreases steps,
{
    if steps == 0 {
        v
    } else {
        moved_next(moved_next_by(v, (steps - 1) as nat))
    }
}

/// The state after the selection went `steps` entries up, one at a time.
pub open spec fn moved_previous_by(v: AppView, steps: nat) -> AppView
    decreases steps,
{
    if steps == 0 {
        v
    } else {
        moved_previous(moved_previous_by(v, (steps - 1) as nat))
    }
}

/// Where the selection is after it went `steps` entries down from `index`
/// in a listing of `len` entries, for at most `len` steps.
pub open spec fn index_after(index: usize, steps: nat, len: nat) -> usize {
    if index + steps < len {
        (index + steps) as usize
    } else {
        (index + steps - len) as usize
    }
}

/// Where the selection is after it went `steps` entries up from `index` in
/// a listing of `len` entries, for at most `len` steps.
pub open spec fn index_before(index: usize, steps: nat, len: nat) -> usize {
    if index >= steps {
        (index - steps) as usize
    } else {
        (index + len - steps) as usize
    }
}

proof fn lemma_moved_next_by(v: AppView, steps: nat)
    requires
        selection_fits(v),
        v.files.len() <= usize::MAX,
        steps <= v.files.len(),
    ensures
        moved_next_by(v, steps) == match v.index {
            Some(i) => AppView {
                index: Some(index_after(i, steps, v.files.len())),
                selected: Some(v.files[index_after(i, steps, v.files.len()) as int]),
                list_selected: Some(index_after(i, steps, v.files.len())),
                ..v
            },
            None => v,
        },
    decreases steps,
{
    if steps > 0 {
        lemma_moved_next_by(v, (steps - 1) as nat);
    }
}

proof fn lemma_moved_previous_by(v: AppView, steps: nat)
    requires
        selection_fits(v),
        v.files.len() <= usize::MAX,
        steps <= v.files.len(),
    ensures
        moved_previous_by(v, steps) == match v.index {
            Some(i) => AppView {
                index: Some(index_before(i, steps, v.files.len())),
                selected: Some(v.files[index_before(i, steps, v.files.len()) as int]),
                list_selected: Some(index_before(i, steps, v.files.len())),
                ..v
            },
            None => v,
        },
    decreases steps,
{
    if steps > 0 {
        lemma_moved_previous_by(v, (steps - 1) as nat);
    }
}

/// Moving the selection down as many times as the listing has entries
/// leads back to the state it started from, and so does moving it up. The
/// listing is one that a vector can hold.
pub proof fn lemma_moves_come_round(v: AppView)
    requires
        selection_fits(v),
        v.files.len() <= usize::MAX,
    ensures
        moved_next_by(v, v.files.len()) == v,
        moved_previous_by(v, v.files.len()) == v,
{
    lemma_moved_next_by(v, v.files.len());
    lemma_moved_previous_by(v, v.files.len());
}

/// Entering a directory below the current one and leaving it again leads
/// back to the current directory: after the host has entered the directory
/// and listed it, the way up ends where the way down began.
pub proof fn lemma_enter_then_leave(v: AppView, name: Seq<char>, raw: Seq<RawView>)
    ensures
        ({
            let asked = awaiting(v, PendingView::Entering(name));
            let inside = resumed(resumed(asked, ReplyView::Done(Ok(()))), ReplyView::Listing(raw));
            &&& inside.dir == v.dir.push(name)
            &&& left(inside).dir == v.dir
        }),
        left(entered(v, name)).dir == v.dir,
{
    assert(v.dir.push(name).drop_last() == v.dir);
}

/// The state after the display of hidden entries was switched and the
/// directory listed anew.
pub open spec fn toggled_and_listed(v: AppView, raw: Seq<RawView>) -> AppView {
    resumed(toggled(v), ReplyView::Listing(raw))
}

/// Switching the display of hidden entries twice over one directory
/// snapshot leads back to the state that a refresh from the snapshot gave:
/// the same entries are on display, in the same order.
pub proof fn lemma_toggle_twice(v: AppView, raw: Seq<RawView>)
    ensures
        toggled_and_listed(toggled_and_listed(refreshed(v, raw), raw), raw) == refreshed(v, raw),
        v.files == refreshed(v, raw).files ==> toggled_and_listed(
            toggled_and_listed(v, raw),
            raw,
        ).files == v.files,
{
}

/// The state after one poll of the copy's channel for each of the counts.
pub open spec fn polled(v: AppView, counts: Seq<u64>) -> AppView
    decreases counts.len(),
{
    if counts.len() == 0 {
        v
    } else {
        progressed(polled(v, counts.drop_last()), CopySignal::Progress(counts.last()))
    }
}

/// While a worker sends counts that rise to the size of the entry being
/// copied and reach it with the last: after each poll but the last the
/// copy still runs and the browser holds the count just received, so what
/// it holds never falls; the last count received is the entry's size, and
/// with it the copy ends.
pub proof fn lemma_copy_progress(v: AppView, counts: Seq<u64>, k: int)
    requires
        v.copying,
        v.to_copy is Some,
        counts.len() > 0,
        forall|i: int, j: int| 0 <= i <= j < counts.len() ==> counts[i] <= counts[j],
        forall|i: int| 0 <= i < counts.len() - 1 ==> counts[i] < v.to_copy->0.size,
        counts.last() == v.to_copy->0.size,
        0 <= k < counts.len(),
    ensures
        k > 0 ==> polled(v, counts.take(k)) == (AppView { copied: counts[k - 1], ..v }),
        forall|j: int|
            0 < j <= k ==> (#[trigger] polled(v, counts.take(j))).copied <= polled(
                v,
                counts.take(k),
            ).copied,
        polled(v, counts) == copy_ended(polled(v, counts.drop_last())),
{
    lemma_polled(v, counts, k);
    assert forall|j: int| 0 < j <= k implies (#[trigger] polled(v, counts.take(j))).copied
        <= polled(v, counts.take(k)).copied by {
        lemma_polled(v, counts, j);
    }
    lemma_polled(v, counts, counts.len() - 1);
    assert(counts.take(counts.len() - 1) == counts.drop_last());
}

proof fn lemma_polled(v: AppView, counts: Seq<u64>, k: int)
    requires
        v.copying,
        v.to_copy is Some,
        forall|i: int| 0 <= i < counts.len() - 1 ==> counts[i] < v.to_copy->0.size,
        0 <= k < counts.len(),
    ensures
        polled(v, counts.take(k)) == if k == 0 {
            v
        } else {
            AppView { copied: counts[k - 1], ..v }
        },
    decreases k,
{
    if k > 0 {
        assert(counts.take(k).drop_last() == counts.take(k - 1));
        lemma_polled(v, counts, k - 1);
    } else {
        assert(counts.take(0).len() == 0);
    }
}

/// The counts that a worker sends while it copies a source that it reads
/// in the given chunks: after each chunk the size of all chunks so far.
pub open spec fn counts_sent(chunks: Seq<usize>) -> Seq<u64> {
    Seq::new(chunks.len(), |k: int| total(chunks.take(k + 1)) as u64)
}

/// While a worker copies the marked entry, reading it in chunks of which
/// none is empty and which together are the entry: the counts that the
/// browser takes in never fall, the last of them is the entry's size, and
/// with it, and not before, the copy ends.
pub proof fn lemma_copy_runs_to_the_size(v: AppView, chunks: Seq<usize>, k: int)
    requires
        v.copying,
        v.to_copy is Some,
        chunks.len() > 0,
        forall|i: int| 0 <= i < chunks.len() ==> chunks[i] > 0,
        total(chunks) == v.to_copy->0.size,
        0 <= k < chunks.len(),
    ensures
        forall|i: int, j: int|
            0 <= i <= j < chunks.len() ==> counts_sent(chunks)[i] <= counts_sent(chunks)[j],
        counts_sent(chunks).last() == v.to_copy->0.size,
        polled(v, counts_sent(chunks).take(k)).copying,
        k > 0 ==> polled(v, counts_sent(chunks).take(k)).copied == counts_sent(chunks)[k - 1],
        polled(v, counts_sent(chunks)) == copy_ended(polled(v, counts_sent(chunks).drop_last())),
{
    let counts = counts_sent(chunks);
    let len = chunks.len() as int;
    assert forall|i: int| 0 <= i < len implies counts[i] == total(chunks.take(i + 1)) by {
        lemma_counts_rise(chunks, i + 1, len);
    }
    assert forall|i: int, j: int| 0 <= i <= j < len implies counts[i] <= counts[j] by {
        lemma_counts_rise(chunks, i + 1, j + 1);
    }
    assert forall|i: int| 0 <= i < len - 1 implies counts[i] < v.to_copy->0.size by {
        lemma_counts_rise(chunks, i + 1, len - 1);
        assert(chunks.take(len).drop_last() == chunks.take(len - 1));
        assert(chunks.take(len) == chunks);
    }
    lemma_counts_rise(chunks, 0, len);
    lemma_copy_progress(v, counts, k);
    lemma_polled(v, counts, k);
}

} // verus!
