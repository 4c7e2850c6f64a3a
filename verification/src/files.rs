//! Directory entries: what the host reads from a directory, and the
//! entries the browser shows for it.

use crate::text::text_view;
use std::fmt::Write;
use vstd::prelude::*;
use vstd::string::*;

verus! {

/// One entry of the directory on display.
#[derive(Debug, Clone)]
pub struct StfmFile {
    pub full_path: String,
    pub name: String,
    pub extension: String,
    pub is_dir: bool,
    pub kind_name: String,
    pub size: u64,
    pub modified: String,
}

/// The mathematical value of a [`StfmFile`].
pub struct FileView {
    pub full_path: Seq<char>,
    pub name: Seq<char>,
    pub extension: Seq<char>,
    pub is_dir: bool,
    pub kind_name: Seq<char>,
    pub size: u64,
    pub modified: Seq<char>,
}

impl View for StfmFile {
    type V = FileView;

    open spec fn view(&self) -> FileView {
        FileView {
            full_path: self.full_path@,
            name: self.name@,
            extension: self.extension@,
            is_dir: self.is_dir,
            kind_name: self.kind_name@,
            size: self.size,
            modified: self.modified@,
        }
    }
}

impl StfmFile {
    /// A copy of this entry, equal to it field by field.
    pub fn duplicate(&self) -> (r: StfmFile)
        ensures
            r == *self,
    {
        StfmFile {
            full_path: self.full_path.clone(),
            name: self.name.clone(),
            extension: self.extension.clone(),
            is_dir: self.is_dir,
            kind_name: self.kind_name.clone(),
            size: self.size,
            modified: self.modified.clone(),
        }
    }
}

/// Whether two entries have the same value.
pub fn same_entry(a: &StfmFile, b: &StfmFile) -> (r: bool)
    ensures
        r == (a@ == b@),
{
    a.full_path == b.full_path && a.name == b.name && a.extension == b.extension && a.is_dir
        == b.is_dir && a.kind_name == b.kind_name && a.size == b.size && a.modified
        == b.modified
}

/// Where the run of characters without a slash begins that ends before
/// the place `end` of a path.
pub open spec fn segment_start(path: Seq<char>, end: nat) -> nat
    recommends
        end <= path.len(),
    decreases end,
{
    if end == 0 || path[end - 1] == '/' {
        end
    } else {
        segment_start(path, (end - 1) as nat)
    }
}

/// The final component of the first `end` characters of a path. Slashes at
/// the end do not count, nor does a segment that is a lone dot; a path that
/// ends in the segment `..` has no final component, nor has one without any
/// segment.
pub open spec fn component_before(path: Seq<char>, end: nat) -> Option<Seq<char>>
    recommends
        end <= path.len(),
    decreases end,
{
    if end == 0 {
        None
    } else if path[end - 1] == '/' {
        component_before(path, (end - 1) as nat)
    } else {
        let start = segment_start(path, end);
        let segment = path.subrange(start as int, end as int);
        if segment == seq!['.'] {
            component_before(path, (end - 1) as nat)
        } else if segment == seq!['.', '.'] {
            None
        } else {
            Some(segment)
        }
    }
}

/// The final component of a path whose segments stand between slashes: the
/// name of the file or directory that the path leads to, if it ends in one.
pub open spec fn final_component_of(path: Seq<char>) -> Option<Seq<char>> {
    component_before(path, path.len())
}

/// The final component of a path, if it has one.
pub fn final_component(path: &str) -> (r: Option<String>)
    ensures
        text_view(r) == final_component_of(path@),
{
    let len: usize = path.unicode_len();
    let mut end: usize = len;
    loop
        invariant
            end <= len,
            len == path@.len(),
            component_before(path@, end as nat) == final_component_of(path@),
        decreases end,
    {
        let ghost entry = end;
        while end > 0 && path.get_char(end - 1) == '/'
            invariant
                end <= entry <= len,
                len == path@.len(),
                component_before(path@, end as nat) == final_component_of(path@),
            decreases end,
        {
            end = end - 1;
        }
        if end == 0 {
            return None;
        }
        let mut start: usize = end;
        while start > 0 && path.get_char(start - 1) != '/'
            invariant
                start <= end <= len,
                len == path@.len(),
                segment_start(path@, start as nat) == segment_start(path@, end as nat),
            decreases start,
        {
            start = start - 1;
        }
        let ghost segment = path@.subrange(start as int, end as int);
        assert(segment.len() == end - start);
        if end - start == 1 && path.get_char(start) == '.' {
            assert(segment =~= seq!['.']);
            end = start;
        } else if end - start == 2 && path.get_char(start) == '.' && path.get_char(start + 1)
            == '.' {
            assert(segment =~= seq!['.', '.']);
            assert(segment != seq!['.']) by {
                assert(seq!['.'].len() == 1);
            }
            return None;
        } else {
            assert(segment != seq!['.']) by {
                if segment == seq!['.'] {
                    assert(seq!['.'].len() == 1);
                    assert(segment[0] == '.');
                }
            }
            assert(segment != seq!['.', '.']) by {
                if segment == seq!['.', '.'] {
                    assert(seq!['.', '.'].len() == 2);
                    assert(segment[0] == '.' && segment[1] == '.');
                }
            }
            return Some(path.substring_char(start, end).to_owned());
        }
    }
}

/// Whether a file name marks a hidden entry: it begins with a dot.
pub open spec fn dot_name(name: Seq<char>) -> bool {
    name.len() > 0 && name[0] == '.'
}

/// Whether the path names a hidden entry: it has a final component and that
/// component begins with a dot.
pub open spec fn hidden_path(path: Seq<char>) -> bool {
    match final_component_of(path) {
        Some(name) => dot_name(name),
        None => false,
    }
}

/// Whether a file name begins with a dot.
pub fn is_dot_name(name: &str) -> (r: bool)
    ensures
        r == dot_name(name@),
{
    name.unicode_len() > 0 && name.get_char(0) == '.'
}

/// Whether the entry at `path` is hidden.
pub fn is_hidden(path: &str) -> (r: bool)
    ensures
        r == hidden_path(path@),
{
    match final_component(path) {
        Some(name) => is_dot_name(name.as_str()),
        None => false,
    }
}

/// The extension of a file name: what stands behind its last dot. A name
/// without a dot has none, nor has one whose only dot is its first
/// character, nor has the name `..`.
pub open spec fn extension_of(name: Seq<char>) -> Option<Seq<char>> {
    if name == seq!['.', '.'] {
        None
    } else {
        match name.index_of_last('.') {
            Some(dot) => if dot == 0 {
                None
            } else {
                Some(name.subrange(dot + 1, name.len() as int))
            },
            None => None,
        }
    }
}

/// The extension of a path: that of its final component, if it has one.
pub open spec fn path_extension(path: Seq<char>) -> Option<Seq<char>> {
    match final_component_of(path) {
        Some(name) => extension_of(name),
        None => None,
    }
}

/// The extension of a file name.
pub fn name_extension(name: &str) -> (r: Option<String>)
    ensures
        text_view(r) == extension_of(name@),
{
    let len: usize = name.unicode_len();
    if len == 2 && name.get_char(0) == '.' && name.get_char(1) == '.' {
        assert(name@ =~= seq!['.', '.']);
        return None;
    }
    assert(name@ != seq!['.', '.']) by {
        if name@ == seq!['.', '.'] {
            assert(seq!['.', '.'].len() == 2);
            assert(seq!['.', '.'][0] == '.' && seq!['.', '.'][1] == '.');
        }
    }
    let mut i: usize = len;
    while i > 0
        invariant
            i <= len,
            len == name@.len(),
            name@ != seq!['.', '.'],
            forall|j: int| i <= j < len ==> name@[j] != '.',
        decreases i,
    {
        if name.get_char(i - 1) == '.' {
            proof {
                name@.index_of_last_ensures('.');
                assert(name@[i - 1] == '.');
                assert(name@.index_of_last('.') == Some((i - 1) as int));
            }
            if i == 1 {
                return None;
            }
            return Some(name.substring_char(i, len).to_owned());
        }
        i = i - 1;
    }
    proof {
        name@.index_of_last_ensures('.');
    }
    None
}

/// The text that `chrono` writes for the moment `secs` seconds from the Unix
/// epoch, in UTC, under the strftime pattern `pattern`; `None` where the
/// moment is outside the range of `chrono::DateTime` or the pattern cannot be
/// written.
pub uninterp spec fn utc_text(secs: i64, pattern: Seq<char>) -> Option<Seq<char>>;

/// Calls `chrono::DateTime::from_timestamp` and `chrono::DateTime::format`,
/// and writes the result out. The contract only gives the text its name: it
/// is a function of the two arguments alone.
#[verifier::external_body]
fn format_utc(secs: i64, pattern: &str) -> (r: Option<String>)
    ensures
        r is Some == utc_text(secs, pattern@) is Some,
        r matches Some(s) ==> utc_text(secs, pattern@) == Some(s@),
{
    let moment = chrono::DateTime::from_timestamp(secs, 0)?;
    let mut out = String::new();
    match write!(out, "{}", moment.format(pattern)) {
        Ok(()) => Some(out),
        Err(_) => None,
    }
}

/// Whether `part` occurs in `text` as a run of neighbouring characters.
pub open spec fn has_substring(text: Seq<char>, part: Seq<char>) -> bool {
    exists|i: int|
        0 <= i && i + part.len() <= text.len() && #[trigger] text.subrange(i, i + part.len())
            == part
}

/// Calls `str::contains` with a string pattern, which says whether the
/// pattern occurs in the text.
#[verifier::external_body]
fn contains_text(text: &str, part: &str) -> (r: bool)
    ensures
        r == has_substring(text@, part@),
{
    text.contains(part)
}

/// What the host reads of one directory entry's metadata.
#[derive(Debug, Clone, Copy)]
pub struct RawMeta {
    pub is_dir: bool,
    pub is_file: bool,
    pub is_symlink: bool,
    /// Size in bytes.
    pub len: u64,
    /// Time of the last change in seconds from the Unix epoch, where the
    /// platform gives one.
    pub modified: Option<i64>,
}

/// What the host reads of one directory entry: its path, and its metadata
/// unless reading them failed.
#[derive(Debug)]
pub struct RawEntry {
    pub path: String,
    pub meta: Option<RawMeta>,
}

/// The mathematical value of a [`RawEntry`].
pub struct RawView {
    pub path: Seq<char>,
    pub meta: Option<RawMeta>,
}

impl View for RawEntry {
    type V = RawView;

    open spec fn view(&self) -> RawView {
        RawView { path: self.path@, meta: self.meta }
    }
}

/// The values of a sequence of raw entries.
pub open spec fn raw_views(raw: Seq<RawEntry>) -> Seq<RawView> {
    raw.map_values(|e: RawEntry| e@)
}

/// The values of a sequence of entries.
pub open spec fn file_views(files: Seq<StfmFile>) -> Seq<FileView> {
    files.map_values(|f: StfmFile| f@)
}

/// The name shown for an entry, given the final component of its path.
pub open spec fn shown_name(name: Option<Seq<char>>) -> Seq<char> {
    match name {
        Some(name) => name,
        None => "UNKNOWN"@,
    }
}

/// The extension column of an entry, given the extension of its path: the
/// extension if the entry is no directory, else a word for what it is.
pub open spec fn shown_extension(extension: Option<Seq<char>>, meta: RawMeta) -> Seq<char> {
    match extension {
        Some(ext) => if !meta.is_dir {
            ext
        } else {
            "DIR"@
        },
        None => if meta.is_symlink {
            "LINK"@
        } else if meta.is_dir {
            "DIR"@
        } else if meta.is_file {
            "FILE"@
        } else {
            "UNKNOWN"@
        },
    }
}

/// The kind of an entry in words.
pub open spec fn shown_kind(meta: RawMeta) -> Seq<char> {
    if meta.is_symlink {
        "Link"@
    } else if meta.is_dir {
        "Directory"@
    } else {
        "File"@
    }
}

/// The time of the last change written from year to second in UTC, where
/// it is known and can be written.
pub open spec fn written_modified(modified: Option<i64>) -> Option<Seq<char>> {
    match modified {
        Some(secs) => utc_text(secs, "%Y-%m-%d %H:%M:%S"@),
        None => None,
    }
}

/// The time of the last change as shown, given its text.
pub open spec fn shown_modified(written: Option<Seq<char>>) -> Seq<char> {
    match written {
        Some(text) => text,
        None => "Unknown"@,
    }
}

/// The entry shown for a raw entry, given the final component and the
/// extension of its path and the text of the time of its last change.
pub open spec fn entry_with(
    path: Seq<char>,
    name: Option<Seq<char>>,
    extension: Option<Seq<char>>,
    written: Option<Seq<char>>,
    meta: RawMeta,
) -> FileView {
    FileView {
        full_path: path,
        name: shown_name(name),
        extension: shown_extension(extension, meta),
        is_dir: meta.is_dir,
        kind_name: shown_kind(meta),
        size: meta.len,
        modified: shown_modified(written),
    }
}

/// The entry shown for the raw entry at `path` with the metadata `meta`.
pub open spec fn entry_of(path: Seq<char>, meta: RawMeta) -> FileView {
    entry_with(
        path,
        final_component_of(path),
        path_extension(path),
        written_modified(meta.modified),
        meta,
    )
}

/// Whether a raw entry is listed: its metadata were read, and it is not
/// hidden unless hidden entries are shown.
pub open spec fn listed(raw: RawView, show_hidden: bool) -> bool {
    raw.meta is Some && (show_hidden || !hidden_path(raw.path))
}

/// [`listed`] as a predicate on raw entries.
pub open spec fn listed_when(show_hidden: bool) -> spec_fn(RawView) -> bool {
    |raw: RawView| listed(raw, show_hidden)
}

/// [`entry_of`] as a function on raw entries.
pub open spec fn to_entry() -> spec_fn(RawView) -> FileView {
    |raw: RawView| entry_of(raw.path, raw.meta->0)
}

/// The listing of a directory snapshot: the entries of those raw entries
/// that are listed, in the snapshot's order.
pub open spec fn listing(raw: Seq<RawView>, show_hidden: bool) -> Seq<FileView> {
    raw.filter(listed_when(show_hidden)).map_values(to_entry())
}

/// Whether an entry's name holds the query.
pub open spec fn name_holds(query: Seq<char>) -> spec_fn(FileView) -> bool {
    |file: FileView| has_substring(file.name, query)
}

/// The entries whose name holds the query, in their order.
pub open spec fn matching(files: Seq<FileView>, query: Seq<char>) -> Seq<FileView> {
    files.filter(name_holds(query))
}

/// The time of the last change written from year to second in UTC, where
/// it is known and can be written.
pub fn write_modified(modified: Option<i64>) -> (r: Option<String>)
    ensures
        text_view(r) == written_modified(modified),
{
    match modified {
        Some(secs) => format_utc(secs, "%Y-%m-%d %H:%M:%S"),
        None => None,
    }
}

/// The time of the last change as shown: its text, or a word where there
/// is none.
pub fn modified_text(written: Option<String>) -> (r: String)
    ensures
        r@ == shown_modified(text_view(written)),
{
    match written {
        Some(text) => text,
        None => "Unknown".to_owned(),
    }
}

/// The extension column of an entry, given the extension of its path.
pub fn extension_text(extension: Option<String>, meta: &RawMeta) -> (r: String)
    ensures
        r@ == shown_extension(text_view(extension), *meta),
{
    match extension {
        Some(ext) => {
            if !meta.is_dir {
                ext
            } else {
                "DIR".to_owned()
            }
        },
        None => {
            if meta.is_symlink {
                "LINK".to_owned()
            } else if meta.is_dir {
                "DIR".to_owned()
            } else if meta.is_file {
                "FILE".to_owned()
            } else {
                "UNKNOWN".to_owned()
            }
        },
    }
}

/// The kind of an entry in words.
pub fn kind_text(meta: &RawMeta) -> (r: String)
    ensures
        r@ == shown_kind(*meta),
{
    if meta.is_symlink {
        "Link".to_owned()
    } else if meta.is_dir {
        "Directory".to_owned()
    } else {
        "File".to_owned()
    }
}

/// The entry shown for the raw entry at `path`, given the final component
/// and the extension of the path and the text of the time of the last
/// change.
pub fn entry_from(
    path: &str,
    name: Option<String>,
    extension: Option<String>,
    written: Option<String>,
    meta: &RawMeta,
) -> (file: StfmFile)
    ensures
        file@ == entry_with(
            path@,
            text_view(name),
            text_view(extension),
            text_view(written),
            *meta,
        ),
{
    let name = match name {
        Some(name) => name,
        None => "UNKNOWN".to_owned(),
    };
    StfmFile {
        full_path: path.to_owned(),
        name,
        extension: extension_text(extension, meta),
        is_dir: meta.is_dir,
        kind_name: kind_text(meta),
        size: meta.len,
        modified: modified_text(written),
    }
}

/// The entry shown for the raw entry at `path` with the metadata `meta`.
pub fn describe(path: &str, meta: &RawMeta) -> (file: StfmFile)
    ensures
        file@ == entry_of(path@, *meta),
{
    let name = final_component(path);
    let extension = match &name {
        Some(name) => name_extension(name.as_str()),
        None => None,
    };
    entry_from(path, name, extension, write_modified(meta.modified), meta)
}

/// Lists a directory snapshot: one entry for each raw entry whose metadata
/// were read and that is not hidden, unless hidden entries are shown; in the
/// snapshot's order.
pub fn list_files(raw: &Vec<RawEntry>, show_hidden: bool) -> (files: Vec<StfmFile>)
    ensures
        file_views(files@) == listing(raw_views(raw@), show_hidden),
{
    let mut files: Vec<StfmFile> = Vec::new();
    let mut i: usize = 0;
    proof {
        reveal(Seq::filter);
        assert(raw_views(raw@).take(0).filter(listed_when(show_hidden)).len() == 0);
        assert(file_views(files@) =~= listing(raw_views(raw@).take(0), show_hidden));
    }
    while i < raw.len()
        invariant
            i <= raw.len(),
            file_views(files@) == listing(raw_views(raw@).take(i as int), show_hidden),
        decreases raw.len() - i,
    {
        let ghost before = files@;
        let ghost all = raw_views(raw@);
        let entry = &raw[i];
        let mut keep = false;
        if let Some(meta) = &entry.meta {
            if show_hidden || !is_hidden(entry.path.as_str()) {
                keep = true;
                files.push(describe(entry.path.as_str(), meta));
            }
        }
        proof {
            reveal(Seq::filter);
            assert(all.take(i + 1).drop_last() == all.take(i as int));
            assert(all.take(i + 1).last() == entry@);
            if keep {
                assert(files@.drop_last() == before);
                assert(file_views(files@) =~= file_views(before).push(files@.last()@));
                assert(listing(all.take(i + 1), show_hidden) =~= listing(
                    all.take(i as int),
                    show_hidden,
                ).push(to_entry()(entry@)));
            }
        }
        i = i + 1;
    }
    assert(raw_views(raw@).take(i as int) == raw_views(raw@));
    files
}

/// The entries whose name holds `query`, in their order.
pub fn filter_by_name(files: Vec<StfmFile>, query: &str) -> (kept: Vec<StfmFile>)
    ensures
        file_views(kept@) == matching(file_views(files@), query@),
{
    let mut kept: Vec<StfmFile> = Vec::new();
    let mut i: usize = 0;
    proof {
        reveal(Seq::filter);
        assert(file_views(files@).take(0).filter(name_holds(query@)).len() == 0);
        assert(file_views(kept@) =~= matching(file_views(files@).take(0), query@));
    }
    while i < files.len()
        invariant
            i <= files.len(),
            file_views(kept@) == matching(file_views(files@).take(i as int), query@),
        decreases files.len() - i,
    {
        let ghost before = kept@;
        let ghost all = file_views(files@);
        let file = &files[i];
        let keep = contains_text(file.name.as_str(), query);
        if keep {
            kept.push(file.duplicate());
        }
        proof {
            reveal(Seq::filter);
            assert(all.take(i + 1).drop_last() == all.take(i as int));
            assert(all.take(i + 1).last() == file@);
            if keep {
                assert(kept@.drop_last() == before);
                assert(file_views(kept@) =~= file_views(before).push(file@));
            }
        }
        i = i + 1;
    }
    assert(file_views(files@).take(i as int) == file_views(files@));
    kept
}

} // verus!
