//! The directory on display, as the names that lead to it from the root.

use vstd::prelude::*;
use vstd::string::*;

verus! {

/// An absolute directory path: the names of its segments, outermost first.
/// The root has none.
#[derive(Debug)]
pub struct DirPath {
    pub segments: Vec<String>,
}

/// The segments of a path as texts.
pub open spec fn texts(segments: Seq<String>) -> Seq<Seq<char>> {
    segments.map_values(|s: String| s@)
}

/// The segments written one after the other, each behind a slash.
pub open spec fn joined(segments: Seq<Seq<char>>) -> Seq<char>
    decreases segments.len(),
{
    if segments.len() == 0 {
        Seq::empty()
    } else {
        joined(segments.drop_last()) + seq!['/'] + segments.last()
    }
}

/// The text of an absolute path: a lone slash for the root, else its
/// segments, each behind a slash.
pub open spec fn rendered(segments: Seq<Seq<char>>) -> Seq<char> {
    if segments.len() == 0 {
        seq!['/']
    } else {
        joined(segments)
    }
}

/// The path without its last segment; the root stays the root.
pub open spec fn parent_of(segments: Seq<Seq<char>>) -> Seq<Seq<char>> {
    if segments.len() == 0 {
        segments
    } else {
        segments.drop_last()
    }
}

impl View for DirPath {
    type V = Seq<Seq<char>>;

    open spec fn view(&self) -> Seq<Seq<char>> {
        texts(self.segments@)
    }
}

impl DirPath {
    /// The root directory.
    pub fn root() -> (r: DirPath)
        ensures
            r@ == Seq::<Seq<char>>::empty(),
    {
        DirPath { segments: Vec::new() }
    }

    /// The path that the given segments lead to.
    pub fn new(segments: Vec<String>) -> (r: DirPath)
        ensures
            r@ == texts(segments@),
    {
        DirPath { segments }
    }

    /// Whether this is the root.
    pub fn is_root(&self) -> (r: bool)
        ensures
            r == (self@.len() == 0),
    {
        self.segments.len() == 0
    }

    /// A copy of this path.
    pub fn duplicate(&self) -> (r: DirPath)
        ensures
            r@ == self@,
    {
        let mut segments: Vec<String> = Vec::new();
        let mut i: usize = 0;
        while i < self.segments.len()
            invariant
                i <= self.segments.len(),
                segments.len() == i,
                texts(segments@) == texts(self.segments@).take(i as int),
            decreases self.segments.len() - i,
        {
            let ghost before = segments@;
            segments.push(self.segments[i].clone());
            i = i + 1;
            proof {
                assert forall|j: int| 0 <= j < i implies texts(segments@)[j] == texts(
                    self.segments@,
                )[j] by {
                    if j < i - 1 {
                        assert(texts(before)[j] == texts(self.segments@).take(i - 1)[j]);
                    }
                }
                assert(texts(segments@) =~= texts(self.segments@).take(i as int));
            }
        }
        assert(texts(self.segments@).take(i as int) == texts(self.segments@));
        DirPath { segments }
    }

    /// Appends one segment: the path of the entry `name` in this directory.
    pub fn push(&mut self, name: String)
        ensures
            final(self)@ == old(self)@.push(name@),
    {
        self.segments.push(name);
    }

    /// Removes the last segment and says whether there was one.
    pub fn pop(&mut self) -> (r: bool)
        ensures
            final(self)@ == parent_of(old(self)@),
            r == (old(self)@.len() > 0),
    {
        match self.segments.pop() {
            Some(_) => true,
            None => false,
        }
    }

    /// The text of this path.
    pub fn render(&self) -> (r: String)
        ensures
            r@ == rendered(self@),
    {
        let mut out = String::new();
        if self.segments.len() == 0 {
            proof {
                reveal_strlit("/");
            }
            out.append("/");
            assert(out@ == seq!['/']);
            return out;
        }
        let mut i: usize = 0;
        while i < self.segments.len()
            invariant
                i <= self.segments.len(),
                out@ == joined(self@.take(i as int)),
            decreases self.segments.len() - i,
        {
            proof {
                reveal_strlit("/");
                assert(self@.take(i + 1).drop_last() == self@.take(i as int));
                assert("/"@ == seq!['/']);
            }
            out.append("/");
            out.append(self.segments[i].as_str());
            i = i + 1;
        }
        assert(self@.take(i as int) == self@);
        out
    }

    /// The text of the path of the entry `name` in this directory.
    pub fn child(&self, name: &str) -> (r: String)
        ensures
            r@ == rendered(self@.push(name@)),
    {
        let mut out = String::new();
        if self.segments.len() > 0 {
            out = self.render();
        }
        proof {
            reveal_strlit("/");
            assert("/"@ == seq!['/']);
            assert(self@.push(name@).drop_last() == self@);
            assert(self@.len() == 0 ==> joined(self@) == Seq::<char>::empty());
        }
        out.append("/");
        out.append(name);
        out
    }
}

/// Entering an entry of a directory and leaving again leads back to the
/// directory.
pub proof fn lemma_push_then_parent(dir: Seq<Seq<char>>, name: Seq<char>)
    ensures
        parent_of(dir.push(name)) == dir,
{
    assert(dir.push(name).drop_last() == dir);
}

} // verus!
