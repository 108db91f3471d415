//! Directory listings: the entries of a folder in ascending order of name,
//! from the start or from after a marker.

use crate::error::FsError;
use crate::info::FileInfo;
use crate::names::{
    dot_dot_name, dot_name, lemma_name_lt_asymmetric, lemma_name_lt_irreflexive,
    lemma_name_lt_total, lemma_name_lt_transitive, name_less, name_lt,
};
use crate::tree::TableState;
use vstd::prelude::*;

verus! {

/// One line of a listing, as a value.
pub ghost struct ListedEntry {
    pub name: Seq<u16>,
    pub info: FileInfo,
}

/// One line of a listing: a name and the metadata of the entry it names.
#[derive(Debug, PartialEq, Eq)]
pub struct DirEntry {
    pub name: Vec<u16>,
    pub info: FileInfo,
}

impl View for DirEntry {
    type V = ListedEntry;

    open spec fn view(&self) -> ListedEntry {
        ListedEntry { name: self.name@, info: self.info }
    }
}

impl Clone for DirEntry {
    fn clone(&self) -> (r: Self)
        ensures
            r@ == self@,
    {
        DirEntry { name: vstd::slice::slice_to_vec(self.name.as_slice()), info: self.info }
    }
}

/// The lines that stored lines stand for.
pub open spec fn listed(v: Seq<DirEntry>) -> Seq<ListedEntry> {
    Seq::new(v.len(), |i: int| v[i]@)
}

/// The marker as a value.
pub open spec fn marker_view(marker: Option<&[u16]>) -> Option<Seq<u16>> {
    match marker {
        Some(m) => Some(m@),
        None => None,
    }
}

/// Whether the names of `lines` ascend strictly.
pub open spec fn ascending(lines: Seq<ListedEntry>) -> bool {
    forall|a: int, b: int|
        0 <= a < b < lines.len() ==> name_lt((#[trigger] lines[a]).name, (#[trigger] lines[b]).name)
}

impl TableState {
    /// Why the folder at `folder` cannot be listed, if it cannot.
    pub open spec fn list_error(self, folder: Seq<Seq<u16>>) -> Option<FsError> {
        if !self.contains(folder) {
            Some(FsError::NotFound)
        } else if !self.entries[folder].is_folder() {
            Some(FsError::NotADirectory)
        } else {
            None
        }
    }

    /// Whether `line` shows an entry that lies directly in `folder`.
    pub open spec fn shows_child(self, folder: Seq<Seq<u16>>, line: ListedEntry) -> bool {
        self.contains(folder.push(line.name)) && line.info == self.entries[folder.push(
            line.name,
        )].info
    }

    /// Whether `line` is one of the two lines that a listing from the start
    /// shows for a folder other than the root: the folder itself under the
    /// name `.`, and its parent under the name `..`.
    pub open spec fn shows_dot(self, folder: Seq<Seq<u16>>, line: ListedEntry) -> bool {
        folder.len() > 0 && (line == ListedEntry {
            name: dot_name(),
            info: self.entries[folder].info,
        } || line == ListedEntry {
            name: dot_dot_name(),
            info: self.entries[folder.drop_last()].info,
        })
    }

    /// Whether `line` belongs to the listing of `folder` after `marker`.
    /// Without a marker the listing holds the two dot lines, except in the
    /// root, and a line for each entry in the folder. With a marker it holds
    /// the lines of those entries in the folder whose names come after the
    /// marker.
    pub open spec fn lists(
        self,
        folder: Seq<Seq<u16>>,
        marker: Option<Seq<u16>>,
        line: ListedEntry,
    ) -> bool {
        match marker {
            None => self.shows_dot(folder, line) || self.shows_child(folder, line),
            Some(m) => name_lt(m, line.name) && self.shows_child(folder, line),
        }
    }

    /// Whether `lines` is the listing of `folder` after `marker`: exactly the
    /// lines that belong to it, in ascending order of name.
    pub open spec fn is_listing(
        self,
        folder: Seq<Seq<u16>>,
        marker: Option<Seq<u16>>,
        lines: Seq<ListedEntry>,
    ) -> bool {
        &&& ascending(lines)
        &&& forall|line: ListedEntry| #[trigger]
            lines.contains(line) <==> self.lists(folder, marker, line)
    }
}

/// Two ascending sequences with the same lines are the same sequence.
pub proof fn lemma_ascending_unique(a: Seq<ListedEntry>, b: Seq<ListedEntry>)
    requires
        ascending(a),
        ascending(b),
        forall|line: ListedEntry| #[trigger] a.contains(line) <==> b.contains(line),
    ensures
        a == b,
    decreases a.len(),
{
    if a.len() == 0 {
        if b.len() > 0 {
            assert(b.contains(b[0]));
            assert(a.contains(b[0]));
        }
        assert(a =~= b);
    } else if b.len() == 0 {
        assert(a.contains(a[0]));
        assert(b.contains(a[0]));
    } else {
        // The first lines agree: each is the least of the common lines.
        assert(a.contains(a[0]));
        assert(b.contains(a[0]));
        assert(b.contains(b[0]));
        assert(a.contains(b[0]));
        let i = choose|i: int| 0 <= i < b.len() && b[i] == a[0];
        let j = choose|j: int| 0 <= j < a.len() && a[j] == b[0];
        if i > 0 && j > 0 {
            assert(name_lt(b[0].name, b[i].name));
            assert(name_lt(a[0].name, a[j].name));
            lemma_name_lt_asymmetric(a[0].name, b[0].name);
        }
        if i > 0 && j == 0 {
            assert(name_lt(b[0].name, b[i].name));
            lemma_name_lt_irreflexive(a[0].name);
        }
        if i == 0 && j > 0 {
            assert(name_lt(a[0].name, a[j].name));
            lemma_name_lt_irreflexive(a[0].name);
        }
        assert(a[0] == b[0]);
        let ra = a.drop_first();
        let rb = b.drop_first();
        assert(ascending(ra)) by {
            assert forall|x: int, y: int| 0 <= x < y < ra.len() implies name_lt(
                (#[trigger] ra[x]).name,
                (#[trigger] ra[y]).name,
            ) by {
                assert(ra[x] == a[x + 1] && ra[y] == a[y + 1]);
            }
        }
        assert(ascending(rb)) by {
            assert forall|x: int, y: int| 0 <= x < y < rb.len() implies name_lt(
                (#[trigger] rb[x]).name,
                (#[trigger] rb[y]).name,
            ) by {
                assert(rb[x] == b[x + 1] && rb[y] == b[y + 1]);
            }
        }
        assert forall|line: ListedEntry| #[trigger] ra.contains(line) <==> rb.contains(line) by {
            if ra.contains(line) {
                let x = choose|x: int| 0 <= x < ra.len() && ra[x] == line;
                assert(a[x + 1] == line);
                assert(a.contains(line));
                assert(b.contains(line));
                let y = choose|y: int| 0 <= y < b.len() && b[y] == line;
                if y == 0 {
                    assert(name_lt(a[0].name, a[x + 1].name));
                    lemma_name_lt_irreflexive(a[0].name);
                }
                assert(rb[y - 1] == line);
            }
            if rb.contains(line) {
                let y = choose|y: int| 0 <= y < rb.len() && rb[y] == line;
                assert(b[y + 1] == line);
                assert(b.contains(line));
                assert(a.contains(line));
                let x = choose|x: int| 0 <= x < a.len() && a[x] == line;
                if x == 0 {
                    assert(name_lt(b[0].name, b[y + 1].name));
                    lemma_name_lt_irreflexive(b[0].name);
                }
                assert(ra[x - 1] == line);
            }
        }
        lemma_ascending_unique(ra, rb);
        assert(a =~= seq![a[0]] + ra);
        assert(b =~= seq![b[0]] + rb);
    }
}

/// A folder has one listing after a given marker.
pub proof fn lemma_listing_unique(
    s: TableState,
    folder: Seq<Seq<u16>>,
    marker: Option<Seq<u16>>,
    a: Seq<ListedEntry>,
    b: Seq<ListedEntry>,
)
    requires
        s.is_listing(folder, marker, a),
        s.is_listing(folder, marker, b),
    ensures
        a == b,
{
    lemma_ascending_unique(a, b);
}

/// A listing can be resumed: listing again with the name of any line as the
/// marker gives the lines that followed that line, none twice and none left
/// out. This holds where the two dot lines, which only a listing from the
/// start shows, do not follow the line: in the root, and after any line whose
/// name does not come before `..`.
pub proof fn lemma_listing_resumes(
    s: TableState,
    folder: Seq<Seq<u16>>,
    first: Seq<ListedEntry>,
    i: int,
    rest: Seq<ListedEntry>,
)
    requires
        s.is_listing(folder, None, first),
        0 <= i < first.len(),
        s.is_listing(folder, Some(first[i].name), rest),
        folder.len() == 0 || !name_lt(first[i].name, dot_dot_name()),
    ensures
        rest == first.subrange(i + 1, first.len() as int),
{
    let tail = first.subrange(i + 1, first.len() as int);
    let m = first[i].name;
    assert(ascending(tail)) by {
        assert forall|x: int, y: int| 0 <= x < y < tail.len() implies name_lt(
            (#[trigger] tail[x]).name,
            (#[trigger] tail[y]).name,
        ) by {
            assert(tail[x] == first[i + 1 + x] && tail[y] == first[i + 1 + y]);
        }
    }
    assert(name_lt(dot_name(), dot_dot_name())) by {
        reveal_with_fuel(name_lt, 3);
        assert(dot_name().drop_first() =~= Seq::<u16>::empty());
    }
    assert forall|line: ListedEntry| #[trigger] tail.contains(line) <==> rest.contains(line) by {
        if tail.contains(line) {
            let x = choose|x: int| 0 <= x < tail.len() && tail[x] == line;
            assert(first[i + 1 + x] == line);
            assert(first.contains(line));
            assert(name_lt(first[i].name, first[i + 1 + x].name));
            assert(s.lists(folder, None, line));
            if s.shows_dot(folder, line) {
                // Both dot names come before or at `..`, and so not after the marker.
                if line.name == dot_dot_name() {
                    lemma_name_lt_asymmetric(m, line.name);
                } else {
                    lemma_name_lt_transitive(m, dot_name(), dot_dot_name());
                }
            }
            assert(s.lists(folder, Some(m), line));
        }
        if rest.contains(line) {
            assert(s.lists(folder, Some(m), line));
            assert(s.lists(folder, None, line));
            assert(first.contains(line));
            let x = choose|x: int| 0 <= x < first.len() && first[x] == line;
            if x < i {
                assert(name_lt(first[x].name, first[i].name));
                lemma_name_lt_asymmetric(m, line.name);
            }
            if x == i {
                lemma_name_lt_irreflexive(m);
            }
            assert(tail[x - i - 1] == line);
        }
    }
    lemma_ascending_unique(tail, rest);
}

/// Puts `line` into the ascending `lines` at its place.
pub fn insert_ascending(lines: &mut Vec<DirEntry>, line: DirEntry)
    requires
        ascending(listed(old(lines)@)),
        forall|i: int| 0 <= i < old(lines)@.len() ==> old(lines)@[i]@.name != line@.name,
    ensures
        ascending(listed(final(lines)@)),
        forall|x: ListedEntry| #[trigger]
            listed(final(lines)@).contains(x) <==> listed(old(lines)@).contains(x) || x == line@,
{
    let ghost before = listed(lines@);
    let mut at: usize = 0;
    while at < lines.len() && !name_less(line.name.as_slice(), lines[at].name.as_slice())
        invariant
            at <= lines@.len(),
            lines@ == old(lines)@,
            before == listed(lines@),
            forall|i: int| 0 <= i < lines@.len() ==> lines@[i]@.name != line@.name,
            forall|i: int| 0 <= i < at ==> name_lt(before[i].name, line@.name),
        decreases lines@.len() - at,
    {
        proof {
            assert(before[at as int] == lines@[at as int]@);
            lemma_name_lt_total(before[at as int].name, line@.name);
        }
        at += 1;
    }
    let ghost value = line@;
    lines.insert(at, line);
    proof {
        let after = listed(lines@);
        assert(after =~= before.insert(at as int, value));
        assert forall|a: int, b: int| 0 <= a < b < after.len() implies name_lt(
            (#[trigger] after[a]).name,
            (#[trigger] after[b]).name,
        ) by {
            if b < at {
                assert(after[a] == before[a] && after[b] == before[b]);
            } else if b == at {
                assert(after[a] == before[a]);
            } else if a < at {
                assert(after[a] == before[a] && after[b] == before[b - 1]);
                if at < b - 1 {
                    assert(name_lt(before[at as int].name, before[b - 1].name));
                }
                lemma_name_lt_transitive(before[a].name, value.name, before[at as int].name);
                if at < b - 1 {
                    lemma_name_lt_transitive(
                        before[a].name,
                        before[at as int].name,
                        before[b - 1].name,
                    );
                }
            } else if a == at {
                assert(after[b] == before[b - 1]);
                if at < b - 1 {
                    assert(name_lt(before[at as int].name, before[b - 1].name));
                    lemma_name_lt_transitive(
                        value.name,
                        before[at as int].name,
                        before[b - 1].name,
                    );
                }
            } else {
                assert(after[a] == before[a - 1] && after[b] == before[b - 1]);
            }
        }
        assert forall|x: ListedEntry| #[trigger]
            after.contains(x) <==> before.contains(x) || x == value by {
            if after.contains(x) {
                let k = choose|k: int| 0 <= k < after.len() && after[k] == x;
                if k < at {
                    assert(before[k] == x);
                } else if k > at {
                    assert(before[k - 1] == x);
                }
            }
            if before.contains(x) {
                let k = choose|k: int| 0 <= k < before.len() && before[k] == x;
                if k < at {
                    assert(after[k] == x);
                } else {
                    assert(after[k + 1] == x);
                }
            }
            if x == value {
                assert(after[at as int] == x);
            }
        }
    }
}

} // verus!
