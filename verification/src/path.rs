//! Absolute paths as sequences of names.
//!
//! A [`Path`] is a value: two paths with the same components name the same node
//! of the tree. The empty sequence is the root.

use crate::names::{is_valid_name, names_equal, valid_name, SEPARATOR};
use vstd::prelude::*;

verus! {

/// A path all of whose components are valid names.
pub open spec fn valid_path(p: Seq<Seq<u16>>) -> bool {
    forall|i: int| 0 <= i < p.len() ==> valid_name(#[trigger] p[i])
}

/// Whether `child` lies directly in `parent`.
pub open spec fn is_child_of(child: Seq<Seq<u16>>, parent: Seq<Seq<u16>>) -> bool {
    child.len() == parent.len() + 1 && child.drop_last() == parent
}

/// Whether `p` is `prefix` or lies anywhere below it.
pub open spec fn is_under(p: Seq<Seq<u16>>, prefix: Seq<Seq<u16>>) -> bool {
    prefix.len() <= p.len() && p.subrange(0, prefix.len() as int) == prefix
}

/// The path that lies below `onto` as `p` lies below its first `from_len` components.
pub open spec fn rebased(p: Seq<Seq<u16>>, from_len: int, onto: Seq<Seq<u16>>) -> Seq<Seq<u16>> {
    onto + p.skip(from_len)
}

/// The views of a sequence of stored names.
pub open spec fn component_views(v: Seq<Vec<u16>>) -> Seq<Seq<u16>> {
    Seq::new(v.len(), |i: int| v[i]@)
}

/// The pieces into which the occurrences of `sep` cut `s`. There is always at
/// least one piece; a piece is empty where two separators meet or `s` ends in one.
pub open spec fn split(s: Seq<u16>, sep: u16) -> Seq<Seq<u16>>
    decreases s.len(),
{
    if s.len() == 0 {
        seq![Seq::<u16>::empty()]
    } else {
        let rest = split(s.drop_last(), sep);
        if s.last() == sep {
            rest.push(Seq::<u16>::empty())
        } else {
            rest.update(rest.len() - 1, rest.last().push(s.last()))
        }
    }
}

/// The path that `units` spell with `sep` between and before the components: a
/// lone separator is the root, and anything else must start with a separator
/// and consist of valid names only.
pub open spec fn parsed(units: Seq<u16>, sep: u16) -> Option<Seq<Seq<u16>>> {
    if units.len() == 0 || units[0] != sep {
        None
    } else if units.len() == 1 {
        Some(Seq::<Seq<u16>>::empty())
    } else if valid_path(split(units.skip(1), sep)) {
        Some(split(units.skip(1), sep))
    } else {
        None
    }
}

/// The code units that spell the components of a path, `sep` before each.
pub open spec fn joined(p: Seq<Seq<u16>>, sep: u16) -> Seq<u16>
    decreases p.len(),
{
    if p.len() == 0 {
        Seq::empty()
    } else {
        joined(p.drop_last(), sep) + seq![sep] + p.last()
    }
}

/// The code units that spell a path: a lone separator for the root, and else
/// each component with `sep` before it.
pub open spec fn rendered(p: Seq<Seq<u16>>, sep: u16) -> Seq<u16> {
    if p.len() == 0 {
        seq![sep]
    } else {
        joined(p, sep)
    }
}

/// Code units without a separator, put after others, lengthen the last piece.
proof fn lemma_split_append(s: Seq<u16>, c: Seq<u16>, sep: u16)
    requires
        forall|i: int| 0 <= i < c.len() ==> c[i] != sep,
    ensures
        split(s, sep).len() > 0,
        split(s + c, sep) == split(s, sep).update(
            split(s, sep).len() - 1,
            split(s, sep).last() + c,
        ),
    decreases c.len(),
{
    lemma_split_nonempty(s, sep);
    let pieces = split(s, sep);
    if c.len() == 0 {
        assert(s + c =~= s);
        assert(pieces.last() + c =~= pieces.last());
        assert(pieces.update(pieces.len() - 1, pieces.last()) =~= pieces);
    } else {
        let front = c.drop_last();
        lemma_split_append(s, front, sep);
        assert((s + c).drop_last() =~= s + front);
        assert((s + c).last() == c.last());
        assert(pieces.last() + c =~= (pieces.last() + front).push(c.last()));
        assert(split(s + c, sep) =~= pieces.update(pieces.len() - 1, pieces.last() + c));
    }
}

/// There is always at least one piece.
proof fn lemma_split_nonempty(s: Seq<u16>, sep: u16)
    ensures
        split(s, sep).len() > 0,
    decreases s.len(),
{
    if s.len() > 0 {
        lemma_split_nonempty(s.drop_last(), sep);
    }
}

/// The pieces of the spelling of a path, after its first separator, are its
/// components.
proof fn lemma_split_joined(p: Seq<Seq<u16>>, sep: u16)
    requires
        p.len() > 0,
        forall|i: int, j: int| 0 <= i < p.len() && 0 <= j < p[i].len() ==> p[i][j] != sep,
    ensures
        joined(p, sep).len() > 0,
        joined(p, sep)[0] == sep,
        split(joined(p, sep).skip(1), sep) == p,
    decreases p.len(),
{
    let last = p.last();
    assert forall|j: int| 0 <= j < last.len() implies last[j] != sep by {
        assert(p[p.len() - 1][j] != sep);
    }
    if p.len() == 1 {
        assert(joined(p.drop_last(), sep) =~= Seq::<u16>::empty());
        assert(joined(p, sep).skip(1) =~= Seq::<u16>::empty() + last);
        lemma_split_append(Seq::<u16>::empty(), last, sep);
        assert(Seq::<u16>::empty() + last =~= last);
        assert(split(joined(p, sep).skip(1), sep) =~= p);
    } else {
        let front = p.drop_last();
        assert forall|i: int, j: int|
            0 <= i < front.len() && 0 <= j < front[i].len() implies front[i][j] != sep by {
            assert(front[i] == p[i]);
        }
        lemma_split_joined(front, sep);
        let head = joined(front, sep).skip(1);
        assert(joined(p, sep).skip(1) =~= head.push(sep) + last);
        assert(head.push(sep).drop_last() =~= head);
        lemma_split_append(head.push(sep), last, sep);
        assert(Seq::<u16>::empty() + last =~= last);
        assert(split(joined(p, sep).skip(1), sep) =~= p);
    }
}

/// Reading the spelling of a valid path gives the path.
pub proof fn lemma_parse_rendered(p: Seq<Seq<u16>>)
    requires
        valid_path(p),
    ensures
        parsed(rendered(p, SEPARATOR), SEPARATOR) == Some(p),
{
    if p.len() == 0 {
        assert(p =~= Seq::<Seq<u16>>::empty());
    } else {
        assert forall|i: int, j: int| 0 <= i < p.len() && 0 <= j < p[i].len() implies p[i][j]
            != SEPARATOR by {
            assert(valid_name(p[i]));
        }
        lemma_split_joined(p, SEPARATOR);
        assert(valid_name(p[0]));
        assert(joined(p, SEPARATOR).len() > 1) by {
            let q = joined(p, SEPARATOR).skip(1);
            if q.len() == 0 {
                assert(split(q, SEPARATOR) =~= seq![Seq::<u16>::empty()]);
                assert(p[0] == Seq::<u16>::empty());
            }
        }
    }
}

/// The one or two UTF-16 code units of a character: the character itself if
/// it lies in the basic plane, and else a pair of surrogates.
pub open spec fn char_units(c: char) -> Seq<u16> {
    let v = c as u32;
    if v < 0x10000 {
        seq![v as u16]
    } else {
        seq![(0xD800 + (v - 0x10000) / 0x400) as u16, (0xDC00 + (v - 0x10000) % 0x400) as u16]
    }
}

/// The UTF-16 code units of a string.
pub open spec fn utf16_units(s: Seq<char>) -> Seq<u16>
    decreases s.len(),
{
    if s.len() == 0 {
        Seq::empty()
    } else {
        utf16_units(s.drop_last()) + char_units(s.last())
    }
}

/// Encodes a string as UTF-16.
pub fn encode_utf16(s: &str) -> (units: Vec<u16>)
    ensures
        units@ == utf16_units(s@),
{
    let mut units: Vec<u16> = Vec::new();
    for c in iter: s.chars()
        invariant
            iter.seq() == s@,
            units@ == utf16_units(iter.seq().take(iter.index())),
    {
        let v: u32 = c as u32;
        proof {
            let done = iter.seq().take(iter.index() + 1);
            assert(done.drop_last() =~= iter.seq().take(iter.index()));
            assert(done.last() == c);
        }
        if v < 0x10000 {
            units.push(v as u16);
        } else {
            units.push((0xD800 + (v - 0x10000) / 0x400) as u16);
            units.push((0xDC00 + (v - 0x10000) % 0x400) as u16);
        }
    }
    assert(s@.take(s@.len() as int) =~= s@);
    units
}

/// An absolute path: the names that lead from the root to a node.
#[derive(Debug, PartialEq, Eq, Hash)]
pub struct Path {
    components: Vec<Vec<u16>>,
}

impl View for Path {
    type V = Seq<Seq<u16>>;

    closed spec fn view(&self) -> Seq<Seq<u16>> {
        component_views(self.components@)
    }
}

/// `into` followed by copies of the names of `components` from position
/// `from` up to position `to`.
fn append_copies(components: &Vec<Vec<u16>>, from: usize, to: usize, into: Vec<Vec<u16>>) -> (r:
    Vec<Vec<u16>>)
    requires
        from <= to <= components@.len(),
    ensures
        component_views(r@) == component_views(into@) + component_views(components@).subrange(
            from as int,
            to as int,
        ),
{
    let mut r = into;
    let mut i: usize = from;
    let ghost start = component_views(r@);
    let ghost all = component_views(components@);
    assert(start + all.subrange(from as int, from as int) =~= start);
    while i < to
        invariant
            from <= i <= to <= components@.len(),
            all == component_views(components@),
            component_views(r@) == start + all.subrange(from as int, i as int),
        decreases to - i,
    {
        let ghost before = component_views(r@);
        r.push(vstd::slice::slice_to_vec(components[i].as_slice()));
        assert(component_views(r@) =~= before.push(all[i as int]));
        i += 1;
        assert(start + all.subrange(from as int, i as int) =~= before.push(all[i - 1]));
    }
    r
}

impl Clone for Path {
    fn clone(&self) -> (r: Self)
        ensures
            r@ == self@,
    {
        proof {
            use_type_invariant(self);
        }
        let components = append_copies(&self.components, 0, self.components.len(), Vec::new());
        assert(component_views(components@) =~= self@);
        Path { components }
    }
}

/// Whether every stored name is valid.
fn all_valid(components: &Vec<Vec<u16>>) -> (r: bool)
    ensures
        r == valid_path(component_views(components@)),
{
    let mut i: usize = 0;
    while i < components.len()
        invariant
            i <= components@.len(),
            forall|j: int| 0 <= j < i ==> valid_name(#[trigger] component_views(components@)[j]),
        decreases components@.len() - i,
    {
        if !is_valid_name(components[i].as_slice()) {
            assert(!valid_name(component_views(components@)[i as int]));
            return false;
        }
        i += 1;
    }
    true
}

impl Path {
    /// The invariant of a path, which every path meets: each component is a
    /// valid name.
    #[verifier::type_invariant]
    pub open spec fn wf(&self) -> bool {
        valid_path(self@)
    }

    /// The root.
    pub fn root() -> (p: Path)
        ensures
            p@ == Seq::<Seq<u16>>::empty(),
            p.wf(),
    {
        let p = Path { components: Vec::new() };
        assert(p@ =~= Seq::<Seq<u16>>::empty());
        p
    }

    /// Whether this is the root.
    pub fn is_root(&self) -> (r: bool)
        ensures
            r == (self@.len() == 0),
    {
        self.components.len() == 0
    }

    /// The number of components.
    pub fn depth(&self) -> (n: usize)
        ensures
            n == self@.len(),
    {
        self.components.len()
    }

    /// The component at position `i`.
    pub fn component(&self, i: usize) -> (name: &[u16])
        requires
            i < self@.len(),
        ensures
            name@ == self@[i as int],
    {
        self.components[i].as_slice()
    }

    /// The last component, which the root lacks.
    pub fn file_name(&self) -> (name: Option<&[u16]>)
        ensures
            self@.len() == 0 <==> name is None,
            name matches Some(n) ==> n@ == self@.last(),
    {
        let n = self.components.len();
        if n == 0 {
            None
        } else {
            Some(self.components[n - 1].as_slice())
        }
    }

    /// The path without its last component, which the root lacks.
    pub fn parent(&self) -> (parent: Option<Path>)
        ensures
            self@.len() == 0 <==> parent is None,
            parent matches Some(p) ==> p@ == self@.drop_last(),
    {
        let n = self.components.len();
        if n == 0 {
            return None;
        }
        proof {
            use_type_invariant(self);
        }
        let components = append_copies(&self.components, 0, n - 1, Vec::new());
        assert(component_views(components@) =~= self@.drop_last());
        Some(Path { components })
    }

    /// The path one level below this one under `name`, if `name` is a valid name.
    pub fn join(&self, name: &[u16]) -> (child: Option<Path>)
        ensures
            valid_name(name@) <==> child is Some,
            child matches Some(c) ==> c@ == self@.push(name@),
    {
        if !is_valid_name(name) {
            return None;
        }
        proof {
            use_type_invariant(self);
        }
        let mut components = append_copies(
            &self.components,
            0,
            self.components.len(),
            Vec::new(),
        );
        let ghost copied = component_views(components@);
        assert(copied =~= self@);
        components.push(vstd::slice::slice_to_vec(name));
        assert(component_views(components@) =~= copied.push(name@));
        Some(Path { components })
    }

    /// Whether the two paths have the same components.
    pub fn equals(&self, other: &Path) -> (r: bool)
        ensures
            r == (self@ == other@),
    {
        if self.components.len() != other.components.len() {
            return false;
        }
        let mut i: usize = 0;
        while i < self.components.len()
            invariant
                i <= self@.len() == other@.len(),
                self@.len() == self.components@.len(),
                other@.len() == other.components@.len(),
                forall|j: int| 0 <= j < i ==> self@[j] == other@[j],
            decreases self@.len() - i,
        {
            if !names_equal(self.components[i].as_slice(), other.components[i].as_slice()) {
                assert(self@[i as int] != other@[i as int]);
                return false;
            }
            i += 1;
        }
        assert(self@ =~= other@);
        true
    }

    /// Whether this path is `prefix` or lies below it.
    pub fn starts_with(&self, prefix: &Path) -> (r: bool)
        ensures
            r == is_under(self@, prefix@),
    {
        if prefix.components.len() > self.components.len() {
            return false;
        }
        let mut i: usize = 0;
        while i < prefix.components.len()
            invariant
                i <= prefix@.len() <= self@.len(),
                self@.len() == self.components@.len(),
                prefix@.len() == prefix.components@.len(),
                forall|j: int| 0 <= j < i ==> self@[j] == prefix@[j],
            decreases prefix@.len() - i,
        {
            if !names_equal(self.components[i].as_slice(), prefix.components[i].as_slice()) {
                assert(self@.subrange(0, prefix@.len() as int)[i as int] != prefix@[i as int]);
                return false;
            }
            i += 1;
        }
        assert(self@.subrange(0, prefix@.len() as int) =~= prefix@);
        true
    }

    /// Whether this path lies directly in `parent`.
    pub fn is_child_of(&self, parent: &Path) -> (r: bool)
        ensures
            r == is_child_of(self@, parent@),
    {
        if self.components.len() == 0 || self.components.len() - 1 != parent.components.len() {
            return false;
        }
        let r = self.starts_with(parent);
        assert(self@.subrange(0, parent@.len() as int) =~= self@.drop_last());
        r
    }

    /// The path that lies below `onto` as this one lies below `from`.
    pub fn rebase(&self, from: &Path, onto: &Path) -> (moved: Path)
        requires
            is_under(self@, from@),
        ensures
            moved@ == rebased(self@, from@.len() as int, onto@),
    {
        proof {
            use_type_invariant(self);
            use_type_invariant(onto);
        }
        let head = append_copies(&onto.components, 0, onto.components.len(), Vec::new());
        let components = append_copies(
            &self.components,
            from.components.len(),
            self.components.len(),
            head,
        );
        assert(component_views(components@) =~= rebased(self@, from@.len() as int, onto@));
        Path { components }
    }

    /// The code units that spell the path, such as those of `/docs/a.txt`.
    pub fn to_units(&self) -> (units: Vec<u16>)
        ensures
            units@ == rendered(self@, SEPARATOR),
    {
        let mut units: Vec<u16> = Vec::new();
        if self.components.len() == 0 {
            units.push(SEPARATOR);
            assert(units@ =~= seq![SEPARATOR]);
            return units;
        }
        let mut i: usize = 0;
        assert(self@.subrange(0, 0) =~= Seq::<Seq<u16>>::empty());
        while i < self.components.len()
            invariant
                i <= self.components@.len(),
                units@ == joined(self@.subrange(0, i as int), SEPARATOR),
            decreases self.components@.len() - i,
        {
            let ghost before = units@;
            units.push(SEPARATOR);
            let name = &self.components[i];
            let mut j: usize = 0;
            while j < name.len()
                invariant
                    j <= name@.len(),
                    units@ == before + seq![SEPARATOR] + name@.subrange(0, j as int),
                decreases name@.len() - j,
            {
                units.push(name[j]);
                j += 1;
                assert(units@ =~= before + seq![SEPARATOR] + name@.subrange(0, j as int));
            }
            i += 1;
            proof {
                let done = self@.subrange(0, i as int);
                assert(done.drop_last() =~= self@.subrange(0, i - 1));
                assert(done.last() == name@);
                assert(name@.subrange(0, name@.len() as int) =~= name@);
            }
        }
        assert(self@.subrange(0, i as int) =~= self@);
        units
    }

    /// Reads a path from code units in which `sep` stands before each component.
    pub fn parse_with_separator(units: &[u16], sep: u16) -> (path: Option<Path>)
        ensures
            path is Some <==> parsed(units@, sep) is Some,
            path matches Some(p) ==> Some(p@) == parsed(units@, sep) && p.wf(),
    {
        if units.len() == 0 || units[0] != sep {
            return None;
        }
        if units.len() == 1 {
            return Some(Path::root());
        }
        let mut done: Vec<Vec<u16>> = Vec::new();
        let mut current: Vec<u16> = Vec::new();
        let mut i: usize = 1;
        assert(units@.subrange(1, 1) =~= Seq::<u16>::empty());
        assert(component_views(done@).push(current@) =~= seq![Seq::<u16>::empty()]);
        while i < units.len()
            invariant
                1 <= i <= units@.len(),
                split(units@.subrange(1, i as int), sep) == component_views(done@).push(current@),
            decreases units@.len() - i,
        {
            proof {
                let s = units@.subrange(1, i + 1);
                assert(s.drop_last() =~= units@.subrange(1, i as int));
                assert(s.last() == units@[i as int]);
            }
            let ghost before = component_views(done@).push(current@);
            if units[i] == sep {
                done.push(current);
                current = Vec::new();
                assert(component_views(done@).push(current@) =~= before.push(Seq::<u16>::empty()));
            } else {
                current.push(units[i]);
                assert(component_views(done@).push(current@) =~= before.update(
                    before.len() - 1,
                    before.last().push(units@[i as int]),
                ));
            }
            i += 1;
        }
        assert(units@.subrange(1, i as int) =~= units@.skip(1));
        let ghost pieces = component_views(done@).push(current@);
        done.push(current);
        assert(component_views(done@) =~= pieces);
        if all_valid(&done) {
            Some(Path { components: done })
        } else {
            None
        }
    }

    /// Reads a path such as `/docs/a.txt` from its code units.
    pub fn parse(units: &[u16]) -> (path: Option<Path>)
        ensures
            path is Some <==> parsed(units@, SEPARATOR) is Some,
            path matches Some(p) ==> Some(p@) == parsed(units@, SEPARATOR) && p.wf(),
    {
        Path::parse_with_separator(units, SEPARATOR)
    }

    /// Reads a path such as `/docs/a.txt` from a string.
    pub fn from_str(s: &str) -> (path: Option<Path>)
        ensures
            path is Some <==> parsed(utf16_units(s@), SEPARATOR) is Some,
            path matches Some(p) ==> Some(p@) == parsed(utf16_units(s@), SEPARATOR) && p.wf(),
    {
        let units = encode_utf16(s);
        Path::parse(units.as_slice())
    }
}

} // verus!
