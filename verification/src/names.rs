//! Entry names: sequences of UTF-16 code units, ordered unit by unit.

use vstd::prelude::*;

verus! {

/// The code unit that separates the components of a rendered path.
pub const SEPARATOR: u16 = 0x2F;

/// The code unit of which the names of the two synthetic directory entries consist.
pub const DOT: u16 = 0x2E;

/// The greatest number of code units a name may have.
pub const MAX_NAME_LENGTH: usize = 255;

/// The name under which a listing shows the listed folder itself.
pub open spec fn dot_name() -> Seq<u16> {
    seq![DOT]
}

/// The name under which a listing shows the parent of the listed folder.
pub open spec fn dot_dot_name() -> Seq<u16> {
    seq![DOT, DOT]
}

/// A name that an entry may carry: it is not empty and not too long, holds no
/// separator and is neither of the two synthetic names.
pub open spec fn valid_name(name: Seq<u16>) -> bool {
    &&& 0 < name.len() <= MAX_NAME_LENGTH
    &&& forall|i: int| 0 <= i < name.len() ==> name[i] != SEPARATOR
    &&& name != dot_name()
    &&& name != dot_dot_name()
}

/// Strict lexicographic order on names, by code unit; a proper prefix comes first.
pub open spec fn name_lt(a: Seq<u16>, b: Seq<u16>) -> bool
    decreases a.len(),
{
    if b.len() == 0 {
        false
    } else if a.len() == 0 {
        true
    } else if a[0] != b[0] {
        a[0] < b[0]
    } else {
        name_lt(a.drop_first(), b.drop_first())
    }
}

/// No name comes before itself.
pub proof fn lemma_name_lt_irreflexive(a: Seq<u16>)
    ensures
        !name_lt(a, a),
    decreases a.len(),
{
    if a.len() > 0 {
        lemma_name_lt_irreflexive(a.drop_first());
    }
}

/// The order on names is transitive.
pub proof fn lemma_name_lt_transitive(a: Seq<u16>, b: Seq<u16>, c: Seq<u16>)
    requires
        name_lt(a, b),
        name_lt(b, c),
    ensures
        name_lt(a, c),
    decreases a.len(),
{
    if a.len() > 0 && a[0] == b[0] && b[0] == c[0] {
        lemma_name_lt_transitive(a.drop_first(), b.drop_first(), c.drop_first());
    }
}

/// Of two different names one comes before the other.
pub proof fn lemma_name_lt_total(a: Seq<u16>, b: Seq<u16>)
    ensures
        name_lt(a, b) || name_lt(b, a) || a == b,
    decreases a.len(),
{
    if a.len() == 0 || b.len() == 0 {
        if a.len() == 0 && b.len() == 0 {
            assert(a =~= b);
        }
    } else if a[0] == b[0] {
        lemma_name_lt_total(a.drop_first(), b.drop_first());
        if a.drop_first() == b.drop_first() {
            assert(a =~= seq![a[0]] + a.drop_first());
            assert(b =~= seq![b[0]] + b.drop_first());
        }
    }
}

/// No two names come before each other.
pub proof fn lemma_name_lt_asymmetric(a: Seq<u16>, b: Seq<u16>)
    requires
        name_lt(a, b),
    ensures
        !name_lt(b, a),
{
    if name_lt(b, a) {
        lemma_name_lt_transitive(a, b, a);
        lemma_name_lt_irreflexive(a);
    }
}

/// Whether two names hold the same code units.
pub fn names_equal(a: &[u16], b: &[u16]) -> (r: bool)
    ensures
        r == (a@ == b@),
{
    if a.len() != b.len() {
        return false;
    }
    let mut i: usize = 0;
    while i < a.len()
        invariant
            i <= a@.len() == b@.len(),
            forall|j: int| 0 <= j < i ==> a@[j] == b@[j],
        decreases a@.len() - i,
    {
        if a[i] != b[i] {
            return false;
        }
        i += 1;
    }
    assert(a@ =~= b@);
    true
}

/// Whether `a` comes strictly before `b`.
pub fn name_less(a: &[u16], b: &[u16]) -> (r: bool)
    ensures
        r == name_lt(a@, b@),
{
    let mut i: usize = 0;
    assert(a@.skip(0) =~= a@ && b@.skip(0) =~= b@);
    while i < a.len() && i < b.len()
        invariant
            i <= a@.len(),
            i <= b@.len(),
            name_lt(a@, b@) == name_lt(a@.skip(i as int), b@.skip(i as int)),
        decreases a@.len() - i,
    {
        proof {
            let x = a@.skip(i as int);
            let y = b@.skip(i as int);
            assert(x[0] == a@[i as int] && y[0] == b@[i as int]);
            assert(x.drop_first() =~= a@.skip(i + 1));
            assert(y.drop_first() =~= b@.skip(i + 1));
        }
        if a[i] != b[i] {
            return a[i] < b[i];
        }
        i += 1;
    }
    i < b.len()
}

/// Whether `name` may be the name of an entry.
pub fn is_valid_name(name: &[u16]) -> (r: bool)
    ensures
        r == valid_name(name@),
{
    if name.len() == 0 || name.len() > MAX_NAME_LENGTH {
        return false;
    }
    if name.len() == 1 && name[0] == DOT {
        assert(name@ =~= dot_name());
        return false;
    }
    if name.len() == 2 && name[0] == DOT && name[1] == DOT {
        assert(name@ =~= dot_dot_name());
        return false;
    }
    assert(name@ != dot_name()) by {
        if name@ == dot_name() {
            assert(name@.len() == 1 && name@[0] == DOT);
        }
    }
    assert(name@ != dot_dot_name()) by {
        if name@ == dot_dot_name() {
            assert(name@.len() == 2 && name@[0] == DOT && name@[1] == DOT);
        }
    }
    let mut i: usize = 0;
    while i < name.len()
        invariant
            i <= name@.len(),
            forall|j: int| 0 <= j < i ==> name@[j] != SEPARATOR,
        decreases name@.len() - i,
    {
        if name[i] == SEPARATOR {
            return false;
        }
        i += 1;
    }
    true
}

} // verus!
