//! Small facts about concatenated character sequences, used to show that the
//! canonical transaction encoding can be decoded field by field: a prefix can
//! be cancelled, a suffix can be cancelled, and two separator-free segments
//! that end at the same separator are equal.

use vstd::prelude::*;

verus! {

/// `s` contains no occurrence of `c`.
pub open spec fn free_of(s: Seq<char>, c: char) -> bool {
    forall|i: int| 0 <= i < s.len() ==> #[trigger] s[i] != c
}

/// A common prefix cancels on the left.
pub proof fn lemma_cancel_prefix(p: Seq<char>, r1: Seq<char>, r2: Seq<char>)
    requires
        p + r1 == p + r2,
    ensures
        r1 == r2,
{
    assert((p + r1).len() == p.len() + r1.len());
    assert((p + r2).len() == p.len() + r2.len());
    assert(r1.len() == r2.len());
    assert forall|i: int| 0 <= i < r1.len() implies r1[i] == r2[i] by {
        assert((p + r1)[p.len() + i] == r1[i]);
        assert((p + r2)[p.len() + i] == r2[i]);
    }
    assert(r1 =~= r2);
}

/// A common suffix cancels on the right.
pub proof fn lemma_cancel_suffix(x: Seq<char>, y: Seq<char>, g: Seq<char>)
    requires
        x + g == y + g,
    ensures
        x == y,
{
    assert((x + g).len() == x.len() + g.len());
    assert((y + g).len() == y.len() + g.len());
    assert(x.len() == y.len());
    assert forall|i: int| 0 <= i < x.len() implies x[i] == y[i] by {
        assert((x + g)[i] == x[i]);
        assert((y + g)[i] == y[i]);
    }
    assert(x =~= y);
}

/// If two strings agree, each starts with a segment free of the separator
/// `c`, and each remainder starts with `c`, then the segments agree and the
/// remainders agree: the first separator position is unambiguous.
pub proof fn lemma_split_at_sep(x: Seq<char>, y: Seq<char>, r1: Seq<char>, r2: Seq<char>, c: char)
    requires
        free_of(x, c),
        free_of(y, c),
        r1.len() > 0,
        r2.len() > 0,
        r1[0] == c,
        r2[0] == c,
        x + r1 == y + r2,
    ensures
        x == y,
        r1 == r2,
{
    if x.len() < y.len() {
        assert((x + r1)[x.len() as int] == c);
        assert((y + r2)[x.len() as int] == y[x.len() as int]);
        assert(false);
    }
    if y.len() < x.len() {
        assert((y + r2)[y.len() as int] == c);
        assert((x + r1)[y.len() as int] == x[y.len() as int]);
        assert(false);
    }
    assert forall|i: int| 0 <= i < x.len() implies x[i] == y[i] by {
        assert((x + r1)[i] == x[i]);
        assert((y + r2)[i] == y[i]);
    }
    assert(x =~= y);
    lemma_cancel_prefix(x, r1, r2);
}

} // verus!
