//! Laws on where fields stand in a message: joining fields one at a time, and splitting a
//! text that begins with joined fields.
use vstd::prelude::*;

use crate::messages::{field_spec, fields_from, has_no_nul, join_fields, lemma_fields_from_field, split_fields};

verus! {

/// Joining one more field appends it, with its NUL, to the joined text.
pub proof fn lemma_join_push(fs: Seq<Seq<char>>, t: Seq<char>)
    ensures
        join_fields(fs.push(t)) == join_fields(fs) + field_spec(t),
    decreases fs.len(),
{
    if fs.len() == 0 {
        assert(fs.push(t).drop_first() =~= Seq::<Seq<char>>::empty());
        assert(fs.push(t)[0] == t);
        assert(join_fields(Seq::<Seq<char>>::empty()) == Seq::<char>::empty());
        assert(join_fields(fs.push(t)) =~= field_spec(t));
        assert(join_fields(fs) + field_spec(t) =~= field_spec(t));
    } else {
        assert(fs.push(t).drop_first() =~= fs.drop_first().push(t));
        lemma_join_push(fs.drop_first(), t);
        assert(join_fields(fs.push(t)) =~= join_fields(fs) + field_spec(t));
    }
}

/// Splitting a text that begins with joined fields gives those fields first, when no field
/// holds a NUL.
pub proof fn law_split_joined_prefix(fs: Seq<Seq<char>>, rest: Seq<char>)
    requires
        forall|i: int| 0 <= i < fs.len() ==> has_no_nul(#[trigger] fs[i]),
    ensures
        split_fields(join_fields(fs) + rest) == fs + split_fields(rest),
    decreases fs.len(),
{
    if fs.len() == 0 {
        assert(join_fields(fs) + rest =~= rest);
        assert(fs + split_fields(rest) =~= split_fields(rest));
    } else {
        let tail = fs.drop_first();
        assert forall|i: int| 0 <= i < tail.len() implies has_no_nul(#[trigger] tail[i]) by {
            assert(tail[i] == fs[i + 1]);
        }
        law_split_joined_prefix(tail, rest);
        assert(join_fields(fs) + rest =~= field_spec(fs[0]) + (join_fields(tail) + rest));
        lemma_fields_from_field(fs[0], join_fields(tail) + rest, seq![]);
        assert(Seq::<char>::empty() + fs[0] =~= fs[0]);
        assert(seq![fs[0]] + (tail + split_fields(rest)) =~= fs + split_fields(rest));
    }
}

/// Joining two runs of fields one after the other is joining each and writing them in turn.
pub proof fn lemma_join_append(a: Seq<Seq<char>>, b: Seq<Seq<char>>)
    ensures
        join_fields(a + b) == join_fields(a) + join_fields(b),
    decreases a.len(),
{
    if a.len() == 0 {
        assert(a + b =~= b);
        assert(join_fields(a) == Seq::<char>::empty());
        assert(join_fields(a) + join_fields(b) =~= join_fields(b));
    } else {
        assert((a + b).drop_first() =~= a.drop_first() + b);
        assert((a + b)[0] == a[0]);
        lemma_join_append(a.drop_first(), b);
        assert(join_fields(a + b) =~= join_fields(a) + join_fields(b));
    }
}

/// A text's first `n` characters stay where they are when more text follows it.
pub proof fn lemma_prefix_kept(x: Seq<char>, y: Seq<char>, n: int)
    requires
        0 <= n <= x.len(),
    ensures
        n <= (x + y).len(),
        (x + y).subrange(0, n) == x.subrange(0, n),
{
    assert((x + y).subrange(0, n) =~= x.subrange(0, n));
}

} // verus!
