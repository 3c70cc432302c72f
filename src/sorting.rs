use vstd::prelude::*;
use crate::models::ProjectInfo;
use crate::text::{chars_of, lex_le, lowercase, lower_of, text_le};

verus! {

broadcast use vstd::seq_lib::group_to_multiset_ensures;

/// Items that are listed in the case-insensitive order of a name.
pub trait SortKey: View + Sized {
    /// The text by which an item is ordered.
    spec fn key_of(v: Self::V) -> Seq<char>;

    fn sort_key(&self) -> (r: Vec<char>)
        ensures
            r@ == Self::key_of(self@),
    ;
}

impl SortKey for String {
    open spec fn key_of(v: Seq<char>) -> Seq<char> {
        lower_of(v)
    }

    fn sort_key(&self) -> (r: Vec<char>) {
        chars_of(lowercase(self.as_str()).as_str())
    }
}

impl SortKey for ProjectInfo {
    open spec fn key_of(v: crate::models::ProjectView) -> Seq<char> {
        lower_of(v.name)
    }

    fn sort_key(&self) -> (r: Vec<char>) {
        chars_of(lowercase(self.name.as_str()).as_str())
    }
}

/// The views of a sequence.
pub open spec fn views<T: View>(s: Seq<T>) -> Seq<T::V> {
    s.map_values(|x: T| x@)
}

/// The items come in the order of their keys.
pub open spec fn sorted_by_key<T: SortKey>(s: Seq<T::V>) -> bool {
    forall|i: int, j: int| 0 <= i < j < s.len() ==> lex_le(T::key_of(s[i]), T::key_of(s[j]))
}

/// The lexicographic order is transitive.
pub proof fn lemma_lex_trans(a: Seq<char>, b: Seq<char>, c: Seq<char>)
    requires
        lex_le(a, b),
        lex_le(b, c),
    ensures
        lex_le(a, c),
    decreases a.len(),
{
    if a.len() > 0 && b.len() > 0 && c.len() > 0 {
        if a[0] == b[0] && b[0] == c[0] {
            lemma_lex_trans(a.drop_first(), b.drop_first(), c.drop_first());
        }
    }
}

/// The items rearranged in the case-insensitive order of their names.
pub fn sort_by_name<T: SortKey>(items: Vec<T>) -> (r: Vec<T>)
    ensures
        views(r@).to_multiset() == views(items@).to_multiset(),
        sorted_by_key::<T>(views(r@)),
{
    let ghost all = views(items@);
    let mut rest = items;
    let mut out: Vec<T> = Vec::new();
    let mut keys: Vec<Vec<char>> = Vec::new();
    assert(views(out@).to_multiset().add(views(rest@).to_multiset()) =~= all.to_multiset());
    while rest.len() > 0
        invariant
            views(out@).to_multiset().add(views(rest@).to_multiset()) == all.to_multiset(),
            keys.len() == out.len(),
            forall|k: int| 0 <= k < keys.len() ==> (#[trigger] keys@[k])@ == T::key_of(out@[k]@),
            sorted_by_key::<T>(views(out@)),
        decreases rest.len(),
    {
        let ghost old_rest = views(rest@);
        let ghost old_out = views(out@);
        let x = rest.remove(0);
        assert(views(rest@) =~= old_rest.remove(0));
        let kx = x.sort_key();
        let mut pos: usize = out.len();
        while pos > 0
            invariant
                pos <= out.len(),
                keys.len() == out.len(),
                old_out == views(out@),
                forall|k: int| 0 <= k < keys.len() ==> (#[trigger] keys@[k])@ == T::key_of(out@[k]@),
                forall|k: int| pos <= k < out.len() ==> lex_le(kx@, T::key_of(#[trigger] old_out[k])),
            ensures
                pos <= out.len(),
                keys.len() == out.len(),
                old_out == views(out@),
                forall|k: int| 0 <= k < keys.len() ==> (#[trigger] keys@[k])@ == T::key_of(out@[k]@),
                forall|k: int| pos <= k < out.len() ==> lex_le(kx@, T::key_of(#[trigger] old_out[k])),
                pos == 0 || lex_le(T::key_of(old_out[pos - 1]), kx@),
            decreases pos,
        {
            if text_le(&keys[pos - 1], &kx) {
                break;
            }
            proof {
                crate::text::lemma_lex_total(kx@, T::key_of(old_out[pos - 1]));
            }
            pos = pos - 1;
        }
        proof {
            assert forall|k: int| 0 <= k < pos implies lex_le(T::key_of(#[trigger] old_out[k]), kx@) by {
                if k < pos - 1 {
                    lemma_lex_trans(T::key_of(old_out[k]), T::key_of(old_out[pos - 1]), kx@);
                }
            }
        }
        let ghost old_keys = keys@;
        let ghost old_items = out@;
        out.insert(pos, x);
        keys.insert(pos, kx);
        proof {
            let nv = views(out@);
            assert(nv =~= old_out.insert(pos as int, x@));
            assert(keys@[pos as int]@ == T::key_of(out@[pos as int]@));
            assert forall|i: int, j: int| 0 <= i < j < nv.len() implies lex_le(
                T::key_of(nv[i]),
                T::key_of(nv[j]),
            ) by {
                if j < pos {
                } else if i > pos {
                    assert(nv[i] == old_out[i - 1]);
                    assert(nv[j] == old_out[j - 1]);
                } else if i == pos {
                    assert(nv[j] == old_out[j - 1]);
                } else if j == pos {
                } else {
                    assert(nv[j] == old_out[j - 1]);
                }
            }
            assert forall|k: int| 0 <= k < keys.len() implies (#[trigger] keys@[k])@ == T::key_of(out@[k]@) by {
                if k < pos {
                } else if k > pos {
                    assert(keys@[k] == old_keys[k - 1]);
                    assert(out@[k] == old_items[k - 1]);
                }
            }
            assert(views(out@).to_multiset().add(views(rest@).to_multiset()) =~= all.to_multiset());
        }
    }
    assert(views(rest@) =~= Seq::<T::V>::empty());
    assert(views(out@).to_multiset() =~= all.to_multiset());
    out
}

} // verus!
