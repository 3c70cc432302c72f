use vstd::prelude::*;
use crate::catalog::lemma_filter_step;
use crate::models::{ProjectInfo, ProjectView};
use crate::sorting::views;
use crate::text::{lowercase, contains_folded, name_matches, texts};

verus! {

/// The records whose name contains the query, ignoring case, in listing order.
pub open spec fn filtered(q: Seq<char>, l: Seq<ProjectView>) -> Seq<ProjectView> {
    l.filter(|p: ProjectView| name_matches(q, p.name))
}

/// The names that contain the query, ignoring case, in listing order.
pub open spec fn filtered_names(q: Seq<char>, l: Seq<Seq<char>>) -> Seq<Seq<char>> {
    l.filter(|n: Seq<char>| name_matches(q, n))
}

/// The positions in `s` of the elements that pass `p`, in increasing order.
pub open spec fn kept_positions<A>(s: Seq<A>, p: spec_fn(A) -> bool) -> Seq<int>
    decreases s.len(),
{
    if s.len() == 0 {
        Seq::empty()
    } else {
        let sub = kept_positions(s.drop_last(), p);
        if p(s.last()) {
            sub.push(s.len() - 1)
        } else {
            sub
        }
    }
}

/// `r` is `s` with exactly the elements at the positions `idx` kept, in their order.
pub open spec fn is_ordered_selection<A>(r: Seq<A>, s: Seq<A>, idx: Seq<int>, p: spec_fn(A) -> bool) -> bool {
    &&& idx.len() == r.len()
    &&& forall|k: int| 0 <= k < idx.len() ==> 0 <= #[trigger] idx[k] < s.len() && r[k] == s[idx[k]]
    &&& forall|k1: int, k2: int| 0 <= k1 < k2 < idx.len() ==> idx[k1] < idx[k2]
    &&& forall|i: int| 0 <= i < s.len() ==> (p(#[trigger] s[i]) <==> idx.contains(i))
}

proof fn lemma_filter_positions<A>(s: Seq<A>, p: spec_fn(A) -> bool)
    ensures
        is_ordered_selection(s.filter(p), s, kept_positions(s, p), p),
    decreases s.len(),
{
    reveal(Seq::filter);
    if s.len() > 0 {
        let t = s.drop_last();
        lemma_filter_positions(t, p);
        let sub = kept_positions(t, p);
        let r = s.filter(p);
        let idx = kept_positions(s, p);
        assert forall|i: int| 0 <= i < s.len() implies (p(#[trigger] s[i]) <==> idx.contains(i)) by {
            if i < s.len() - 1 {
                assert(s[i] == t[i]);
                if sub.contains(i) {
                    let k = choose|k: int| 0 <= k < sub.len() && sub[k] == i;
                    assert(idx[k] == i);
                }
                if idx.contains(i) {
                    let k = choose|k: int| 0 <= k < idx.len() && idx[k] == i;
                    if k < sub.len() {
                        assert(sub[k] == i);
                    }
                }
            } else {
                if p(s.last()) {
                    assert(idx[idx.len() - 1] == i);
                } else {
                    if idx.contains(i) {
                        let k = choose|k: int| 0 <= k < idx.len() && idx[k] == i;
                        assert(sub[k] < t.len());
                    }
                }
            }
        }
    }
}

/// `r` holds exactly the records of `l` at the positions `idx`, whose names are the ones
/// that contain `q` ignoring case, in `l`'s order.
pub open spec fn keeps_matching(q: Seq<char>, r: Seq<ProjectView>, l: Seq<ProjectView>, idx: Seq<int>) -> bool {
    is_ordered_selection(r, l, idx, |p: ProjectView| name_matches(q, p.name))
}

/// Filtering a listing keeps exactly the records whose name contains the query, ignoring
/// case, and keeps them in the listing's order.
pub proof fn lemma_filtered_view_selects(q: Seq<char>, l: Seq<ProjectView>)
    ensures
        exists|idx: Seq<int>| #[trigger] keeps_matching(q, filtered(q, l), l, idx),
{
    let p = |p: ProjectView| name_matches(q, p.name);
    lemma_filter_positions(l, p);
    assert(keeps_matching(q, filtered(q, l), l, kept_positions(l, p)));
}

/// The records of a listing whose name contains the query, ignoring case, in order.
pub fn filter_projects(query: &str, projects: &Vec<ProjectInfo>) -> (r: Vec<ProjectInfo>)
    ensures
        views(r@) == filtered(query@, views(projects@)),
        query@.len() == 0 ==> views(r@) == views(projects@),
{
    let lq = lowercase(query);
    let ghost l = views(projects@);
    let mut r: Vec<ProjectInfo> = Vec::new();
    let mut i: usize = 0;
    while i < projects.len()
        invariant
            i <= projects.len(),
            l == views(projects@),
            lq@ == crate::text::lower_of(query@),
            query@.len() == 0 ==> lq@.len() == 0,
            views(r@) == filtered(query@, l.subrange(0, i as int)),
            query@.len() == 0 ==> views(r@) == l.subrange(0, i as int),
        decreases projects.len() - i,
    {
        let ghost pre = views(r@);
        proof {
            lemma_filter_step(l, i as int, |p: ProjectView| name_matches(query@, p.name));
        }
        let lname = lowercase(projects[i].name.as_str());
        proof {
            if lq@.len() == 0 {
                assert(lname@.subrange(0, 0 + lq@.len() as int) =~= lq@);
            }
        }
        if contains_folded(lq.as_str(), lname.as_str()) {
            r.push(projects[i].duplicate());
            assert(views(r@) =~= pre.push(l[i as int]));
        } else {
            assert(views(r@) =~= pre);
        }
        assert(l.subrange(0, i + 1) =~= l.subrange(0, i as int).push(l[i as int]));
        i = i + 1;
    }
    assert(l.subrange(0, i as int) =~= l);
    r
}

/// The names that contain the query, ignoring case, in order.
pub fn filter_names(query: &str, names: &Vec<String>) -> (r: Vec<String>)
    ensures
        texts(r@) == filtered_names(query@, texts(names@)),
        query@.len() == 0 ==> texts(r@) == texts(names@),
{
    let lq = lowercase(query);
    let ghost l = texts(names@);
    let mut r: Vec<String> = Vec::new();
    let mut i: usize = 0;
    while i < names.len()
        invariant
            i <= names.len(),
            l == texts(names@),
            lq@ == crate::text::lower_of(query@),
            query@.len() == 0 ==> lq@.len() == 0,
            texts(r@) == filtered_names(query@, l.subrange(0, i as int)),
            query@.len() == 0 ==> texts(r@) == l.subrange(0, i as int),
        decreases names.len() - i,
    {
        let ghost pre = texts(r@);
        proof {
            lemma_filter_step(l, i as int, |n: Seq<char>| name_matches(query@, n));
        }
        let lname = lowercase(names[i].as_str());
        proof {
            if lq@.len() == 0 {
                assert(lname@.subrange(0, 0 + lq@.len() as int) =~= lq@);
            }
        }
        if contains_folded(lq.as_str(), lname.as_str()) {
            r.push(names[i].clone());
            assert(texts(r@) =~= pre.push(l[i as int]));
        } else {
            assert(texts(r@) =~= pre);
        }
        assert(l.subrange(0, i + 1) =~= l.subrange(0, i as int).push(l[i as int]));
        i = i + 1;
    }
    assert(l.subrange(0, i as int) =~= l);
    r
}

/// The cursor of a listing of `n` entries that is not empty starts on the first entry.
pub open spec fn first_selection(n: nat) -> Option<usize> {
    if n == 0 {
        None
    } else {
        Some(0usize)
    }
}

/// A cursor fits a listing of `n` entries: absent exactly when it is empty, else inside it.
pub open spec fn selection_fits(sel: Option<usize>, n: nat) -> bool {
    &&& (sel is None <==> n == 0)
    &&& (sel is Some ==> sel->0 < n)
}

/// The cursor after moving down a listing of `n` entries, wrapping at the end.
pub open spec fn step_forward(sel: Option<usize>, n: nat) -> Option<usize> {
    if n == 0 {
        sel
    } else {
        match sel {
            Some(i) => if i >= n - 1 {
                Some(0usize)
            } else {
                Some((i + 1) as usize)
            },
            None => Some(0usize),
        }
    }
}

/// The cursor after moving up a listing of `n` entries, wrapping at the start.
pub open spec fn step_back(sel: Option<usize>, n: nat) -> Option<usize> {
    if n == 0 {
        sel
    } else {
        match sel {
            Some(i) => if i == 0 {
                Some((n - 1) as usize)
            } else {
                Some((i - 1) as usize)
            },
            None => Some(0usize),
        }
    }
}

/// Moving down and then up returns the cursor to its entry.
pub proof fn lemma_forward_then_back(sel: Option<usize>, n: nat)
    requires
        selection_fits(sel, n),
        0 < n <= usize::MAX,
    ensures
        step_back(step_forward(sel, n), n) == sel,
        selection_fits(step_forward(sel, n), n),
        selection_fits(step_back(sel, n), n),
{
}

/// The cursor after a move, for exec code.
pub fn move_forward(sel: Option<usize>, n: usize) -> (r: Option<usize>)
    ensures
        r == step_forward(sel, n as nat),
{
    if n == 0 {
        return sel;
    }
    match sel {
        Some(i) => if i >= n - 1 {
            Some(0)
        } else {
            Some(i + 1)
        },
        None => Some(0),
    }
}

/// The cursor after a move up, for exec code.
pub fn move_back(sel: Option<usize>, n: usize) -> (r: Option<usize>)
    ensures
        r == step_back(sel, n as nat),
{
    if n == 0 {
        return sel;
    }
    match sel {
        Some(i) => if i == 0 {
            Some(n - 1)
        } else {
            Some(i - 1)
        },
        None => Some(0),
    }
}

/// The list without any entry equal to `p`.
pub open spec fn without(l: Seq<Seq<char>>, p: Seq<char>) -> Seq<Seq<char>> {
    l.filter(|x: Seq<char>| x != p)
}

/// The most recent entries kept in the history.
pub const RECENT_LIMIT: usize = 10;

/// The history after opening `p`: `p` first, then the earlier entries without it, at most
/// [`RECENT_LIMIT`] in all.
pub open spec fn recent_after(l: Seq<Seq<char>>, p: Seq<char>) -> Seq<Seq<char>> {
    let full = seq![p] + without(l, p);
    if full.len() > RECENT_LIMIT {
        full.subrange(0, RECENT_LIMIT as int)
    } else {
        full
    }
}

/// The favorites after toggling `p`: removed when present, else added at the end.
pub open spec fn favorites_after(l: Seq<Seq<char>>, p: Seq<char>) -> Seq<Seq<char>> {
    if l.contains(p) {
        without(l, p)
    } else {
        l.push(p)
    }
}

/// The entries of `l` without `p`, in order.
pub fn remove_text(l: &Vec<String>, p: &String) -> (r: Vec<String>)
    ensures
        texts(r@) == without(texts(l@), p@),
{
    let ghost s = texts(l@);
    let mut r: Vec<String> = Vec::new();
    let mut i: usize = 0;
    while i < l.len()
        invariant
            i <= l.len(),
            s == texts(l@),
            texts(r@) == without(s.subrange(0, i as int), p@),
        decreases l.len() - i,
    {
        let ghost pre = texts(r@);
        proof {
            lemma_filter_step(s, i as int, |x: Seq<char>| x != p@);
        }
        if l[i] != *p {
            r.push(l[i].clone());
            assert(texts(r@) =~= pre.push(s[i as int]));
        } else {
            assert(texts(r@) =~= pre);
        }
        i = i + 1;
    }
    assert(s.subrange(0, i as int) =~= s);
    r
}

/// Puts `path` first in the history of opened projects.
pub fn add_recent(list: &mut Vec<String>, path: String)
    ensures
        texts(final(list)@) == recent_after(texts(old(list)@), path@),
{
    let rest = remove_text(list, &path);
    let ghost p = path@;
    let mut full: Vec<String> = vec![path];
    let mut i: usize = 0;
    while i < rest.len()
        invariant
            i <= rest.len(),
            texts(full@) == seq![p] + texts(rest@).subrange(0, i as int),
        decreases rest.len() - i,
    {
        let ghost pre = texts(full@);
        full.push(rest[i].clone());
        assert(texts(full@) =~= pre.push(texts(rest@)[i as int]));
        i = i + 1;
        assert(texts(full@) =~= seq![p] + texts(rest@).subrange(0, i as int));
    }
    assert(texts(rest@).subrange(0, i as int) =~= texts(rest@));
    full.truncate(RECENT_LIMIT);
    assert(texts(full@) =~= recent_after(texts(old(list)@), p));
    *list = full;
}

/// Adds `path` to the favorites, or removes it when it is there.
pub fn toggle_text(list: &mut Vec<String>, path: String)
    ensures
        texts(final(list)@) == favorites_after(texts(old(list)@), path@),
{
    if crate::catalog::has_text(list, path.as_str()) {
        let r = remove_text(list, &path);
        *list = r;
    } else {
        list.push(path);
        assert(texts(list@) =~= texts(old(list)@).push(path@));
    }
}

proof fn lemma_without_facts(l: Seq<Seq<char>>, p: Seq<char>)
    ensures
        !without(l, p).contains(p),
        l.no_duplicates() ==> without(l, p).no_duplicates(),
        forall|x: Seq<char>| without(l, p).contains(x) ==> l.contains(x),
    decreases l.len(),
{
    reveal(Seq::filter);
    broadcast use vstd::seq_lib::group_filter_ensures;
    let w = without(l, p);
    if l.len() > 0 {
        let t = l.drop_last();
        lemma_without_facts(t, p);
        assert forall|x: Seq<char>| w.contains(x) implies l.contains(x) by {
            let k = choose|k: int| 0 <= k < w.len() && w[k] == x;
            if k < without(t, p).len() {
                assert(without(t, p)[k] == x);
                assert(t.contains(x));
                let j = choose|j: int| 0 <= j < t.len() && t[j] == x;
                assert(l[j] == x);
            } else {
                assert(x == l.last());
            }
        }
        if l.no_duplicates() {
            assert(t.no_duplicates());
            if l.last() != p {
                assert(!t.contains(l.last()));
                assert(!without(t, p).contains(l.last()));
            }
        }
        if w.contains(p) {
            let k = choose|k: int| 0 <= k < w.len() && w[k] == p;
            assert(w[k] != p);
        }
    }
}

/// Opening a path puts it first, exactly once, keeps a history without repeats free of
/// repeats, and never holds more than [`RECENT_LIMIT`] entries.
pub proof fn lemma_recent_front_once(l: Seq<Seq<char>>, p: Seq<char>)
    ensures
        recent_after(l, p).len() <= RECENT_LIMIT,
        recent_after(l, p)[0] == p,
        forall|i: int| 0 < i < recent_after(l, p).len() ==> recent_after(l, p)[i] != p,
        l.no_duplicates() ==> recent_after(l, p).no_duplicates(),
        forall|x: Seq<char>| #[trigger] recent_after(l, p).contains(x) ==> x == p || l.contains(x),
{
    lemma_without_facts(l, p);
    let w = without(l, p);
    let full = seq![p] + w;
    let r = recent_after(l, p);
    assert(r.len() <= full.len());
    assert forall|i: int| 0 <= i < r.len() implies r[i] == full[i] by {}
    assert forall|i: int| 0 < i < r.len() implies r[i] != p by {
        assert(r[i] == w[i - 1]);
        assert(w.contains(w[i - 1]));
    }
    assert forall|x: Seq<char>| #[trigger] r.contains(x) implies x == p || l.contains(x) by {
        let k = choose|k: int| 0 <= k < r.len() && r[k] == x;
        if k > 0 {
            assert(w[k - 1] == x);
            assert(w.contains(x));
        }
    }
    if l.no_duplicates() {
        assert forall|i: int, j: int| 0 <= i < r.len() && 0 <= j < r.len() && i != j implies r[i]
            != r[j] by {
            if i > 0 && j > 0 {
                assert(r[i] == w[i - 1]);
                assert(r[j] == w[j - 1]);
            }
        }
    }
}

} // verus!
