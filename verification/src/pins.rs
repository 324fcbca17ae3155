//! Which songlists a songlist panel shows, and in what order: the created or the subscribed
//! ones, pinned songlists first.
use vstd::prelude::*;
use crate::model::Songlist;

verus! {

/// Which songlists the songlist panel lists.
#[derive(Clone, Copy, PartialEq, Eq, Structural, Debug)]
pub enum SonglistView {
    Created,
    Subscribed,
}

/// The other view.
pub fn toggled_view(view: SonglistView) -> (r: SonglistView)
    ensures
        r != view,
{
    match view {
        SonglistView::Created => SonglistView::Subscribed,
        SonglistView::Subscribed => SonglistView::Created,
    }
}

/// Whether a songlist belongs in `view`.
pub open spec fn in_view(s: Songlist, view: SonglistView) -> bool {
    s.subscribed == (view == SonglistView::Subscribed)
}

/// Pairs of a position and a borrowed songlist, as values.
pub open spec fn pairs(v: Seq<(usize, &Songlist)>) -> Seq<(usize, Songlist)> {
    v.map_values(|p: (usize, &Songlist)| (p.0, *p.1))
}

/// The songlists paired with their positions.
pub open spec fn indexed(s: Seq<Songlist>) -> Seq<(usize, Songlist)> {
    Seq::new(s.len(), |i: int| (i as usize, s[i]))
}

/// The songlists of `view`, each with its position in `s`, in the order of `s`.
pub open spec fn filtered(s: Seq<Songlist>, view: SonglistView) -> Seq<(usize, Songlist)> {
    indexed(s).filter(|p: (usize, Songlist)| in_view(p.1, view))
}

/// Each filtered entry is a songlist of the view with its true position, and every songlist
/// of the view is listed.
pub proof fn lemma_filtered_faithful(s: Seq<Songlist>, view: SonglistView)
    requires
        s.len() <= usize::MAX,
    ensures
        forall|k: int|
            0 <= k < filtered(s, view).len() ==> {
                let p = #[trigger] filtered(s, view)[k];
                &&& p.0 < s.len()
                &&& s[p.0 as int] == p.1
                &&& in_view(p.1, view)
            },
        forall|i: int|
            0 <= i < s.len() && in_view(s[i], view) ==> filtered(s, view).contains(
                (i as usize, #[trigger] s[i]),
            ),
{
    let g = |p: (usize, Songlist)| in_view(p.1, view);
    let x = indexed(s);
    assert forall|k: int| 0 <= k < filtered(s, view).len() implies {
        let p = #[trigger] filtered(s, view)[k];
        &&& p.0 < s.len()
        &&& s[p.0 as int] == p.1
        &&& in_view(p.1, view)
    } by {
        let p = filtered(s, view)[k];
        x.lemma_filter_pred(g, k);
        assert(filtered(s, view).contains(p));
        x.lemma_filter_contains_rev(g, p);
        let w = choose|w: int| 0 <= w < x.len() && x[w] == p;
        assert(x[w] == (w as usize, s[w]));
    }
    assert forall|i: int| 0 <= i < s.len() && in_view(s[i], view) implies filtered(s, view).contains(
        (i as usize, #[trigger] s[i]),
    ) by {
        assert(x[i] == (i as usize, s[i]));
        x.lemma_filter_contains(g, i);
    }
}

/// The songlists of `view`, each with its position among all songlists, in their order.
pub fn filtered_with_indices<'a>(songlists: &'a Vec<Songlist>, view: SonglistView) -> (r: Vec<
    (usize, &'a Songlist),
>)
    ensures
        pairs(r@) == filtered(songlists@, view),
{
    let ghost f = |p: (usize, Songlist)| in_view(p.1, view);
    let mut r: Vec<(usize, &'a Songlist)> = Vec::new();
    let mut i: usize = 0;
    while i < songlists.len()
        invariant
            i <= songlists.len(),
            f == (|p: (usize, Songlist)| in_view(p.1, view)),
            pairs(r@) == indexed(songlists@).take(
                i as int,
            ).filter(f),
        decreases songlists.len() - i,
    {
        proof {
            reveal_with_fuel(Seq::<_>::filter, 1);
            assert(indexed(songlists@).take(i + 1).drop_last() =~= indexed(songlists@).take(
                i as int,
            ));
        }
        let want = match view {
            SonglistView::Subscribed => true,
            SonglistView::Created => false,
        };
        if songlists[i].subscribed == want {
            r.push((i, &songlists[i]));
            assert(pairs(r@) =~= indexed(songlists@).take(
                i as int,
            ).filter(f).push((i, songlists@[i as int])));
        }
        i += 1;
    }
    assert(indexed(songlists@).take(songlists.len() as int) =~= indexed(songlists@));
    r
}

/// Position of the first occurrence of `x` in `s`.
pub open spec fn index_of(s: Seq<u64>, x: u64) -> Option<int>
    decreases s.len(),
{
    if s.len() == 0 {
        None
    } else if s[0] == x {
        Some(0)
    } else {
        match index_of(s.drop_first(), x) {
            Some(i) => Some(i + 1),
            None => None,
        }
    }
}

pub proof fn lemma_index_of(s: Seq<u64>, x: u64, k: int)
    requires
        0 <= k <= s.len(),
        k < s.len() ==> s[k] == x,
        forall|j: int| 0 <= j < k ==> s[j] != x,
    ensures
        index_of(s, x) == (if k < s.len() {
            Some(k)
        } else {
            None::<int>
        }),
    decreases s.len(),
{
    if s.len() > 0 && s[0] != x {
        lemma_index_of(s.drop_first(), x, k - 1);
    }
}

pub proof fn lemma_index_of_props(s: Seq<u64>, x: u64)
    ensures
        index_of(s, x) matches Some(k) ==> 0 <= k < s.len() && s[k] == x && forall|j: int|
            0 <= j < k ==> s[j] != x,
        index_of(s, x) is None <==> !s.contains(x),
    decreases s.len(),
{
    if s.len() > 0 {
        lemma_index_of_props(s.drop_first(), x);
        if s[0] != x {
            if let Some(k) = index_of(s.drop_first(), x) {
                assert forall|j: int| 0 <= j < k + 1 implies s[j] != x by {
                    if j > 0 {
                        assert(s[j] == s.drop_first()[j - 1]);
                    }
                }
            }
            if s.drop_first().contains(x) {
                let j = choose|j: int| 0 <= j < s.drop_first().len() && s.drop_first()[j] == x;
                assert(s[j + 1] == x);
            }
            if s.contains(x) {
                let j = choose|j: int| 0 <= j < s.len() && s[j] == x;
                assert(s.drop_first()[j - 1] == x);
            }
        } else {
            assert(s.contains(x));
        }
    }
}

/// Position of the first occurrence of `x` in `v`.
pub fn position(v: &Vec<u64>, x: u64) -> (r: Option<usize>)
    ensures
        r matches Some(k) ==> k < v.len() && index_of(v@, x) == Some(k as int),
        r is None ==> index_of(v@, x) is None,
{
    let mut i: usize = 0;
    while i < v.len()
        invariant
            i <= v.len(),
            forall|j: int| 0 <= j < i ==> v@[j] != x,
        decreases v.len() - i,
    {
        if v[i] == x {
            proof {
                lemma_index_of(v@, x, i as int);
            }
            return Some(i);
        }
        i += 1;
    }
    proof {
        lemma_index_of(v@, x, v.len() as int);
    }
    None
}

/// `pinned` after toggling `id`: its first occurrence removed if it is there, else `id`
/// appended.
pub open spec fn toggled(pinned: Seq<u64>, id: u64) -> Seq<u64> {
    match index_of(pinned, id) {
        Some(k) => pinned.remove(k),
        None => pinned.push(id),
    }
}

/// Unpins `id` if it is pinned, otherwise pins it last.
pub fn toggle_pin(pinned: &mut Vec<u64>, id: u64)
    ensures
        final(pinned)@ == toggled(old(pinned)@, id),
{
    match position(pinned, id) {
        Some(k) => {
            pinned.remove(k);
        },
        None => {
            pinned.push(id);
        },
    }
}

/// The position `id` moves to when moved one step up or down among the pins, if it is pinned
/// and not already at that end.
pub open spec fn pin_target(pinned: Seq<u64>, id: u64, up: bool) -> Option<int> {
    match index_of(pinned, id) {
        Some(k) => if up {
            if k > 0 {
                Some(k - 1)
            } else {
                None
            }
        } else {
            if k + 1 < pinned.len() {
                Some(k + 1)
            } else {
                None
            }
        },
        None => None,
    }
}

/// `s` with the entries at `a` and `b` exchanged.
pub open spec fn swapped(s: Seq<u64>, a: int, b: int) -> Seq<u64> {
    s.update(a, s[b]).update(b, s[a])
}

/// Moves pinned `id` one step up or down by swapping it with its neighbour; returns whether it
/// moved (not when `id` is not pinned or already at that end).
pub fn move_pin(pinned: &mut Vec<u64>, id: u64, up: bool) -> (r: bool)
    ensures
        r == pin_target(old(pinned)@, id, up) is Some,
        final(pinned)@ == match pin_target(old(pinned)@, id, up) {
            Some(t) => swapped(old(pinned)@, index_of(old(pinned)@, id)->0, t),
            None => old(pinned)@,
        },
{
    match position(pinned, id) {
        Some(pos) => {
            let target: Option<usize> = if up {
                if pos > 0 {
                    Some(pos - 1)
                } else {
                    None
                }
            } else {
                if pos + 1 < pinned.len() {
                    Some(pos + 1)
                } else {
                    None
                }
            };
            match target {
                Some(t) => {
                    let a = pinned[pos];
                    let b = pinned[t];
                    pinned.set(pos, b);
                    pinned.set(t, a);
                    true
                },
                None => false,
            }
        },
        None => false,
    }
}

/// Whether no id occurs twice in `s`.
pub open spec fn distinct_ids(s: Seq<u64>) -> bool {
    forall|i: int, j: int| 0 <= i < j < s.len() ==> s[i] != s[j]
}

/// Pinning an id that is not pinned and then toggling it again leaves the pins as they were.
pub proof fn lemma_toggle_twice_restores(pinned: Seq<u64>, id: u64)
    requires
        !pinned.contains(id),
    ensures
        toggled(pinned, id) == pinned.push(id),
        toggled(toggled(pinned, id), id) == pinned,
{
    lemma_index_of_props(pinned, id);
    let p = pinned.push(id);
    assert forall|j: int| 0 <= j < pinned.len() implies p[j] != id by {
        assert(p[j] == pinned[j]);
    }
    lemma_index_of(p, id, pinned.len() as int);
    assert(p.remove(pinned.len() as int) =~= pinned);
}

/// With no id pinned twice, toggling flips whether `id` is pinned and keeps every id pinned at
/// most once; the other pins keep their order.
pub proof fn lemma_toggle_flips(pinned: Seq<u64>, id: u64)
    requires
        distinct_ids(pinned),
    ensures
        toggled(pinned, id).contains(id) == !pinned.contains(id),
        distinct_ids(toggled(pinned, id)),
        pinned.contains(id) ==> toggled(pinned, id) == pinned.filter(|x: u64| x != id),
{
    lemma_index_of_props(pinned, id);
    let t = toggled(pinned, id);
    match index_of(pinned, id) {
        Some(k) => {
            let r = pinned.remove(k);
            assert(t == r);
            if r.contains(id) {
                let w = choose|w: int| 0 <= w < r.len() && r[w] == id;
                if w < k {
                    assert(pinned[w] == id);
                } else {
                    assert(pinned[w + 1] == id);
                }
            }
            assert forall|i: int, j: int| 0 <= i < j < r.len() implies r[i] != r[j] by {
                let i2 = if i < k { i } else { i + 1 };
                let j2 = if j < k { j } else { j + 1 };
                assert(r[i] == pinned[i2] && r[j] == pinned[j2]);
            }
            lemma_remove_is_filter(pinned, id, k);
        },
        None => {
            let r = pinned.push(id);
            assert(t == r);
            assert(r[pinned.len() as int] == id);
            assert forall|i: int, j: int| 0 <= i < j < r.len() implies r[i] != r[j] by {
                if j == pinned.len() {
                    assert(r[i] == pinned[i]);
                    assert(pinned.contains(pinned[i]));
                }
            }
        },
    }
}

proof fn lemma_remove_is_filter(s: Seq<u64>, x: u64, k: int)
    requires
        distinct_ids(s),
        0 <= k < s.len(),
        s[k] == x,
    ensures
        s.remove(k) == s.filter(|y: u64| y != x),
    decreases s.len(),
{
    let f = |y: u64| y != x;
    reveal_with_fuel(Seq::<_>::filter, 1);
    if k == s.len() - 1 {
        let d = s.drop_last();
        assert forall|j: int| 0 <= j < d.len() implies d[j] != x by {
            assert(d[j] == s[j]);
        }
        lemma_filter_keeps_all(d, x);
        assert(s.remove(k) =~= d);
        assert(s.filter(f) == d.filter(f));
    } else {
        let d = s.drop_last();
        assert forall|i: int, j: int| 0 <= i < j < d.len() implies d[i] != d[j] by {
            assert(d[i] == s[i] && d[j] == s[j]);
        }
        lemma_remove_is_filter(d, x, k);
        assert(s.last() != x);
        assert(s.remove(k) =~= d.remove(k).push(s.last()));
        assert(s.filter(f) == d.filter(f).push(s.last()));
    }
}

proof fn lemma_filter_keeps_all(s: Seq<u64>, x: u64)
    requires
        forall|j: int| 0 <= j < s.len() ==> s[j] != x,
    ensures
        s.filter(|y: u64| y != x) == s,
    decreases s.len(),
{
    let f = |y: u64| y != x;
    reveal_with_fuel(Seq::<_>::filter, 1);
    if s.len() > 0 {
        let d = s.drop_last();
        assert forall|j: int| 0 <= j < d.len() implies d[j] != x by {
            assert(d[j] == s[j]);
        }
        lemma_filter_keeps_all(d, x);
        assert(s.filter(f) == d.filter(f).push(s.last()));
        assert(d.push(s.last()) =~= s);
    } else {
        assert(s.filter(f) =~= s);
    }
}

/// Moving a pin one step and then one step back restores the pins, when no id is pinned twice;
/// the move itself keeps every id pinned at most once.
pub proof fn lemma_move_pin_round_trip(pinned: Seq<u64>, id: u64, up: bool)
    requires
        distinct_ids(pinned),
        pin_target(pinned, id, up) is Some,
    ensures
        ({
            let k = index_of(pinned, id)->0;
            let moved = swapped(pinned, k, pin_target(pinned, id, up)->0);
            &&& distinct_ids(moved)
            &&& pin_target(moved, id, !up) is Some
            &&& swapped(moved, index_of(moved, id)->0, pin_target(moved, id, !up)->0) == pinned
        }),
{
    lemma_index_of_props(pinned, id);
    let k = index_of(pinned, id)->0;
    let t = pin_target(pinned, id, up)->0;
    let moved = swapped(pinned, k, t);
    assert(moved[t] == id);
    assert forall|i: int, j: int| 0 <= i < j < moved.len() implies moved[i] != moved[j] by {
        let i2 = if i == k { t } else if i == t { k } else { i };
        let j2 = if j == k { t } else if j == t { k } else { j };
        assert(moved[i] == pinned[i2] && moved[j] == pinned[j2]);
    }
    assert forall|j: int| 0 <= j < t implies moved[j] != id by {
        if j == k {
            assert(moved[j] == pinned[t]);
        } else {
            assert(moved[j] == pinned[j]);
        }
    }
    lemma_index_of(moved, id, t);
    assert(swapped(moved, t, k) =~= pinned);
}

/// The first entry of `f` whose songlist has id `id`.
pub open spec fn first_with_id(f: Seq<(usize, Songlist)>, id: u64) -> Option<(usize, Songlist)>
    decreases f.len(),
{
    if f.len() == 0 {
        None
    } else if f[0].1.id == id {
        Some(f[0])
    } else {
        first_with_id(f.drop_first(), id)
    }
}

/// For each pinned id in pin order, the first entry of `f` with that id (ids that match
/// nothing are skipped).
pub open spec fn pinned_first(f: Seq<(usize, Songlist)>, pinned: Seq<u64>) -> Seq<
    (usize, Songlist),
>
    decreases pinned.len(),
{
    if pinned.len() == 0 {
        seq![]
    } else {
        pinned_first(f, pinned.drop_last()) + match first_with_id(f, pinned.last()) {
            Some(x) => seq![x],
            None => seq![],
        }
    }
}

/// The entries of `f` whose songlist is not pinned, in their order.
pub open spec fn unpinned(f: Seq<(usize, Songlist)>, pinned: Seq<u64>) -> Seq<(usize, Songlist)> {
    f.filter(|p: (usize, Songlist)| !pinned.contains(p.1.id))
}

/// The panel order: pinned songlists first in pin order, then the others in their order.
pub open spec fn ordered(f: Seq<(usize, Songlist)>, pinned: Seq<u64>) -> Seq<(usize, Songlist)> {
    pinned_first(f, pinned) + unpinned(f, pinned)
}

proof fn lemma_first_with_id(f: Seq<(usize, Songlist)>, id: u64, k: int)
    requires
        0 <= k <= f.len(),
        k < f.len() ==> f[k].1.id == id,
        forall|j: int| 0 <= j < k ==> f[j].1.id != id,
    ensures
        first_with_id(f, id) == (if k < f.len() {
            Some(f[k])
        } else {
            None
        }),
    decreases f.len(),
{
    if f.len() > 0 && f[0].1.id != id {
        lemma_first_with_id(f.drop_first(), id, k - 1);
    }
}

/// Whether no two entries of `f` are songlists with the same id.
pub open spec fn distinct_entries(f: Seq<(usize, Songlist)>) -> bool {
    forall|i: int, j: int| 0 <= i < j < f.len() ==> f[i].1.id != f[j].1.id
}

proof fn lemma_first_with_id_found(f: Seq<(usize, Songlist)>, id: u64)
    ensures
        first_with_id(f, id) matches Some(x) ==> f.contains(x) && x.1.id == id,
        first_with_id(f, id) is None ==> forall|i: int| 0 <= i < f.len() ==> f[i].1.id != id,
    decreases f.len(),
{
    if f.len() > 0 && f[0].1.id != id {
        lemma_first_with_id_found(f.drop_first(), id);
        if let Some(x) = first_with_id(f.drop_first(), id) {
            let w = choose|w: int| 0 <= w < f.drop_first().len() && f.drop_first()[w] == x;
            assert(f[w + 1] == x);
        } else {
            assert forall|i: int| 0 <= i < f.len() implies f[i].1.id != id by {
                if i > 0 {
                    assert(f[i] == f.drop_first()[i - 1]);
                }
            }
        }
    } else if f.len() > 0 {
        assert(f[0] == f[0]);
    }
}

proof fn lemma_pinned_first_entries(f: Seq<(usize, Songlist)>, pinned: Seq<u64>)
    ensures
        forall|k: int|
            0 <= k < pinned_first(f, pinned).len() ==> f.contains(#[trigger] pinned_first(f, pinned)[k])
                && pinned.contains(pinned_first(f, pinned)[k].1.id),
        forall|j: int|
            0 <= j < pinned.len() && first_with_id(f, #[trigger] pinned[j]) is Some ==> pinned_first(
                f,
                pinned,
            ).contains(first_with_id(f, pinned[j])->0),
    decreases pinned.len(),
{
    if pinned.len() > 0 {
        let d = pinned.drop_last();
        lemma_pinned_first_entries(f, d);
        lemma_first_with_id_found(f, pinned.last());
        let head = pinned_first(f, d);
        let pf = pinned_first(f, pinned);
        assert forall|k: int| 0 <= k < pf.len() implies f.contains(#[trigger] pf[k]) && pinned.contains(
            pf[k].1.id,
        ) by {
            if k < head.len() {
                assert(pf[k] == head[k]);
                let w = choose|w: int| 0 <= w < d.len() && d[w] == head[k].1.id;
                assert(pinned[w] == d[w]);
            } else {
                assert(pinned[pinned.len() - 1] == pinned.last());
            }
        }
        assert forall|j: int|
            0 <= j < pinned.len() && first_with_id(f, #[trigger] pinned[j]) is Some implies pf.contains(
                first_with_id(f, pinned[j])->0,
            ) by {
            if j < d.len() {
                assert(pinned[j] == d[j]);
                let x = first_with_id(f, d[j])->0;
                let w = choose|w: int| 0 <= w < head.len() && head[w] == x;
                assert(pf[w] == x);
            } else {
                assert(pf[head.len() as int] == first_with_id(f, pinned[j])->0);
            }
        }
    }
}

/// The panel order shows exactly the songlists it is given, when no two have the same id:
/// every row is one of them, each of them has a row, pinned ones come first and the others
/// after, each group keeping its order (pins in pin order, the rest in the given order).
pub proof fn lemma_ordered_shows_all(f: Seq<(usize, Songlist)>, pinned: Seq<u64>)
    requires
        distinct_entries(f),
    ensures
        ({
            let o = ordered(f, pinned);
            let n = pinned_first(f, pinned).len();
            &&& forall|k: int| 0 <= k < o.len() ==> f.contains(#[trigger] o[k])
            &&& forall|i: int| 0 <= i < f.len() ==> o.contains(#[trigger] f[i])
            &&& forall|k: int| 0 <= k < n ==> pinned.contains(#[trigger] o[k].1.id)
            &&& forall|k: int| n <= k < o.len() ==> !pinned.contains(#[trigger] o[k].1.id)
        }),
{
    let g = |p: (usize, Songlist)| !pinned.contains(p.1.id);
    let pf = pinned_first(f, pinned);
    let u = unpinned(f, pinned);
    let o = ordered(f, pinned);
    lemma_pinned_first_entries(f, pinned);
    assert forall|k: int| 0 <= k < o.len() implies f.contains(#[trigger] o[k]) by {
        if k >= pf.len() {
            assert(o[k] == u[k - pf.len()]);
            f.lemma_filter_contains_rev(g, u[k - pf.len()]);
        } else {
            assert(o[k] == pf[k]);
        }
    }
    assert forall|k: int| pf.len() <= k < o.len() implies !pinned.contains(#[trigger] o[k].1.id) by {
        assert(o[k] == u[k - pf.len()]);
        f.lemma_filter_pred(g, k - pf.len());
    }
    assert forall|k: int| 0 <= k < pf.len() implies pinned.contains(#[trigger] o[k].1.id) by {
        assert(o[k] == pf[k]);
    }
    assert forall|i: int| 0 <= i < f.len() implies o.contains(#[trigger] f[i]) by {
        let x = f[i];
        if pinned.contains(x.1.id) {
            let j = choose|j: int| 0 <= j < pinned.len() && pinned[j] == x.1.id;
            lemma_first_with_id(f, x.1.id, i);
            assert(first_with_id(f, pinned[j]) == Some(x)) by {
                assert forall|m: int| 0 <= m < i implies f[m].1.id != x.1.id by {}
                lemma_first_with_id(f, x.1.id, i);
            }
            let w = choose|w: int| 0 <= w < pf.len() && pf[w] == x;
            assert(o[w] == x);
        } else {
            f.lemma_filter_contains(g, i);
            let w = choose|w: int| 0 <= w < u.len() && u[w] == x;
            assert(o[pf.len() + w] == x);
        }
    }
}

/// Position of the first entry whose songlist has id `id`.
fn find_by_id(f: &Vec<(usize, &Songlist)>, id: u64) -> (r: Option<usize>)
    ensures
        match r {
            Some(k) => k < f.len() && first_with_id(pairs(f@), id) == Some(pairs(f@)[k as int]),
            None => first_with_id(pairs(f@), id) is None,
        },
{
    let mut i: usize = 0;
    while i < f.len()
        invariant
            i <= f.len(),
            forall|j: int| 0 <= j < i ==> pairs(f@)[j].1.id != id,
        decreases f.len() - i,
    {
        if f[i].1.id == id {
            proof {
                lemma_first_with_id(pairs(f@), id, i as int);
            }
            return Some(i);
        }
        i += 1;
    }
    proof {
        lemma_first_with_id(pairs(f@), id, f.len() as int);
    }
    None
}

/// Orders the songlists of a view: pinned ones first in pin order (stale pinned ids are
/// skipped), then the rest in their given order.
pub fn order_with_pins<'a>(filtered: Vec<(usize, &'a Songlist)>, pinned: &Vec<u64>) -> (r: Vec<
    (usize, &'a Songlist),
>)
    ensures
        pairs(r@) == ordered(pairs(filtered@), pinned@),
{
    let ghost f = pairs(filtered@);
    let mut r: Vec<(usize, &'a Songlist)> = Vec::new();
    let mut j: usize = 0;
    while j < pinned.len()
        invariant
            j <= pinned.len(),
            f == pairs(filtered@),
            pairs(r@) == pinned_first(f, pinned@.take(j as int)),
        decreases pinned.len() - j,
    {
        assert(pinned@.take(j + 1).drop_last() =~= pinned@.take(j as int));
        match find_by_id(&filtered, pinned[j]) {
            Some(k) => {
                r.push(filtered[k]);
                assert(pairs(r@) =~= pinned_first(f, pinned@.take(j + 1)));
            },
            None => {
                assert(pairs(r@) =~= pinned_first(f, pinned@.take(j + 1)));
            },
        }
        j += 1;
    }
    assert(pinned@.take(pinned.len() as int) =~= pinned@);
    let ghost head = pairs(r@);
    let ghost g = |p: (usize, Songlist)| !pinned@.contains(p.1.id);
    let mut i: usize = 0;
    while i < filtered.len()
        invariant
            i <= filtered.len(),
            f == pairs(filtered@),
            head == pinned_first(f, pinned@),
            g == (|p: (usize, Songlist)| !pinned@.contains(p.1.id)),
            pairs(r@) == head + f.take(i as int).filter(g),
        decreases filtered.len() - i,
    {
        proof {
            reveal_with_fuel(Seq::<_>::filter, 1);
            assert(f.take(i + 1).drop_last() =~= f.take(i as int));
            lemma_index_of_props(pinned@, filtered@[i as int].1.id);
        }
        if position(pinned, filtered[i].1.id).is_none() {
            assert(f[i as int].1.id == filtered@[i as int].1.id);
            assert(g(f[i as int]));
            assert(f.take(i + 1).last() == f[i as int]);
            assert(f.take(i + 1).filter(g) == f.take(i as int).filter(g).push(f[i as int]));
            let ghost before = r@;
            r.push(filtered[i]);
            assert(pairs(r@) =~= pairs(before).push(f[i as int]));
            assert(pairs(r@) =~= head + f.take(i + 1).filter(g));
        } else {
            assert(pairs(r@) =~= head + f.take(i + 1).filter(g));
        }
        i += 1;
    }
    assert(f.take(filtered.len() as int) =~= f);
    r
}

/// Every row of the panel order is a songlist of the view together with its true position
/// among all the songlists.
pub proof fn lemma_ordered_rows_faithful(s: Seq<Songlist>, view: SonglistView, pinned: Seq<u64>)
    requires
        s.len() <= usize::MAX,
    ensures
        forall|k: int|
            0 <= k < ordered(filtered(s, view), pinned).len() ==> {
                let p = #[trigger] ordered(filtered(s, view), pinned)[k];
                &&& p.0 < s.len()
                &&& s[p.0 as int] == p.1
                &&& in_view(p.1, view)
            },
{
    let f = filtered(s, view);
    let g = |p: (usize, Songlist)| !pinned.contains(p.1.id);
    let pf = pinned_first(f, pinned);
    let u = unpinned(f, pinned);
    let o = ordered(f, pinned);
    lemma_filtered_faithful(s, view);
    lemma_pinned_first_entries(f, pinned);
    assert forall|k: int| 0 <= k < o.len() implies {
        let p = #[trigger] o[k];
        &&& p.0 < s.len()
        &&& s[p.0 as int] == p.1
        &&& in_view(p.1, view)
    } by {
        if k >= pf.len() {
            assert(o[k] == u[k - pf.len()]);
            f.lemma_filter_contains_rev(g, u[k - pf.len()]);
        } else {
            assert(o[k] == pf[k]);
        }
        assert(f.contains(o[k]));
        let w = choose|w: int| 0 <= w < f.len() && f[w] == o[k];
        assert(f[w] == o[k]);
    }
}

} // verus!
