//! User notifications: joining them with the audiobooks they are about, and
//! the local updates of the notifications page after the server accepted an
//! action (mark one as seen, mark all as seen, delete one, delete all).
use vstd::prelude::*;

use std::collections::HashMap;

verus! {

broadcast use vstd::std_specs::hash::group_hash_axioms;

/// A notification that an audiobook matching one of the user's
/// subscriptions was published.
#[derive(Clone, Copy, Debug, PartialEq, Eq, Structural)]
pub struct UserNotification {
    pub user_id: i64,
    pub audiobook_id: i64,
    pub has_been_seen: bool,
    /// Creation time: whole seconds since the Unix epoch (UTC)...
    pub created_at: i64,
    /// ...and the nanoseconds past that second, so that two notifications
    /// are equal only when created at the same instant.
    pub created_at_nanos: u32,
}

/// The position of the last audiobook with identifier `id` in `ids`.
pub open spec fn last_index_of(ids: Seq<i64>, id: i64) -> Option<int>
    decreases ids.len(),
{
    if ids.len() == 0 {
        None
    } else if ids.last() == id {
        Some(ids.len() - 1)
    } else {
        last_index_of(ids.drop_last(), id)
    }
}

/// The notifications, in their order, each paired with the position of its
/// audiobook among the fetched ones (the last one with its identifier);
/// notifications whose audiobook was not fetched are left out.
pub open spec fn joined(ns: Seq<UserNotification>, ids: Seq<i64>) -> Seq<(UserNotification, int)>
    decreases ns.len(),
{
    if ns.len() == 0 {
        seq![]
    } else {
        let rest = joined(ns.drop_last(), ids);
        match last_index_of(ids, ns.last().audiobook_id) {
            Some(i) => rest.push((ns.last(), i)),
            None => rest,
        }
    }
}

proof fn lemma_last_index_push(ids: Seq<i64>, x: i64, id: i64)
    ensures
        last_index_of(ids.push(x), id) == if x == id {
            Some(ids.len() as int)
        } else {
            last_index_of(ids, id)
        },
{
    assert(ids.push(x).drop_last() =~= ids);
}

proof fn lemma_last_index_bounds(ids: Seq<i64>, id: i64)
    ensures
        last_index_of(ids, id) matches Some(i) ==> 0 <= i < ids.len() && ids[i] == id,
    decreases ids.len(),
{
    if ids.len() > 0 && ids.last() != id {
        lemma_last_index_bounds(ids.drop_last(), id);
    }
}

/// Pairs each notification with the position of its audiobook in
/// `book_ids` (the identifiers of the fetched audiobooks, in order), as the
/// notifications page shows them.
pub fn join_notifications(notifications: &Vec<UserNotification>, book_ids: &Vec<i64>) -> (r: Vec<
    (UserNotification, usize),
>)
    ensures
        r@.len() == joined(notifications@, book_ids@).len(),
        forall|i: int|
            0 <= i < r@.len() ==> (#[trigger] r@[i]).0 == joined(notifications@, book_ids@)[i].0
                && r@[i].1 as int == joined(notifications@, book_ids@)[i].1,
{
    let mut positions: HashMap<i64, usize> = HashMap::new();
    let mut k: usize = 0;
    while k < book_ids.len()
        invariant
            k <= book_ids@.len(),
            forall|id: i64|
                (#[trigger] positions@.contains_key(id)) == (last_index_of(
                    book_ids@.take(k as int),
                    id,
                ) is Some),
            forall|id: i64|
                #[trigger] positions@.contains_key(id) ==> last_index_of(
                    book_ids@.take(k as int),
                    id,
                ) == Some(positions@[id] as int),
        decreases book_ids@.len() - k,
    {
        let ghost before = book_ids@.take(k as int);
        positions.insert(book_ids[k], k);
        proof {
            assert(book_ids@.take(k + 1) =~= before.push(book_ids@[k as int]));
            assert forall|id: i64| #[trigger]
                positions@.contains_key(id) == (last_index_of(book_ids@.take(k + 1), id) is Some) by {
                lemma_last_index_push(before, book_ids@[k as int], id);
            }
            assert forall|id: i64| #[trigger]
                positions@.contains_key(id) implies last_index_of(book_ids@.take(k + 1), id) == Some(
                positions@[id] as int,
            ) by {
                lemma_last_index_push(before, book_ids@[k as int], id);
            }
        }
        k = k + 1;
    }
    assert(book_ids@.take(k as int) =~= book_ids@);
    let mut out: Vec<(UserNotification, usize)> = Vec::new();
    let mut i: usize = 0;
    while i < notifications.len()
        invariant
            i <= notifications@.len(),
            forall|id: i64|
                (#[trigger] positions@.contains_key(id)) == (last_index_of(book_ids@, id) is Some),
            forall|id: i64|
                #[trigger] positions@.contains_key(id) ==> last_index_of(book_ids@, id) == Some(
                    positions@[id] as int,
                ),
            out@.len() == joined(notifications@.take(i as int), book_ids@).len(),
            forall|j: int|
                0 <= j < out@.len() ==> (#[trigger] out@[j]).0 == joined(
                    notifications@.take(i as int),
                    book_ids@,
                )[j].0 && out@[j].1 as int == joined(notifications@.take(i as int), book_ids@)[j].1,
        decreases notifications@.len() - i,
    {
        let n = notifications[i];
        proof {
            assert(notifications@.take(i + 1).drop_last() =~= notifications@.take(i as int));
        }
        match positions.get(&n.audiobook_id) {
            Some(p) => {
                out.push((n, *p));
            },
            None => {},
        }
        i = i + 1;
    }
    assert(notifications@.take(i as int) =~= notifications@);
    out
}

/// Whether a notification's audiobook is among the fetched ones.
pub open spec fn audiobook_fetched(ids: Seq<i64>) -> spec_fn(UserNotification) -> bool {
    |n: UserNotification| last_index_of(ids, n.audiobook_id) is Some
}

/// A notification paired with the position of its fetched audiobook.
pub open spec fn with_position(ids: Seq<i64>) -> spec_fn(UserNotification) -> (UserNotification, int) {
    |n: UserNotification| (n, last_index_of(ids, n.audiobook_id)->0)
}

/// The position found for an identifier is the last one holding it, and
/// none is found only when no position holds it.
pub proof fn lemma_last_index_is_last(ids: Seq<i64>, id: i64)
    ensures
        last_index_of(ids, id) matches Some(i) ==> 0 <= i < ids.len() && ids[i] == id && forall|j: int|
            i < j < ids.len() ==> ids[j] != id,
        last_index_of(ids, id) is None ==> forall|j: int| 0 <= j < ids.len() ==> ids[j] != id,
    decreases ids.len(),
{
    if ids.len() > 0 && ids.last() != id {
        lemma_last_index_is_last(ids.drop_last(), id);
        let rest = ids.drop_last();
        assert forall|j: int| 0 <= j < ids.len() - 1 implies ids[j] == rest[j] by {}
    }
}

/// The page lists the notifications in their own order: exactly those whose
/// audiobook was fetched, none moved, each paired with its audiobook's
/// position.
pub proof fn lemma_joined_in_order(ns: Seq<UserNotification>, ids: Seq<i64>)
    ensures
        joined(ns, ids) == ns.filter(audiobook_fetched(ids)).map_values(with_position(ids)),
    decreases ns.len(),
{
    reveal_with_fuel(Seq::filter, 1);
    let p = audiobook_fetched(ids);
    let f = with_position(ids);
    if ns.len() == 0 {
        assert(ns.filter(p).map_values(f) =~= Seq::<(UserNotification, int)>::empty());
    } else {
        lemma_joined_in_order(ns.drop_last(), ids);
        let sub = ns.drop_last().filter(p);
        if p(ns.last()) {
            assert(sub.push(ns.last()).map_values(f) =~= sub.map_values(f).push(f(ns.last())));
        }
    }
}

/// Each notification of the page is shown with its own audiobook: the
/// position paired with a notification holds the notification's audiobook.
/// A notification is left out only when no fetched audiobook is its own.
pub proof fn lemma_joined_matches(ns: Seq<UserNotification>, ids: Seq<i64>)
    ensures
        forall|i: int|
            0 <= i < joined(ns, ids).len() ==> 0 <= (#[trigger] joined(ns, ids)[i]).1 < ids.len()
                && ids[joined(ns, ids)[i].1] == joined(ns, ids)[i].0.audiobook_id,
        joined(ns, ids).len() <= ns.len(),
        forall|k: int|
            0 <= k < ns.len() && (exists|j: int| 0 <= j < ids.len() && ids[j] == (#[trigger] ns[k]).audiobook_id)
                ==> exists|i: int| 0 <= i < joined(ns, ids).len() && (#[trigger] joined(ns, ids)[i]).0 == ns[k],
    decreases ns.len(),
{
    if ns.len() > 0 {
        let rest = ns.drop_last();
        lemma_joined_matches(rest, ids);
        lemma_last_index_bounds(ids, ns.last().audiobook_id);
        let jr = joined(rest, ids);
        let jn = joined(ns, ids);
        assert forall|i: int| 0 <= i < jn.len() implies 0 <= (#[trigger] jn[i]).1 < ids.len()
            && ids[jn[i].1] == jn[i].0.audiobook_id by {
            if i < jr.len() {
                assert(jn[i] == jr[i]);
            }
        }
        assert forall|k: int|
            0 <= k < ns.len() && (exists|j: int| 0 <= j < ids.len() && ids[j] == (#[trigger] ns[k]).audiobook_id)
            implies exists|i: int| 0 <= i < jn.len() && (#[trigger] jn[i]).0 == ns[k] by {
            if k < ns.len() - 1 {
                assert(rest[k] == ns[k]);
                assert(exists|j: int| 0 <= j < ids.len() && ids[j] == (#[trigger] rest[k]).audiobook_id);
                let i = choose|i: int| 0 <= i < jr.len() && (#[trigger] jr[i]).0 == rest[k];
                assert(jn[i] == jr[i]);
            } else {
                let j = choose|j: int| 0 <= j < ids.len() && ids[j] == ns[k].audiobook_id;
                lemma_last_index_found(ids, ns[k].audiobook_id, j);
                assert(jn[jn.len() - 1].0 == ns[k]);
            }
        }
    }
}

proof fn lemma_last_index_found(ids: Seq<i64>, id: i64, j: int)
    requires
        0 <= j < ids.len(),
        ids[j] == id,
    ensures
        last_index_of(ids, id) is Some,
    decreases ids.len(),
{
    if ids.last() != id {
        assert(j < ids.len() - 1);
        assert(ids.drop_last()[j] == id);
        lemma_last_index_found(ids.drop_last(), id, j);
    }
}

/// Whether pointing at or clicking a notification marks it as seen: only a
/// notification not yet seen is sent to the server.
pub fn should_mark_as_read(n: &UserNotification) -> (r: bool)
    ensures
        r == !n.has_been_seen,
{
    !n.has_been_seen
}

/// The notification as it is once seen.
pub open spec fn seen(n: UserNotification) -> UserNotification {
    UserNotification { has_been_seen: true, ..n }
}

/// Marks the first entry holding `n` as seen, as the page does once the
/// server accepted marking `n` as read. Nothing else changes.
pub fn mark_seen_in<B>(items: &mut Vec<(UserNotification, B)>, n: UserNotification)
    ensures
        final(items)@.len() == old(items)@.len(),
        forall|j: int| 0 <= j < old(items)@.len() ==> (#[trigger] final(items)@[j]).1 == old(items)@[j].1,
        (forall|j: int| 0 <= j < old(items)@.len() ==> (#[trigger] old(items)@[j]).0 != n) ==> forall|
            j: int,
        | 0 <= j < old(items)@.len() ==> (#[trigger] final(items)@[j]).0 == old(items)@[j].0,
        forall|i: int|
            0 <= i < old(items)@.len() && (#[trigger] old(items)@[i]).0 == n && (forall|j: int|
                0 <= j < i ==> (#[trigger] old(items)@[j]).0 != n) ==> final(items)@[i].0 == seen(n)
                && forall|j: int|
                0 <= j < old(items)@.len() && j != i ==> (#[trigger] final(items)@[j]).0 == old(
                    items,
                )@[j].0,
{
    let mut i: usize = 0;
    while i < items.len()
        invariant
            items@ == old(items)@,
            i <= items@.len(),
            forall|j: int| 0 <= j < i ==> (#[trigger] items@[j]).0 != n,
        decreases items@.len() - i,
    {
        if items[i].0 == n {
            let (mut m, b) = items.remove(i);
            m.has_been_seen = true;
            items.insert(i, (m, b));
            proof {
                assert forall|j: int| 0 <= j < old(items)@.len() && j != i implies (#[trigger] items@[j]) == old(
                    items,
                )@[j] by {
                    if j < i {
                        assert(items@[j] == old(items)@.remove(i as int)[j]);
                    } else {
                        assert(items@[j] == old(items)@.remove(i as int)[j - 1]);
                    }
                }
            }
            return;
        }
        i = i + 1;
    }
}

/// Marks every notification as seen, as the page does once the server
/// accepted marking all of them as seen.
pub fn mark_all_seen_in<B>(items: &mut Vec<(UserNotification, B)>)
    ensures
        final(items)@.len() == old(items)@.len(),
        forall|j: int|
            0 <= j < old(items)@.len() ==> (#[trigger] final(items)@[j]).0 == seen(old(items)@[j].0)
                && final(items)@[j].1 == old(items)@[j].1,
{
    let mut i: usize = 0;
    while i < items.len()
        invariant
            items@.len() == old(items)@.len(),
            i <= items@.len(),
            forall|j: int|
                0 <= j < i ==> (#[trigger] items@[j]).0 == seen(old(items)@[j].0) && items@[j].1
                    == old(items)@[j].1,
            forall|j: int| i <= j < items@.len() ==> #[trigger] items@[j] == old(items)@[j],
        decreases items@.len() - i,
    {
        let ghost before = items@;
        let (mut m, b) = items.remove(i);
        m.has_been_seen = true;
        items.insert(i, (m, b));
        proof {
            assert forall|j: int| 0 <= j < items@.len() && j != i implies (#[trigger] items@[j]) == before[j] by {
                if j < i {
                    assert(items@[j] == before.remove(i as int)[j]);
                } else {
                    assert(items@[j] == before.remove(i as int)[j - 1]);
                }
            }
        }
        i = i + 1;
    }
}

/// The entries that remain once `n` was deleted: all those that do not
/// hold `n`, in their order.
pub open spec fn without<B>(items: Seq<(UserNotification, B)>, n: UserNotification) -> Seq<
    (UserNotification, B),
> {
    items.filter(|p: (UserNotification, B)| p.0 != n)
}

/// Removes every entry holding `n`, as the page does once the server
/// accepted deleting `n`.
pub fn remove_from<B>(items: &mut Vec<(UserNotification, B)>, n: UserNotification)
    ensures
        final(items)@ == without(old(items)@, n),
{
    let mut rest: Vec<(UserNotification, B)> = Vec::new();
    std::mem::swap(&mut rest, items);
    let ghost orig = rest@;
    let ghost mut done: int = 0;
    assert(orig.take(0) =~= Seq::<(UserNotification, B)>::empty());
    proof {
        reveal_with_fuel(Seq::filter, 1);
    }
    while rest.len() > 0
        invariant
            orig == old(items)@,
            0 <= done <= orig.len(),
            rest@ == orig.skip(done),
            items@ == without(orig.take(done), n),
        decreases rest@.len(),
    {
        let x = rest.remove(0);
        proof {
            assert(orig.take(done + 1).drop_last() =~= orig.take(done));
            assert(orig.take(done + 1).last() == x);
            reveal_with_fuel(Seq::filter, 1);
            assert(rest@ =~= orig.skip(done + 1));
        }
        if x.0 != n {
            items.push(x);
        }
        proof {
            done = done + 1;
        }
    }
    assert(orig.take(done) =~= orig);
}

/// Removes every entry, as the page does once the server accepted deleting
/// all notifications.
pub fn clear_all<B>(items: &mut Vec<(UserNotification, B)>)
    ensures
        final(items)@.len() == 0,
{
    items.clear();
}

/// The class of a notification's row: unseen rows stand out.
pub open spec fn row_class_text(has_been_seen: bool) -> Seq<char> {
    if has_been_seen {
        "has-text-grey"@
    } else {
        "has-background-white-ter has-text-weight-medium has-text-grey-dark"@
    }
}

/// The class of a notification's row.
pub fn row_class(n: &UserNotification) -> (r: String)
    ensures
        r@ == row_class_text(n.has_been_seen),
{
    if n.has_been_seen {
        "has-text-grey".to_string()
    } else {
        "has-background-white-ter has-text-weight-medium has-text-grey-dark".to_string()
    }
}

/// The class of a notification's title and cells: darker while unseen.
pub open spec fn title_class_text(has_been_seen: bool) -> Seq<char> {
    if has_been_seen {
        ""@
    } else {
        "has-text-grey-darker"@
    }
}

/// The class of a notification's title and cells.
pub fn title_class(n: &UserNotification) -> (r: String)
    ensures
        r@ == title_class_text(n.has_been_seen),
{
    if n.has_been_seen {
        "".to_string()
    } else {
        "has-text-grey-darker".to_string()
    }
}

/// The key under which the page tracks a notification's row.
pub fn row_key(n: &UserNotification) -> (r: (i64, i64, bool))
    ensures
        r == (n.user_id, n.audiobook_id, n.has_been_seen),
{
    (n.user_id, n.audiobook_id, n.has_been_seen)
}

/// Once one notification is marked as seen, the same action again changes
/// nothing: the entry now holds `seen(n)`, which differs from `n` when `n`
/// was not yet seen, and equals it otherwise.
pub proof fn lemma_seen_idempotent(n: UserNotification)
    ensures
        seen(seen(n)) == seen(n),
        seen(n).has_been_seen,
        seen(n).user_id == n.user_id && seen(n).audiobook_id == n.audiobook_id && seen(n).created_at
            == n.created_at && seen(n).created_at_nanos == n.created_at_nanos,
        n.has_been_seen ==> seen(n) == n,
{
}

/// Deleting keeps every other row, in its order: deleting from rows with
/// one more row at the end gives the same as before, plus that row when it
/// does not hold the deleted notification; nothing is left of no rows; and
/// rows that do not hold the notification are left exactly as they were.
pub proof fn lemma_without_keeps_order<B>(items: Seq<(UserNotification, B)>, x: (UserNotification, B), n: UserNotification)
    ensures
        without(Seq::<(UserNotification, B)>::empty(), n) == Seq::<(UserNotification, B)>::empty(),
        x.0 != n ==> without(items.push(x), n) == without(items, n).push(x),
        x.0 == n ==> without(items.push(x), n) == without(items, n),
        (forall|i: int| 0 <= i < items.len() ==> (#[trigger] items[i]).0 != n) ==> without(items, n) == items,
{
    reveal_with_fuel(Seq::filter, 1);
    assert(items.push(x).drop_last() =~= items);
    lemma_without_nothing_to_remove(items, n);
}

proof fn lemma_without_nothing_to_remove<B>(items: Seq<(UserNotification, B)>, n: UserNotification)
    ensures
        (forall|i: int| 0 <= i < items.len() ==> (#[trigger] items[i]).0 != n) ==> without(items, n) == items,
    decreases items.len(),
{
    reveal_with_fuel(Seq::filter, 1);
    if items.len() > 0 && (forall|i: int| 0 <= i < items.len() ==> (#[trigger] items[i]).0 != n) {
        let rest = items.drop_last();
        lemma_without_nothing_to_remove(rest, n);
        assert forall|i: int| 0 <= i < rest.len() implies (#[trigger] rest[i]).0 != n by {
            assert(rest[i] == items[i]);
        }
        assert(items[items.len() - 1] == items.last());
        assert(rest.push(items.last()) =~= items);
    }
}

/// No entry left after deleting `n` holds `n`, every entry left was there
/// before, and nothing grows.
pub proof fn lemma_without_removes<B>(items: Seq<(UserNotification, B)>, n: UserNotification)
    ensures
        forall|i: int| 0 <= i < without(items, n).len() ==> (#[trigger] without(items, n)[i]).0 != n,
        forall|i: int| 0 <= i < without(items, n).len() ==> items.contains(#[trigger] without(items, n)[i]),
        without(items, n).len() <= items.len(),
    decreases items.len(),
{
    broadcast use vstd::seq_lib::group_filter_ensures;
    reveal_with_fuel(Seq::filter, 1);
    if items.len() > 0 {
        lemma_without_removes(items.drop_last(), n);
        assert forall|i: int| 0 <= i < without(items, n).len() implies items.contains(#[trigger] without(items, n)[i]) by {
            let w = without(items, n);
            if i < without(items.drop_last(), n).len() {
                let e = without(items.drop_last(), n)[i];
                assert(w[i] == e);
                assert(items.drop_last().contains(e));
                let k = choose|k: int| 0 <= k < items.drop_last().len() && items.drop_last()[k] == e;
                assert(items[k] == e);
            } else {
                assert(w[i] == items.last());
                assert(items[items.len() - 1] == items.last());
            }
        }
    }
}

} // verus!
