use vstd::prelude::*;
use crate::store::{StoreView, UserView, seeded};

verus! {

/// A request to create a user, as the pair (name, email).
pub type Request = (Seq<char>, Seq<char>);

/// The store after inserting each of `reqs`, first to last.
pub open spec fn apply_inserts(s: StoreView, reqs: Seq<Request>) -> StoreView
    decreases reqs.len(),
{
    if reqs.len() == 0 {
        s
    } else {
        apply_inserts(s, reqs.drop_last()).after_insert(reqs.last().0, reqs.last().1)
    }
}

/// The record that the `i`-th of the inserts `reqs`, applied to `s`, returns.
pub open spec fn nth_inserted(s: StoreView, reqs: Seq<Request>, i: int) -> UserView {
    apply_inserts(s, reqs.take(i)).next_record(reqs[i].0, reqs[i].1)
}

/// Some one of the inserts `reqs`, applied to `s`, returns identifier `id`.
pub open spec fn assigned(s: StoreView, reqs: Seq<Request>, id: int) -> bool {
    exists|i: int| 0 <= i < reqs.len() && #[trigger] nth_inserted(s, reqs, i).id == id
}

/// The records that the inserts `reqs` create on a store with counter `c`.
pub open spec fn fresh_records(c: u32, reqs: Seq<Request>) -> Seq<UserView> {
    Seq::new(reqs.len(), |i: int| UserView { id: (c + 1 + i) as u32, name: reqs[i].0, email: reqs[i].1 })
}

/// Inserting into a well-formed store with an identifier left keeps it well formed.
pub proof fn lemma_insert_keeps_wf(s: StoreView, name: Seq<char>, email: Seq<char>)
    requires
        s.wf(),
        s.counter < u32::MAX,
    ensures
        s.after_insert(name, email).wf(),
{
    let t = s.after_insert(name, email);
    assert forall|i: int, j: int| 0 <= i < j < t.users.len() implies #[trigger] t.users[i].id
        < #[trigger] t.users[j].id by {
        if j == s.users.len() {
            assert(s.users[i].id <= s.counter);
        } else {
            assert(s.users[i].id < s.users[j].id);
        }
    }
    assert forall|i: int| 0 <= i < t.users.len() implies #[trigger] t.users[i].id <= t.counter by {
        if i < s.users.len() {
            assert(s.users[i].id <= s.counter);
        }
    }
}

/// Inserts applied one at a time to a well-formed store append records with
/// identifiers counter + 1, counter + 2, ... in order, advance the counter by
/// their number, and keep the store well formed.
pub proof fn lemma_apply_inserts(s: StoreView, reqs: Seq<Request>)
    requires
        s.wf(),
        s.counter + reqs.len() <= u32::MAX,
    ensures
        apply_inserts(s, reqs).wf(),
        apply_inserts(s, reqs).users == s.users + fresh_records(s.counter, reqs),
        apply_inserts(s, reqs).counter == s.counter + reqs.len(),
    decreases reqs.len(),
{
    if reqs.len() == 0 {
        assert(s.users + fresh_records(s.counter, reqs) =~= s.users);
    } else {
        let prev = reqs.drop_last();
        lemma_apply_inserts(s, prev);
        let p = apply_inserts(s, prev);
        lemma_insert_keeps_wf(p, reqs.last().0, reqs.last().1);
        assert(fresh_records(s.counter, reqs) =~= fresh_records(s.counter, prev).push(
            p.next_record(reqs.last().0, reqs.last().1),
        ));
        assert(apply_inserts(s, reqs).users =~= s.users + fresh_records(s.counter, reqs));
    }
}

/// The `i`-th insert returns the record with identifier counter + 1 + `i`.
pub proof fn lemma_nth_inserted(s: StoreView, reqs: Seq<Request>, i: int)
    requires
        s.wf(),
        s.counter + reqs.len() <= u32::MAX,
        0 <= i < reqs.len(),
    ensures
        nth_inserted(s, reqs, i) == fresh_records(s.counter, reqs)[i],
        nth_inserted(s, reqs, i).id == s.counter + 1 + i,
{
    lemma_apply_inserts(s, reqs.take(i));
}

/// No two records of a store built from the seed records by any sequence
/// of inserts share an identifier.
pub proof fn lemma_ids_unique(reqs: Seq<Request>)
    requires
        2 + reqs.len() <= u32::MAX,
    ensures
        forall|i: int, j: int|
            0 <= i < apply_inserts(seeded(), reqs).users.len() && 0 <= j < apply_inserts(
                seeded(),
                reqs,
            ).users.len() && i != j ==> #[trigger] apply_inserts(seeded(), reqs).users[i].id
                != #[trigger] apply_inserts(seeded(), reqs).users[j].id,
{
    lemma_apply_inserts(seeded(), reqs);
    let t = apply_inserts(seeded(), reqs);
    assert forall|i: int, j: int|
        0 <= i < t.users.len() && 0 <= j < t.users.len() && i != j implies #[trigger] t.users[i].id
        != #[trigger] t.users[j].id by {
        if i < j {
            assert(t.users[i].id < t.users[j].id);
        } else {
            assert(t.users[j].id < t.users[i].id);
        }
    }
}

/// Successive inserts on the seeded store are assigned 3, 4, 5, ...: each
/// identifier is one more than the one before, starting after the seeds.
pub proof fn lemma_ids_consecutive(reqs: Seq<Request>)
    requires
        2 + reqs.len() <= u32::MAX,
    ensures
        forall|i: int| 0 <= i < reqs.len() ==> #[trigger] nth_inserted(seeded(), reqs, i).id == 3 + i,
        forall|i: int|
            0 < i < reqs.len() ==> #[trigger] nth_inserted(seeded(), reqs, i).id == nth_inserted(
                seeded(),
                reqs,
                i - 1,
            ).id + 1,
{
    assert forall|i: int| 0 <= i < reqs.len() implies #[trigger] nth_inserted(seeded(), reqs, i).id
        == 3 + i by {
        lemma_nth_inserted(seeded(), reqs, i);
    }
    assert forall|i: int| 0 < i < reqs.len() implies #[trigger] nth_inserted(seeded(), reqs, i).id
        == nth_inserted(seeded(), reqs, i - 1).id + 1 by {
        lemma_nth_inserted(seeded(), reqs, i);
        lemma_nth_inserted(seeded(), reqs, i - 1);
    }
}

/// Right after an insert returns a record, looking up its identifier gives
/// that same record.
pub proof fn lemma_read_your_write(s: StoreView, name: Seq<char>, email: Seq<char>)
    requires
        s.wf(),
        s.counter < u32::MAX,
    ensures
        s.after_insert(name, email).lookup(s.next_record(name, email).id) == Some(
            s.next_record(name, email),
        ),
{
    let t = s.after_insert(name, email);
    let r = s.next_record(name, email);
    lemma_insert_keeps_wf(s, name, email);
    let last = s.users.len() as int;
    assert(t.users[last] == r);
    assert(t.contains_id(r.id));
    let j = choose|j: int| 0 <= j < t.users.len() && #[trigger] t.users[j].id == r.id;
    if j < last {
        assert(t.users[j].id < t.users[last].id);
    }
}

/// On the seeded store after any sequence of inserts, an identifier that is
/// neither a seed's nor returned by one of the inserts is not found.
pub proof fn lemma_not_found(reqs: Seq<Request>, id: u32)
    requires
        2 + reqs.len() <= u32::MAX,
        id != 1,
        id != 2,
        forall|i: int| 0 <= i < reqs.len() ==> #[trigger] nth_inserted(seeded(), reqs, i).id != id,
    ensures
        apply_inserts(seeded(), reqs).lookup(id) is None,
{
    lemma_apply_inserts(seeded(), reqs);
    let t = apply_inserts(seeded(), reqs);
    if t.contains_id(id) {
        let j = choose|j: int| 0 <= j < t.users.len() && #[trigger] t.users[j].id == id;
        if j >= 2 {
            lemma_nth_inserted(seeded(), reqs, j - 2);
            assert(t.users[j] == fresh_records(2, reqs)[j - 2]);
        }
    }
}

/// Listing the seeded store after any sequence of inserts gives the two seed
/// records followed by every inserted record, in the order of creation.
pub proof fn lemma_list_complete(reqs: Seq<Request>)
    requires
        2 + reqs.len() <= u32::MAX,
    ensures
        apply_inserts(seeded(), reqs).users == seeded().users + Seq::new(
            reqs.len(),
            |i: int| nth_inserted(seeded(), reqs, i),
        ),
{
    lemma_apply_inserts(seeded(), reqs);
    assert forall|i: int| 0 <= i < reqs.len() implies #[trigger] fresh_records(2, reqs)[i]
        == nth_inserted(seeded(), reqs, i) by {
        lemma_nth_inserted(seeded(), reqs, i);
    }
    assert(fresh_records(2, reqs) =~= Seq::new(reqs.len(), |i: int| nth_inserted(seeded(), reqs, i)));
}

/// Inserts from concurrent callers, which the store's single guard applies
/// one at a time in some order, each receive a different identifier, and
/// together they receive exactly counter + 1 through counter + n.
pub proof fn lemma_serialized_inserts_gap_free(s: StoreView, reqs: Seq<Request>)
    requires
        s.wf(),
        s.counter + reqs.len() <= u32::MAX,
    ensures
        forall|i: int, j: int|
            0 <= i < reqs.len() && 0 <= j < reqs.len() && i != j ==> #[trigger] nth_inserted(
                s,
                reqs,
                i,
            ).id != #[trigger] nth_inserted(s, reqs, j).id,
        forall|id: int| s.counter < id <= s.counter + reqs.len() <==> #[trigger] assigned(s, reqs, id),
{
    assert forall|i: int, j: int|
        0 <= i < reqs.len() && 0 <= j < reqs.len() && i != j implies #[trigger] nth_inserted(
        s,
        reqs,
        i,
    ).id != #[trigger] nth_inserted(s, reqs, j).id by {
        lemma_nth_inserted(s, reqs, i);
        lemma_nth_inserted(s, reqs, j);
    }
    assert forall|id: int| s.counter < id <= s.counter + reqs.len() <==> #[trigger] assigned(s, reqs, id) by {
        if s.counter < id <= s.counter + reqs.len() {
            let i = id - s.counter - 1;
            lemma_nth_inserted(s, reqs, i);
        }
        if assigned(s, reqs, id) {
            let i = choose|i: int| 0 <= i < reqs.len() && #[trigger] nth_inserted(s, reqs, i).id == id;
            lemma_nth_inserted(s, reqs, i);
        }
    }
}

} // verus!
