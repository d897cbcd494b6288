use vstd::prelude::*;

verus! {

// A record table: a vector of (identity, amount) pairs with pairwise
// distinct identities, in which an identity without a record implicitly
// holds 0. Both the ledger's balance book and a pool's contribution book
// take this shape.

/// No two records carry the same identity.
pub open spec fn distinct_ids(s: Seq<(u64, i128)>) -> bool {
    forall|i: int, j: int| 0 <= i < j < s.len() ==> s[i].0 != s[j].0
}

/// Every recorded amount is at least 0.
pub open spec fn nonnegative(s: Seq<(u64, i128)>) -> bool {
    forall|i: int| 0 <= i < s.len() ==> s[i].1 >= 0
}

/// Some record carries `id`.
pub open spec fn has_id(s: Seq<(u64, i128)>, id: u64) -> bool {
    exists|i: int| 0 <= i < s.len() && s[i].0 == id
}

/// The amount recorded for `id`; 0 when no record carries `id`.
pub open spec fn amount_of(s: Seq<(u64, i128)>, id: u64) -> int
    decreases s.len(),
{
    if s.len() == 0 {
        0
    } else if s.last().0 == id {
        s.last().1 as int
    } else {
        amount_of(s.drop_last(), id)
    }
}

/// The sum of every recorded amount.
pub open spec fn total_of(s: Seq<(u64, i128)>) -> int
    decreases s.len(),
{
    if s.len() == 0 {
        0
    } else {
        total_of(s.drop_last()) + s.last().1
    }
}

/// Distinctness and nonnegativity pass to the table without its last record.
proof fn lemma_drop_last_props(s: Seq<(u64, i128)>)
    requires
        s.len() > 0,
    ensures
        distinct_ids(s) ==> distinct_ids(s.drop_last()),
        nonnegative(s) ==> nonnegative(s.drop_last()),
        forall|id: u64| has_id(s.drop_last(), id) ==> has_id(s, id),
{
    let d = s.drop_last();
    assert(forall|i: int| 0 <= i < d.len() ==> d[i] == s[i]);
    assert forall|id: u64| has_id(d, id) implies has_id(s, id) by {
        let i = choose|i: int| 0 <= i < d.len() && d[i].0 == id;
        assert(s[i].0 == id);
    }
}

/// An identity without a record holds 0.
pub proof fn lemma_amount_absent(s: Seq<(u64, i128)>, id: u64)
    requires
        !has_id(s, id),
    ensures
        amount_of(s, id) == 0,
    decreases s.len(),
{
    if s.len() > 0 {
        assert(s[s.len() - 1].0 != id);
        lemma_drop_last_props(s);
        lemma_amount_absent(s.drop_last(), id);
    }
}

/// In a nonnegative table no identity holds less than 0.
pub proof fn lemma_amount_nonneg(s: Seq<(u64, i128)>, id: u64)
    requires
        nonnegative(s),
    ensures
        amount_of(s, id) >= 0,
    decreases s.len(),
{
    if s.len() > 0 {
        assert(s[s.len() - 1].1 >= 0);
        lemma_drop_last_props(s);
        lemma_amount_nonneg(s.drop_last(), id);
    }
}

/// A nonnegative table sums to at least 0.
pub proof fn lemma_total_nonneg(s: Seq<(u64, i128)>)
    requires
        nonnegative(s),
    ensures
        total_of(s) >= 0,
    decreases s.len(),
{
    if s.len() > 0 {
        assert(s[s.len() - 1].1 >= 0);
        lemma_drop_last_props(s);
        lemma_total_nonneg(s.drop_last());
    }
}

/// No single identity holds more than the whole table's sum.
pub proof fn lemma_amount_le_total(s: Seq<(u64, i128)>, id: u64)
    requires
        distinct_ids(s),
        nonnegative(s),
    ensures
        amount_of(s, id) <= total_of(s),
    decreases s.len(),
{
    if s.len() > 0 {
        lemma_drop_last_props(s);
        if s.last().0 == id {
            lemma_total_nonneg(s.drop_last());
        } else {
            assert(s[s.len() - 1].1 >= 0);
            lemma_amount_le_total(s.drop_last(), id);
        }
    }
}

/// Two different identities together hold no more than the table's sum.
pub proof fn lemma_pair_le_total(s: Seq<(u64, i128)>, a: u64, b: u64)
    requires
        distinct_ids(s),
        nonnegative(s),
        a != b,
    ensures
        amount_of(s, a) + amount_of(s, b) <= total_of(s),
    decreases s.len(),
{
    if s.len() > 0 {
        lemma_drop_last_props(s);
        if s.last().0 == a {
            lemma_amount_le_total(s.drop_last(), b);
        } else if s.last().0 == b {
            lemma_amount_le_total(s.drop_last(), a);
        } else {
            assert(s[s.len() - 1].1 >= 0);
            lemma_pair_le_total(s.drop_last(), a, b);
        }
    }
}

/// With distinct identities, the record at any index gives its identity's amount.
pub proof fn lemma_amount_at(s: Seq<(u64, i128)>, i: int)
    requires
        distinct_ids(s),
        0 <= i < s.len(),
    ensures
        amount_of(s, s[i].0) == s[i].1 as int,
    decreases s.len(),
{
    if i < s.len() - 1 {
        assert(s[i].0 != s[s.len() - 1].0);
        lemma_drop_last_props(s);
        lemma_amount_at(s.drop_last(), i);
    }
}

/// Overwriting the record at index `i` changes that identity's amount alone,
/// and shifts the sum by the difference.
proof fn lemma_set_at(s: Seq<(u64, i128)>, i: int, a: i128)
    requires
        distinct_ids(s),
        0 <= i < s.len(),
    ensures
        distinct_ids(s.update(i, (s[i].0, a))),
        amount_of(s.update(i, (s[i].0, a)), s[i].0) == a as int,
        forall|q: u64|
            q != s[i].0 ==> amount_of(s.update(i, (s[i].0, a)), q) == amount_of(s, q),
        total_of(s.update(i, (s[i].0, a))) == total_of(s) - s[i].1 + a,
    decreases s.len(),
{
    let u = s.update(i, (s[i].0, a));
    assert(forall|k: int| 0 <= k < s.len() && k != i ==> u[k] == s[k]);
    lemma_drop_last_props(s);
    if i == s.len() - 1 {
        assert(u.drop_last() =~= s.drop_last());
        assert forall|q: u64| q != s[i].0 implies amount_of(u, q) == amount_of(s, q) by {
            assert(u.last().0 == s[i].0);
        }
    } else {
        assert(s[i].0 != s[s.len() - 1].0);
        assert(u.drop_last() =~= s.drop_last().update(i, (s[i].0, a)));
        assert(s.drop_last()[i] == s[i]);
        lemma_set_at(s.drop_last(), i, a);
        assert(u.last() == s.last());
        assert forall|q: u64| q != s[i].0 implies amount_of(u, q) == amount_of(s, q) by {
            if u.last().0 != q {
                assert(amount_of(u.drop_last(), q) == amount_of(s.drop_last(), q));
            }
        }
    }
}

/// Appending a record for an identity the table lacks gives that identity
/// its amount, leaves every other amount alone, and adds to the sum.
proof fn lemma_append_record(s: Seq<(u64, i128)>, id: u64, a: i128)
    requires
        !has_id(s, id),
    ensures
        distinct_ids(s) ==> distinct_ids(s.push((id, a))),
        amount_of(s.push((id, a)), id) == a as int,
        forall|q: u64| q != id ==> amount_of(s.push((id, a)), q) == amount_of(s, q),
        total_of(s.push((id, a))) == total_of(s) + a,
{
    let u = s.push((id, a));
    assert(u.drop_last() =~= s);
    assert(u.last() == (id, a));
    if distinct_ids(s) {
        assert forall|i: int, j: int| 0 <= i < j < u.len() implies u[i].0 != u[j].0 by {
            if j == u.len() - 1 {
                assert(u[i] == s[i]);
            }
        }
    }
}

/// Index of the record carrying `id`, if any.
fn find_id(v: &Vec<(u64, i128)>, id: u64) -> (r: Option<usize>)
    ensures
        match r {
            Some(i) => i < v@.len() && v@[i as int].0 == id,
            None => !has_id(v@, id),
        },
{
    let mut i: usize = 0;
    while i < v.len()
        invariant
            i <= v@.len(),
            forall|k: int| 0 <= k < i ==> v@[k].0 != id,
        decreases v@.len() - i,
    {
        if v[i].0 == id {
            return Some(i);
        }
        i = i + 1;
    }
    None
}

/// The amount recorded for `id`, 0 when absent.
pub fn amount_in(v: &Vec<(u64, i128)>, id: u64) -> (a: i128)
    requires
        distinct_ids(v@),
    ensures
        a as int == amount_of(v@, id),
{
    match find_id(v, id) {
        Some(i) => {
            proof {
                lemma_amount_at(v@, i as int);
            }
            v[i].1
        },
        None => {
            proof {
                lemma_amount_absent(v@, id);
            }
            0
        },
    }
}

/// Sets the amount recorded for `id`, appending a record when none exists.
pub fn set_amount(v: &mut Vec<(u64, i128)>, id: u64, a: i128)
    requires
        distinct_ids(old(v)@),
    ensures
        distinct_ids(final(v)@),
        amount_of(final(v)@, id) == a as int,
        forall|q: u64| q != id ==> amount_of(final(v)@, q) == amount_of(old(v)@, q),
        total_of(final(v)@) == total_of(old(v)@) - amount_of(old(v)@, id) + a,
        nonnegative(old(v)@) && a >= 0 ==> nonnegative(final(v)@),
{
    match find_id(v, id) {
        Some(i) => {
            proof {
                lemma_amount_at(v@, i as int);
                lemma_set_at(v@, i as int, a);
            }
            v[i] = (id, a);
            proof {
                if nonnegative(old(v)@) && a >= 0 {
                    assert forall|k: int| 0 <= k < v@.len() implies v@[k].1 >= 0 by {
                        if k != i {
                            assert(v@[k] == old(v)@[k]);
                        }
                    }
                }
            }
        },
        None => {
            proof {
                lemma_amount_absent(v@, id);
                lemma_append_record(v@, id, a);
            }
            v.push((id, a));
            proof {
                if nonnegative(old(v)@) && a >= 0 {
                    assert forall|k: int| 0 <= k < v@.len() implies v@[k].1 >= 0 by {
                        if k < v@.len() - 1 {
                            assert(v@[k] == old(v)@[k]);
                        }
                    }
                }
            }
        },
    }
}

} // verus!
