//! Laws that relate the operations of `KVStore`, stated over the states that
//! their contracts describe.
use vstd::prelude::*;
use crate::record::KeyValueView;
use crate::store::KVStore;

verus! {

/// A string written with `set_str` reads back through `get_str`: after the row
/// under `k` is replaced by a record holding only `v`, the string at `k` is `v`.
pub proof fn lemma_str_round_trip(before: KVStore, after: KVStore, k: Seq<char>, v: Seq<char>)
    requires
        after.is_initialized(),
        after.rows() == before.rows().insert(k, KeyValueView::of_str(k, v)),
    ensures
        after.str_at(k) == Some(v),
{
}

/// An integer written with `set_int` reads back through `get_int`.
pub proof fn lemma_int_round_trip(before: KVStore, after: KVStore, k: Seq<char>, v: i64)
    requires
        after.is_initialized(),
        after.rows() == before.rows().insert(k, KeyValueView::of_int(k, v)),
    ensures
        after.int_at(k) == Some(v),
{
}

/// Float bits written with `set_float` read back through `get_float`.
pub proof fn lemma_float_round_trip(before: KVStore, after: KVStore, k: Seq<char>, v: u64)
    requires
        after.is_initialized(),
        after.rows() == before.rows().insert(k, KeyValueView::of_float(k, v)),
    ensures
        after.float_at(k) == Some(v),
{
}

/// A boolean written with `set_bool` reads back through `get_bool`.
pub proof fn lemma_bool_round_trip(before: KVStore, after: KVStore, k: Seq<char>, v: bool)
    requires
        after.is_initialized(),
        after.rows() == before.rows().insert(k, KeyValueView::of_bool(k, v)),
    ensures
        after.bool_at(k) == Some(v),
{
}

/// A key with no row holds no value of any type, so every typed getter
/// returns `None` for it.
pub proof fn lemma_unwritten_key_has_no_value(s: KVStore, k: Seq<char>)
    requires
        !s.rows().contains_key(k),
    ensures
        s.row_at(k) is None,
        s.str_at(k) is None,
        s.int_at(k) is None,
        s.float_at(k) is None,
        s.bool_at(k) is None,
{
}

/// `set` replaces a row whole: after a string `a` and then an integer `b` are
/// written under `k`, the row holds the integer and no string.
pub proof fn lemma_set_replaces_row(
    before: KVStore,
    mid: KVStore,
    after: KVStore,
    k: Seq<char>,
    a: Seq<char>,
    b: i64,
)
    requires
        after.is_initialized(),
        mid.rows() == before.rows().insert(k, KeyValueView::of_str(k, a)),
        after.rows() == mid.rows().insert(k, KeyValueView::of_int(k, b)),
    ensures
        after.row_at(k) == Some(KeyValueView::of_int(k, b)),
        after.str_at(k) is None,
        after.int_at(k) == Some(b),
{
}

/// Removing a key that has no row leaves the rows as they were.
pub proof fn lemma_remove_absent_key(s: KVStore, k: Seq<char>)
    requires
        !s.rows().contains_key(k),
    ensures
        s.rows().remove(k) == s.rows(),
{
    assert(s.rows().remove(k) =~= s.rows());
}

/// After `remove(k)` no row has the key `k`, so `get(k)` cannot succeed, and
/// fails with `NotFound` unless the engine itself fails.
pub proof fn lemma_get_after_remove(before: KVStore, after: KVStore, k: Seq<char>)
    requires
        after.rows() == before.rows().remove(k),
    ensures
        after.row_at(k) is None,
{
}

} // verus!
