//! The store's laws, proved over the same spec-level transitions the
//! executable functions are specified with: category isolation, default
//! bootstrap idempotence, uncommitted isolation, and commit semantics.

use vstd::prelude::*;

use crate::disk::find_entry;
use crate::disk::lemma_find_entry_push;
use crate::disk::lemma_find_entry_put;
use crate::storage::Storage;
use crate::storage::StoreError;
use crate::storage::Storing;
use crate::storage::StoringType;
use crate::storage::spec_read_files;
use crate::storage::spec_read_result;
use crate::storage::spec_read_value;
use crate::storage::spec_write_files;
use crate::storage::spec_write_result;

verus! {

/// Category isolation: under a storage with independent roots, the same
/// identifier never resolves to the same file path for two different
/// categories.
pub proof fn lemma_category_isolation(
    st: Storage,
    t1: StoringType,
    t2: StoringType,
    id: Seq<char>,
)
    requires
        st.wf(),
        t1 != t2,
    ensures
        st.path_spec(t1, id) != st.path_spec(t2, id),
{
    let r1 = st.root_for(t1);
    let r2 = st.root_for(t2);
    let p1 = st.path_spec(t1, id);
    let p2 = st.path_spec(t2, id);
    if p1 == p2 {
        assert(p1.len() == r1.len() + 1 + id.len());
        assert(p2.len() == r2.len() + 1 + id.len());
        assert(r1.len() == r2.len());
        assert forall|i: int| 0 <= i < r1.len() implies r1[i] == r2[i] by {
            assert(p1[i] == r1[i]);
            assert(p2[i] == r2[i]);
        }
        assert(r1 =~= r2);
    }
}

/// Default bootstrap idempotence: reading an identifier that has never been
/// written creates exactly one file, holding the encoded default, and leaves
/// the default in memory; a second read of the same identifier succeeds with
/// the same value and creates nothing. The codec's round trip on the default
/// value, stated by `Storing::encode`, is taken as given.
pub proof fn lemma_default_bootstrap_idempotent<T: Storing>(
    entries: Seq<(Seq<char>, Seq<char>)>,
    p: Seq<char>,
    v0: T,
    v1: T,
)
    requires
        find_entry(entries, p) is None,
        T::decode_spec(T::default_spec().encode_spec()) == Some(T::default_spec()),
    ensures
        ({
            let once = spec_read_files::<T>(entries, true, p);
            &&& once == entries.push((p, T::default_spec().encode_spec()))
            &&& once.len() == entries.len() + 1
            &&& spec_read_value::<T>(entries, true, false, p, v0) == T::default_spec()
            &&& spec_read_result::<T>(entries, true, false, p) == Ok::<(), StoreError>(())
            &&& spec_read_files::<T>(once, true, p) == once
            &&& spec_read_value::<T>(once, true, false, p, v1) == T::default_spec()
            &&& spec_read_result::<T>(once, true, false, p) == Ok::<(), StoreError>(())
        }),
{
    lemma_find_entry_push(entries, (p, T::default_spec().encode_spec()), p);
}

/// Uncommitted isolation: what a successful read brings into memory is a
/// function of the disk alone, never of the reader's prior in-memory value.
/// Together with `modify_store_uncommitted` taking no disk at all, an
/// uncommitted mutation is invisible to any re-read until it is saved.
pub proof fn lemma_uncommitted_isolation<T: Storing>(
    entries: Seq<(Seq<char>, Seq<char>)>,
    writable: bool,
    locked: bool,
    p: Seq<char>,
    a: T,
    b: T,
)
    requires
        spec_read_result::<T>(entries, writable, locked, p) == Ok::<(), StoreError>(()),
    ensures
        spec_read_value::<T>(entries, writable, locked, p, a) == spec_read_value::<T>(
            entries,
            writable,
            locked,
            p,
            b,
        ),
{
}

/// Commit semantics: a write of `v` to a disk that accepts it succeeds, and
/// a fresh read of the same path afterwards succeeds and observes `v`,
/// whatever was on the disk and whatever the reader held in memory before.
/// The codec's round trip on `v`, stated by `Storing::encode`, is taken as
/// given.
pub proof fn lemma_commit_observed<T: Storing>(
    entries: Seq<(Seq<char>, Seq<char>)>,
    p: Seq<char>,
    v: T,
    v1: T,
)
    requires
        T::decode_spec(v.encode_spec()) == Some(v),
    ensures
        spec_write_result::<T>(entries, true, false, p) == Ok::<(), StoreError>(()),
        ({
            let after = spec_write_files::<T>(entries, true, false, p, v);
            &&& find_entry(after, p) == Some(v.encode_spec())
            &&& spec_read_files::<T>(after, true, p) == after
            &&& spec_read_result::<T>(after, true, false, p) == Ok::<(), StoreError>(())
            &&& spec_read_value::<T>(after, true, false, p, v1) == v
        }),
{
    match find_entry(entries, p) {
        Some(_) => {
            lemma_find_entry_put(entries, p, v.encode_spec(), p);
        },
        None => {
            lemma_find_entry_push(entries, (p, v.encode_spec()), p);
        },
    }
}

} // verus!
