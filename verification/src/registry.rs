//! The token-indexed listener registry, backed by `slab::Slab`.
//!
//! The reactor engine correlates readiness notifications back to the
//! listener that produced them through a mapping from small stable integer
//! tokens to listeners. The mapping is a `slab::Slab` holding the bound
//! address of each listener; entries are inserted once at construction and
//! never removed. Because the harness only ever inserts, the slab stays
//! dense: its keys are exactly `0 .. n` in insertion order, which is what
//! [`slab_dense`] names and what the contracts below rely on.

use vstd::prelude::*;

use crate::addr::Addr;

verus! {

#[verifier::external_type_specification]
#[verifier::external_body]
#[verifier::reject_recursive_types(T)]
pub struct ExSlab<T>(slab::Slab<T>);

/// The values a slab holds, keyed in order: the value under key `k` is
/// element `k`. Meaningful for dense slabs (see [`slab_dense`]).
pub uninterp spec fn slab_entries(s: slab::Slab<Addr>) -> Seq<Addr>;

/// Whether the slab's occupied keys are exactly `0 .. slab_entries(s).len()`,
/// the shape every slab has that has seen only inserts since `new`.
pub uninterp spec fn slab_dense(s: slab::Slab<Addr>) -> bool;

/// Relies on slab::Slab::new: a fresh slab is empty and its next vacant
/// key is 0.
#[verifier::external_body]
pub(crate) fn slab_new() -> (s: slab::Slab<Addr>)
    ensures
        slab_entries(s) == Seq::<Addr>::empty(),
        slab_dense(s),
{
    slab::Slab::new()
}

/// Relies on slab::Slab::insert: on a slab that has seen only inserts, the
/// key handed out is the number of entries already stored, and the value is
/// stored under it.
#[verifier::external_body]
pub(crate) fn slab_insert(s: &mut slab::Slab<Addr>, value: Addr) -> (key: usize)
    requires
        slab_dense(*old(s)),
    ensures
        slab_dense(*final(s)),
        key as nat == slab_entries(*old(s)).len(),
        slab_entries(*final(s)) == slab_entries(*old(s)).push(value),
{
    s.insert(value)
}

/// Relies on slab::Slab::get: the value stored under an occupied key comes
/// back, and a vacant or out-of-range key yields nothing.
#[verifier::external_body]
pub(crate) fn slab_get(s: &slab::Slab<Addr>, key: usize) -> (r: Option<Addr>)
    requires
        slab_dense(*s),
    ensures
        (key as nat) < slab_entries(*s).len() ==> r == Some(slab_entries(*s)[key as int]),
        (key as nat) >= slab_entries(*s).len() ==> r is None,
{
    s.get(key).copied()
}

} // verus!
