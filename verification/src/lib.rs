//! A combinator that bundles an owner value together with a view derived from
//! the data the owner holds, so the view can be stored, returned and narrowed
//! independently of the scope where the owner was created.
//!
//! The stored view is replayed from the owner's data rather than held as a raw
//! address: constructing captures the owner's dereferenced data, and every
//! narrowing step applies a projection to the currently captured view. The
//! owner itself is moved in whole and never touched again, so its data stays
//! intact for as long as the combinator lives.

mod combinator;
mod laws;
mod stable;

pub use combinator::{ArcRef, BoxRef, OwningRef, RcRef, StringRef, VecRef};
pub use laws::{
    clone_exact, lemma_construct_observes_owner, lemma_duplicates_observe_shared_data,
    lemma_map_associative, lemma_map_models_projection, lemma_owner_fixed_along_chain,
    lemma_seq_sum_concat, lemma_split_aggregate, narrowing_chain, narrows_to, seq_sum,
};
pub use stable::{CloneStableAddress, StableAddress};
