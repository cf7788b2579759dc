//! An error-context library: a propagating failure is annotated at each layer
//! with the source location it passed through and an optional human-readable
//! note, without discarding the original cause.
//!
//! The core type is [`Decay`], a recursive chain joining annotation frames
//! (a [`CodePlaceChain`] of locations plus a [`Note`]) to an eventual
//! externally defined failure value. Unnoted propagation steps merge into the
//! existing outermost frame rather than growing the chain; noted steps wrap a
//! new frame. For cross-process reporting a chain flattens into an ordered
//! sequence of items ([`DecayDeserItem`]), which is deliberately lossy: the
//! flattened form keeps note texts and the terminal failure, not the frame
//! structure.

mod decay;
mod note;
mod place;
mod wire;

pub use decay::{
    lemma_further_noted_wraps, lemma_further_unnoted_merges, lemma_root_of_external_chain,
    lemma_root_of_internal_chain, Decay, DecayIter, DecayRoot, FrameModel, IntoDecay,
};
pub use note::{absent_note, lemma_absent_note, lemma_absent_notes_equal, normalized, opt_text, Note};
pub use place::{CodePlace, CodePlaceChain, CodePlaceChainIter};
pub use wire::{
    lemma_items_of_noted_chain, DecayDeser, DecayDeserInner, DecayDeserItem, ItemModel,
};
