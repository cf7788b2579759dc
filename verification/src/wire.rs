//! The wire-format mapping: a chain flattens into an ordered sequence of
//! items for cross-process reporting.
//!
//! Flattening walks the chain outermost to innermost; every frame contributes
//! its note's text only when the note is present (absent notes contribute
//! nothing — they are dropped, not emitted as an empty item), and an
//! `External` node contributes the failure value itself. The mapping is
//! deliberately lossy: the flattened form keeps the items, not the frame
//! structure, so reading a report back yields a [`DecayDeser`] — the plain
//! item sequence — and never a [`Decay`].

use crate::decay::Decay;
use vstd::prelude::*;
use vstd::string::*;

verus! {

/// One item of a flattened chain, as mathematics: a note's text or the
/// external failure value.
pub enum ItemModel<O> {
    Text(Seq<char>),
    Outer(O),
}

/// The wire items one note contributes: its text when present, nothing when
/// absent.
pub open spec fn note_items<O>(note: Option<Seq<char>>) -> Seq<ItemModel<O>> {
    match note {
        None => seq![],
        Some(t) => seq![ItemModel::Text(t)],
    }
}

/// One item of a flattened chain: the text of a present note, or the
/// externally defined failure value.
#[derive(Clone, PartialEq, Eq, Debug)]
pub enum DecayDeserItem<O> {
    /// A frame's note text.
    Internal(String),
    /// The externally defined failure value.
    External(O),
}

impl<O> View for DecayDeserItem<O> {
    type V = ItemModel<O>;

    open spec fn view(&self) -> ItemModel<O> {
        match self {
            DecayDeserItem::Internal(t) => ItemModel::Text(t@),
            DecayDeserItem::External(e) => ItemModel::Outer(*e),
        }
    }
}

impl<O> Decay<O> {
    /// The flattened wire sequence of the chain, outermost first: the text of
    /// every present note, and the failure value when the chain bottoms out
    /// in an `External` node.
    pub open spec fn items(self) -> Seq<ItemModel<O>>
        decreases self,
    {
        match self {
            Decay::Internal { note, .. } => note_items(note@),
            Decay::External { error } => seq![ItemModel::Outer(error)],
            Decay::Further { note, error, .. } => note_items(note@) + error.items(),
        }
    }

    /// Flattens the chain into its wire sequence: one `Internal` item per
    /// present note, outermost first, and one final `External` item when the
    /// chain bottoms out in an external failure.
    pub fn flatten(self) -> (r: Vec<DecayDeserItem<O>>)
        ensures
            r@.len() == self.items().len(),
            forall|i: int| 0 <= i < r@.len() ==> #[trigger] r@[i]@ == self.items()[i],
        decreases self,
    {
        match self {
            Decay::Internal { note, .. } => {
                let mut v: Vec<DecayDeserItem<O>> = Vec::new();
                match note.text() {
                    None => {},
                    Some(t) => v.push(DecayDeserItem::Internal(String::from_str(t))),
                }
                v
            },
            Decay::External { error } => {
                let mut v: Vec<DecayDeserItem<O>> = Vec::new();
                v.push(DecayDeserItem::External(error));
                v
            },
            Decay::Further { note, error, .. } => {
                let mut v: Vec<DecayDeserItem<O>> = Vec::new();
                match note.text() {
                    None => {},
                    Some(t) => v.push(DecayDeserItem::Internal(String::from_str(t))),
                }
                let mut rest = (*error).flatten();
                v.append(&mut rest);
                v
            },
        }
    }
}

/// The flattened form a report deserializes into: the plain sequence of
/// items, not a chain.
pub type DecayDeserInner<O> = Vec<DecayDeserItem<O>>;

/// A deserialized report: the ordered item sequence a serialized chain
/// flattens to. Reconstructing the original chain is deliberately not
/// offered; the wire format does not carry the frame structure.
#[derive(Clone, PartialEq, Eq, Debug)]
pub struct DecayDeser<O>(DecayDeserInner<O>);

impl<O> View for DecayDeser<O> {
    type V = Seq<DecayDeserItem<O>>;

    closed spec fn view(&self) -> Seq<DecayDeserItem<O>> {
        self.0@
    }
}

impl<O> DecayDeser<O> {
    /// Wraps an item sequence.
    pub fn new(src: DecayDeserInner<O>) -> (r: Self)
        ensures
            r@ == src@,
    {
        DecayDeser(src)
    }

    /// Hands the item sequence back out.
    pub fn into_inner(self) -> (r: DecayDeserInner<O>)
        ensures
            r@ == self@,
    {
        self.0
    }

    /// Borrows the item sequence.
    pub fn inner(&self) -> (r: &DecayDeserInner<O>)
        ensures
            r@ == self@,
    {
        &self.0
    }

    /// Borrows the item sequence mutably.
    pub fn inner_mut(&mut self) -> (r: &mut DecayDeserInner<O>)
        ensures
            r@ == old(self)@,
            final(self)@ == final(r)@,
    {
        &mut self.0
    }
}

/// For a chain whose every frame carries a present note, flattening is
/// lossless on the items: the wire sequence holds exactly one text item per
/// frame, in frame order, followed by the failure value exactly when the
/// chain bottoms out in an `External` node. Reading such a report back item
/// by item therefore reproduces the full item sequence; only the frame
/// structure (place trails and the rooted/wrapped distinction) is dropped.
pub proof fn lemma_items_of_noted_chain<O>(c: Decay<O>)
    requires
        forall|i: int| 0 <= i < c.frames().len() ==> c.frames()[i].note is Some,
    ensures
        c.items().len() == c.frames().len() + (if c.leaf() is Some {
            1int
        } else {
            0int
        }),
        forall|i: int|
            0 <= i < c.frames().len() ==> c.items()[i] == ItemModel::<O>::Text(
                c.frames()[i].note.unwrap(),
            ),
        c.leaf() is Some ==> c.items().last() == ItemModel::Outer(c.leaf().unwrap()),
    decreases c,
{
    match c {
        Decay::Internal { note, .. } => {
            assert(c.frames()[0].note == note@);
            assert(c.frames()[0].note is Some);
            assert(c.items() =~= seq![ItemModel::<O>::Text(note@.unwrap())]);
        },
        Decay::External { .. } => {},
        Decay::Further { note, place, error } => {
            assert(c.frames() =~= seq![
                crate::decay::FrameModel { note: note@, places: place@ },
            ] + error.frames());
            assert(c.frames()[0].note == note@);
            assert(c.frames()[0].note is Some);
            assert(forall|i: int|
                0 <= i < error.frames().len() ==> error.frames()[i] == c.frames()[i + 1]);
            lemma_items_of_noted_chain(*error);
            assert(c.items() =~= seq![ItemModel::<O>::Text(note@.unwrap())] + error.items());
            assert(forall|i: int|
                0 <= i < c.frames().len() ==> c.items()[i] == ItemModel::<O>::Text(
                    c.frames()[i].note.unwrap(),
                ));
        },
    }
}

} // verus!
