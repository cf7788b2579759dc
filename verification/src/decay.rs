//! The error chain: a recursive structure joining annotation frames to an
//! eventual externally defined failure.
//!
//! A [`Decay`] either terminates in an internal annotation (`Internal`),
//! terminates in an externally defined failure value (`External`), or wraps
//! an inner chain with one more annotation frame (`Further`). Propagation via
//! [`Decay::further`] merges an unnoted step into the outermost frame's place
//! trail instead of growing the chain; a noted step, or any step atop an
//! `External` node, wraps a new frame.

use crate::note::{absent_note, lemma_absent_note, Note};
use crate::place::{CodePlace, CodePlaceChain};
use vstd::prelude::*;

verus! {

/// One annotation frame of a chain, as mathematics: the note's view and the
/// trail of places, most recently recorded first.
pub struct FrameModel {
    pub note: Option<Seq<char>>,
    pub places: Seq<CodePlace>,
}

/// An error chain, generic over the externally defined failure type `O`.
#[derive(Debug)]
pub enum Decay<O> {
    /// The chain terminates here with only internal annotation.
    Internal { note: Note, place: CodePlaceChain },
    /// The chain terminates here at an externally defined failure value;
    /// when present this is always the innermost node.
    External { error: O },
    /// An annotation frame atop an existing chain.
    Further { note: Note, place: CodePlaceChain, error: Box<Decay<O>> },
}

impl<O> Decay<O> {
    /// The chain's annotation frames, outermost (most recently attached)
    /// first. An `External` node carries no frame.
    pub open spec fn frames(self) -> Seq<FrameModel>
        decreases self,
    {
        match self {
            Decay::Internal { note, place } => seq![
                FrameModel { note: note@, places: place@ },
            ],
            Decay::External { .. } => seq![],
            Decay::Further { note, place, error } => seq![
                FrameModel { note: note@, places: place@ },
            ] + error.frames(),
        }
    }

    /// The externally defined failure the chain bottoms out in, if any.
    pub open spec fn leaf(self) -> Option<O>
        decreases self,
    {
        match self {
            Decay::Internal { .. } => None,
            Decay::External { error } => Some(error),
            Decay::Further { error, .. } => error.leaf(),
        }
    }

    /// The innermost node of the chain: an `Internal` or `External` value.
    pub open spec fn root_node(self) -> Decay<O>
        decreases self,
    {
        match self {
            Decay::Further { error, .. } => error.root_node(),
            _ => self,
        }
    }

    /// The chain with `new_place` merged into its outermost frame's place
    /// trail. Meaningful for `Internal` and `Further` chains; an `External`
    /// chain has no frame and is left as it is.
    pub open spec fn merge_place(self, new_place: CodePlace) -> Decay<O> {
        match self {
            Decay::Internal { note, place } => Decay::Internal {
                note,
                place: place.prepend_model(new_place),
            },
            Decay::Further { note, place, error } => Decay::Further {
                note,
                place: place.prepend_model(new_place),
                error,
            },
            Decay::External { .. } => self,
        }
    }

    /// What [`Decay::further`] returns: an absent note atop an annotated
    /// chain merges the place into the outermost frame; a present note, or
    /// any step atop an `External` node, wraps a new frame whose place trail
    /// holds exactly `new_place`.
    pub open spec fn further_model(self, new_place: CodePlace, note: Note) -> Decay<O> {
        if note@ is None && !(self is External) {
            self.merge_place(new_place)
        } else {
            Decay::Further {
                note,
                place: CodePlaceChain { head: new_place, tail: None },
                error: Box::new(self),
            }
        }
    }

    /// A chain rooted in an internal annotation: this code detected an
    /// invalid condition at `place`, described by `note`; no external cause
    /// is relayed.
    pub fn new(place: CodePlace, note: Note) -> (r: Self)
        ensures
            r == (Decay::<O>::Internal { note, place: CodePlaceChain { head: place, tail: None } }),
    {
        Self::Internal { note, place: CodePlaceChain::from(place) }
    }

    /// [`Decay::new`] with an absent note.
    pub fn new_unnoted(place: CodePlace) -> (r: Self)
        ensures
            r == (Decay::<O>::Internal {
                note: absent_note(),
                place: CodePlaceChain { head: place, tail: None },
            }),
    {
        Self::Internal { note: Note::none(), place: CodePlaceChain::from(place) }
    }

    /// The propagation step: consumes the chain and returns it annotated with
    /// `new_place` and `note`, merging or wrapping as [`Decay::further_model`]
    /// states. The number of frames grows by one exactly when the note is
    /// present or the chain was a bare external failure, and never otherwise.
    pub fn further(self, new_place: CodePlace, note: Note) -> (r: Self)
        ensures
            r == self.further_model(new_place, note),
    {
        if note.is_none() {
            match self {
                Decay::Internal { note: held, place } => Decay::Internal {
                    note: held,
                    place: place.prepend(new_place),
                },
                Decay::Further { note: held, place, error } => Decay::Further {
                    note: held,
                    place: place.prepend(new_place),
                    error,
                },
                Decay::External { error } => Decay::Further {
                    note,
                    place: CodePlaceChain::from(new_place),
                    error: Box::new(Decay::External { error }),
                },
            }
        } else {
            Decay::Further {
                note,
                place: CodePlaceChain::from(new_place),
                error: Box::new(self),
            }
        }
    }

    /// [`Decay::further`] with an absent note: merges `new_place` into the
    /// outermost frame, or wraps an `External` node in an unnoted frame.
    pub fn further_unnoted(self, new_place: CodePlace) -> (r: Self)
        ensures
            r == self.further_model(new_place, absent_note()),
    {
        proof {
            lemma_absent_note();
        }
        match self {
            Decay::Internal { note: held, place } => Decay::Internal {
                note: held,
                place: place.prepend(new_place),
            },
            Decay::Further { note: held, place, error } => Decay::Further {
                note: held,
                place: place.prepend(new_place),
                error,
            },
            Decay::External { error } => Decay::Further {
                note: Note::none(),
                place: CodePlaceChain::from(new_place),
                error: Box::new(Decay::External { error }),
            },
        }
    }

    /// Walks the `Further` links to the innermost node and returns a borrowed
    /// view of it: the innermost frame's note and place trail, or the
    /// external failure value.
    pub fn root(&self) -> (r: DecayRoot<'_, O>)
        ensures
            (match r {
                DecayRoot::Internal { note, place } => self.root_node() == (Decay::<O>::Internal {
                    note: *note,
                    place: *place,
                }),
                DecayRoot::External { error } => self.root_node() == (Decay::<O>::External {
                    error: *error,
                }),
            }),
        decreases self,
    {
        match self {
            Decay::Further { error, .. } => (&**error).root(),
            Decay::Internal { note, place } => DecayRoot::Internal { note, place },
            Decay::External { error } => DecayRoot::External { error },
        }
    }
}

impl<O> From<O> for Decay<O> {
    /// The canonical lift of a foreign failure into a chain: a bare
    /// `External` node.
    fn from(error: O) -> (r: Self) {
        Decay::External { error }
    }
}

impl<O> vstd::std_specs::convert::FromSpecImpl<O> for Decay<O> {
    open spec fn obeys_from_spec() -> bool {
        true
    }

    open spec fn from_spec(error: O) -> Self {
        Decay::External { error }
    }
}

impl<O: Clone> Clone for Decay<O> {
    /// A clone preserves the frames exactly and preserves which kind of node
    /// the chain bottoms out in; the leaf value, if any, is cloned by
    /// `O::clone`.
    fn clone(&self) -> (res: Self)
        ensures
            res.frames() == self.frames(),
            self.leaf() is None <==> res.leaf() is None,
            self.leaf() is Some ==> (res.leaf() matches Some(e2) && cloned::<O>(
                self.leaf().unwrap(),
                e2,
            )),
        decreases self,
    {
        match self {
            Decay::Internal { note, place } => {
                let res = Decay::Internal { note: note.clone(), place: place.clone() };
                proof {
                    assert(res.frames() =~= self.frames());
                }
                res
            },
            Decay::External { error } => Decay::External { error: error.clone() },
            Decay::Further { note, place, error } => {
                let res = Decay::Further {
                    note: note.clone(),
                    place: place.clone(),
                    error: Box::new((&**error).clone()),
                };
                proof {
                    assert(res.frames() =~= self.frames());
                }
                res
            },
        }
    }
}

/// A borrowed view of a chain's innermost node, as returned by
/// [`Decay::root`].
#[derive(Clone, Debug)]
pub enum DecayRoot<'a, O> {
    /// The chain bottoms out in an internal annotation.
    Internal { note: &'a Note, place: &'a CodePlaceChain },
    /// The chain bottoms out in an externally defined failure.
    External { error: &'a O },
}

impl<O> Decay<O> {
    /// The chain's nodes from outermost to innermost: one per `Further`
    /// frame, ending with the terminal `Internal` or `External` node.
    pub open spec fn nodes(self) -> Seq<Decay<O>>
        decreases self,
    {
        match self {
            Decay::Further { error, .. } => seq![self] + error.nodes(),
            _ => seq![self],
        }
    }

    /// A borrowing cursor over the chain's nodes, outermost first.
    pub fn iter(&self) -> (r: DecayIter<'_, O>)
        ensures
            r@ == self.nodes(),
    {
        DecayIter(Some(self))
    }
}

/// A borrowing cursor over a chain, yielding each node from outermost to
/// innermost and stopping after the terminal `Internal` or `External` node.
pub struct DecayIter<'a, O>(Option<&'a Decay<O>>);

impl<'a, O> DecayIter<'a, O> {
    /// Yields the next node, or `None` once the chain is exhausted.
    pub fn next(&mut self) -> (r: Option<&'a Decay<O>>)
        ensures
            old(self)@.len() == 0 ==> r is None && final(self)@ == old(self)@,
            old(self)@.len() > 0 ==> (r matches Some(d) && *d == old(self)@[0] && final(self)@
                == old(self)@.drop_first()),
    {
        match self.0 {
            Some(current) => {
                match current {
                    Decay::Further { error, .. } => {
                        self.0 = Some(&**error);
                    },
                    _ => {
                        self.0 = None;
                    },
                }
                proof {
                    assert(final(self)@ =~= old(self)@.drop_first());
                }
                Some(current)
            },
            None => None,
        }
    }
}

impl<O> View for DecayIter<'_, O> {
    type V = Seq<Decay<O>>;

    closed spec fn view(&self) -> Seq<Decay<O>> {
        match self.0 {
            None => seq![],
            Some(d) => d.nodes(),
        }
    }
}

/// The conversion protocol: a value of some type lifts into a chain, and the
/// resolution path is decided at compile time by the number of conversion
/// hops `L`. A chain lifts to itself (zero hops), and any value convertible
/// into the failure type lifts to an `External` node (one hop); a chain is
/// thereby never wrapped inside another chain's `External` node.
pub trait IntoDecay<O, const L: usize>: Sized {
    /// Whether `decay_model` pins the result of `into_decay` exactly.
    spec fn decay_obeys() -> bool;

    /// The chain this value lifts to.
    spec fn decay_model(self) -> Decay<O>;

    /// Lifts the value into a chain.
    fn into_decay(self) -> (r: Decay<O>)
        ensures
            Self::decay_obeys() ==> r == self.decay_model(),
    ;
}

impl<O> IntoDecay<O, 0> for Decay<O> {
    /// A chain is already lifted.
    open spec fn decay_obeys() -> bool {
        true
    }

    open spec fn decay_model(self) -> Decay<O> {
        self
    }

    fn into_decay(self) -> (r: Decay<O>) {
        self
    }
}

impl<E: core::convert::Into<O>, O> IntoDecay<O, 1> for E {
    /// The lift is pinned exactly when the `Into` conversion to the failure
    /// type has an exact specification.
    open spec fn decay_obeys() -> bool {
        <E as vstd::std_specs::convert::IntoSpec<O>>::obeys_into_spec()
    }

    open spec fn decay_model(self) -> Decay<O> {
        Decay::External { error: <E as vstd::std_specs::convert::IntoSpec<O>>::into_spec(self) }
    }

    fn into_decay(self) -> (r: Decay<O>) {
        Decay::External { error: self.into() }
    }
}

impl<O> Decay<O> {
    /// A single-use transformation "lift, then annotate": the idiom for
    /// mapping a function's foreign failure into a chain at the boundary
    /// where it is first observed. The input may be a chain (used as it is),
    /// the failure type itself, or anything convertible into it.
    pub fn morph<E: IntoDecay<O, L>, const L: usize>(new_place: CodePlace, note: Note) -> (f: impl
        FnOnce(E) -> Decay<O>)
        ensures
            forall|e: E| #[trigger] f.requires((e,)),
            forall|e: E, r: Decay<O>|
                #[trigger] f.ensures((e,), r) ==> (E::decay_obeys() ==> r
                    == e.decay_model().further_model(new_place, note)),
    {
        (move |error: E| -> (r: Decay<O>)
            ensures
                E::decay_obeys() ==> r == error.decay_model().further_model(new_place, note),
            {
                error.into_decay().further(new_place, note)
            })
    }

    /// [`Decay::morph`] with an absent note.
    pub fn morph_unnoted<E: IntoDecay<O, L>, const L: usize>(new_place: CodePlace) -> (f: impl
        FnOnce(E) -> Decay<O>)
        ensures
            forall|e: E| #[trigger] f.requires((e,)),
            forall|e: E, r: Decay<O>|
                #[trigger] f.ensures((e,), r) ==> (E::decay_obeys() ==> r
                    == e.decay_model().further_model(new_place, absent_note())),
    {
        (move |error: E| -> (r: Decay<O>)
            ensures
                E::decay_obeys() ==> r == error.decay_model().further_model(
                    new_place,
                    absent_note(),
                ),
            {
                error.into_decay().further_unnoted(new_place)
            })
    }
}

/// A propagation step with a present note always wraps: whatever the chain's
/// variant, the result is a `Further` frame holding exactly the new place,
/// the frame count grows by exactly one, and the leaf is unchanged.
pub proof fn lemma_further_noted_wraps<O>(c: Decay<O>, p: CodePlace, n: Note)
    requires
        n@ is Some,
    ensures
        c.further_model(p, n) is Further,
        c.further_model(p, n).frames().len() == c.frames().len() + 1,
        c.further_model(p, n).frames()[0].note == n@,
        c.further_model(p, n).frames()[0].places == seq![p],
        c.further_model(p, n).leaf() == c.leaf(),
{
    assert(c.further_model(p, n).frames() =~= seq![FrameModel { note: n@, places: seq![p] }]
        + c.frames());
    assert((CodePlaceChain { head: p, tail: None }).places() =~= seq![p]);
}

/// A propagation step with an absent note never grows the frame count of an
/// annotated chain: it prepends the place to the outermost frame's trail and
/// leaves every other frame and the leaf unchanged. Only atop a bare
/// `External` node does it wrap, in an unnoted frame holding exactly the new
/// place.
pub proof fn lemma_further_unnoted_merges<O>(c: Decay<O>, p: CodePlace, n: Note)
    requires
        n@ is None,
    ensures
        c is External ==> ({
            &&& c.further_model(p, n) is Further
            &&& c.further_model(p, n).frames().len() == 1
            &&& c.further_model(p, n).frames()[0].note == n@
            &&& c.further_model(p, n).frames()[0].places == seq![p]
            &&& c.further_model(p, n).leaf() == c.leaf()
        }),
        !(c is External) ==> ({
            &&& c.frames().len() > 0
            &&& c.further_model(p, n).frames().len() == c.frames().len()
            &&& c.further_model(p, n).frames()[0].note == c.frames()[0].note
            &&& c.further_model(p, n).frames()[0].places == seq![p] + c.frames()[0].places
            &&& (forall|i: int|
                1 <= i < c.frames().len() ==> c.further_model(p, n).frames()[i] == c.frames()[i])
            &&& c.further_model(p, n).leaf() == c.leaf()
        }),
{
    match c {
        Decay::External { .. } => {
            assert(c.further_model(p, n).frames() =~= seq![FrameModel { note: n@, places: seq![p] }]);
            assert((CodePlaceChain { head: p, tail: None }).places() =~= seq![p]);
        },
        Decay::Internal { note, place } => {
            assert(place.prepend_model(p)@ =~= seq![p] + place@);
        },
        Decay::Further { note, place, error } => {
            assert(place.prepend_model(p)@ =~= seq![p] + place@);
            assert(c.further_model(p, n).frames() =~= seq![
                FrameModel { note: note@, places: seq![p] + place@ },
            ] + error.frames());
        },
    }
}

/// A chain that never lifted an external failure bottoms out in an internal
/// annotation: its root is the innermost frame, whose note and accumulated
/// place trail are exactly those of the last frame.
pub proof fn lemma_root_of_internal_chain<O>(c: Decay<O>)
    requires
        c.leaf() is None,
    ensures
        c.frames().len() > 0,
        c.root_node() matches Decay::Internal { note, place } && note@ == c.frames().last().note
            && place@ == c.frames().last().places,
    decreases c,
{
    match c {
        Decay::Internal { .. } => {},
        Decay::External { .. } => {},
        Decay::Further { note, place, error } => {
            lemma_root_of_internal_chain(*error);
            assert(c.frames() =~= seq![FrameModel { note: note@, places: place@ }]
                + error.frames());
            assert(c.frames().last() == error.frames().last());
        },
    }
}

/// A chain that lifted an external failure bottoms out in it: its root is the
/// `External` node holding exactly the leaf value.
pub proof fn lemma_root_of_external_chain<O>(c: Decay<O>)
    requires
        c.leaf() is Some,
    ensures
        c.root_node() matches Decay::External { error } && c.leaf() == Some(error),
    decreases c,
{
    match c {
        Decay::Further { error, .. } => {
            lemma_root_of_external_chain(*error);
        },
        _ => {},
    }
}

} // verus!
