//! Optional, non-empty text labels attached to annotation frames.
//!
//! A [`Note`] either holds a present, non-empty text or is absent. Every
//! constructor funnels through the same normalization: empty text becomes the
//! absent state, so an absent note has exactly one representation.

use vstd::prelude::*;
use vstd::string::*;

verus! {

/// The normalization every note constructor applies: empty text is absent.
pub open spec fn normalized(text: Seq<char>) -> Option<Seq<char>> {
    if text.len() == 0 {
        None
    } else {
        Some(text)
    }
}

/// Turns text into its normalized optional form: `None` for the empty string,
/// the text itself otherwise.
pub fn opt_text(val: String) -> (r: Option<String>)
    ensures
        r == (if val@.len() == 0 {
            Option::<String>::None
        } else {
            Option::<String>::Some(val)
        }),
{
    if val.as_str().is_empty() {
        None
    } else {
        Some(val)
    }
}

/// The absent note as a specification-level value. Every absent note equals
/// this one (see [`lemma_absent_notes_equal`]).
pub closed spec fn absent_note() -> Note {
    Note(None)
}

/// The absent note's view is absent.
pub proof fn lemma_absent_note()
    ensures
        absent_note()@ is None,
{
}

/// An optional text label. Its view is `None` when the note is absent and
/// `Some` of the text's characters when present; a present note is never
/// empty.
#[derive(PartialEq, Eq, Debug)]
pub struct Note(Option<String>);

impl View for Note {
    type V = Option<Seq<char>>;

    closed spec fn view(&self) -> Option<Seq<char>> {
        match self.0 {
            None => None,
            Some(t) => Some(t@),
        }
    }
}

impl Note {
    /// A present note holds non-empty text; constructors normalize the empty
    /// string away.
    pub open spec fn wf(self) -> bool {
        self@ matches Some(t) ==> t.len() > 0
    }

    /// The absent note.
    pub fn none() -> (r: Note)
        ensures
            r == absent_note(),
            r@ is None,
    {
        Note(None)
    }

    /// A note from borrowed text; empty text yields the absent note.
    pub fn from_text(text: &str) -> (r: Note)
        ensures
            r@ == normalized(text@),
            r.wf(),
    {
        if text.is_empty() {
            Note(None)
        } else {
            Note(Some(String::from_str(text)))
        }
    }

    /// A note from owned text; empty text yields the absent note.
    pub fn from_string(text: String) -> (r: Note)
        ensures
            r@ == normalized(text@),
            r.wf(),
    {
        Note(opt_text(text))
    }

    /// A note from already-optional text; an absent input or empty text
    /// yields the absent note.
    pub fn from_opt(text: Option<String>) -> (r: Note)
        ensures
            r@ == (match text {
                None => None,
                Some(t) => normalized(t@),
            }),
            r.wf(),
    {
        match text {
            None => Note(None),
            Some(t) => Note(opt_text(t)),
        }
    }

    /// True exactly when the note is absent.
    pub fn is_none(&self) -> (r: bool)
        ensures
            r == (self@ is None),
    {
        self.0.is_none()
    }

    /// The note's text, when present.
    pub fn text(&self) -> (r: Option<&str>)
        ensures
            self@ is None ==> r is None,
            self@ matches Some(t) ==> r matches Some(s) && s@ == t,
    {
        match &self.0 {
            None => None,
            Some(s) => Some(s.as_str()),
        }
    }
}

impl Clone for Note {
    /// A clone of a note is equal to it.
    fn clone(&self) -> (res: Self)
        ensures
            res == *self,
    {
        let r = Note(self.0.clone());
        proof {
            assert(r == *self);
        }
        r
    }
}

/// Absence is canonical: a note constructed from the empty string, from
/// absent optional text, or as the plain absent note is one and the same
/// value, so any two absent notes are equal.
pub proof fn lemma_absent_notes_equal(a: Note, b: Note)
    requires
        a@ is None,
        b@ is None,
    ensures
        a == b,
{
    assert(a.0 is None);
    assert(b.0 is None);
}

} // verus!
