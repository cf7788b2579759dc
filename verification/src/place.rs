//! Source positions and the per-frame trail of positions.
//!
//! A [`CodePlace`] is an immutable (file, line, column) triple identifying the
//! call site that recorded an annotation. A [`CodePlaceChain`] is a non-empty
//! singly-linked list of places, most recently recorded first; prepending is
//! O(1) and models "a more specific annotation location was recorded outward
//! of the existing ones".

use vstd::prelude::*;
use vstd::string::*;

verus! {

/// The decimal digit character for a value below ten.
pub open spec fn digit_char(d: nat) -> char {
    if d == 0 {
        '0'
    } else if d == 1 {
        '1'
    } else if d == 2 {
        '2'
    } else if d == 3 {
        '3'
    } else if d == 4 {
        '4'
    } else if d == 5 {
        '5'
    } else if d == 6 {
        '6'
    } else if d == 7 {
        '7'
    } else if d == 8 {
        '8'
    } else {
        '9'
    }
}

/// The usual decimal rendering of a natural number, without leading zeroes
/// (a single zero for the value zero).
pub open spec fn dec_digits(n: nat) -> Seq<char>
    decreases n,
{
    if n < 10 {
        seq![digit_char(n)]
    } else {
        dec_digits(n / 10).push(digit_char(n % 10))
    }
}

fn digit_str(d: u32) -> (r: &'static str)
    requires
        d < 10,
    ensures
        r@ == seq![digit_char(d as nat)],
{
    if d == 0 {
        proof {
            reveal_strlit("0");
            assert(("0")@ =~= seq![digit_char(0)]);
        }
        "0"
    } else if d == 1 {
        proof {
            reveal_strlit("1");
            assert(("1")@ =~= seq![digit_char(1)]);
        }
        "1"
    } else if d == 2 {
        proof {
            reveal_strlit("2");
            assert(("2")@ =~= seq![digit_char(2)]);
        }
        "2"
    } else if d == 3 {
        proof {
            reveal_strlit("3");
            assert(("3")@ =~= seq![digit_char(3)]);
        }
        "3"
    } else if d == 4 {
        proof {
            reveal_strlit("4");
            assert(("4")@ =~= seq![digit_char(4)]);
        }
        "4"
    } else if d == 5 {
        proof {
            reveal_strlit("5");
            assert(("5")@ =~= seq![digit_char(5)]);
        }
        "5"
    } else if d == 6 {
        proof {
            reveal_strlit("6");
            assert(("6")@ =~= seq![digit_char(6)]);
        }
        "6"
    } else if d == 7 {
        proof {
            reveal_strlit("7");
            assert(("7")@ =~= seq![digit_char(7)]);
        }
        "7"
    } else if d == 8 {
        proof {
            reveal_strlit("8");
            assert(("8")@ =~= seq![digit_char(8)]);
        }
        "8"
    } else {
        proof {
            reveal_strlit("9");
            assert(("9")@ =~= seq![digit_char(9)]);
        }
        "9"
    }
}

fn dec_string(n: u32) -> (r: String)
    ensures
        r@ == dec_digits(n as nat),
    decreases n,
{
    if n < 10 {
        String::from_str(digit_str(n))
    } else {
        proof {
            assert(n / 10 < n) by (nonlinear_arith)
                requires
                    n >= 10,
            ;
        }
        let mut s = dec_string(n / 10);
        s.append(digit_str(n % 10));
        proof {
            assert(s@ =~= dec_digits(n as nat));
        }
        s
    }
}

/// An immutable (file, line, column) triple identifying a source position.
/// Created once per call site, typically from the values the compiler makes
/// available there.
#[derive(Clone, Copy, PartialEq, Eq, Debug)]
pub struct CodePlace {
    pub file: &'static str,
    pub line: u32,
    pub column: u32,
}

impl CodePlace {
    pub fn new(file: &'static str, line: u32, column: u32) -> (r: Self)
        ensures
            r == (CodePlace { file, line, column }),
    {
        Self { file, line, column }
    }

    /// The textual form of a place: `file:line:column`.
    pub open spec fn rendered(self) -> Seq<char> {
        self.file@ + seq![':'] + dec_digits(self.line as nat) + seq![':'] + dec_digits(
            self.column as nat,
        )
    }

    /// Renders the place as `file:line:column`.
    pub fn render(&self) -> (r: String)
        ensures
            r@ == self.rendered(),
    {
        let mut s = String::from_str(self.file);
        proof {
            reveal_strlit(":");
            assert((":")@ =~= seq![':']);
        }
        s.append(":");
        let line_digits = dec_string(self.line);
        s.append(line_digits.as_str());
        s.append(":");
        let column_digits = dec_string(self.column);
        s.append(column_digits.as_str());
        proof {
            assert(s@ =~= self.rendered());
        }
        s
    }
}

/// A non-empty, ordered trail of places, most recently recorded first.
/// Each node exclusively owns its tail.
#[derive(Debug)]
pub struct CodePlaceChain {
    pub head: CodePlace,
    pub tail: Option<Box<CodePlaceChain>>,
}

impl Clone for CodePlaceChain {
    /// A clone of a chain is equal to it, node for node.
    fn clone(&self) -> (res: Self)
        ensures
            res == *self,
        decreases self,
    {
        CodePlaceChain {
            head: self.head,
            tail: (match &self.tail {
                Some(t) => Some(Box::new((&**t).clone())),
                None => None,
            }),
        }
    }
}

impl CodePlaceChain {
    /// The places of the chain in order, most recently prepended first.
    pub open spec fn places(self) -> Seq<CodePlace>
        decreases self,
    {
        match self.tail {
            None => seq![self.head],
            Some(t) => seq![self.head] + t.places(),
        }
    }

    /// The chain that `prepend` returns: one more node in front.
    pub open spec fn prepend_model(self, place: CodePlace) -> CodePlaceChain {
        CodePlaceChain { head: place, tail: Some(Box::new(self)) }
    }

    /// Returns a new chain with `place` in front of all places of `self`.
    pub fn prepend(self, place: CodePlace) -> (r: Self)
        ensures
            r == self.prepend_model(place),
            r@ == seq![place] + self@,
    {
        Self { head: place, tail: Some(Box::new(self)) }
    }

    /// Prepends `place` in place: afterwards the chain holds `place` in front
    /// of all places it held before.
    pub fn prepend_mut(&mut self, place: CodePlace)
        ensures
            *final(self) == (*old(self)).prepend_model(place),
            final(self)@ == seq![place] + old(self)@,
    {
        let mut node = Self { head: place, tail: None };
        core::mem::swap(self, &mut node);
        self.tail = Some(Box::new(node));
    }

    /// A borrowing cursor over the places, front (most recent) first.
    pub fn iter(&self) -> (r: CodePlaceChainIter<'_>)
        ensures
            r@ == self@,
    {
        CodePlaceChainIter(Some(self))
    }

    /// The places joined by `, `, each rendered as `file:line:column`.
    pub open spec fn joined(self) -> Seq<char>
        decreases self,
    {
        match self.tail {
            None => self.head.rendered(),
            Some(t) => self.head.rendered() + seq![',', ' '] + t.joined(),
        }
    }

    /// The textual form of the whole chain: the joined places in brackets.
    pub open spec fn rendered(self) -> Seq<char> {
        seq!['['] + self.joined() + seq![']']
    }

    fn render_items(&self) -> (r: String)
        ensures
            r@ == self.joined(),
        decreases self,
    {
        let mut s = self.head.render();
        match &self.tail {
            None => s,
            Some(t) => {
                proof {
                    reveal_strlit(", ");
                    assert((", ")@ =~= seq![',', ' ']);
                }
                s.append(", ");
                let rest = t.render_items();
                s.append(rest.as_str());
                proof {
                    assert(s@ =~= self.joined());
                }
                s
            },
        }
    }

    /// Renders the chain as `[file:line:column, ...]`, most recent place first.
    pub fn render(&self) -> (r: String)
        ensures
            r@ == self.rendered(),
    {
        proof {
            reveal_strlit("[");
            reveal_strlit("]");
            assert(("[")@ =~= seq!['[']);
            assert(("]")@ =~= seq![']']);
        }
        let mut s = String::from_str("[");
        let items = self.render_items();
        s.append(items.as_str());
        s.append("]");
        proof {
            assert(s@ =~= self.rendered());
        }
        s
    }
}

impl View for CodePlaceChain {
    type V = Seq<CodePlace>;

    open spec fn view(&self) -> Seq<CodePlace> {
        self.places()
    }
}

impl From<CodePlace> for CodePlaceChain {
    /// A chain of exactly the one given place.
    fn from(src: CodePlace) -> (r: Self) {
        Self { head: src, tail: None }
    }
}

impl vstd::std_specs::convert::FromSpecImpl<CodePlace> for CodePlaceChain {
    open spec fn obeys_from_spec() -> bool {
        true
    }

    open spec fn from_spec(src: CodePlace) -> Self {
        CodePlaceChain { head: src, tail: None }
    }
}

/// A borrowing cursor over a [`CodePlaceChain`], yielding the places front
/// (most recently prepended) first.
pub struct CodePlaceChainIter<'a>(Option<&'a CodePlaceChain>);

impl<'a> CodePlaceChainIter<'a> {
    /// Yields the next place, or `None` once the chain is exhausted.
    pub fn next(&mut self) -> (r: Option<&'a CodePlace>)
        ensures
            old(self)@.len() == 0 ==> r is None && final(self)@ == old(self)@,
            old(self)@.len() > 0 ==> (r matches Some(p) && *p == old(self)@[0] && final(self)@
                == old(self)@.drop_first()),
    {
        match self.0 {
            None => None,
            Some(entry) => {
                let current = &entry.head;
                self.0 = match &entry.tail {
                    None => None,
                    Some(t) => Some(&**t),
                };
                proof {
                    assert(final(self)@ =~= old(self)@.drop_first());
                }
                Some(current)
            },
        }
    }
}

impl View for CodePlaceChainIter<'_> {
    type V = Seq<CodePlace>;

    closed spec fn view(&self) -> Seq<CodePlace> {
        match self.0 {
            None => seq![],
            Some(c) => c.places(),
        }
    }
}

} // verus!
