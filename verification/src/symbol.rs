//! Symbols: the short labels under which an item is listed.

use vstd::prelude::*;
use vstd::std_specs::cmp::PartialEqSpecImpl;
use vstd::string::*;

verus! {

/// The greatest number of characters that a symbol may have.
pub const MAX_SYMBOL_LEN: usize = 32;

/// Whether a character may occur in a symbol: a letter of the Latin
/// alphabet, a decimal digit or an underscore.
pub open spec fn is_symbol_char(c: char) -> bool {
    ||| 'a' <= c <= 'z'
    ||| 'A' <= c <= 'Z'
    ||| '0' <= c <= '9'
    ||| c == '_'
}

/// Whether a text can be the text of a symbol: at most `MAX_SYMBOL_LEN`
/// characters, each of them a symbol character.
pub open spec fn is_symbol_text(text: Seq<char>) -> bool {
    &&& text.len() <= MAX_SYMBOL_LEN
    &&& forall|i: int| 0 <= i < text.len() ==> is_symbol_char(#[trigger] text[i])
}

/// A short label made of letters, digits and underscores.
#[derive(Debug)]
pub struct Symbol {
    text: String,
}

impl View for Symbol {
    type V = Seq<char>;

    closed spec fn view(&self) -> Seq<char> {
        self.text@
    }
}

fn symbol_char(c: char) -> (ok: bool)
    ensures
        ok == is_symbol_char(c),
{
    ('a' <= c && c <= 'z') || ('A' <= c && c <= 'Z') || ('0' <= c && c <= '9') || c == '_'
}

impl Symbol {
    #[verifier::type_invariant]
    spec fn well_formed(self) -> bool {
        is_symbol_text(self.text@)
    }

    /// The symbol with the given text, if that text can be a symbol's.
    pub fn new(text: &str) -> (symbol: Option<Symbol>)
        ensures
            symbol is Some <==> is_symbol_text(text@),
            symbol matches Some(s) ==> s@ == text@,
    {
        let len: usize = text.unicode_len();
        if len > MAX_SYMBOL_LEN {
            return None;
        }
        let mut i: usize = 0;
        while i < len
            invariant
                len == text@.len(),
                i <= len,
                forall|j: int| 0 <= j < i ==> is_symbol_char(#[trigger] text@[j]),
            decreases len - i,
        {
            if !symbol_char(text.get_char(i)) {
                return None;
            }
            i += 1;
        }
        Some(Symbol { text: text.to_owned() })
    }

    /// The text of the symbol, which is always a symbol text.
    pub fn as_str(&self) -> (text: &str)
        ensures
            text@ == self@,
            is_symbol_text(text@),
    {
        proof {
            use_type_invariant(self);
        }
        self.text.as_str()
    }
}

impl Clone for Symbol {
    fn clone(&self) -> (copy: Self)
        ensures
            copy == *self,
    {
        proof {
            use_type_invariant(self);
        }
        Symbol { text: self.text.clone() }
    }
}

impl PartialEq for Symbol {
    fn eq(&self, other: &Self) -> (same: bool) {
        self.text == other.text
    }
}

impl PartialEqSpecImpl for Symbol {
    open spec fn obeys_eq_spec() -> bool {
        true
    }

    open spec fn eq_spec(&self, other: &Self) -> bool {
        self@ == other@
    }
}

impl Eq for Symbol {

}

} // verus!
