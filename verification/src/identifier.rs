//! Validated C identifiers: non-empty, not starting with a digit, containing
//! only ASCII letters, digits and underscore.
use vstd::prelude::*;

verus! {

/// Errors that can occur when creating an identifier.
#[derive(Debug)]
pub enum Error {
    Empty,
    StartsWithDigit,
    InvalidCharacters,
}

/// Whether `c` is an ASCII digit.
pub open spec fn is_digit_char(c: char) -> bool {
    '0' <= c && c <= '9'
}

/// Whether `c` may occur in a C identifier: an ASCII letter, an ASCII digit
/// or an underscore.
pub open spec fn is_ident_char(c: char) -> bool {
    ('a' <= c && c <= 'z') || ('A' <= c && c <= 'Z') || is_digit_char(c) || c == '_'
}

/// Whether `s` is a syntactically legal C identifier.
pub open spec fn is_valid_identifier(s: Seq<char>) -> bool {
    &&& s.len() > 0
    &&& !is_digit_char(s[0])
    &&& forall|i: int| 0 <= i < s.len() ==> is_ident_char(#[trigger] s[i])
}

/// A validated C identifier.
#[derive(Clone)]
pub struct Identifier {
    name: String,
}

impl View for Identifier {
    type V = Seq<char>;

    closed spec fn view(&self) -> Seq<char> {
        self.name@
    }
}

impl Identifier {
    /// Whether the wrapped string passed validation; every constructed
    /// identifier satisfies it.
    pub closed spec fn well_formed(&self) -> bool {
        is_valid_identifier(self.name@)
    }

    /// Validates `value` as a C identifier. Succeeds exactly on non-empty
    /// strings that do not start with a digit and consist of ASCII letters,
    /// digits and underscore; each failure reports the first rule broken.
    pub fn new(value: &str) -> (r: Result<Identifier, Error>)
        ensures
            match r {
                Ok(id) => is_valid_identifier(value@) && id@ == value@ && id.well_formed(),
                Err(Error::Empty) => value@.len() == 0,
                Err(Error::StartsWithDigit) => value@.len() > 0 && is_digit_char(value@[0]),
                Err(Error::InvalidCharacters) => value@.len() > 0 && !is_digit_char(value@[0])
                    && exists|i: int|
                    0 <= i < value@.len() && !is_ident_char(value@[i]),
            },
    {
        let n = value.unicode_len();
        if n == 0 {
            return Err(Error::Empty);
        }
        let first = value.get_char(0);
        if '0' <= first && first <= '9' {
            return Err(Error::StartsWithDigit);
        }
        proof {
            assert(!is_digit_char(value@[0]));
        }
        let mut i: usize = 0;
        while i < n
            invariant
                0 <= i <= n,
                n == value@.len(),
                n > 0,
                !is_digit_char(value@[0]),
                forall|j: int| 0 <= j < i ==> is_ident_char(#[trigger] value@[j]),
            decreases n - i,
        {
            let c = value.get_char(i);
            let ok = ('a' <= c && c <= 'z') || ('A' <= c && c <= 'Z') || ('0' <= c && c <= '9')
                || c == '_';
            if !ok {
                proof {
                    assert(0 <= i < value@.len() && !is_ident_char(value@[i as int]));
                    assert(exists|j: int| 0 <= j < value@.len() && !is_ident_char(value@[j]));
                }
                return Err(Error::InvalidCharacters);
            }
            i = i + 1;
        }
        Ok(Identifier { name: String::from_str(value) })
    }

    /// The identifier's text as a string slice.
    pub fn as_str(&self) -> (r: &str)
        ensures
            r@ == self@,
    {
        self.name.as_str()
    }

    /// The identifier's text as an owned string.
    pub fn to_string(&self) -> (r: String)
        ensures
            r@ == self@,
    {
        self.name.clone()
    }
}

} // verus!
