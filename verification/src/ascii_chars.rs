//! The characters a drill can ask for: printable ASCII without the space.

use std::cmp::Ordering;
use vstd::prelude::*;

verus! {

/// Code of the first supported character, `!`.
pub const FIRST_CODE: u8 = 33;

/// Code of the last supported character, `~`.
pub const LAST_CODE: u8 = 126;

/// Number of supported characters.
pub const CHAR_COUNT: usize = 94;

/// Whether `code` is the code point of a supported character.
pub open spec fn is_supported_code(code: int) -> bool {
    FIRST_CODE <= code <= LAST_CODE
}

/// Why a character identity could not be built.
#[derive(Clone, Copy, Debug, PartialEq, Eq, Structural)]
pub enum CharError {
    /// The code point is not one of the supported printable characters.
    InvalidCharacter,
}

/// One of the 94 supported characters, ordered by code point.
#[derive(Clone, Copy, Debug, PartialEq, Eq, Ord, Hash, Structural)]
pub struct AsciiChars {
    code: u8,
}

impl View for AsciiChars {
    type V = u8;

    /// The character's code point.
    closed spec fn view(&self) -> u8 {
        self.code
    }
}

impl PartialOrd for AsciiChars {
    /// Characters are ordered by code point.
    fn partial_cmp(&self, other: &AsciiChars) -> (order: Option<Ordering>) {
        if self.code < other.code {
            Some(Ordering::Less)
        } else if self.code > other.code {
            Some(Ordering::Greater)
        } else {
            Some(Ordering::Equal)
        }
    }
}

impl vstd::std_specs::cmp::PartialOrdSpecImpl for AsciiChars {
    open spec fn obeys_partial_cmp_spec() -> bool {
        true
    }

    open spec fn partial_cmp_spec(&self, other: &AsciiChars) -> Option<Ordering> {
        if self@ < other@ {
            Some(Ordering::Less)
        } else if self@ > other@ {
            Some(Ordering::Greater)
        } else {
            Some(Ordering::Equal)
        }
    }
}

impl AsciiChars {
    /// Every value that executable code can hold is a supported character.
    #[verifier::type_invariant]
    pub open spec fn is_valid(self) -> bool {
        is_supported_code(self@ as int)
    }

    /// The identity of the character with code point `code`, if it is supported.
    pub fn from_code(code: u32) -> (r: Result<AsciiChars, CharError>)
        ensures
            is_supported_code(code as int) ==> r is Ok && r->Ok_0@ == code,
            !is_supported_code(code as int) ==> r == Err::<AsciiChars, CharError>(
                CharError::InvalidCharacter,
            ),
    {
        if FIRST_CODE as u32 <= code && code <= LAST_CODE as u32 {
            Ok(AsciiChars { code: code as u8 })
        } else {
            Err(CharError::InvalidCharacter)
        }
    }

    /// The identity of `c`, if it is supported.
    pub fn from_char(c: char) -> (r: Result<AsciiChars, CharError>)
        ensures
            is_supported_code(c as int) ==> r is Ok && r->Ok_0@ == c as u32,
            !is_supported_code(c as int) ==> r == Err::<AsciiChars, CharError>(
                CharError::InvalidCharacter,
            ),
    {
        AsciiChars::from_code(c as u32)
    }

    /// The character's code point.
    pub fn code(&self) -> (code: u8)
        ensures
            code == self@,
            is_supported_code(code as int),
    {
        proof {
            use_type_invariant(self);
        }
        self.code
    }

    /// The character itself.
    pub fn as_char(&self) -> (c: char)
        ensures
            c == self@ as char,
    {
        self.code as char
    }

    /// All supported characters, by rising code.
    pub fn list() -> (all: [AsciiChars; 94])
        ensures
            forall|i: int| 0 <= i < CHAR_COUNT ==> (#[trigger] all[i])@ == FIRST_CODE + i,
    {
        let mut all = [AsciiChars { code: FIRST_CODE }; 94];
        let mut i: usize = 0;
        while i < CHAR_COUNT
            invariant
                i <= CHAR_COUNT,
                forall|j: int| 0 <= j < i ==> (#[trigger] all[j])@ == FIRST_CODE + j,
            decreases CHAR_COUNT - i,
        {
            all[i] = AsciiChars { code: FIRST_CODE + i as u8 };
            i = i + 1;
        }
        all
    }
}

/// A character identity is its code point and nothing else: two identities
/// with the same code are the same.
pub proof fn lemma_code_determines_char(a: AsciiChars, b: AsciiChars)
    requires
        a@ == b@,
    ensures
        a == b,
{
}

} // verus!
