//! Matching a single byte against a configured pair of true and false bytes.
use vstd::prelude::*;

use crate::ascii::{
    ascii_lower, ascii_upper, is_ascii_upper, char_byte, narrow_char, to_ascii_lower, to_ascii_upper,
};
use crate::error::ConvertError;

verus! {

/// The characters that `c` maps to under Unicode lowercasing.
pub uninterp spec fn char_lowercase(c: char) -> Seq<char>;

/// Relies on `char::to_lowercase`: the Unicode lowercase mapping of `c`, which
/// depends on `c` alone.
#[verifier::external_body]
fn lowercase_chars(c: char) -> (r: Vec<char>)
    ensures
        r@ == char_lowercase(c),
{
    c.to_lowercase().collect()
}

/// The result of a lookup that found `found`: `Some(b)` when the token stands for `b`.
pub open spec fn outcome(found: Option<bool>) -> Result<bool, ConvertError> {
    match found {
        Some(b) => Ok(b),
        None => Err(ConvertError::InvalidRepresentation),
    }
}

/// The result of reading the character `c` with the byte lookup `classify`: the
/// byte it narrows to is looked up, and a character above 255 is an error that names it.
pub open spec fn char_outcome(classify: spec_fn(u8) -> Option<bool>, c: char) -> Result<
    bool,
    ConvertError,
> {
    match char_byte(c) {
        Some(b) => outcome(classify(b)),
        None => Err(ConvertError::InvalidChar(c)),
    }
}

/// Reading single bytes, and characters narrowed to bytes, as booleans.
pub trait AsciiByteToBool {
    /// Which boolean `input` stands for, if any.
    spec fn spec_classify(&self, input: u8) -> Option<bool>;

    /// The boolean that `input` stands for, or `InvalidRepresentation`.
    fn convert(&self, input: u8) -> (r: Result<bool, ConvertError>)
        ensures
            r == outcome(self.spec_classify(input)),
    ;

    /// The error for a character that does not fit in a byte.
    fn invalid_char2error(invalid_char: char) -> (e: ConvertError)
        ensures
            e == ConvertError::InvalidChar(invalid_char),
    ;

    /// `convert` on the ASCII lowercase of `input`.
    fn convert_lower(&self, input: u8) -> (r: Result<bool, ConvertError>)
        ensures
            r == outcome(self.spec_classify(ascii_lower(input))),
    {
        self.convert(to_ascii_lower(input))
    }

    /// `convert` on the byte that `input` narrows to; a character above 255 is
    /// reported with `invalid_char2error`.
    fn convert_ascii_char(&self, input: char) -> (r: Result<bool, ConvertError>)
        ensures
            r == char_outcome(|b: u8| self.spec_classify(b), input),
    {
        match narrow_char(input) {
            Some(u) => self.convert(u),
            None => Err(Self::invalid_char2error(input)),
        }
    }

    /// `convert_ascii_char` on `input` once lowercased to `lowered`: a lowercase
    /// mapping of more than one character cannot be a byte and is reported for `input`.
    fn convert_lowered_char(&self, input: char, lowered: &[char]) -> (r: Result<bool, ConvertError>)
        ensures
            r == if lowered@.len() == 1 {
                char_outcome(|b: u8| self.spec_classify(b), lowered@[0])
            } else {
                Err(ConvertError::InvalidChar(input))
            },
    {
        if lowered.len() == 1 {
            self.convert_ascii_char(lowered[0])
        } else {
            Err(Self::invalid_char2error(input))
        }
    }

    /// `convert_ascii_char` on the Unicode lowercase of `input`.
    fn convert_ascii_char_lower(&self, input: char) -> (r: Result<bool, ConvertError>)
        ensures
            r == if char_lowercase(input).len() == 1 {
                char_outcome(|b: u8| self.spec_classify(b), char_lowercase(input)[0])
            } else {
                Err(ConvertError::InvalidChar(input))
            },
    {
        let lowered = lowercase_chars(input);
        self.convert_lowered_char(input, lowered.as_slice())
    }
}

/// A true byte and a false byte. The two may be equal; that byte then reads as true.
#[derive(Debug, Clone, Copy, PartialEq, Eq, Structural)]
pub struct AsciiByteToBoolPair {
    pub true_value: u8,
    pub false_value: u8,
}

impl Default for AsciiByteToBoolPair {
    /// The pair `'1'` / `'0'`.
    fn default() -> (r: Self)
        ensures
            r == (AsciiByteToBoolPair { true_value: 49, false_value: 48 }),
    {
        AsciiByteToBoolPair { true_value: 49, false_value: 48 }  // '1', '0'
    }
}

impl AsciiByteToBoolPair {
    /// The pair `'y'` / `'n'`.
    pub fn new_yn() -> (r: Self)
        ensures
            r == (AsciiByteToBoolPair { true_value: 121, false_value: 110 }),
    {
        Self { true_value: 121, false_value: 110 }  // 'y', 'n'
    }

    /// The pair `'t'` / `'f'`.
    pub fn new_tf() -> (r: Self)
        ensures
            r == (AsciiByteToBoolPair { true_value: 116, false_value: 102 }),
    {
        Self { true_value: 116, false_value: 102 }  // 't', 'f'
    }

    /// The pair `'o'` / `'x'`.
    pub fn new_ox() -> (r: Self)
        ensures
            r == (AsciiByteToBoolPair { true_value: 111, false_value: 120 }),
    {
        Self { true_value: 111, false_value: 120 }  // 'o', 'x'
    }

    /// The pair of the two given bytes.
    pub fn new_custom(true_value: u8, false_value: u8) -> (r: Self)
        ensures
            r == (AsciiByteToBoolPair { true_value, false_value }),
    {
        Self { true_value, false_value }
    }

    /// A presence pair: `true_value` reads as true, the byte 0 as false.
    pub fn new_from_true_value(true_value: u8) -> (r: Self)
        ensures
            r == (AsciiByteToBoolPair { true_value, false_value: 0 }),
    {
        Self { true_value, false_value: 0 }
    }

    /// The presence pair of `'o'`.
    pub fn new_o() -> (r: Self)
        ensures
            r == (AsciiByteToBoolPair { true_value: 111, false_value: 0 }),
    {
        Self::new_from_true_value(111)
    }

    /// The presence pair of `'O'`.
    pub fn new_o_capital() -> (r: Self)
        ensures
            r == (AsciiByteToBoolPair { true_value: 79, false_value: 0 }),
    {
        Self::new_from_true_value(79)
    }

    /// The presence pair of `'x'`.
    pub fn new_x() -> (r: Self)
        ensures
            r == (AsciiByteToBoolPair { true_value: 120, false_value: 0 }),
    {
        Self::new_from_true_value(120)
    }

    /// The presence pair of `'X'`.
    pub fn new_x_capital() -> (r: Self)
        ensures
            r == (AsciiByteToBoolPair { true_value: 88, false_value: 0 }),
    {
        Self::new_from_true_value(88)
    }

    /// Both bytes in ASCII lowercase.
    pub open spec fn spec_into_lower(self) -> Self {
        AsciiByteToBoolPair {
            true_value: ascii_lower(self.true_value),
            false_value: ascii_lower(self.false_value),
        }
    }

    /// Both bytes in ASCII uppercase.
    pub open spec fn spec_into_upper(self) -> Self {
        AsciiByteToBoolPair {
            true_value: ascii_upper(self.true_value),
            false_value: ascii_upper(self.false_value),
        }
    }

    /// The pair with both bytes in ASCII lowercase.
    pub fn into_lower(self) -> (r: Self)
        ensures
            r == self.spec_into_lower(),
    {
        Self {
            true_value: to_ascii_lower(self.true_value),
            false_value: to_ascii_lower(self.false_value),
        }
    }

    /// The pair with both bytes in ASCII uppercase.
    pub fn into_upper(self) -> (r: Self)
        ensures
            r == self.spec_into_upper(),
    {
        Self {
            true_value: to_ascii_upper(self.true_value),
            false_value: to_ascii_upper(self.false_value),
        }
    }
}

impl AsciiByteToBool for AsciiByteToBoolPair {
    /// The true byte reads as true; otherwise the false byte as false.
    open spec fn spec_classify(&self, input: u8) -> Option<bool> {
        if input == self.true_value {
            Some(true)
        } else if input == self.false_value {
            Some(false)
        } else {
            None
        }
    }

    fn invalid_char2error(invalid_char: char) -> (e: ConvertError) {
        ConvertError::InvalidChar(invalid_char)
    }

    fn convert(&self, input: u8) -> (r: Result<bool, ConvertError>) {
        if input == self.true_value {
            Ok(true)
        } else if input == self.false_value {
            Ok(false)
        } else {
            Err(ConvertError::InvalidRepresentation)
        }
    }
}

/// The true byte of a pair reads as true and, when the two differ, the false byte
/// reads as false.
pub proof fn lemma_configured_bytes_convert(pair: AsciiByteToBoolPair)
    requires
        pair.true_value != pair.false_value,
    ensures
        outcome(pair.spec_classify(pair.true_value)) == Ok::<bool, ConvertError>(true),
        outcome(pair.spec_classify(pair.false_value)) == Ok::<bool, ConvertError>(false),
{
}

/// Every byte other than the two configured ones is rejected.
pub proof fn lemma_other_bytes_rejected(pair: AsciiByteToBoolPair, x: u8)
    requires
        x != pair.true_value,
        x != pair.false_value,
    ensures
        outcome(pair.spec_classify(x)) == Err::<bool, ConvertError>(ConvertError::InvalidRepresentation),
{
}

/// A presence pair reads its byte as true, the byte 0 as false, and rejects every
/// other byte, including the same letter in the other case.
pub proof fn lemma_presence_pair(pair: AsciiByteToBoolPair, x: u8)
    requires
        pair.false_value == 0,
        pair.true_value != 0,
    ensures
        outcome(pair.spec_classify(pair.true_value)) == Ok::<bool, ConvertError>(true),
        outcome(pair.spec_classify(0)) == Ok::<bool, ConvertError>(false),
        x != pair.true_value && x != 0 ==> outcome(pair.spec_classify(x)) == Err::<
            bool,
            ConvertError,
        >(ConvertError::InvalidRepresentation),
{
}

/// Folding a pair's case folds each byte, folding twice is folding once, and the
/// last fold decides the result.
pub proof fn lemma_case_folding(pair: AsciiByteToBoolPair)
    ensures
        pair.spec_into_lower().true_value == ascii_lower(pair.true_value),
        pair.spec_into_lower().false_value == ascii_lower(pair.false_value),
        pair.spec_into_upper().true_value == ascii_upper(pair.true_value),
        pair.spec_into_upper().false_value == ascii_upper(pair.false_value),
        pair.spec_into_lower().spec_into_lower() == pair.spec_into_lower(),
        pair.spec_into_upper().spec_into_upper() == pair.spec_into_upper(),
        pair.spec_into_upper().spec_into_lower() == pair.spec_into_lower(),
        pair.spec_into_lower().spec_into_upper() == pair.spec_into_upper(),
{
}

/// For a pair without uppercase letters, `convert_lower` of an uppercase letter is
/// `convert` of its lowercase, while `convert` of the letter itself fails.
pub proof fn lemma_convert_lower_of_uppercase(pair: AsciiByteToBoolPair, x: u8)
    requires
        is_ascii_upper(x),
        !is_ascii_upper(pair.true_value),
        !is_ascii_upper(pair.false_value),
    ensures
        outcome(pair.spec_classify(ascii_lower(x))) == (if ascii_lower(x) == pair.true_value {
            Ok::<bool, ConvertError>(true)
        } else if ascii_lower(x) == pair.false_value {
            Ok(false)
        } else {
            Err(ConvertError::InvalidRepresentation)
        }),
        outcome(pair.spec_classify(x)) == Err::<bool, ConvertError>(ConvertError::InvalidRepresentation),
{
}

/// A character above 255 is rejected whatever the configuration, with an error
/// that names it.
pub proof fn lemma_wide_char_rejected<T: AsciiByteToBool + ?Sized>(m: &T, c: char)
    requires
        (c as u32) > 255,
    ensures
        char_outcome(|b: u8| m.spec_classify(b), c) == Err::<bool, ConvertError>(ConvertError::InvalidChar(c)),
{
}

} // verus!
