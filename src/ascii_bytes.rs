//! Matching a byte string against a configured pair of true and false tokens.
use vstd::prelude::*;

use crate::ascii_byte::outcome;
use crate::error::ConvertError;

verus! {

/// Whether the two byte strings are equal, compared byte by byte.
pub fn bytes_equal(a: &[u8], b: &[u8]) -> (r: bool)
    ensures
        r == (a@ == b@),
{
    if a.len() != b.len() {
        return false;
    }
    let mut i: usize = 0;
    while i < a.len()
        invariant
            a@.len() == b@.len(),
            i <= a@.len(),
            forall|j: int| 0 <= j < i ==> a@[j] == b@[j],
        decreases a@.len() - i,
    {
        if a[i] != b[i] {
            return false;
        }
        i += 1;
    }
    assert(a@ =~= b@);
    true
}

/// Reading byte strings as booleans.
pub trait AsciiBytesToBool {
    /// Which boolean the token `input` stands for, if any.
    spec fn spec_classify(&self, input: Seq<u8>) -> Option<bool>;

    /// The boolean that `input` stands for, or `InvalidRepresentation`.
    fn convert(&self, input: &[u8]) -> (r: Result<bool, ConvertError>)
        ensures
            r == outcome(self.spec_classify(input@)),
    ;
}

/// A true token and a false token. The empty token serves as the false token of a
/// presence pair.
pub struct AsciiBytesToBoolPair {
    pub true_value: &'static [u8],
    pub false_value: &'static [u8],
}

impl Default for AsciiBytesToBoolPair {
    /// The pair `"true"` / `"false"`.
    fn default() -> (r: Self)
        ensures
            r.true_value@ == seq![116u8, 114, 117, 101],
            r.false_value@ == seq![102u8, 97, 108, 115, 101],
    {
        Self::new_true_false()
    }
}

impl AsciiBytesToBoolPair {
    /// The pair `"yes"` / `"no"`.
    pub fn new_yes_no() -> (r: Self)
        ensures
            r.true_value@ == seq![121u8, 101, 115],
            r.false_value@ == seq![110u8, 111],
    {
        Self { true_value: &[121, 101, 115], false_value: &[110, 111] }
    }

    /// The pair `"y"` / `"n"`.
    pub fn new_y_n() -> (r: Self)
        ensures
            r.true_value@ == seq![121u8],
            r.false_value@ == seq![110u8],
    {
        Self { true_value: &[121], false_value: &[110] }
    }

    /// The pair `"o"` / `"x"`.
    pub fn new_o_x() -> (r: Self)
        ensures
            r.true_value@ == seq![111u8],
            r.false_value@ == seq![120u8],
    {
        Self { true_value: &[111], false_value: &[120] }
    }

    /// The pair `"t"` / `"f"`.
    pub fn new_t_f() -> (r: Self)
        ensures
            r.true_value@ == seq![116u8],
            r.false_value@ == seq![102u8],
    {
        Self { true_value: &[116], false_value: &[102] }
    }

    /// The pair `"on"` / `"off"`.
    pub fn new_on_off() -> (r: Self)
        ensures
            r.true_value@ == seq![111u8, 110],
            r.false_value@ == seq![111u8, 102, 102],
    {
        Self { true_value: &[111, 110], false_value: &[111, 102, 102] }
    }

    /// The pair `"Yes"` / `"No"`.
    pub fn new_yes_no_capitalised() -> (r: Self)
        ensures
            r.true_value@ == seq![89u8, 101, 115],
            r.false_value@ == seq![78u8, 111],
    {
        Self { true_value: &[89, 101, 115], false_value: &[78, 111] }
    }

    /// The pair `"On"` / `"Off"`.
    pub fn new_on_off_capitalised() -> (r: Self)
        ensures
            r.true_value@ == seq![79u8, 110],
            r.false_value@ == seq![79u8, 102, 102],
    {
        Self { true_value: &[79, 110], false_value: &[79, 102, 102] }
    }

    /// The pair `"True"` / `"False"`.
    pub fn new_true_false_capitalised() -> (r: Self)
        ensures
            r.true_value@ == seq![84u8, 114, 117, 101],
            r.false_value@ == seq![70u8, 97, 108, 115, 101],
    {
        Self { true_value: &[84, 114, 117, 101], false_value: &[70, 97, 108, 115, 101] }
    }

    /// The pair `"true"` / `"false"`, the same as the default.
    pub fn new_true_false() -> (r: Self)
        ensures
            r.true_value@ == seq![116u8, 114, 117, 101],
            r.false_value@ == seq![102u8, 97, 108, 115, 101],
    {
        Self { true_value: &[116, 114, 117, 101], false_value: &[102, 97, 108, 115, 101] }
    }

    /// The pair of the two given tokens.
    pub fn new_custom(true_value: &'static [u8], false_value: &'static [u8]) -> (r: Self)
        ensures
            r.true_value@ == true_value@,
            r.false_value@ == false_value@,
    {
        Self { true_value, false_value }
    }

    /// A presence pair: `tv` reads as true, the empty token as false.
    pub fn new_from_true_value(tv: &'static [u8]) -> (r: Self)
        ensures
            r.true_value@ == tv@,
            r.false_value@ == Seq::<u8>::empty(),
    {
        Self { true_value: tv, false_value: &[] }
    }

    /// The presence pair of `"o"`.
    pub fn new_o() -> (r: Self)
        ensures
            r.true_value@ == seq![111u8],
            r.false_value@ == Seq::<u8>::empty(),
    {
        Self::new_from_true_value(&[111])
    }

    /// The presence pair of `"O"`.
    pub fn new_o_capital() -> (r: Self)
        ensures
            r.true_value@ == seq![79u8],
            r.false_value@ == Seq::<u8>::empty(),
    {
        Self::new_from_true_value(&[79])
    }

    /// The presence pair of `"x"`.
    pub fn new_x() -> (r: Self)
        ensures
            r.true_value@ == seq![120u8],
            r.false_value@ == Seq::<u8>::empty(),
    {
        Self::new_from_true_value(&[120])
    }

    /// The presence pair of `"X"`.
    pub fn new_x_capital() -> (r: Self)
        ensures
            r.true_value@ == seq![88u8],
            r.false_value@ == Seq::<u8>::empty(),
    {
        Self::new_from_true_value(&[88])
    }
}

impl AsciiBytesToBool for AsciiBytesToBoolPair {
    /// The true token reads as true; otherwise the false token as false.
    open spec fn spec_classify(&self, input: Seq<u8>) -> Option<bool> {
        if input == self.true_value@ {
            Some(true)
        } else if input == self.false_value@ {
            Some(false)
        } else {
            None
        }
    }

    fn convert(&self, input: &[u8]) -> (r: Result<bool, ConvertError>) {
        if bytes_equal(input, self.true_value) {
            Ok(true)
        } else if bytes_equal(input, self.false_value) {
            Ok(false)
        } else {
            Err(ConvertError::InvalidRepresentation)
        }
    }
}

/// The true token of a pair reads as true and, when the two differ, the false
/// token reads as false.
pub proof fn lemma_configured_tokens_convert(pair: AsciiBytesToBoolPair)
    requires
        pair.true_value@ != pair.false_value@,
    ensures
        outcome(pair.spec_classify(pair.true_value@)) == Ok::<bool, ConvertError>(true),
        outcome(pair.spec_classify(pair.false_value@)) == Ok::<bool, ConvertError>(false),
{
}

/// Every token other than the two configured ones is rejected.
pub proof fn lemma_other_tokens_rejected(pair: AsciiBytesToBoolPair, x: Seq<u8>)
    requires
        x != pair.true_value@,
        x != pair.false_value@,
    ensures
        outcome(pair.spec_classify(x)) == Err::<bool, ConvertError>(ConvertError::InvalidRepresentation),
{
}

/// A presence pair reads its token as true, the empty token as false, and rejects
/// every other token.
pub proof fn lemma_presence_tokens(pair: AsciiBytesToBoolPair, x: Seq<u8>)
    requires
        pair.false_value@ == Seq::<u8>::empty(),
        pair.true_value@.len() > 0,
    ensures
        outcome(pair.spec_classify(pair.true_value@)) == Ok::<bool, ConvertError>(true),
        outcome(pair.spec_classify(Seq::<u8>::empty())) == Ok::<bool, ConvertError>(false),
        x != pair.true_value@ && x.len() > 0 ==> outcome(pair.spec_classify(x)) == Err::<
            bool,
            ConvertError,
        >(ConvertError::InvalidRepresentation),
{
}

/// A token whose length differs from the lengths of both configured tokens is
/// rejected; so is the empty token when neither configured token is empty.
pub proof fn lemma_length_mismatch_rejected(pair: AsciiBytesToBoolPair, x: Seq<u8>)
    requires
        x.len() != pair.true_value@.len(),
        x.len() != pair.false_value@.len(),
    ensures
        outcome(pair.spec_classify(x)) == Err::<bool, ConvertError>(ConvertError::InvalidRepresentation),
        pair.true_value@.len() > 0 && pair.false_value@.len() > 0 ==> outcome(
            pair.spec_classify(Seq::<u8>::empty()),
        ) == Err::<bool, ConvertError>(ConvertError::InvalidRepresentation),
{
}

} // verus!
