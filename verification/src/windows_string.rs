use vstd::prelude::*;
use widestring::U16Str;

verus! {

/// What decoding a sequence of UTF-16 code units lossily yields: the result
/// is a function of the unit values alone.
pub uninterp spec fn utf16_lossy(units: Seq<u16>) -> Seq<char>;

/// Relies on widestring's `U16Str::from_slice` and `U16Str::to_string_lossy`:
/// `from_slice` wraps the slice without copying, and `to_string_lossy`
/// decodes the units as UTF-16 with replacement of invalid sequences, a
/// function of the unit values alone; an empty slice decodes to the empty
/// string.
#[verifier::external_body]
pub(crate) fn u16_units_to_string_lossy(units: &[u16]) -> (r: String)
    ensures
        r@ == utf16_lossy(units@),
        units@.len() == 0 ==> r@.len() == 0,
{
    U16Str::from_slice(units).to_string_lossy()
}

/// Relies on `String::push`: appends exactly the given character.
#[verifier::external_body]
pub(crate) fn push_char(s: &mut String, c: char)
    ensures
        final(s)@ == old(s)@.push(c),
{
    s.push(c)
}

/// The units before the first NUL, or all of them when none is NUL: the part
/// of a NUL-terminated wide string that carries text.
pub open spec fn nul_terminated_prefix(units: Seq<u16>) -> Seq<u16>
    decreases units.len(),
{
    if units.len() == 0 {
        units
    } else if units[0] == 0 {
        Seq::empty()
    } else {
        seq![units[0]] + nul_terminated_prefix(units.skip(1))
    }
}

proof fn lemma_nul_terminated_prefix(units: Seq<u16>, i: int)
    requires
        0 <= i <= units.len(),
        forall|j: int| 0 <= j < i ==> units[j] != 0,
        i < units.len() ==> units[i] == 0,
    ensures
        nul_terminated_prefix(units) == units.subrange(0, i),
    decreases i,
{
    if units.len() == 0 {
        assert(units.subrange(0, i) =~= units);
    } else if i == 0 {
        assert(units[0] == 0 || units.len() == 0);
        assert(nul_terminated_prefix(units) =~= units.subrange(0, 0));
    } else {
        lemma_nul_terminated_prefix(units.skip(1), i - 1);
        assert(seq![units[0]] + units.skip(1).subrange(0, i - 1) =~= units.subrange(0, i));
    }
}

/// Decoding a value as text, the way wide strings coming back from the
/// journal device are decoded.
pub trait ToString {
    /// The text the value decodes to.
    spec fn to_string_spec(&self) -> Seq<char>;

    fn to_string(&self) -> (r: String)
        ensures
            r@ == self.to_string_spec(),
    ;
}

/// A NUL-terminated wide string held as its code units: the text is the
/// lossy UTF-16 decoding of the units before the first NUL.
impl ToString for Vec<u16> {
    open spec fn to_string_spec(&self) -> Seq<char> {
        utf16_lossy(nul_terminated_prefix(self@))
    }

    fn to_string(&self) -> (r: String) {
        let mut i: usize = 0;
        while i < self.len() && *vstd::slice::slice_index_get(self.as_slice(), i) != 0
            invariant
                0 <= i <= self@.len(),
                forall|j: int| 0 <= j < i ==> self@[j] != 0,
            decreases self@.len() - i,
        {
            i = i + 1;
        }
        proof {
            lemma_nul_terminated_prefix(self@, i as int);
        }
        let prefix = vstd::slice::slice_subrange(self.as_slice(), 0, i);
        u16_units_to_string_lossy(prefix)
    }
}

} // verus!
