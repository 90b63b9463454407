use vstd::prelude::*;

verus! {

/// The error kinds of the library. Every failure is a deterministic
/// function of the input value alone:
/// * `JamoNotFound` - a character expected to act as a lead, vowel or tail
///   jamo does not classify as one.
/// * `NotASyllable` - a composed syllable was required but the code point
///   is outside `0xAC00..=0xD7A3`.
/// * `Uncomposable` - the parts handed to composition do not form a legal
///   syllable.
#[derive(Debug, PartialEq, Eq, Structural, Clone, Copy)]
pub enum HangeulError {
    JamoNotFound,
    NotASyllable,
    Uncomposable,
}

impl HangeulError {
    /// A short description of the error, one fixed text per kind.
    pub fn description(&self) -> (r: &'static str)
        ensures
            *self == HangeulError::JamoNotFound ==> r@ == "HangeulError: Jamo not found"@,
            *self == HangeulError::NotASyllable ==> r@ == "HangeulError: Not a correct Hangeul syllable"@,
            *self == HangeulError::Uncomposable ==> r@ == "HangeulError: Uncomposable"@,
    {
        match *self {
            HangeulError::JamoNotFound => "HangeulError: Jamo not found",
            HangeulError::NotASyllable => "HangeulError: Not a correct Hangeul syllable",
            HangeulError::Uncomposable => "HangeulError: Uncomposable",
        }
    }
}

} // verus!
