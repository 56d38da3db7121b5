//! Sensitivity classes of text, by marker.

use vstd::prelude::*;

use crate::text::{occurs_in, str_contains};

verus! {

/// How sensitive a piece of text is.
#[derive(Clone, Copy, Debug, PartialEq, Eq, Structural)]
pub enum DataClass {
    Public,
    Sensitive,
    Secret,
}

/// The class of a text: `Secret` if it holds the marker `SECRET`, else
/// `Sensitive` if it holds the marker `SENSITIVE`, else `Public`.
pub open spec fn class_of(text: Seq<char>) -> DataClass {
    if occurs_in("SECRET"@, text) {
        DataClass::Secret
    } else if occurs_in("SENSITIVE"@, text) {
        DataClass::Sensitive
    } else {
        DataClass::Public
    }
}

/// Classifies a text by the markers it holds.
pub fn classify(text: &str) -> (class: DataClass)
    ensures
        class == class_of(text@),
{
    if str_contains(text, "SECRET") {
        DataClass::Secret
    } else if str_contains(text, "SENSITIVE") {
        DataClass::Sensitive
    } else {
        DataClass::Public
    }
}

} // verus!
