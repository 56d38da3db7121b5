//! Redaction of text by sensitivity class.

use vstd::prelude::*;

use crate::classifier::DataClass;

verus! {

/// How redaction treats what it cannot pass on.
#[derive(Clone, Copy, Debug)]
pub struct RedactionProfile {
    /// Whether secret text is replaced rather than refused.
    pub fail_closed: bool,
}

/// Redacts a text of the given class. Secret text is replaced by
/// `[REDACTED]` under a fail-closed profile and refused with
/// `secret_requires_redaction` otherwise; any other text passes unchanged.
pub fn redact(text: &str, class: DataClass, profile: &RedactionProfile) -> (r: Result<
    String,
    String,
>)
    ensures
        match r {
            Ok(out) => if class == DataClass::Secret {
                profile.fail_closed && out@ == "[REDACTED]"@
            } else {
                out@ == text@
            },
            Err(reason) => class == DataClass::Secret && !profile.fail_closed && reason@
                == "secret_requires_redaction"@,
        },
{
    match class {
        DataClass::Secret => {
            if profile.fail_closed {
                Ok("[REDACTED]".to_owned())
            } else {
                Err("secret_requires_redaction".to_owned())
            }
        },
        _ => Ok(text.to_owned()),
    }
}

} // verus!
