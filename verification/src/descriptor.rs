//! The client-supplied job descriptor and its validation, which must happen
//! strictly before a subscription identifier is allocated.

use vstd::prelude::*;

verus! {

/// A request to start a job, exactly as the transport hands it over:
/// either field may be missing from the wire form, and the broker, not
/// the transport, decides whether the descriptor is acceptable.
pub struct JobDescriptor {
    /// The resource the job is to work on, e.g. a file name.
    pub file: Option<String>,
    /// Opaque structured configuration, passed through unexamined.
    pub opt: Option<serde_json::Value>,
}

impl JobDescriptor {
    /// A descriptor is well-formed when it names a non-empty resource
    /// and carries an options value.
    pub open spec fn spec_valid(self) -> bool {
        match self.file {
            Some(f) => f@.len() > 0 && self.opt is Some,
            None => false,
        }
    }

    /// Decides whether this descriptor may be admitted at all.
    pub fn is_valid(&self) -> (b: bool)
        ensures
            b == self.spec_valid(),
    {
        match &self.file {
            Some(f) => f.as_str().unicode_len() > 0 && self.opt.is_some(),
            None => false,
        }
    }
}

} // verus!
