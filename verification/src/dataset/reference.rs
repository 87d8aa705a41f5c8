//! The reference that a caller gives for a revision of the dataset.

use vstd::prelude::*;

verus! {

broadcast use vstd::string::group_string_axioms;

/// A tag, a branch or something like a commit, as the caller wrote it. What
/// it stands for is for the remote repository to say; here it is only known
/// not to be empty.
#[derive(Debug, PartialEq, Eq)]
pub struct RevisionReference {
    text: String,
}

impl View for RevisionReference {
    type V = Seq<char>;

    closed spec fn view(&self) -> Seq<char> {
        self.text@
    }
}

impl RevisionReference {
    #[verifier::type_invariant]
    spec fn is_given(self) -> bool {
        self.text@.len() > 0
    }

    /// The reference that `text` writes; none where `text` is empty.
    pub fn new(text: &str) -> (out: Option<Self>)
        ensures
            out is Some <==> text@.len() > 0,
            out matches Some(reference) ==> reference@ == text@,
    {
        let owned = text.to_string();
        if owned.as_str().is_empty() {
            None
        } else {
            Some(RevisionReference { text: owned })
        }
    }

    /// The reference as it was written.
    pub fn as_str(&self) -> (out: &str)
        ensures
            out@ == self@,
            out@.len() > 0,
    {
        proof {
            use_type_invariant(self);
        }
        self.text.as_str()
    }
}

} // verus!
