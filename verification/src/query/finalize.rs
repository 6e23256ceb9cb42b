//! The last stage of a query: nothing is left but to take the text.
use vstd::prelude::*;

verus! {

/// A finished query.
pub struct Finalize(pub String);

/// A stage whose text is a query as it stands.
pub trait FinalizeTrait {
    /// The query text gathered so far.
    spec fn text(&self) -> Seq<char>;

    /// Ends the building of the query and returns its text. The stage is
    /// left as it was: asking again gives the same text.
    fn finalize(&self) -> (query: String)
        ensures
            query@ == self.text(),
    ;
}

impl FinalizeTrait for Finalize {
    open spec fn text(&self) -> Seq<char> {
        self.0@
    }

    fn finalize(&self) -> String {
        self.0.clone()
    }
}

/// Taking the text of a stage does not change the stage: whatever two
/// calls of `finalize` on one stage return, it is the same text.
pub proof fn lemma_finalize_is_idempotent<S: FinalizeTrait>(stage: S, first: String, second: String)
    requires
        first@ == stage.text(),
        second@ == stage.text(),
    ensures
        first@ == second@,
{
}

} // verus!
