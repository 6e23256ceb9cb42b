//! A query that is ready to be handed to whatever runs it.
use vstd::prelude::*;

verus! {

/// A query ready to be run.
pub struct Execute(pub String);

/// A stage that can hand out the text to run.
pub trait ExecuteTrait {
    /// The query text that is handed out.
    spec fn query(&self) -> Seq<char>;

    /// Returns the text to run; the stage is left as it was.
    fn execute(&self) -> (query: String)
        ensures
            query@ == self.query(),
    ;
}

impl ExecuteTrait for Execute {
    open spec fn query(&self) -> Seq<char> {
        self.0@
    }

    fn execute(&self) -> String {
        self.0.clone()
    }
}

} // verus!
