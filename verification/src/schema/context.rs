//! The mistakes that an analysis has met so far.
use vstd::prelude::*;

verus! {

/// The kinds of mistake in the options of a declaration.
#[derive(Clone, Copy, Debug, PartialEq, Eq, Structural)]
pub enum ErrorKind {
    /// An option is set twice on one field or structure.
    Duplicate,
    /// An option that the analysis does not know.
    UnknownAttribute,
    /// A literal stands where an option was expected.
    UnexpectedLiteral,
    /// The value of an option is not a string.
    ExpectedString,
    /// An attribute is not a list of options.
    ExpectedList,
    /// An attribute could not be read at all.
    Syntax,
}

/// A mistake: what it is, in words, and where in the source it was met.
#[derive(Debug)]
pub struct Diagnostic {
    pub kind: ErrorKind,
    pub message: String,
    pub span: usize,
}

/// A mistake as the contracts speak of it.
pub struct DiagnosticView {
    pub kind: ErrorKind,
    pub message: Seq<char>,
    pub span: usize,
}

impl View for Diagnostic {
    type V = DiagnosticView;

    open spec fn view(&self) -> DiagnosticView {
        DiagnosticView { kind: self.kind, message: self.message@, span: self.span }
    }
}

/// The views of the mistakes, in order.
pub open spec fn diagnostic_views(errors: Seq<Diagnostic>) -> Seq<DiagnosticView> {
    Seq::new(errors.len(), |i: int| errors[i]@)
}

/// Gathers the mistakes of one analysis, in the order in which they are
/// met, so that all of them can be reported together.
pub struct Context {
    errs: Vec<Diagnostic>,
}

impl View for Context {
    type V = Seq<DiagnosticView>;

    closed spec fn view(&self) -> Seq<DiagnosticView> {
        diagnostic_views(self.errs@)
    }
}

impl Context {
    /// A context without mistakes.
    pub fn new() -> (ctx: Self)
        ensures
            ctx@ == Seq::<DiagnosticView>::empty(),
    {
        let ctx = Context { errs: Vec::new() };
        assert(ctx@ =~= Seq::<DiagnosticView>::empty());
        ctx
    }

    /// Adds a mistake of kind `kind` met at `span`.
    pub fn error_spanned_by(&mut self, span: usize, kind: ErrorKind, msg: String)
        ensures
            final(self)@ == old(self)@.push(DiagnosticView { kind, message: msg@, span }),
    {
        self.syn_error(Diagnostic { kind, message: msg, span });
    }

    /// Adds a mistake that was found while the source was read.
    pub fn syn_error(&mut self, err: Diagnostic)
        ensures
            final(self)@ == old(self)@.push(err@),
    {
        self.errs.push(err);
        assert(self@ =~= old(self)@.push(err@));
    }

    /// Ends the analysis: `Ok` if no mistake was met, else all of them in
    /// the order in which they were met.
    pub fn check(self) -> (outcome: Result<(), Vec<Diagnostic>>)
        ensures
            match outcome {
                Ok(_) => self@.len() == 0,
                Err(errors) => self@.len() > 0 && diagnostic_views(errors@) == self@,
            },
    {
        if self.errs.len() == 0 {
            Ok(())
        } else {
            Err(self.errs)
        }
    }
}

} // verus!
