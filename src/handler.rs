use crate::render::{render_report, report_text, texts};
use backtrace::Backtrace;
use vstd::prelude::*;

verus! {

#[verifier::external_type_specification]
#[verifier::external_body]
pub struct ExBacktrace(Backtrace);

/// Relies on backtrace::Backtrace::new: snapshots the current call stack and
/// resolves its symbols. Nothing is known of the frames it finds.
#[verifier::external_body]
fn capture_stack() -> Backtrace {
    Backtrace::new()
}

/// Relies on backtrace's `Debug` impl for `Backtrace` (short style): the frames
/// as text. It reads the working directory, so nothing is stated of the text.
#[verifier::external_body]
fn stack_text(b: &Backtrace) -> String {
    format!("{:?}", b)
}

/// The diagnostic state kept with one error: the stack captured when the error
/// was made, if capture was enabled then. It never changes afterwards.
#[derive(Debug)]
pub struct Handler {
    backtrace: Option<Backtrace>,
}

impl Handler {
    /// The captured stack, if any.
    pub closed spec fn stack(&self) -> Option<Backtrace> {
        self.backtrace
    }

    /// Makes the state for a new error: captures the stack exactly when
    /// `capture` holds.
    pub fn new(capture: bool) -> (r: Handler)
        ensures
            r.stack().is_some() == capture,
    {
        let backtrace = if capture {
            Some(capture_stack())
        } else {
            None
        };
        Handler { backtrace }
    }

    /// The captured stack, if any.
    pub fn backtrace(&self) -> (r: Option<&Backtrace>)
        ensures
            r.is_some() == self.stack().is_some(),
            r matches Some(b) ==> self.stack() == Some(*b),
    {
        match &self.backtrace {
            Some(b) => Some(b),
            None => None,
        }
    }

    /// Renders the report of the error this state belongs to, given its text
    /// and the texts of its causes, closest first. The stack section appears
    /// exactly when a stack was captured.
    pub fn render(&self, display: &str, causes: &Vec<String>) -> (r: String)
        ensures
            self.stack().is_none() ==> r@ == report_text(display@, texts(causes@), None),
            self.stack().is_some() ==> exists|t: Seq<char>|
                #[trigger] report_text(display@, texts(causes@), Some(t)) == r@,
    {
        match &self.backtrace {
            Some(b) => {
                let text = stack_text(b);
                let r = render_report(display, causes, Some(text.as_str()));
                assert(report_text(display@, texts(causes@), Some(text@)) == r@);
                r
            },
            None => render_report(display, causes, None),
        }
    }
}

/// The captured stack reachable from the state that an error carries, where
/// `handler` is that state if it is of this library's kind, and absent when
/// another kind of handler made the error or none of this library's was
/// installed. Absence is the normal answer then, not a failure.
pub fn backtrace_of(handler: Option<&Handler>) -> (r: Option<&Backtrace>)
    ensures
        handler.is_none() ==> r.is_none(),
        handler matches Some(h) ==> r.is_some() == h.stack().is_some(),
        r matches Some(b) ==> (handler matches Some(h) && h.stack() == Some(*b)),
{
    match handler {
        Some(h) => h.backtrace(),
        None => None,
    }
}

} // verus!
