//! Diagnostics and unwinding signals. One structured value carries a
//! message with its source location; an optional abort tag turns the same
//! value into the carrier that unwinds `break`, `continue` and `return`
//! through statement execution.
use vstd::prelude::*;

use crate::strings::{dec_string, dec_chars, strcat};
use crate::token::Token;
use crate::value::{Literal, SpecVal};

verus! {

/// Why execution is unwinding: a loop control jump or a `return` carrying
/// its value.
#[derive(Debug)]
pub enum AbortReason {
    Break,
    Continue,
    Return(Literal),
}

/// Ghost image of an unwinding reason.
pub enum SpecAbort {
    Break,
    Continue,
    Return(SpecVal),
}

impl AbortReason {
    /// Ghost image of this reason.
    pub open spec fn model(&self) -> SpecAbort {
        match self {
            AbortReason::Break => SpecAbort::Break,
            AbortReason::Continue => SpecAbort::Continue,
            AbortReason::Return(v) => SpecAbort::Return(v.model()),
        }
    }
}

/// Ghost image of a diagnostic or signal: its message, the line and lexeme
/// of the token it points at, the file name, and the abort tag if it is a
/// signal rather than a true diagnostic.
pub struct SpecErr {
    pub msg: Seq<char>,
    pub line: int,
    pub lexeme: Seq<char>,
    pub file: Seq<char>,
    pub abort: Option<SpecAbort>,
}

/// A diagnostic, or a control-flow signal wearing a diagnostic's shape so
/// that both unwind through the same error channel.
#[derive(Debug)]
pub struct ViskumError {
    msg: String,
    token: Token,
    file: String,
    abort_reason: Option<AbortReason>,
}

impl ViskumError {
    /// Ghost image of this diagnostic.
    pub closed spec fn model(&self) -> SpecErr {
        SpecErr {
            msg: self.msg@,
            line: self.token.line as int,
            lexeme: self.token.lexeme@,
            file: self.file@,
            abort: match self.abort_reason {
                Some(r) => Some(r.model()),
                None => None,
            },
        }
    }

    /// A plain diagnostic with no abort tag.
    pub fn new(msg: &str, token: Token, file: &str) -> (r: ViskumError)
        ensures
            r.model() == (SpecErr {
                msg: msg@,
                line: token.line as int,
                lexeme: token.lexeme@,
                file: file@,
                abort: None,
            }),
    {
        ViskumError { msg: msg.to_owned(), token, file: file.to_owned(), abort_reason: None }
    }

    /// A plain diagnostic whose message was built at run time.
    pub fn new_dynamic(msg: String, token: Token, file: &str) -> (r: ViskumError)
        ensures
            r.model() == (SpecErr {
                msg: msg@,
                line: token.line as int,
                lexeme: token.lexeme@,
                file: file@,
                abort: None,
            }),
    {
        ViskumError { msg, token, file: file.to_owned(), abort_reason: None }
    }

    /// A control-flow signal: a diagnostic carrying an abort tag, reported
    /// as an error only where it escapes the construct that should catch it.
    pub fn new_with_abort(msg: &str, token: Token, file: &str, reason: AbortReason) -> (r:
        ViskumError)
        ensures
            r.model() == (SpecErr {
                msg: msg@,
                line: token.line as int,
                lexeme: token.lexeme@,
                file: file@,
                abort: Some(reason.model()),
            }),
    {
        ViskumError {
            msg: msg.to_owned(),
            token,
            file: file.to_owned(),
            abort_reason: Some(reason),
        }
    }

    /// Tells whether this value is a signal of the same kind as the given
    /// reason; a `Return` signal matches `Return` whatever value it carries.
    pub fn is_abort_error(&self, abort_reason: &AbortReason) -> (r: bool)
        ensures
            r == match (self.model().abort, abort_reason.model()) {
                (Some(SpecAbort::Break), SpecAbort::Break) => true,
                (Some(SpecAbort::Continue), SpecAbort::Continue) => true,
                (Some(SpecAbort::Return(_)), SpecAbort::Return(_)) => true,
                _ => false,
            },
    {
        match (&self.abort_reason, abort_reason) {
            (Some(AbortReason::Break), AbortReason::Break) => true,
            (Some(AbortReason::Continue), AbortReason::Continue) => true,
            (Some(AbortReason::Return(_)), AbortReason::Return(_)) => true,
            _ => false,
        }
    }

    /// The value a `Return` signal carries, if this is one.
    pub fn get_abort_value(&self) -> (r: Option<Literal>)
        ensures
            match self.model().abort {
                Some(SpecAbort::Return(v)) => r matches Some(x) && x.model() == v,
                _ => r is None,
            },
    {
        match &self.abort_reason {
            Some(AbortReason::Return(v)) => Some(v.duplicate()),
            _ => None,
        }
    }

    /// This diagnostic with its abort tag removed: the same report, no
    /// longer a signal.
    pub fn without_abort(self) -> (r: ViskumError)
        ensures
            r.model() == (SpecErr { abort: None, ..self.model() }),
    {
        ViskumError {
            msg: self.msg,
            token: self.token,
            file: self.file,
            abort_reason: None,
        }
    }

    /// The text a report of this diagnostic shows.
    pub open spec fn report_of(e: SpecErr) -> Seq<char> {
        "[error] "@ + e.file + ": line "@ + dec_chars(if e.line >= 0 {
            e.line as nat
        } else {
            0
        }) + ", "@ + e.msg + " (0)"@
    }

    /// Renders this diagnostic as one line of report text.
    pub fn to_string(&self) -> (r: String)
        ensures
            r@ == ViskumError::report_of(self.model()),
    {
        let mut out = "[error] ".to_owned();
        out = strcat(out, self.file.as_str());
        out = strcat(out, ": line ");
        let line = dec_string(self.token.line as u64);
        out = strcat(out, line.as_str());
        out = strcat(out, ", ");
        out = strcat(out, self.msg.as_str());
        out = strcat(out, " (0)");
        out
    }
}

/// Collects the diagnostics of one run so that all of them can be shown.
#[derive(Debug)]
pub struct ErrorHandler {
    errors: Vec<ViskumError>,
}

impl ErrorHandler {
    /// Ghost image: the collected diagnostics in order.
    pub closed spec fn model(&self) -> Seq<SpecErr> {
        self.errors@.map(|i: int, e: ViskumError| e.model())
    }

    /// An empty collector.
    pub fn new() -> (r: ErrorHandler)
        ensures
            r.model() == Seq::<SpecErr>::empty(),
    {
        let r = ErrorHandler { errors: Vec::new() };
        proof {
            assert(r.model() =~= Seq::<SpecErr>::empty());
        }
        r
    }

    /// Appends one diagnostic.
    pub fn report_error(&mut self, error: ViskumError)
        ensures
            final(self).model() == old(self).model().push(error.model()),
    {
        self.errors.push(error);
        proof {
            assert(self.model() =~= old(self).model().push(error.model()));
        }
    }

    /// Tells whether any diagnostic was collected.
    pub fn has_error(&self) -> (r: bool)
        ensures
            r == (self.model().len() > 0),
    {
        self.errors.len() > 0
    }

    /// One line of report text per collected diagnostic, in order.
    pub fn reports(&self) -> (r: Vec<String>)
        ensures
            r@.len() == self.model().len(),
            forall|i: int|
                0 <= i < r@.len() ==> r@[i]@ == ViskumError::report_of(#[trigger] self.model()[i]),
    {
        let mut out: Vec<String> = Vec::new();
        let mut i: usize = 0;
        while i < self.errors.len()
            invariant
                i <= self.errors@.len(),
                out@.len() == i,
                forall|j: int|
                    0 <= j < i ==> out@[j]@ == ViskumError::report_of(#[trigger] self.model()[j]),
            decreases self.errors@.len() - i,
        {
            out.push(self.errors[i].to_string());
            i = i + 1;
        }
        out
    }
}

} // verus!
