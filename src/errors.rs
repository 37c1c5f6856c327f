//! The single error type that every operation of the core propagates.

use vstd::prelude::*;
use vstd::string::StringExecFns;

verus! {

/// What went wrong, or why execution stopped.
#[derive(Debug, Clone, Copy, PartialEq, Eq, Structural)]
pub enum ErrorKind {
    /// A recoverable emulation error without a more specific kind.
    Emulation,
    /// A memory access touched a byte that no region initialization covered.
    UninitializedAccess,
    /// A memory region to initialize runs past the end of the address space.
    InvalidRegion,
    /// The decoder reported an operand encoding that the core does not handle.
    UnsupportedOperand,
    /// The instruction encoding is known but has no handler yet.
    Unimplemented,
    /// An internal invariant does not hold: the decoder and the dispatcher disagree,
    /// or an encoding that cannot occur in 64-bit mode reached its handler.
    Defect,
}

/// An error: its kind, a human-readable message, an optional detail that is shown
/// before the message, and whether it signals that the emulated program finished
/// normally rather than a fault.
#[derive(Debug)]
pub struct AxError {
    pub kind: ErrorKind,
    pub message: String,
    pub detail: Option<String>,
    pub signals_normal_finish: bool,
}

/// The text of `a` followed by the text of `b`.
pub(crate) fn concat(a: &str, b: &str) -> (r: String)
    ensures
        r@ == a@ + b@,
{
    let mut r = a.to_owned();
    r.append(b);
    r
}

impl AxError {
    /// A fresh error of `kind` with `message`.
    pub fn new(kind: ErrorKind, message: &str) -> (e: AxError)
        ensures
            e.kind == kind,
            e.message@ == message@,
            e.detail is None,
            !e.signals_normal_finish,
    {
        AxError { kind, message: message.to_owned(), detail: None, signals_normal_finish: false }
    }

    /// An error of `kind` whose message is `prefix` followed by `subject`.
    pub fn with_subject(kind: ErrorKind, prefix: &str, subject: &str) -> (e: AxError)
        ensures
            e.kind == kind,
            e.message@ == prefix@ + subject@,
            e.detail is None,
            !e.signals_normal_finish,
    {
        AxError {
            kind,
            message: concat(prefix, subject),
            detail: None,
            signals_normal_finish: false,
        }
    }

    /// The same error, marked as the signal that the emulated program finished normally.
    pub fn end_execution(&self) -> (e: AxError)
        ensures
            e.kind == self.kind,
            e.message@ == self.message@,
            e.detail == self.detail,
            e.signals_normal_finish,
    {
        AxError {
            kind: self.kind,
            message: self.message.clone(),
            detail: self.detail.clone(),
            signals_normal_finish: true,
        }
    }

    /// The same error with `s` as its detail.
    pub fn add_detail(&self, s: String) -> (e: AxError)
        ensures
            e.kind == self.kind,
            e.message@ == self.message@,
            e.detail == Some(s),
            e.signals_normal_finish == self.signals_normal_finish,
    {
        AxError {
            kind: self.kind,
            message: self.message.clone(),
            detail: Some(s),
            signals_normal_finish: self.signals_normal_finish,
        }
    }

    /// The same error with `context` and a colon as its detail, so that its text
    /// names where it arose.
    pub fn in_context(&self, context: &str) -> (e: AxError)
        ensures
            e.kind == self.kind,
            e.message@ == self.message@,
            e.detail matches Some(d) && d@ == context@ + ": "@,
            e.signals_normal_finish == self.signals_normal_finish,
    {
        self.add_detail(concat(context, ": "))
    }

    /// The text shown for this error: the detail, if any, then the message.
    pub fn text(&self) -> (r: String)
        ensures
            r@ == match self.detail {
                Some(d) => d@ + self.message@,
                None => self.message@,
            },
    {
        match &self.detail {
            Some(d) => concat(d.as_str(), self.message.as_str()),
            None => self.message.clone(),
        }
    }
}

impl From<String> for AxError {
    fn from(message: String) -> (e: AxError) {
        AxError { kind: ErrorKind::Emulation, message, detail: None, signals_normal_finish: false }
    }
}

impl vstd::std_specs::convert::FromSpecImpl<String> for AxError {
    open spec fn obeys_from_spec() -> bool {
        true
    }

    open spec fn from_spec(message: String) -> AxError {
        AxError { kind: ErrorKind::Emulation, message, detail: None, signals_normal_finish: false }
    }
}

} // verus!
