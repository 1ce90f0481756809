use vstd::prelude::*;

verus! {

/// Errors reported by the lane/pass strategy library.
#[derive(Debug, PartialEq, Eq)]
pub enum DrivenError {
    /// A value or a state transition broke a strategy rule.
    Validation(String),
    /// Stored state could not be parsed.
    Parse(String),
    /// A value could not be rendered.
    Format(String),
    /// Reading or writing stored state failed.
    Io(String),
}

impl Clone for DrivenError {
    fn clone(&self) -> (r: Self)
        ensures
            r == *self,
    {
        match self {
            DrivenError::Validation(m) => DrivenError::Validation(m.clone()),
            DrivenError::Parse(m) => DrivenError::Parse(m.clone()),
            DrivenError::Format(m) => DrivenError::Format(m.clone()),
            DrivenError::Io(m) => DrivenError::Io(m.clone()),
        }
    }
}

pub type Result<T> = core::result::Result<T, DrivenError>;

impl DrivenError {
    /// The text carried by the error, whatever its kind.
    pub open spec fn text(&self) -> Seq<char> {
        match self {
            DrivenError::Validation(m) => m@,
            DrivenError::Parse(m) => m@,
            DrivenError::Format(m) => m@,
            DrivenError::Io(m) => m@,
        }
    }

    /// A validation error whose message is `msg`.
    pub open spec fn is_validation_with(&self, msg: Seq<char>) -> bool {
        self is Validation && self.text() == msg
    }

    /// The message carried by the error.
    pub fn message(&self) -> (r: &String)
        ensures
            r@ == self.text(),
    {
        match self {
            DrivenError::Validation(m) => m,
            DrivenError::Parse(m) => m,
            DrivenError::Format(m) => m,
            DrivenError::Io(m) => m,
        }
    }

    /// Human-readable rendering: the kind followed by the message.
    pub fn to_string(&self) -> (r: String)
        ensures
            r@ == self.kind_label() + self.text(),
    {
        let mut out = match self {
            DrivenError::Validation(_) => String::from_str("validation error: "),
            DrivenError::Parse(_) => String::from_str("parse error: "),
            DrivenError::Format(_) => String::from_str("format error: "),
            DrivenError::Io(_) => String::from_str("I/O error: "),
        };
        out.append(self.message().as_str());
        out
    }

    pub open spec fn kind_label(&self) -> Seq<char> {
        match self {
            DrivenError::Validation(_) => "validation error: "@,
            DrivenError::Parse(_) => "parse error: "@,
            DrivenError::Format(_) => "format error: "@,
            DrivenError::Io(_) => "I/O error: "@,
        }
    }
}

/// A result agrees with a check that reports the first broken rule: `Ok`
/// exactly when no rule is broken, otherwise the validation error that
/// carries the check's message.
pub open spec fn agrees<T>(r: Result<T>, check: Option<Seq<char>>) -> bool {
    match r {
        Ok(_) => check is None,
        Err(e) => check is Some && e.is_validation_with(check->Some_0),
    }
}

/// Builds a validation error from a literal message.
pub fn validation(msg: &str) -> (e: DrivenError)
    ensures
        e.is_validation_with(msg@),
{
    DrivenError::Validation(String::from_str(msg))
}

/// Builds a validation error from an owned message.
pub fn validation_owned(msg: String) -> (e: DrivenError)
    ensures
        e.is_validation_with(msg@),
{
    DrivenError::Validation(msg)
}

/// Why an operation is refused: a broken rule, with its message, or an
/// error met while reading stored state, passed on as it came.
pub enum Refusal {
    Rule(Seq<char>),
    Passed(DrivenError),
}

/// A check's rule, as a refusal.
pub open spec fn rule(check: Option<Seq<char>>) -> Option<Refusal> {
    match check {
        Some(m) => Some(Refusal::Rule(m)),
        None => None,
    }
}

/// A result answers a refusal: `Ok` when there is none, otherwise the
/// validation error that carries the rule's message, or the error passed
/// on.
pub open spec fn answers<T>(r: Result<T>, refusal: Option<Refusal>) -> bool {
    match refusal {
        None => r is Ok,
        Some(Refusal::Rule(m)) => r is Err && r->Err_0.is_validation_with(m),
        Some(Refusal::Passed(e)) => r is Err && r->Err_0 == e,
    }
}

} // verus!
