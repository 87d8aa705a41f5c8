//! Error values that are shown to the user: a message that says what was being
//! done, and the descriptions of the failure and of each of its causes.

use vstd::prelude::*;
use crate::text::texts;

verus! {

broadcast use vstd::string::group_string_axioms;

/// A failure together with what caused it, one level at a time.
#[derive(Debug, PartialEq, Eq)]
pub struct Cause {
    /// What went wrong at this level.
    pub description: String,
    /// The failure underneath, if there is one.
    pub source: Option<Box<Cause>>,
}

impl Cause {
    /// The descriptions along the chain, this failure's first and the deepest
    /// cause's last.
    pub open spec fn descriptions(&self) -> Seq<Seq<char>>
        decreases self,
    {
        match self.source {
            Some(inner) => seq![self.description@] + inner.descriptions(),
            None => seq![self.description@],
        }
    }

    /// A failure without a known cause.
    pub fn new(description: &str) -> (out: Self)
        ensures
            out.description@ == description@,
            out.source is None,
            out.descriptions() == seq![description@],
    {
        Cause { description: description.to_string(), source: None }
    }

    /// A failure that `source` caused.
    pub fn caused_by(description: &str, source: Cause) -> (out: Self)
        ensures
            out.description@ == description@,
            out.source == Some(Box::new(source)),
            out.descriptions() == seq![description@] + source.descriptions(),
    {
        Cause { description: description.to_string(), source: Some(Box::new(source)) }
    }
}

/// An error as the user sees it.
#[derive(Clone, Debug, PartialEq, Eq)]
pub struct Error {
    /// What was being done when the failure happened.
    message: String,
    /// The failure's description and those of its causes, outermost first.
    errors: Vec<String>,
}

/// What an [`Error`] holds, as mathematical text.
pub struct ErrorView {
    pub message: Seq<char>,
    pub errors: Seq<Seq<char>>,
}

impl View for Error {
    type V = ErrorView;

    closed spec fn view(&self) -> ErrorView {
        ErrorView { message: self.message@, errors: texts(self.errors@) }
    }
}

impl Error {
    /// An error with the given message and descriptions.
    pub fn new(message: String, errors: Vec<String>) -> (out: Self)
        ensures
            out@ == (ErrorView { message: message@, errors: texts(errors@) }),
    {
        Error { message, errors }
    }

    /// What was being done when the failure happened.
    pub fn message(&self) -> (out: &str)
        ensures
            out@ == self@.message,
    {
        self.message.as_str()
    }

    /// The failure's description and those of its causes, outermost first.
    pub fn errors(&self) -> (out: &Vec<String>)
        ensures
            texts(out@) == self@.errors,
    {
        &self.errors
    }
}

/// The descriptions of `error` and of all its causes, outermost first.
pub fn get_errors(error: &Cause) -> (errors: Vec<String>)
    ensures
        texts(errors@) == error.descriptions(),
    decreases error,
{
    let mut errors: Vec<String> = Vec::new();
    errors.push(error.description.clone());
    match &error.source {
        Some(source) => {
            let mut rest = get_errors(source);
            let ghost head = errors@;
            let ghost tail = rest@;
            errors.append(&mut rest);
            assert(texts(errors@) =~= texts(head) + texts(tail));
            assert(texts(head) =~= seq![error.description@]);
        },
        None => {
            assert(texts(errors@) =~= seq![error.description@]);
        },
    }
    errors
}

/// Values that may stand for a failure, and that a message turns into a
/// `Result` with an [`Error`].
pub trait Message<T>: Sized {
    /// The descriptions that the error will carry, where the value stands for a
    /// failure; `None` where it holds a result.
    spec fn failure(&self) -> Option<Seq<Seq<char>>>;

    /// The result that the value holds, where it holds one.
    spec fn payload(&self) -> T;

    /// Adds a message: a result is handed on unchanged; a failure becomes an
    /// [`Error`] with `message` and the failure's descriptions.
    fn message(self, message: &str) -> (out: Result<T, Error>)
        ensures
            match self.failure() {
                None => out == Ok::<T, Error>(self.payload()),
                Some(errors) => out is Err && out->Err_0@ == (ErrorView {
                    message: message@,
                    errors,
                }),
            },
    ;
}

impl<T> Message<T> for Result<T, Cause> {
    open spec fn failure(&self) -> Option<Seq<Seq<char>>> {
        match self {
            Ok(_) => None,
            Err(cause) => Some(cause.descriptions()),
        }
    }

    open spec fn payload(&self) -> T {
        self->Ok_0
    }

    fn message(self, message: &str) -> (out: Result<T, Error>) {
        match self {
            Ok(value) => Ok(value),
            Err(cause) => Err(Error { message: message.to_string(), errors: get_errors(&cause) }),
        }
    }
}

impl<T> Message<T> for Option<T> {
    open spec fn failure(&self) -> Option<Seq<Seq<char>>> {
        match self {
            Some(_) => None,
            None => Some(Seq::empty()),
        }
    }

    open spec fn payload(&self) -> T {
        self->Some_0
    }

    fn message(self, message: &str) -> (out: Result<T, Error>) {
        match self {
            Some(value) => Ok(value),
            None => {
                let errors: Vec<String> = Vec::new();
                assert(texts(errors@) =~= Seq::<Seq<char>>::empty());
                Err(Error { message: message.to_string(), errors })
            },
        }
    }
}

} // verus!
