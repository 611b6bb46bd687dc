use vstd::prelude::*;

verus! {

/// An error of the binding: a short identifier of what failed and a
/// human-readable explanation.
#[derive(Debug)]
pub struct ScardError {
    pub uid: String,
    pub info: String,
}

/// The mathematical value of an error: its identifier and its explanation.
pub struct ErrorView {
    pub uid: Seq<char>,
    pub info: Seq<char>,
}

impl View for ScardError {
    type V = ErrorView;

    open spec fn view(&self) -> ErrorView {
        ErrorView { uid: self.uid@, info: self.info@ }
    }
}

/// The error with the given identifier and explanation.
pub open spec fn error_view(uid: Seq<char>, info: Seq<char>) -> ErrorView {
    ErrorView { uid, info }
}

impl ScardError {
    /// An error with the given identifier and explanation.
    pub fn new(uid: &str, info: String) -> (res: ScardError)
        ensures
            res@ == error_view(uid@, info@),
    {
        ScardError { uid: String::from_str(uid), info }
    }

    /// The identifier of the error.
    pub fn get_uid(&self) -> (res: &str)
        ensures
            res@ == self@.uid,
    {
        self.uid.as_str()
    }

    /// The explanation of the error.
    pub fn get_info(&self) -> (res: &str)
        ensures
            res@ == self@.info,
    {
        self.info.as_str()
    }
}

/// The concatenation of two texts.
pub(crate) fn join2(a: &str, b: &str) -> (res: String)
    ensures
        res@ == a@ + b@,
{
    String::from_str(a).concat(b)
}

/// The concatenation of three texts.
pub(crate) fn join3(a: &str, b: &str, c: &str) -> (res: String)
    ensures
        res@ == a@ + b@ + c@,
{
    String::from_str(a).concat(b).concat(c)
}

/// The concatenation of four texts.
pub(crate) fn join4(a: &str, b: &str, c: &str, d: &str) -> (res: String)
    ensures
        res@ == a@ + b@ + c@ + d@,
{
    String::from_str(a).concat(b).concat(c).concat(d)
}

} // verus!
