//! What can go wrong.
use vstd::prelude::*;
use vstd::string::StringExecFns;

verus! {

/// Why an image was not produced. The first four kinds come from outside the
/// geometry and carry the text of their cause.
#[derive(Debug)]
pub enum Error {
    /// The face detector failed.
    CVError(String),
    /// The landmark model failed.
    TractError(String),
    /// An image could not be decoded or encoded.
    ImageError(String),
    /// Reading or writing failed.
    IOError(String),
    /// A quantity of the geometry is indeterminate, or no transform exists.
    MathError(String),
    /// No mouth was found.
    NoneError,
}

pub type Result<T> = core::result::Result<T, Error>;

/// The text that stands before the detail in an error's description.
pub open spec fn heading(e: Error) -> Seq<char> {
    match e {
        Error::CVError(_) => "cv error: "@,
        Error::TractError(_) => "tract error: "@,
        Error::ImageError(_) => "image error: "@,
        Error::IOError(_) => "io error: "@,
        Error::MathError(_) => "math error: "@,
        Error::NoneError => "internal error for None"@,
    }
}

/// The detail that an error carries.
pub open spec fn detail(e: Error) -> Seq<char> {
    match e {
        Error::CVError(s) => s@,
        Error::TractError(s) => s@,
        Error::ImageError(s) => s@,
        Error::IOError(s) => s@,
        Error::MathError(s) => s@,
        Error::NoneError => Seq::empty(),
    }
}

/// `head` followed by `tail`.
fn joined(head: &str, tail: &str) -> (r: String)
    ensures
        r@ == head@ + tail@,
{
    head.to_owned().concat(tail)
}

impl Error {
    /// The error in words: its heading, then its detail.
    pub fn to_string(&self) -> (r: String)
        ensures
            r@ == heading(*self) + detail(*self),
    {
        match self {
            Error::CVError(s) => joined("cv error: ", s.as_str()),
            Error::TractError(s) => joined("tract error: ", s.as_str()),
            Error::ImageError(s) => joined("image error: ", s.as_str()),
            Error::IOError(s) => joined("io error: ", s.as_str()),
            Error::MathError(s) => joined("math error: ", s.as_str()),
            Error::NoneError => {
                let text = joined("internal error for None", "");
                proof {
                    reveal_strlit("");
                    assert(text@ =~= "internal error for None"@);
                    assert(heading(*self) + detail(*self) =~= "internal error for None"@);
                }
                text
            },
        }
    }
}

} // verus!
