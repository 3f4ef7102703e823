//! Failures of the backend.

use vstd::prelude::*;
use vstd::string::StringExecFns;


verus! {

/// What can go wrong in the backend.
#[derive(Debug)]
pub enum BackendError {
    /// The compositor, its connection or the event loop refused a request.
    Wayland(String),
    /// The backend is used in a state in which it cannot work.
    Init(String),
    /// The message template cannot be parsed; holds the reason.
    TemplateParse(String),
    /// The message template is refused for another reason.
    Template(tera::Error),
    /// A geometry value does not fit the compositor's integers.
    IntegerConversion,
    /// The drawing library refused a request.
    Cairo(String),
    /// The surrounding program failed to do its part.
    Host(String),
}

/// An [`BackendError`] with its texts taken as sequences of characters.
pub enum BackendErrorView {
    Wayland(Seq<char>),
    Init(Seq<char>),
    TemplateParse(Seq<char>),
    Template(tera::Error),
    IntegerConversion,
    Cairo(Seq<char>),
    Host(Seq<char>),
}

impl View for BackendError {
    type V = BackendErrorView;

    open spec fn view(&self) -> BackendErrorView {
        match self {
            BackendError::Wayland(text) => BackendErrorView::Wayland(text@),
            BackendError::Init(text) => BackendErrorView::Init(text@),
            BackendError::TemplateParse(text) => BackendErrorView::TemplateParse(text@),
            BackendError::Template(error) => BackendErrorView::Template(*error),
            BackendError::IntegerConversion => BackendErrorView::IntegerConversion,
            BackendError::Cairo(text) => BackendErrorView::Cairo(text@),
            BackendError::Host(text) => BackendErrorView::Host(text@),
        }
    }
}

/// A compositor failure: what was being done, then the compositor's own words.
pub fn wayland_error(context: &str, reason: &str) -> (error: BackendError)
    ensures
        error@ == BackendErrorView::Wayland(context@ + reason@),
{
    let text: String = context.to_string();
    BackendError::Wayland(text.concat(reason))
}

/// A failure of the backend's own making.
pub fn init_error(text: &str) -> (error: BackendError)
    ensures
        error@ == BackendErrorView::Init(text@),
{
    BackendError::Init(text.to_string())
}

} // verus!
