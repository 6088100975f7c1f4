use vstd::prelude::*;

verus! {

/// Why a frame could not be decoded.
#[derive(Debug)]
pub enum CanError {
    /// The frame is malformed (for instance, too short to hold an identifier).
    InvalidFrame(String),
    /// The frame's identifier is not in the registry.
    UnknownId(u32),
    /// Any other failure, with a free-form description.
    Other(String),
}

/// The mathematical model of a `CanError`: its kind and what it carries.
pub enum CanErrorView {
    InvalidFrame(Seq<char>),
    UnknownId(u32),
    Other(Seq<char>),
}

impl View for CanError {
    type V = CanErrorView;

    open spec fn view(&self) -> CanErrorView {
        match self {
            CanError::InvalidFrame(details) => CanErrorView::InvalidFrame(details@),
            CanError::UnknownId(id) => CanErrorView::UnknownId(*id),
            CanError::Other(msg) => CanErrorView::Other(msg@),
        }
    }
}

} // verus!
