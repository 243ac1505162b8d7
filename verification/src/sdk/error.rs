//! What can go wrong with a local network.

use vstd::prelude::*;

verus! {

/// What went wrong, with a description.
#[derive(Debug)]
pub enum SurfnetError {
    /// No free port was found.
    PortAllocation(String),
    /// The network did not come up.
    Startup(String),
    /// The running network failed.
    Runtime(String),
    /// The network gave up while it came up.
    Aborted(String),
}

/// What went wrong, with a description.
pub enum SurfnetErrorView {
    PortAllocation(Seq<char>),
    Startup(Seq<char>),
    Runtime(Seq<char>),
    Aborted(Seq<char>),
}

impl View for SurfnetError {
    type V = SurfnetErrorView;

    open spec fn view(&self) -> SurfnetErrorView {
        match *self {
            SurfnetError::PortAllocation(e) => SurfnetErrorView::PortAllocation(e@),
            SurfnetError::Startup(e) => SurfnetErrorView::Startup(e@),
            SurfnetError::Runtime(e) => SurfnetErrorView::Runtime(e@),
            SurfnetError::Aborted(e) => SurfnetErrorView::Aborted(e@),
        }
    }
}

/// Success, or what went wrong.
pub open spec fn outcome(result: Result<(), SurfnetError>) -> Result<(), SurfnetErrorView> {
    match result {
        Ok(_) => Ok(()),
        Err(e) => Err(e@),
    }
}

} // verus!
