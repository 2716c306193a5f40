use vstd::prelude::*;

verus! {

/// Why a run ended without doing what it was asked to do. Every failure ends
/// the run: nothing is tried again.
#[derive(Clone, Debug, PartialEq, Eq)]
pub enum Failure {
    /// The domain argument holds no `.`.
    Config,
    /// A service could not be reached.
    Network,
    /// A service answered with a status that is no success.
    Http,
    /// An answer did not have the expected shape, or a text that should spell
    /// an address spells none.
    Parse,
    /// The registrar answered with its error variant; `message` is the text
    /// that it sent, unchanged.
    Registrar { message: String },
    /// No record carries the subdomain that was asked for.
    NotFound,
    /// An event arrived that the run was not waiting for.
    OutOfTurn,
}

/// What a [`Failure`] is, with its text as a sequence of characters.
pub enum FailureView {
    Config,
    Network,
    Http,
    Parse,
    Registrar { message: Seq<char> },
    NotFound,
    OutOfTurn,
}

impl View for Failure {
    type V = FailureView;

    open spec fn view(&self) -> FailureView {
        match *self {
            Failure::Config => FailureView::Config,
            Failure::Network => FailureView::Network,
            Failure::Http => FailureView::Http,
            Failure::Parse => FailureView::Parse,
            Failure::Registrar { message } => FailureView::Registrar { message: message@ },
            Failure::NotFound => FailureView::NotFound,
            Failure::OutOfTurn => FailureView::OutOfTurn,
        }
    }
}

/// How an exchange with a service went wrong before its answer could be read.
#[derive(Clone, Copy, Debug, PartialEq, Eq, Structural)]
pub enum Fault {
    /// The service could not be reached.
    Network,
    /// The service answered with a status that is no success.
    Http,
    /// The body of the answer did not have the expected shape.
    Malformed,
}

/// The failure that a fault ends the run with.
pub open spec fn fault_failure(fault: Fault) -> FailureView {
    match fault {
        Fault::Network => FailureView::Network,
        Fault::Http => FailureView::Http,
        Fault::Malformed => FailureView::Parse,
    }
}

impl Fault {
    /// The failure that this fault ends the run with.
    pub fn failure(self) -> (r: Failure)
        ensures
            r@ == fault_failure(self),
    {
        match self {
            Fault::Network => Failure::Network,
            Fault::Http => Failure::Http,
            Fault::Malformed => Failure::Parse,
        }
    }
}

} // verus!
