//! Cloning a package's repository from the registry's host.
//!
//! A clone is a short conversation as well: the registry is asked whether
//! the package exists, the root directory is made ready, and only then is
//! the repository cloned. The library says what to do next; the caller
//! does it and reports what happened.

use vstd::prelude::*;
use vstd::string::StringExecFns;

verus! {

/// The address a package's repository is cloned from.
pub open spec fn clone_url(package: Seq<char>) -> Seq<char> {
    "https://aur.archlinux.org/"@ + package + ".git"@
}

/// What is printed once the repository of `package` stands at `location`.
pub open spec fn cloned_text(package: Seq<char>, location: Seq<char>) -> Seq<char> {
    "Cloned repo '"@ + package + "' to '"@ + location + "'\n"@
}

/// What the caller is to do next.
#[derive(Debug, PartialEq, Eq)]
pub enum CloneRequest {
    /// Ask the registry for the packages of that name.
    Lookup { package: String },
    /// Make sure the root directory exists.
    PrepareRoot,
    /// Clone the repository at `url` into the directory `into` under the
    /// root.
    Clone { url: String, into: String },
}

/// A [`CloneRequest`] as specifications see it.
pub enum CloneRequestView {
    Lookup { package: Seq<char> },
    PrepareRoot,
    Clone { url: Seq<char>, into: Seq<char> },
}

impl View for CloneRequest {
    type V = CloneRequestView;

    open spec fn view(&self) -> CloneRequestView {
        match *self {
            CloneRequest::Lookup { package } => CloneRequestView::Lookup { package: package@ },
            CloneRequest::PrepareRoot => CloneRequestView::PrepareRoot,
            CloneRequest::Clone { url, into } => CloneRequestView::Clone {
                url: url@,
                into: into@,
            },
        }
    }
}

/// What came of a [`CloneRequest`]. A failure carries the words of
/// whoever failed.
#[derive(Debug, PartialEq, Eq)]
pub enum CloneEvent {
    /// The registry knows this many packages of the name.
    Found { packages: usize },
    /// The registry could not be asked.
    LookupFailed(String),
    /// The root directory is there.
    RootReady,
    /// The root directory could not be made.
    RootFailed(String),
    /// The repository is cloned; `location` is where, as it is to be
    /// shown.
    Cloned { location: String },
    /// The clone failed.
    CloneFailed(String),
}

/// A [`CloneEvent`] as specifications see it.
pub enum CloneEventView {
    Found { packages: usize },
    LookupFailed(Seq<char>),
    RootReady,
    RootFailed(Seq<char>),
    Cloned { location: Seq<char> },
    CloneFailed(Seq<char>),
}

impl View for CloneEvent {
    type V = CloneEventView;

    open spec fn view(&self) -> CloneEventView {
        match *self {
            CloneEvent::Found { packages } => CloneEventView::Found { packages },
            CloneEvent::LookupFailed(m) => CloneEventView::LookupFailed(m@),
            CloneEvent::RootReady => CloneEventView::RootReady,
            CloneEvent::RootFailed(m) => CloneEventView::RootFailed(m@),
            CloneEvent::Cloned { location } => CloneEventView::Cloned { location: location@ },
            CloneEvent::CloneFailed(m) => CloneEventView::CloneFailed(m@),
        }
    }
}

/// Why a clone came to nothing.
#[derive(Debug, PartialEq, Eq)]
pub enum CloneError {
    /// The registry could not be asked.
    Lookup(String),
    /// The registry knows no package of that name.
    PackageNotFound { package: String },
    /// The root directory could not be made.
    Storage(String),
    /// The repository could not be cloned.
    Clone { package: String, reason: String },
    /// An event was reported that answers no request of the clone.
    OutOfOrder,
}

/// A [`CloneError`] as specifications see it.
pub enum CloneErrorView {
    Lookup(Seq<char>),
    PackageNotFound { package: Seq<char> },
    Storage(Seq<char>),
    Clone { package: Seq<char>, reason: Seq<char> },
    OutOfOrder,
}

impl View for CloneError {
    type V = CloneErrorView;

    open spec fn view(&self) -> CloneErrorView {
        match *self {
            CloneError::Lookup(m) => CloneErrorView::Lookup(m@),
            CloneError::PackageNotFound { package } => CloneErrorView::PackageNotFound {
                package: package@,
            },
            CloneError::Storage(m) => CloneErrorView::Storage(m@),
            CloneError::Clone { package, reason } => CloneErrorView::Clone {
                package: package@,
                reason: reason@,
            },
            CloneError::OutOfOrder => CloneErrorView::OutOfOrder,
        }
    }
}

/// What is said of a failed clone.
pub open spec fn clone_error_text(e: CloneErrorView) -> Seq<char> {
    match e {
        CloneErrorView::Lookup(m) => m,
        CloneErrorView::PackageNotFound { package } => "Package '"@ + package + "' not found"@,
        CloneErrorView::Storage(m) => m,
        CloneErrorView::Clone { package, reason } => "Error while cloning repo '"@ + package
            + "': "@ + reason,
        CloneErrorView::OutOfOrder => "an event came out of order"@,
    }
}

impl CloneError {
    /// What went wrong, in words.
    pub fn describe(&self) -> (text: String)
        ensures
            text@ == clone_error_text(self@),
    {
        match self {
            CloneError::Lookup(m) => m.clone(),
            CloneError::PackageNotFound { package } => String::from_str("Package '").concat(
                package.as_str(),
            ).concat("' not found"),
            CloneError::Storage(m) => m.clone(),
            CloneError::Clone { package, reason } => String::from_str(
                "Error while cloning repo '",
            ).concat(package.as_str()).concat("': ").concat(reason.as_str()),
            CloneError::OutOfOrder => String::from_str("an event came out of order"),
        }
    }
}

/// How a clone ended: with the text to print, or with an error.
pub type CloneResult = Result<String, CloneError>;

/// A [`CloneResult`] as specifications see it.
pub type CloneResultView = Result<Seq<char>, CloneErrorView>;

/// The view of a clone's result.
pub open spec fn clone_result_view(r: CloneResult) -> CloneResultView {
    match r {
        Ok(text) => Ok(text@),
        Err(e) => Err(e@),
    }
}

/// What the clone says after an event: ask for more, or the result.
#[derive(Debug, PartialEq, Eq)]
pub enum CloneStep {
    Ask(CloneRequest),
    Done(CloneResult),
}

/// A [`CloneStep`] as specifications see it.
pub enum CloneStepView {
    Ask(CloneRequestView),
    Done(CloneResultView),
}

impl View for CloneStep {
    type V = CloneStepView;

    open spec fn view(&self) -> CloneStepView {
        match *self {
            CloneStep::Ask(r) => CloneStepView::Ask(r@),
            CloneStep::Done(r) => CloneStepView::Done(clone_result_view(r)),
        }
    }
}

/// The clone of one package, as far as it has come.
#[derive(Debug)]
pub enum Cloner {
    /// The registry is being asked.
    Looking { package: String },
    /// The root directory is being made ready.
    Preparing { package: String },
    /// The repository is being cloned.
    Cloning { package: String },
    /// The clone is over.
    Finished,
}

/// A [`Cloner`] as specifications see it.
pub enum ClonerView {
    Looking { package: Seq<char> },
    Preparing { package: Seq<char> },
    Cloning { package: Seq<char> },
    Finished,
}

impl View for Cloner {
    type V = ClonerView;

    open spec fn view(&self) -> ClonerView {
        match *self {
            Cloner::Looking { package } => ClonerView::Looking { package: package@ },
            Cloner::Preparing { package } => ClonerView::Preparing { package: package@ },
            Cloner::Cloning { package } => ClonerView::Cloning { package: package@ },
            Cloner::Finished => ClonerView::Finished,
        }
    }
}

/// The clone ends with the error `e`.
pub open spec fn clone_fail(e: CloneErrorView) -> (ClonerView, CloneStepView) {
    (ClonerView::Finished, CloneStepView::Done(Err(e)))
}

impl ClonerView {
    /// The clone's answer to `event`.
    ///
    /// A package the registry does not know is not cloned: the clone ends
    /// with [`CloneError::PackageNotFound`] before anything is written.
    /// Otherwise the root is made ready and the repository is cloned from
    /// [`clone_url`] into the directory named after the package. The first
    /// step that fails ends the clone with its error.
    pub open spec fn next(self, event: CloneEventView) -> (ClonerView, CloneStepView) {
        match (self, event) {
            (ClonerView::Looking { package }, CloneEventView::Found { packages }) => {
                if packages == 0 {
                    clone_fail(CloneErrorView::PackageNotFound { package })
                } else {
                    (
                        ClonerView::Preparing { package },
                        CloneStepView::Ask(CloneRequestView::PrepareRoot),
                    )
                }
            },
            (ClonerView::Looking { package }, CloneEventView::LookupFailed(m)) => clone_fail(
                CloneErrorView::Lookup(m),
            ),
            (ClonerView::Preparing { package }, CloneEventView::RootReady) => (
                ClonerView::Cloning { package },
                CloneStepView::Ask(
                    CloneRequestView::Clone { url: clone_url(package), into: package },
                ),
            ),
            (ClonerView::Preparing { package }, CloneEventView::RootFailed(m)) => clone_fail(
                CloneErrorView::Storage(m),
            ),
            (ClonerView::Cloning { package }, CloneEventView::Cloned { location }) => (
                ClonerView::Finished,
                CloneStepView::Done(Ok(cloned_text(package, location))),
            ),
            (ClonerView::Cloning { package }, CloneEventView::CloneFailed(m)) => clone_fail(
                CloneErrorView::Clone { package, reason: m },
            ),
            _ => clone_fail(CloneErrorView::OutOfOrder),
        }
    }
}

impl Cloner {
    /// Starts the clone of `package`.
    pub fn begin(package: String) -> (r: (Cloner, CloneStep))
        ensures
            r.0@ == (ClonerView::Looking { package: package@ }),
            r.1@ == CloneStepView::Ask(CloneRequestView::Lookup { package: package@ }),
    {
        let request = CloneRequest::Lookup { package: package.clone() };
        (Cloner::Looking { package }, CloneStep::Ask(request))
    }

    /// Takes the outcome of the request that is pending and says how the
    /// clone goes on.
    pub fn advance(self, event: CloneEvent) -> (r: (Cloner, CloneStep))
        ensures
            (r.0@, r.1@) == self@.next(event@),
    {
        match self {
            Cloner::Looking { package } => match event {
                CloneEvent::Found { packages } => {
                    if packages == 0 {
                        Self::fail(CloneError::PackageNotFound { package })
                    } else {
                        (Cloner::Preparing { package }, CloneStep::Ask(CloneRequest::PrepareRoot))
                    }
                },
                CloneEvent::LookupFailed(m) => Self::fail(CloneError::Lookup(m)),
                _ => Self::fail(CloneError::OutOfOrder),
            },
            Cloner::Preparing { package } => match event {
                CloneEvent::RootReady => {
                    let url = String::from_str("https://aur.archlinux.org/").concat(
                        package.as_str(),
                    ).concat(".git");
                    let request = CloneRequest::Clone { url, into: package.clone() };
                    (Cloner::Cloning { package }, CloneStep::Ask(request))
                },
                CloneEvent::RootFailed(m) => Self::fail(CloneError::Storage(m)),
                _ => Self::fail(CloneError::OutOfOrder),
            },
            Cloner::Cloning { package } => match event {
                CloneEvent::Cloned { location } => {
                    let text = String::from_str("Cloned repo '").concat(package.as_str()).concat(
                        "' to '",
                    ).concat(location.as_str()).concat("'\n");
                    (Cloner::Finished, CloneStep::Done(Ok(text)))
                },
                CloneEvent::CloneFailed(m) => Self::fail(
                    CloneError::Clone { package, reason: m },
                ),
                _ => Self::fail(CloneError::OutOfOrder),
            },
            Cloner::Finished => Self::fail(CloneError::OutOfOrder),
        }
    }

    /// The finished clone with its error.
    fn fail(e: CloneError) -> (r: (Cloner, CloneStep))
        ensures
            (r.0@, r.1@) == clone_fail(e@),
    {
        (Cloner::Finished, CloneStep::Done(Err(e)))
    }
}

} // verus!
