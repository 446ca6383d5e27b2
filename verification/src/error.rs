//! The failures that the program lifecycle can report.

use vstd::prelude::*;
use crate::feature::Feature;
use crate::text::{splice, splice3};

verus! {

/// Why an operation on a program failed.
#[derive(Debug, PartialEq, Eq)]
pub enum AppError {
    /// Reading, writing or decoding persisted data failed; holds the cause.
    IOFailure(String),
    /// A program of this name is already registered.
    DuplicateProgram(String),
    /// No program of this name is registered.
    ProgramNotFound(String),
    /// This requested capability is not available on the host.
    UnsupportedFeature(Feature),
    /// The package metadata names no package.
    InvalidPackageMetadata,
    /// The package artifact could not be read; holds the cause.
    PackageExtractionFailed(String),
    /// The container image could not be built; holds the cause.
    BuildFailed(String),
    /// The container runtime failed; holds the cause.
    RuntimeExecutionFailed(String),
}

/// An [`AppError`] as a mathematical value.
pub enum AppErrorView {
    IOFailure(Seq<char>),
    DuplicateProgram(Seq<char>),
    ProgramNotFound(Seq<char>),
    UnsupportedFeature(Feature),
    InvalidPackageMetadata,
    PackageExtractionFailed(Seq<char>),
    BuildFailed(Seq<char>),
    RuntimeExecutionFailed(Seq<char>),
}

impl View for AppError {
    type V = AppErrorView;

    open spec fn view(&self) -> AppErrorView {
        match self {
            AppError::IOFailure(m) => AppErrorView::IOFailure(m@),
            AppError::DuplicateProgram(n) => AppErrorView::DuplicateProgram(n@),
            AppError::ProgramNotFound(n) => AppErrorView::ProgramNotFound(n@),
            AppError::UnsupportedFeature(f) => AppErrorView::UnsupportedFeature(*f),
            AppError::InvalidPackageMetadata => AppErrorView::InvalidPackageMetadata,
            AppError::PackageExtractionFailed(m) => AppErrorView::PackageExtractionFailed(m@),
            AppError::BuildFailed(m) => AppErrorView::BuildFailed(m@),
            AppError::RuntimeExecutionFailed(m) => AppErrorView::RuntimeExecutionFailed(m@),
        }
    }
}

impl AppErrorView {
    /// The message shown to the user: it names the program or the capability
    /// that the failure is about, or repeats the cause.
    pub open spec fn message(self) -> Seq<char> {
        match self {
            AppErrorView::IOFailure(m) => m,
            AppErrorView::DuplicateProgram(n) => "Program with such name already exists '"@ + n
                + "'. Remove it first or use a custom tag with -t (--tag) option"@,
            AppErrorView::ProgramNotFound(n) => "Can't find a program '"@ + n + "'"@,
            AppErrorView::UnsupportedFeature(f) => "You have set unavailable feature '"@
                + f.label_text() + "'"@,
            AppErrorView::InvalidPackageMetadata => "Package metadata names no package"@,
            AppErrorView::PackageExtractionFailed(m) => "Can't read the package: "@ + m,
            AppErrorView::BuildFailed(m) => "Can't build the image: "@ + m,
            AppErrorView::RuntimeExecutionFailed(m) => "Container runtime failed: "@ + m,
        }
    }
}

impl AppError {
    /// The message shown to the user.
    pub fn message(&self) -> (s: String)
        ensures
            s@ == self@.message(),
    {
        match self {
            AppError::IOFailure(m) => m.clone(),
            AppError::DuplicateProgram(n) => splice3(
                "Program with such name already exists '",
                n.as_str(),
                "'. Remove it first or use a custom tag with -t (--tag) option",
            ),
            AppError::ProgramNotFound(n) => splice3("Can't find a program '", n.as_str(), "'"),
            AppError::UnsupportedFeature(f) => {
                let label = f.label();
                splice3("You have set unavailable feature '", label.as_str(), "'")
            },
            AppError::InvalidPackageMetadata => "Package metadata names no package".to_owned(),
            AppError::PackageExtractionFailed(m) => splice("Can't read the package: ", m.as_str()),
            AppError::BuildFailed(m) => splice("Can't build the image: ", m.as_str()),
            AppError::RuntimeExecutionFailed(m) => splice(
                "Container runtime failed: ",
                m.as_str(),
            ),
        }
    }
}

/// Why the container runtime did not do what it was asked to.
#[derive(Debug, PartialEq, Eq)]
pub enum GatewayError {
    /// The runtime knows no container or image of that name.
    NotFound,
    /// Any other failure; holds what the runtime reported.
    Other(String),
}

/// A [`GatewayError`] as a mathematical value.
pub enum GatewayErrorView {
    NotFound,
    Other(Seq<char>),
}

impl View for GatewayError {
    type V = GatewayErrorView;

    open spec fn view(&self) -> GatewayErrorView {
        match self {
            GatewayError::NotFound => GatewayErrorView::NotFound,
            GatewayError::Other(m) => GatewayErrorView::Other(m@),
        }
    }
}

impl GatewayErrorView {
    /// The cause as text.
    pub open spec fn message(self) -> Seq<char> {
        match self {
            GatewayErrorView::NotFound => "container or image not found"@,
            GatewayErrorView::Other(m) => m,
        }
    }
}

impl GatewayError {
    /// The cause as text.
    pub fn message(&self) -> (s: String)
        ensures
            s@ == self@.message(),
    {
        match self {
            GatewayError::NotFound => "container or image not found".to_owned(),
            GatewayError::Other(m) => m.clone(),
        }
    }
}

/// The view of what the runtime answered.
pub open spec fn outcome_view(outcome: Result<(), GatewayError>) -> Result<(), GatewayErrorView> {
    match outcome {
        Ok(()) => Ok(()),
        Err(e) => Err(e@),
    }
}

} // verus!
