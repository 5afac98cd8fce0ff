//! The two kinds of failure: one that ends a request, one that ends the process.

use vstd::prelude::*;

verus! {

/// A statement failed while a request was being served. The request is
/// abandoned; the service goes on.
#[derive(Debug, Clone, PartialEq, Eq)]
pub struct StoreError {
    /// The database driver's description of what went wrong.
    pub message: String,
}

impl View for StoreError {
    type V = Seq<char>;

    open spec fn view(&self) -> Seq<char> {
        self.message@
    }
}

impl StoreError {
    pub fn new(message: String) -> (e: StoreError)
        ensures
            e.message == message,
    {
        StoreError { message }
    }

    /// The text that the caller of the service gets to see.
    pub fn into_message(self) -> (message: String)
        ensures
            message == self.message,
    {
        self.message
    }
}

/// The step of start-up that failed. Each is fatal: no request is served.
#[derive(Debug, Clone, Copy, PartialEq, Eq, Structural)]
pub enum StartupStage {
    /// The database could not be reached.
    Connect,
    /// The statement that creates the users table failed.
    CreateTable,
    /// The cross-origin policy was rejected.
    CrossOrigin,
}

/// A fatal failure during start-up.
#[derive(Debug, Clone, PartialEq, Eq)]
pub struct StartupError {
    pub stage: StartupStage,
    /// What the failing component reported.
    pub detail: String,
}

impl StartupStage {
    /// What is announced when this step fails.
    pub open spec fn headline_text(self) -> Seq<char> {
        match self {
            StartupStage::Connect => "Failed to connect to Postgres"@,
            StartupStage::CreateTable => "Failed to create table"@,
            StartupStage::CrossOrigin => "Error while building CORS"@,
        }
    }

    pub fn headline(self) -> (text: &'static str)
        ensures
            text@ == self.headline_text(),
    {
        match self {
            StartupStage::Connect => "Failed to connect to Postgres",
            StartupStage::CreateTable => "Failed to create table",
            StartupStage::CrossOrigin => "Error while building CORS",
        }
    }
}

impl StartupError {
    pub fn new(stage: StartupStage, detail: String) -> (e: StartupError)
        ensures
            e.stage == stage,
            e.detail == detail,
    {
        StartupError { stage, detail }
    }
}

} // verus!
