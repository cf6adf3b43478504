//! What passes between the library and the caller who acts for it: requests
//! out, replies in, and the errors an operation can end with.

use vstd::prelude::*;

verus! {

/// The subcommands of `launchctl` that the library uses.
#[derive(Debug, Clone, Copy, PartialEq, Eq, Structural)]
pub enum Subcommand {
    /// `print <service target>`: describes a service; fails if it is not loaded.
    Print,
    /// `enable <service target>`: allows a service to be loaded.
    Enable,
    /// `bootstrap <domain target> <plist path>`: loads a service into a domain.
    Bootstrap,
    /// `kickstart <plist path>`: runs a loaded service at once.
    Kickstart,
    /// `bootout <domain target> <plist path>`: unloads a service from a domain.
    Bootout,
    /// `kill SIGTERM <service target>`: signals a service's process.
    Kill,
}

/// Why a request could not be carried out at all, as the operating system
/// told it.
#[derive(Debug, Clone, PartialEq, Eq)]
pub struct IoFailure {
    /// The operating system's error number, where there is one.
    pub code: Option<i32>,
    /// The error in words.
    pub message: String,
}

/// One thing the caller is asked to do before the operation can go on.
#[derive(Debug, Clone, PartialEq, Eq)]
pub enum Request {
    /// Find out whether there is a file at `path`.
    FileExists { path: String },
    /// Write an empty file at `path`.
    CreateEmpty { path: String },
    /// Run `program` with `args`, discard what it prints on either stream,
    /// and wait for it to exit.
    Run { program: String, args: Vec<String> },
}

/// The text of each string of a list.
pub open spec fn spec_texts(strings: Seq<String>) -> Seq<Seq<char>> {
    Seq::new(strings.len(), |i: int| strings[i]@)
}

/// A [`Request`] as text.
pub enum RequestView {
    FileExists { path: Seq<char> },
    CreateEmpty { path: Seq<char> },
    Run { program: Seq<char>, args: Seq<Seq<char>> },
}

impl View for Request {
    type V = RequestView;

    open spec fn view(&self) -> RequestView {
        match *self {
            Request::FileExists { path } => RequestView::FileExists { path: path@ },
            Request::CreateEmpty { path } => RequestView::CreateEmpty { path: path@ },
            Request::Run { program, args } => RequestView::Run {
                program: program@,
                args: spec_texts(args@),
            },
        }
    }
}

/// What came of a [`Request`].
#[derive(Debug, Clone, PartialEq, Eq)]
pub enum Reply {
    /// The request was carried out. The flag is its answer: whether the file
    /// exists, whether the file was written, whether the program exited with
    /// status zero.
    Completed(bool),
    /// The request could not be carried out: the file system refused, or the
    /// program could not be run.
    Failed(IoFailure),
}

/// How an operation on a service can fail.
#[derive(Debug, Clone, PartialEq, Eq)]
pub enum ServiceError {
    /// A log file could not be written, or `launchctl` could not be run.
    Io(IoFailure),
    /// `launchctl` ran the subcommand and exited with a status other than zero.
    Exit(Subcommand),
    /// `launchctl` could not be run to find out whether the service `name`
    /// is loaded.
    Probe { name: String, cause: IoFailure },
}

/// Where an operation stands after a reply: at its next step, or at its end.
#[derive(Debug, PartialEq, Eq)]
pub enum Progress<S> {
    /// The operation goes on with the request of this step.
    Next(S),
    /// The operation is over, and this is its result.
    Done(Result<(), ServiceError>),
}

} // verus!
