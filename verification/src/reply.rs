//! What the two resolvers hand back, as plain values.

use vstd::prelude::*;
use crate::error::names_nxdomain;

verus! {

/// What came back from the resolver service.
#[derive(Debug)]
pub enum PrimaryReply {
    /// The service is not part of this build.
    Unsupported,
    /// The service could not be reached: the reason.
    Unreachable(String),
    /// The service answered with an error: its name and its text.
    Failed { name: String, description: String },
    /// The service answered with this many address records.
    Resolved { records: usize },
}

/// A reply of the resolver service with its texts as sequences of
/// characters.
pub enum PrimaryReplyView {
    Unsupported,
    Unreachable(Seq<char>),
    Failed { name: Seq<char>, description: Seq<char> },
    Resolved { records: usize },
}

impl View for PrimaryReply {
    type V = PrimaryReplyView;

    open spec fn view(&self) -> PrimaryReplyView {
        match self {
            PrimaryReply::Unsupported => PrimaryReplyView::Unsupported,
            PrimaryReply::Unreachable(reason) => PrimaryReplyView::Unreachable(reason@),
            PrimaryReply::Failed { name, description } => PrimaryReplyView::Failed {
                name: name@,
                description: description@,
            },
            PrimaryReply::Resolved { records } => PrimaryReplyView::Resolved { records: *records },
        }
    }
}

/// Why the platform's resolver gave no addresses.
#[derive(Debug, Clone, Copy, PartialEq, Eq)]
pub enum ResolveFailure {
    /// Temporary failure in name resolution.
    Again,
    /// Invalid flags.
    Badflags,
    /// The name is unknown.
    NoName,
    /// The name exists, but has no data.
    NoData,
    /// Non-recoverable failure in name resolution.
    Fail,
    /// Address family not supported.
    Family,
    /// Socket type not supported.
    Socktype,
    /// Service not supported for the socket type.
    Service,
    /// Memory allocation failure.
    Memory,
    /// System error.
    System,
    /// A result code that is not known.
    Unknown,
    /// An input or output error.
    IO,
}

/// What came back from the platform's resolver.
#[derive(Debug)]
pub enum SecondaryReply {
    /// The resolver gave this many addresses.
    Resolved { records: usize },
    /// The resolver failed: the kind of failure and its text.
    Failed { kind: ResolveFailure, message: String },
}

/// A reply of the platform's resolver with its text as a sequence of
/// characters.
pub enum SecondaryReplyView {
    Resolved { records: usize },
    Failed { kind: ResolveFailure, message: Seq<char> },
}

impl View for SecondaryReply {
    type V = SecondaryReplyView;

    open spec fn view(&self) -> SecondaryReplyView {
        match self {
            SecondaryReply::Resolved { records } => SecondaryReplyView::Resolved {
                records: *records,
            },
            SecondaryReply::Failed { kind, message } => SecondaryReplyView::Failed {
                kind: *kind,
                message: message@,
            },
        }
    }
}

impl PrimaryReplyView {
    /// The service says that the name does not exist.
    pub open spec fn not_found(self) -> bool {
        self matches PrimaryReplyView::Failed { name, .. } && names_nxdomain(name)
    }

    /// The service reports a failure other than a name that does not exist.
    pub open spec fn failure(self) -> bool {
        self matches PrimaryReplyView::Failed { name, .. } && !names_nxdomain(name)
    }

    /// The service is absent or out of reach.
    pub open spec fn unavailable(self) -> bool {
        self is Unsupported || self is Unreachable
    }
}

impl SecondaryReplyView {
    /// The resolver says that the name does not exist.
    pub open spec fn not_found(self) -> bool {
        self matches SecondaryReplyView::Failed { kind, .. } && kind is NoName
    }

    /// The resolver reports a failure other than a name that does not exist.
    pub open spec fn failure(self) -> bool {
        self matches SecondaryReplyView::Failed { kind, .. } && !(kind is NoName)
    }
}

} // verus!
