//! What can go wrong with a lookup.

use vstd::prelude::*;
use vstd::string::{StrSliceExecFns, StringExecFns};

verus! {

/// Why a lookup gave no answer.
#[derive(Debug)]
pub enum DnsCheckError {
    /// The resolver service answered with an error: its name and its text.
    DBus(String, String),
    /// The resolver service is not part of this build.
    NoDBus,
    /// The resolver service could not be reached.
    NoResolved(String),
    /// The name does not exist: the text that came with the answer.
    NxDomain(String),
    /// Any other failure.
    Unknown(String),
}

/// An error with its texts as sequences of characters.
pub enum ErrorView {
    DBus(Seq<char>, Seq<char>),
    NoDBus,
    NoResolved(Seq<char>),
    NxDomain(Seq<char>),
    Unknown(Seq<char>),
}

impl View for DnsCheckError {
    type V = ErrorView;

    open spec fn view(&self) -> ErrorView {
        match self {
            DnsCheckError::DBus(name, description) => ErrorView::DBus(name@, description@),
            DnsCheckError::NoDBus => ErrorView::NoDBus,
            DnsCheckError::NoResolved(reason) => ErrorView::NoResolved(reason@),
            DnsCheckError::NxDomain(description) => ErrorView::NxDomain(description@),
            DnsCheckError::Unknown(reason) => ErrorView::Unknown(reason@),
        }
    }
}

/// The error names with which the resolver service says that a name does not
/// exist begin with this.
pub open spec fn nxdomain_prefix() -> Seq<char> {
    "org.freedesktop.resolve1.DnsError.NXDOMAIN"@
}

/// Whether an error name of the resolver service says that the name does not
/// exist.
pub open spec fn names_nxdomain(name: Seq<char>) -> bool {
    nxdomain_prefix().is_prefix_of(name)
}

/// The error that an error answer of the resolver service stands for.
pub open spec fn method_error(name: Seq<char>, description: Seq<char>) -> ErrorView {
    if names_nxdomain(name) {
        ErrorView::NxDomain(description)
    } else {
        ErrorView::DBus(name, description)
    }
}

/// The message of an error.
pub open spec fn error_text(error: ErrorView) -> Seq<char> {
    match error {
        ErrorView::DBus(name, description) => "DBus reported "@ + name + ": "@ + description,
        ErrorView::NoDBus => "DBus support is missing"@,
        ErrorView::NoResolved(reason) => "systemd-resolved not found: "@ + reason,
        ErrorView::NxDomain(description) => "NXDOMAIN "@ + description,
        ErrorView::Unknown(reason) => "Something went wrong: "@ + reason,
    }
}

/// Whether `text` begins with `prefix`.
pub fn starts_with(text: &str, prefix: &str) -> (found: bool)
    ensures
        found == prefix@.is_prefix_of(text@),
{
    let wanted = prefix.unicode_len();
    if text.unicode_len() < wanted {
        return false;
    }
    let mut i: usize = 0;
    while i < wanted
        invariant
            i <= wanted == prefix@.len() <= text@.len(),
            forall|j: int| 0 <= j < i ==> text@[j] == prefix@[j],
        decreases wanted - i,
    {
        if text.get_char(i) != prefix.get_char(i) {
            return false;
        }
        i = i + 1;
    }
    true
}

impl DnsCheckError {
    /// The error that an error answer of the resolver service stands for:
    /// `NxDomain` where its name says that the name does not exist, `DBus`
    /// otherwise.
    pub fn from_method_error(name: String, description: String) -> (error: DnsCheckError)
        ensures
            error@ == method_error(name@, description@),
            names_nxdomain(name@) <==> error is NxDomain,
            !names_nxdomain(name@) <==> error is DBus,
    {
        if starts_with(name.as_str(), "org.freedesktop.resolve1.DnsError.NXDOMAIN") {
            DnsCheckError::NxDomain(description)
        } else {
            DnsCheckError::DBus(name, description)
        }
    }

    /// The message of the error, for people to read.
    pub fn message(&self) -> (text: String)
        ensures
            text@ == error_text(self@),
    {
        match self {
            DnsCheckError::DBus(name, description) => {
                let mut text = String::from_str("DBus reported ");
                text.append(name.as_str());
                text.append(": ");
                text.append(description.as_str());
                text
            },
            DnsCheckError::NoDBus => String::from_str("DBus support is missing"),
            DnsCheckError::NoResolved(reason) => {
                let mut text = String::from_str("systemd-resolved not found: ");
                text.append(reason.as_str());
                text
            },
            DnsCheckError::NxDomain(description) => {
                let mut text = String::from_str("NXDOMAIN ");
                text.append(description.as_str());
                text
            },
            DnsCheckError::Unknown(reason) => {
                let mut text = String::from_str("Something went wrong: ");
                text.append(reason.as_str());
                text
            },
        }
    }
}

} // verus!
