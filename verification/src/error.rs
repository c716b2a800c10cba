//! What can go wrong with a raw socket, and how a driver reports it.

use vstd::prelude::*;
use vstd::string::*;
use crate::text::{signed_decimal, signed_decimal_text};

verus! {

/// The class the operating system's error code falls into, as far as the
/// sockets tell classes apart.
#[derive(Debug, Clone, Copy, PartialEq, Eq, Structural)]
pub enum OsErrorKind {
    /// The non-blocking call could not complete at once.
    WouldBlock,
    /// The caller lacks the privilege the call needs.
    PermissionDenied,
    /// Anything else.
    Other,
}

/// A failed operating-system call, as the driver saw it.
#[derive(Debug, Clone, PartialEq, Eq)]
pub struct OsError {
    /// The error code of the call.
    pub code: i32,
    /// The class of that code.
    pub kind: OsErrorKind,
    /// The operating system's text for the code.
    pub text: String,
}

/// The mathematical value of an [`OsError`].
pub struct OsErrorView {
    pub code: i32,
    pub kind: OsErrorKind,
    pub text: Seq<char>,
}

impl View for OsError {
    type V = OsErrorView;

    open spec fn view(&self) -> OsErrorView {
        OsErrorView { code: self.code, kind: self.kind, text: self.text@ }
    }
}

/// Why a socket could not be set up, or why a transfer ended.
#[derive(Debug, Clone, PartialEq, Eq)]
pub enum SocketError {
    /// The operating system refused to create the raw socket.
    PermissionDenied,
    /// The named interface has no index; holds the message.
    NotFound(String),
    /// Restricting the socket to the named interface was rejected.
    DeviceBindFailed { ifname: String, cause: OsError },
    /// Any other failed call, with its error code.
    Os(i32),
}

/// The mathematical value of a [`SocketError`].
pub enum SocketErrorView {
    PermissionDenied,
    NotFound(Seq<char>),
    DeviceBindFailed { ifname: Seq<char>, cause: OsErrorView },
    Os(i32),
}

impl View for SocketError {
    type V = SocketErrorView;

    open spec fn view(&self) -> SocketErrorView {
        match self {
            SocketError::PermissionDenied => SocketErrorView::PermissionDenied,
            SocketError::NotFound(message) => SocketErrorView::NotFound(message@),
            SocketError::DeviceBindFailed { ifname, cause } => SocketErrorView::DeviceBindFailed {
                ifname: ifname@,
                cause: cause@,
            },
            SocketError::Os(code) => SocketErrorView::Os(*code),
        }
    }
}

/// The text of the error for an interface name without an index.
pub open spec fn not_found_message(ifname: Seq<char>) -> Seq<char> {
    "interface '"@ + ifname + "' not found"@
}

/// The text of the error for a rejected device binding.
pub open spec fn device_bind_message(ifname: Seq<char>, text: Seq<char>) -> Seq<char> {
    "SO_BINDTODEVICE("@ + ifname + ") failed: "@ + text
}

impl SocketErrorView {
    /// The text of the error.
    pub open spec fn message(self) -> Seq<char> {
        match self {
            SocketErrorView::PermissionDenied => "permission denied"@,
            SocketErrorView::NotFound(message) => message,
            SocketErrorView::DeviceBindFailed { ifname, cause } => device_bind_message(
                ifname,
                cause.text,
            ),
            SocketErrorView::Os(code) => "os error "@ + signed_decimal(code as int),
        }
    }

    /// The error a failed socket creation stands for: a refusal for want of
    /// privilege is told apart, every other failure keeps its code.
    pub open spec fn creation(cause: OsErrorView) -> SocketErrorView {
        if cause.kind == OsErrorKind::PermissionDenied {
            SocketErrorView::PermissionDenied
        } else {
            SocketErrorView::Os(cause.code)
        }
    }

    /// The error for an interface name that does not resolve.
    pub open spec fn not_found(ifname: Seq<char>) -> SocketErrorView {
        SocketErrorView::NotFound(not_found_message(ifname))
    }
}

impl SocketError {
    /// Classifies a failed socket creation.
    pub fn creation(cause: &OsError) -> (error: SocketError)
        ensures
            error@ == SocketErrorView::creation(cause@),
    {
        match cause.kind {
            OsErrorKind::PermissionDenied => SocketError::PermissionDenied,
            _ => SocketError::Os(cause.code),
        }
    }

    /// The error for an interface name that does not resolve.
    pub fn not_found(ifname: &str) -> (error: SocketError)
        ensures
            error@ == SocketErrorView::not_found(ifname@),
    {
        let message = String::from_str("interface '").concat(ifname).concat("' not found");
        SocketError::NotFound(message)
    }

    /// The error for a rejected device binding on `ifname`.
    pub fn device_bind(ifname: &str, cause: OsError) -> (error: SocketError)
        ensures
            error@ == (SocketErrorView::DeviceBindFailed { ifname: ifname@, cause: cause@ }),
    {
        SocketError::DeviceBindFailed { ifname: String::from_str(ifname), cause }
    }

    /// The text of the error.
    pub fn message(&self) -> (message: String)
        ensures
            message@ == self@.message(),
    {
        match self {
            SocketError::PermissionDenied => String::from_str("permission denied"),
            SocketError::NotFound(message) => message.clone(),
            SocketError::DeviceBindFailed { ifname, cause } => String::from_str(
                "SO_BINDTODEVICE(",
            ).concat(ifname.as_str()).concat(") failed: ").concat(cause.text.as_str()),
            SocketError::Os(code) => String::from_str("os error ").concat(
                signed_decimal_text(*code).as_str(),
            ),
        }
    }
}

} // verus!
