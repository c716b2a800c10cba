//! What a driver reports while a socket's descriptor is being set up.

use vstd::prelude::*;
use crate::error::{OsError, OsErrorView};

verus! {

/// The outcome of one set-up operation.
#[derive(Debug, Clone, PartialEq, Eq)]
pub enum SetupEvent {
    /// The socket was created; holds its descriptor.
    Descriptor(i32),
    /// The interface name was looked up; holds its index, 0 for none.
    InterfaceIndex(u32),
    /// The operation went through.
    Completed,
    /// The operation failed.
    Failed(OsError),
}

/// The mathematical value of a [`SetupEvent`].
pub enum SetupEventView {
    Descriptor(i32),
    InterfaceIndex(u32),
    Completed,
    Failed(OsErrorView),
}

impl View for SetupEvent {
    type V = SetupEventView;

    open spec fn view(&self) -> SetupEventView {
        match self {
            SetupEvent::Descriptor(fd) => SetupEventView::Descriptor(*fd),
            SetupEvent::InterfaceIndex(index) => SetupEventView::InterfaceIndex(*index),
            SetupEvent::Completed => SetupEventView::Completed,
            SetupEvent::Failed(cause) => SetupEventView::Failed(cause@),
        }
    }
}

} // verus!
