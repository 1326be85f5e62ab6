//! The errors that the library reports.

use vstd::prelude::*;

verus! {

/// What went wrong in a USB operation.
#[derive(Debug, Clone, Copy, PartialEq, Eq, Structural)]
pub enum UsbError {
    Io,
    InvalidParam,
    Access,
    NoDevice,
    NotFound,
    Busy,
    Timeout,
    Overflow,
    Pipe,
    Interrupted,
    NoMem,
    NotSupported,
    BadDescriptor,
    Other,
}

#[derive(Debug)]
pub enum RtlsdrError {
    /// An error of the library itself, with its message.
    RtlsdrErr(String),
    /// An error that the USB layer reported.
    Usb(UsbError),
}

/// What an [`RtlsdrError`] says, with the message as a sequence of characters.
#[verifier::ext_equal]
pub enum ErrorView {
    Message(Seq<char>),
    Usb(UsbError),
}

impl View for RtlsdrError {
    type V = ErrorView;

    open spec fn view(&self) -> ErrorView {
        match self {
            RtlsdrError::RtlsdrErr(text) => ErrorView::Message(text@),
            RtlsdrError::Usb(e) => ErrorView::Usb(*e),
        }
    }
}

impl ErrorView {
    /// A bulk read that merely ran out of time, or that a signal cut short, is tried again.
    pub open spec fn is_transient(self) -> bool {
        self == ErrorView::Usb(UsbError::Timeout) || self == ErrorView::Usb(UsbError::Interrupted)
    }
}

impl RtlsdrError {
    /// An error of the library itself.
    pub fn message(text: &str) -> (e: RtlsdrError)
        ensures
            e@ == ErrorView::Message(text@),
    {
        RtlsdrError::RtlsdrErr(text.to_owned())
    }

    /// Whether a bulk read that failed in this way is simply tried again.
    pub fn is_transient(&self) -> (b: bool)
        ensures
            b == self@.is_transient(),
    {
        match self {
            RtlsdrError::Usb(UsbError::Timeout) => true,
            RtlsdrError::Usb(UsbError::Interrupted) => true,
            _ => false,
        }
    }
}

/// An error reads as what it is: its message, letter for letter, or the kind of USB error. Of all
/// errors, a bulk read is tried again only after a timeout and after an interruption.
pub proof fn law_error_reads_as_it_is(e: RtlsdrError)
    ensures
        match e {
            RtlsdrError::RtlsdrErr(text) => e@ == ErrorView::Message(text@),
            RtlsdrError::Usb(kind) => e@ == ErrorView::Usb(kind),
        },
        e@.is_transient() <==> (e matches RtlsdrError::Usb(kind) && (kind == UsbError::Timeout
            || kind == UsbError::Interrupted)),
{
}

} // verus!
