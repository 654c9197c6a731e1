//! Frame capture, pixel-format conversion and streaming video export for a
//! GPU renderer, with the growable buffer that feeds geometry to the GPU.
//!
//! Everything here is pure: the GPU, the codec and the file system are driven
//! by the caller, which performs the actions these types decide on and reports
//! back what happened.

use vstd::prelude::*;

pub mod args;
pub mod canvas;
pub mod data;
pub mod output;
pub mod renderer;
pub mod util;
pub mod video;

verus! {

/// Why a session cannot go on.
#[derive(Debug, Clone, Copy, PartialEq, Eq, Structural)]
pub enum Error {
    /// No adapter of the GPU suits the session.
    NoAdapterFound,
    /// The adapter did not hand out a device.
    RequestDeviceError,
    /// The frame has no pixels, an odd side, or a side the codec cannot count.
    InvalidSize,
    /// The frame rate is zero or more than the codec can count.
    InvalidFrameRate,
    /// A target that is written to a file keeps the size it started with.
    ResizeUnsupported,
    /// The codec has not answered the last submission, or its packets have
    /// not all been taken yet.
    Draining,
    /// Nothing was submitted whose packets could be taken.
    NotDraining,
    /// The stream has been concluded.
    Finalized,
    /// The session was aborted by an earlier failure.
    Aborted,
    /// The codec failed.
    Codec,
    /// Writing to the container failed.
    Io,
    /// No presentation timestamp is left for another frame.
    FrameLimit,
    /// The step asked of a readback buffer is not the one that is due.
    OutOfOrder,
}

impl Error {
    /// What went wrong, in words.
    pub fn message(self) -> (message: &'static str)
        ensures
            message@ == match self {
                Error::NoAdapterFound => "No adapter found."@,
                Error::RequestDeviceError => "The adapter handed out no device."@,
                Error::InvalidSize => "The frame size is not one that is encoded."@,
                Error::InvalidFrameRate => "The frame rate is not one that is encoded."@,
                Error::ResizeUnsupported => "Resizing is not supported in output mode"@,
                Error::Draining => "The codec is not done with what was submitted last."@,
                Error::NotDraining => "No frame was submitted."@,
                Error::Finalized => "The stream is concluded."@,
                Error::Aborted => "The session was aborted."@,
                Error::Codec => "The codec failed."@,
                Error::Io => "The container could not be written."@,
                Error::FrameLimit => "No timestamp is left."@,
                Error::OutOfOrder => "This step is not due."@,
            },
    {
        match self {
            Error::NoAdapterFound => "No adapter found.",
            Error::RequestDeviceError => "The adapter handed out no device.",
            Error::InvalidSize => "The frame size is not one that is encoded.",
            Error::InvalidFrameRate => "The frame rate is not one that is encoded.",
            Error::ResizeUnsupported => "Resizing is not supported in output mode",
            Error::Draining => "The codec is not done with what was submitted last.",
            Error::NotDraining => "No frame was submitted.",
            Error::Finalized => "The stream is concluded.",
            Error::Aborted => "The session was aborted.",
            Error::Codec => "The codec failed.",
            Error::Io => "The container could not be written.",
            Error::FrameLimit => "No timestamp is left.",
            Error::OutOfOrder => "This step is not due.",
        }
    }
}

} // verus!
