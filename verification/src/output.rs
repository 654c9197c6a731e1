//! The two ways a session's frames leave it: as one still image, or as a
//! video stream.

use vstd::prelude::*;
use crate::output::image::{ImageOutput, ImageOutputView, IMAGE_EXTENSION};
use crate::output::video::{VideoOutput, VideoOutputView, VIDEO_EXTENSION};
use crate::util::Size;
use crate::video::{step, valid_frame_rate, valid_frame_size, Event, Op, Rational};
use crate::Error;

pub mod image;
pub mod video;

verus! {

/// What every output does with the frames of a session.
pub trait OutputBehavior: Sized {
    /// The output is as its constructor made it and its methods left it.
    spec fn valid(&self) -> bool;

    /// A captured frame of `len` bytes holds all the pixels that the output
    /// reads.
    spec fn takes(&self, len: int) -> bool;

    /// Takes one captured frame.
    fn encode_frame(&mut self, view: &[u8]) -> (result: Result<Action, Error>)
        requires
            old(self).valid(),
            old(self).takes(view.len() as int),
        ensures
            final(self).valid(),
    ;

    /// Ends the session's output.
    fn conclude(&mut self) -> (result: Result<Action, Error>)
        requires
            old(self).valid(),
        ensures
            final(self).valid(),
    ;
}

/// What the caller does next for an output.
#[derive(Debug, Clone, Copy, PartialEq, Eq, Structural)]
pub enum Action {
    /// Nothing: the output waits for the next frame.
    Idle,
    /// Stamp the converted frame with `pts` and submit it to the codec, then
    /// ask the codec for a packet.
    SendFrame { pts: i64 },
    /// Submit the empty frame that ends the stream, then ask the codec for a
    /// packet.
    SendFlush,
    /// Rescale the packet's timestamps from `time_base` to the stream's time
    /// base and hand it to the muxer, then ask the codec for another.
    WritePacket { time_base: Rational },
    /// Write the container's trailer.
    WriteTrailer,
    /// Write the accumulated image to its file.
    SaveImage,
}

/// `std::path::Path::extension`: the extension of the file that the path
/// names, where it has one. What counts as the file's name depends on the
/// platform; but the extension is what stands behind a dot in that name, so
/// a path without a dot has none.
#[verifier::external_body]
fn extension_of(path: &str) -> (extension: Option<String>)
    ensures
        !path@.contains('.') ==> extension is None,
{
    std::path::Path::new(path).extension().map(|e| e.to_string_lossy().into_owned())
}

/// No character of `extension` parts the components of a path, whatever
/// the platform.
pub open spec fn no_separator(extension: Seq<char>) -> bool {
    forall|i: int| 0 <= i < extension.len() ==> extension[i] != '/' && extension[i] != '\\'
}

/// `part` stands somewhere in `whole`.
pub open spec fn holds_part(whole: Seq<char>, part: Seq<char>) -> bool {
    exists|i: int| 0 <= i <= whole.len() && part.is_prefix_of(#[trigger] whole.skip(i))
}

/// The path is the plain name of a file: it is not empty and holds no dot,
/// no separator and no colon. On every platform such a path is one component,
/// the file's name, and has no extension.
pub open spec fn plain_name(path: Seq<char>) -> bool {
    &&& path.len() > 0
    &&& !path.contains('.')
    &&& !path.contains(':')
    &&& no_separator(path)
}

/// `std::path::Path::with_extension`: the path with `extension` as the
/// extension of the file it names. It panics on an extension that holds a
/// path separator, so none is let in.
///
/// A path without a dot has no extension on any platform: the extension is
/// added behind a dot, unless the path names no file and is left as it is.
/// Where the path is the plain name of a file, the result is that name, the
/// dot and the extension. Of a path with a dot nothing is said, as what its
/// file's name is depends on the platform.
#[verifier::external_body]
fn with_extension(path: &str, extension: &str) -> (completed: String)
    requires
        no_separator(extension@),
    ensures
        plain_name(path@) && extension@.len() > 0 ==> completed@ == path@ + seq!['.'] + extension@,
        !path@.contains('.') && extension@.len() > 0 ==> completed@ == path@ || holds_part(
            completed@,
            seq!['.'] + extension@,
        ),
{
    std::path::Path::new(path).with_extension(extension).to_string_lossy().into_owned()
}

/// The file of an output: the path as it is where it has an extension, and
/// the completed one where it has none.
pub fn choose_output_file(path: &str, has_extension: bool, completed: String) -> (file: String)
    ensures
        file@ == if has_extension {
            path@
        } else {
            completed@
        },
{
    if has_extension {
        path.to_owned()
    } else {
        completed
    }
}

/// The file that an output with the path `path` is written to: `path`, with
/// `extension` where it has none.
///
/// Whether a path has an extension is for the platform to say. A path that
/// is the plain name of a file has none on any platform: the file is that
/// name, a dot and the extension. Any other path without a dot has none
/// either: the file carries the extension behind a dot, unless the path
/// names no file and is the file as it is.
pub fn output_file(path: &str, extension: &str) -> (file: String)
    requires
        no_separator(extension@),
    ensures
        plain_name(path@) && extension@.len() > 0 ==> file@ == path@ + seq!['.'] + extension@,
        !path@.contains('.') && extension@.len() > 0 ==> file@ == path@ || holds_part(
            file@,
            seq!['.'] + extension@,
        ),
{
    let given = extension_of(path);
    let completed = with_extension(path, extension);
    choose_output_file(path, given.is_some(), completed)
}

/// The output of a session: one of the two, chosen when the session starts
/// and kept until it ends.
pub enum Output {
    ImageOutput(ImageOutput),
    VideoOutput(VideoOutput),
}

/// What an output holds.
pub enum OutputView {
    Image(ImageOutputView),
    Video(VideoOutputView),
}

impl OutputView {
    /// Where the output is to be written, as it was given.
    pub open spec fn output_path(self) -> Seq<char> {
        match self {
            OutputView::Image(output) => output.output_path,
            OutputView::Video(output) => output.output_path,
        }
    }

    /// The extension that the output's file gets where its path has none.
    pub open spec fn extension(self) -> Seq<char> {
        match self {
            OutputView::Image(_) => IMAGE_EXTENSION@,
            OutputView::Video(_) => VIDEO_EXTENSION@,
        }
    }
}

impl View for Output {
    type V = OutputView;

    open spec fn view(&self) -> OutputView {
        match self {
            Output::ImageOutput(output) => OutputView::Image(output@),
            Output::VideoOutput(output) => OutputView::Video(output@),
        }
    }
}

impl Output {
    /// The output that a session of frames of `size` starts with: a still
    /// image where `single_frame` asks for one, a video stream at `frame_rate`
    /// frames per second else.
    pub fn new(size: Size, output_path: String, single_frame: bool, frame_rate: u32) -> (result:
        Result<Self, Error>)
        requires
            single_frame ==> size.row_bytes() <= usize::MAX && size.row_bytes() * size.height
                <= usize::MAX,
        ensures
            single_frame ==> match result {
                Ok(Output::ImageOutput(output)) => output@.fresh(size, output_path@),
                _ => false,
            },
            !single_frame ==> match result {
                Ok(Output::VideoOutput(output)) => {
                    &&& valid_frame_size(size)
                    &&& valid_frame_rate(frame_rate)
                    &&& output@.encoder.fresh(size, frame_rate)
                    &&& output@.output_path == output_path@
                },
                Ok(Output::ImageOutput(_)) => false,
                Err(e) => if !valid_frame_size(size) {
                    e == Error::InvalidSize
                } else {
                    !valid_frame_rate(frame_rate) && e == Error::InvalidFrameRate
                },
            },
    {
        if single_frame {
            Ok(Output::ImageOutput(ImageOutput::new(size, output_path)))
        } else {
            match VideoOutput::new(size, output_path, frame_rate) {
                Ok(output) => Ok(Output::VideoOutput(output)),
                Err(e) => Err(e),
            }
        }
    }

    /// The extension that the output's file gets where its path has none.
    pub fn extension(&self) -> (extension: &'static str)
        ensures
            extension@ == self@.extension(),
    {
        match self {
            Output::ImageOutput(_) => IMAGE_EXTENSION,
            Output::VideoOutput(_) => VIDEO_EXTENSION,
        }
    }

    /// Where the output is to be written, as it was given.
    pub fn output_path(&self) -> (path: &String)
        ensures
            path@ == self@.output_path(),
    {
        match self {
            Output::ImageOutput(output) => output.output_path(),
            Output::VideoOutput(output) => output.output_path(),
        }
    }

    /// The file that the output is written to: its path, with the extension
    /// of its kind where the path has none.
    ///
    /// The platform says whether a path has an extension. A path that is the
    /// plain name of a file has none on any platform, and gets it.
    pub fn output_file(&self) -> (file: String)
        ensures
            plain_name(self@.output_path()) ==> file@ == self@.output_path() + seq!['.']
                + self@.extension(),
            !self@.output_path().contains('.') ==> file@ == self@.output_path() || holds_part(
                file@,
                seq!['.'] + self@.extension(),
            ),
    {
        match self {
            Output::ImageOutput(output) => output.output_file(),
            Output::VideoOutput(output) => output.output_file(),
        }
    }

    /// Takes what came of asking the codec for a packet. An image has no
    /// codec, and nothing to take.
    pub fn write(&mut self, event: Event) -> (result: Result<Action, Error>)
        requires
            old(self).valid(),
        ensures
            final(self).valid(),
            match (*old(self), *final(self)) {
                (Output::ImageOutput(before), Output::ImageOutput(after)) => {
                    &&& result == Err::<Action, Error>(Error::NotDraining)
                    &&& after@ == before@
                },
                (Output::VideoOutput(before), Output::VideoOutput(after)) => {
                    &&& (after@.encoder.session(), result) == step(
                        before@.encoder.session(),
                        Op::Write(event),
                    )
                    &&& after@.encoder.size == before@.encoder.size
                    &&& after@.encoder.frame_rate == before@.encoder.frame_rate
                    &&& after@.encoder.y == before@.encoder.y
                    &&& after@.encoder.u == before@.encoder.u
                    &&& after@.encoder.v == before@.encoder.v
                    &&& after@.output_path == before@.output_path
                },
                _ => false,
            },
    {
        match self {
            Output::ImageOutput(_) => Err(Error::NotDraining),
            Output::VideoOutput(output) => output.write(event),
        }
    }
}

impl OutputBehavior for Output {
    open spec fn valid(&self) -> bool {
        match self {
            Output::ImageOutput(output) => output.valid(),
            Output::VideoOutput(output) => output.valid(),
        }
    }

    open spec fn takes(&self, len: int) -> bool {
        match self {
            Output::ImageOutput(output) => output.takes(len),
            Output::VideoOutput(output) => output.takes(len),
        }
    }

    /// Hands the frame to the output that the session started with.
    fn encode_frame(&mut self, view: &[u8]) -> (result: Result<Action, Error>)
        ensures
            match (*old(self), *final(self)) {
                (Output::ImageOutput(before), Output::ImageOutput(after)) => {
                    &&& result == Ok::<Action, Error>(Action::Idle)
                    &&& after@.size == before@.size
                    &&& after@.output_path == before@.output_path
                    &&& after@.holds_frame(view@)
                },
                (Output::VideoOutput(before), Output::VideoOutput(after)) => {
                    &&& (after@.encoder.session(), result) == step(
                        before@.encoder.session(),
                        Op::Encode,
                    )
                    &&& after@.encoder.size == before@.encoder.size
                    &&& after@.encoder.frame_rate == before@.encoder.frame_rate
                    &&& after@.output_path == before@.output_path
                    &&& result is Ok ==> after@.encoder.holds_frame(view@)
                    &&& result is Err ==> after@ == before@
                },
                _ => false,
            },
    {
        match self {
            Output::ImageOutput(output) => output.encode_frame(view),
            Output::VideoOutput(output) => output.encode_frame(view),
        }
    }

    /// Ends the output that the session started with.
    fn conclude(&mut self) -> (result: Result<Action, Error>)
        ensures
            match (*old(self), *final(self)) {
                (Output::ImageOutput(before), Output::ImageOutput(after)) => {
                    &&& result == Ok::<Action, Error>(Action::SaveImage)
                    &&& after@ == before@
                },
                (Output::VideoOutput(before), Output::VideoOutput(after)) => {
                    &&& (after@.encoder.session(), result) == step(
                        before@.encoder.session(),
                        Op::Conclude,
                    )
                    &&& after@.encoder.size == before@.encoder.size
                    &&& after@.encoder.frame_rate == before@.encoder.frame_rate
                    &&& after@.encoder.y == before@.encoder.y
                    &&& after@.encoder.u == before@.encoder.u
                    &&& after@.encoder.v == before@.encoder.v
                    &&& after@.output_path == before@.output_path
                },
                _ => false,
            },
    {
        match self {
            Output::ImageOutput(output) => output.conclude(),
            Output::VideoOutput(output) => output.conclude(),
        }
    }
}

} // verus!
