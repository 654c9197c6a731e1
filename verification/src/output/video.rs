//! A video stream as a session's output.

use vstd::prelude::*;
use crate::output::{holds_part, output_file, plain_name, Action, OutputBehavior};
use crate::util::Size;
use crate::video::{
    frame_fits, step, valid_frame_rate, valid_frame_size, Event, Op, VideoEncoder,
    VideoEncoderView,
};
use crate::Error;

verus! {

/// The extension that the file of a video gets where none is given.
pub const VIDEO_EXTENSION: &'static str = "mp4";

/// An output that feeds every captured frame to the encoder of a stream.
pub struct VideoOutput {
    encoder: VideoEncoder,
    output_path: String,
}

/// What a video output holds.
pub struct VideoOutputView {
    pub encoder: VideoEncoderView,
    pub output_path: Seq<char>,
}

impl View for VideoOutput {
    type V = VideoOutputView;

    closed spec fn view(&self) -> VideoOutputView {
        VideoOutputView { encoder: self.encoder@, output_path: self.output_path@ }
    }
}

impl VideoOutput {
    /// An output for frames of `size` at `frame_rate` frames per second, with
    /// no frame submitted yet.
    pub fn new(size: Size, output_path: String, frame_rate: u32) -> (result: Result<Self, Error>)
        ensures
            match result {
                Ok(output) => {
                    &&& valid_frame_size(size)
                    &&& valid_frame_rate(frame_rate)
                    &&& output@.encoder.fresh(size, frame_rate)
                    &&& output@.output_path == output_path@
                },
                Err(e) => if !valid_frame_size(size) {
                    e == Error::InvalidSize
                } else {
                    !valid_frame_rate(frame_rate) && e == Error::InvalidFrameRate
                },
            },
    {
        match VideoEncoder::open(size, frame_rate) {
            Ok(encoder) => Ok(Self { encoder, output_path }),
            Err(e) => Err(e),
        }
    }

    /// The file that the video is written to: the path, with the extension
    /// of a video where it has none.
    ///
    /// The platform says whether a path has an extension. A path that is the
    /// plain name of a file has none on any platform, and gets it.
    pub fn output_file(&self) -> (file: String)
        ensures
            plain_name(self@.output_path) ==> file@ == self@.output_path + seq!['.']
                + VIDEO_EXTENSION@,
            !self@.output_path.contains('.') ==> file@ == self@.output_path || holds_part(
                file@,
                seq!['.'] + VIDEO_EXTENSION@,
            ),
    {
        proof {
            reveal_strlit("mp4");
        }
        output_file(self.output_path.as_str(), VIDEO_EXTENSION)
    }

    /// The encoder of the stream.
    pub fn encoder(&self) -> (encoder: &VideoEncoder)
        ensures
            encoder@ == self@.encoder,
    {
        &self.encoder
    }

    /// Where the video is to be written, as it was given.
    pub fn output_path(&self) -> (path: &String)
        ensures
            path@ == self@.output_path,
    {
        &self.output_path
    }

    /// Takes what came of asking the codec for a packet.
    pub fn write(&mut self, event: Event) -> (result: Result<Action, Error>)
        requires
            old(self)@.encoder.wf(),
        ensures
            final(self)@.encoder.wf(),
            (final(self)@.encoder.session(), result) == step(
                old(self)@.encoder.session(),
                Op::Write(event),
            ),
            final(self)@.encoder.size == old(self)@.encoder.size,
            final(self)@.encoder.frame_rate == old(self)@.encoder.frame_rate,
            final(self)@.encoder.y == old(self)@.encoder.y,
            final(self)@.encoder.u == old(self)@.encoder.u,
            final(self)@.encoder.v == old(self)@.encoder.v,
            final(self)@.output_path == old(self)@.output_path,
    {
        self.encoder.write(event)
    }
}

impl OutputBehavior for VideoOutput {
    open spec fn valid(&self) -> bool {
        self@.encoder.wf()
    }

    open spec fn takes(&self, len: int) -> bool {
        frame_fits(
            len,
            self@.encoder.size.bytes_per_row as int,
            self@.encoder.size.width as int,
            self@.encoder.size.height as int,
        )
    }

    /// Converts the frame and stamps it, for the caller to submit.
    fn encode_frame(&mut self, view: &[u8]) -> (result: Result<Action, Error>)
        ensures
            (final(self)@.encoder.session(), result) == step(
                old(self)@.encoder.session(),
                Op::Encode,
            ),
            final(self)@.encoder.size == old(self)@.encoder.size,
            final(self)@.encoder.frame_rate == old(self)@.encoder.frame_rate,
            final(self)@.output_path == old(self)@.output_path,
            result is Ok ==> final(self)@.encoder.holds_frame(view@),
            result is Err ==> final(self)@ == old(self)@,
    {
        self.encoder.encode(view)
    }

    /// Ends the stream.
    fn conclude(&mut self) -> (result: Result<Action, Error>)
        ensures
            (final(self)@.encoder.session(), result) == step(
                old(self)@.encoder.session(),
                Op::Conclude,
            ),
            final(self)@.encoder.size == old(self)@.encoder.size,
            final(self)@.encoder.frame_rate == old(self)@.encoder.frame_rate,
            final(self)@.encoder.y == old(self)@.encoder.y,
            final(self)@.encoder.u == old(self)@.encoder.u,
            final(self)@.encoder.v == old(self)@.encoder.v,
            final(self)@.output_path == old(self)@.output_path,
    {
        self.encoder.conclude()
    }
}

} // verus!
