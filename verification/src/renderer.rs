//! A session: what it renders to, and the order of the work on each frame.

use vstd::prelude::*;
use crate::args::Args;
use crate::canvas::{readback_run, readback_step, CanvasBuffer, Readback, ReadbackOp};
use crate::output::{Action, Output, OutputBehavior};
use crate::util::Size;
use crate::video::{step, Event, Op};
use crate::Error;

verus! {

/// The widest target whose padded row pitch is counted in 32 bits.
pub const MAX_WIDTH: u32 = 0x3fff_ffc0;

/// What a session is started for.
pub enum RenderMode {
    /// A window of `width` by `height` pixels shows the frames.
    Preview { width: u32, height: u32 },
    /// A file takes the frames, as `args` say.
    Output { args: Args },
}

/// What a session renders to.
pub enum RenderTarget {
    /// The surface of a window.
    Window,
    /// A texture that is copied to `canvas_buf`, read back, and handed to
    /// `output`.
    Output { canvas_buf: CanvasBuffer, output: Output },
}

/// A step of the work on one frame.
#[derive(Debug, Clone, Copy, PartialEq, Eq, Structural)]
pub enum Step {
    /// Record the render pass that draws the frame.
    Draw,
    /// Submit the recorded commands to the queue.
    Submit,
    /// Present the surface's texture.
    Present,
    /// Take a step of reading the frame back.
    Readback(ReadbackOp),
    /// Hand the view to the output.
    Encode,
}

/// What the caller does about a new size.
#[derive(Debug, Clone, Copy, PartialEq, Eq, Structural)]
pub enum Resize {
    /// Nothing: a window without area is not drawn to.
    Ignored,
    /// Configure the surface and the camera for the new size.
    Reconfigure { width: u32, height: u32 },
}

/// The steps of one frame that is shown in a window.
pub open spec fn window_frame() -> Seq<Step> {
    seq![Step::Draw, Step::Submit, Step::Present]
}

/// The steps of one frame that goes to a file.
pub open spec fn output_frame() -> Seq<Step> {
    seq![
        Step::Draw,
        Step::Readback(ReadbackOp::Copy),
        Step::Submit,
        Step::Readback(ReadbackOp::RequestMap),
        Step::Readback(ReadbackOp::Poll),
        Step::Readback(ReadbackOp::View),
        Step::Encode,
        Step::Readback(ReadbackOp::Unmap),
    ]
}

/// The steps of reading back among `steps`, in order.
pub open spec fn readback_ops(steps: Seq<Step>) -> Seq<ReadbackOp>
    decreases steps.len(),
{
    if steps.len() == 0 {
        Seq::empty()
    } else {
        match steps.last() {
            Step::Readback(op) => readback_ops(steps.drop_last()).push(op),
            _ => readback_ops(steps.drop_last()),
        }
    }
}

/// The frame that goes to a file reads back in order: each step is due in its
/// turn from an idle buffer, the buffer is idle again at the end, and it is
/// mapped when the view is handed to the output.
pub proof fn lemma_output_frame_in_order()
    ensures
        readback_run(Readback::Idle, readback_ops(output_frame())) == Some(Readback::Idle),
        output_frame()[6] == Step::Encode,
        readback_run(Readback::Idle, readback_ops(output_frame().subrange(0, 6))) == Some(
            Readback::Mapped,
        ),
{
    let f = output_frame();
    let f7 = f.subrange(0, 7);
    let f6 = f.subrange(0, 6);
    let f5 = f.subrange(0, 5);
    let f4 = f.subrange(0, 4);
    let f3 = f.subrange(0, 3);
    let f2 = f.subrange(0, 2);
    let f1 = f.subrange(0, 1);
    let f0 = f.subrange(0, 0);
    assert(f.drop_last() =~= f7);
    assert(f7.drop_last() =~= f6);
    assert(f6.drop_last() =~= f5);
    assert(f5.drop_last() =~= f4);
    assert(f4.drop_last() =~= f3);
    assert(f3.drop_last() =~= f2);
    assert(f2.drop_last() =~= f1);
    assert(f1.drop_last() =~= f0);
    assert(readback_ops(f0) =~= Seq::empty());
    assert(readback_ops(f1) =~= Seq::empty());
    assert(readback_ops(f2) =~= seq![ReadbackOp::Copy]);
    assert(readback_ops(f3) =~= seq![ReadbackOp::Copy]);
    assert(readback_ops(f4) =~= seq![ReadbackOp::Copy, ReadbackOp::RequestMap]);
    assert(readback_ops(f5) =~= seq![ReadbackOp::Copy, ReadbackOp::RequestMap, ReadbackOp::Poll]);
    let o4 = seq![
        ReadbackOp::Copy,
        ReadbackOp::RequestMap,
        ReadbackOp::Poll,
        ReadbackOp::View,
    ];
    assert(readback_ops(f6) =~= o4);
    assert(readback_ops(f7) =~= o4);
    let o5 = o4.push(ReadbackOp::Unmap);
    assert(readback_ops(f) =~= o5);
    let o3 = o4.drop_last();
    let o2 = o3.drop_last();
    let o1 = o2.drop_last();
    let o0 = o1.drop_last();
    assert(o5.drop_last() =~= o4);
    assert(readback_run(Readback::Idle, o0) == Some(Readback::Idle));
    assert(readback_run(Readback::Idle, o1) == Some(Readback::Idle));
    assert(readback_run(Readback::Idle, o2) == Some(Readback::Requested));
    assert(readback_run(Readback::Idle, o3) == Some(Readback::Polled));
    assert(readback_run(Readback::Idle, o4) == Some(Readback::Mapped));
    assert(readback_run(Readback::Idle, o5) == Some(Readback::Idle));
}

/// A session: the size of its frames and what it renders them to.
pub struct Renderer {
    pub size: Size,
    pub render_target: RenderTarget,
}

impl Renderer {
    /// The output of a session that goes to a file is well formed.
    pub open spec fn valid(&self) -> bool {
        match self.render_target {
            RenderTarget::Window => true,
            RenderTarget::Output { canvas_buf, output } => {
                &&& output.valid()
                &&& canvas_buf.size == self.size
            },
        }
    }

    /// Starts a session.
    ///
    /// A preview renders to the window at the window's size. An output
    /// renders at the size of the quality asked for, to one still image where
    /// `single_frame` is set and to a video stream at the quality's frame
    /// rate else.
    pub fn new(render_mode: RenderMode) -> (result: Result<Self, Error>)
        ensures
            match render_mode {
                RenderMode::Preview { width, height } => if width <= MAX_WIDTH {
                    &&& result matches Ok(renderer)
                    &&& renderer.size == Size::spec_new(width, height)
                    &&& renderer.render_target is Window
                } else {
                    result matches Err(e) && e == Error::InvalidSize
                },
                RenderMode::Output { args } => {
                    &&& result matches Ok(renderer)
                    &&& renderer.valid()
                    &&& renderer.size == Size::spec_new(args.quality.width(), args.quality.height())
                    &&& renderer.render_target matches RenderTarget::Output { canvas_buf, output }
                    &&& canvas_buf.state == Readback::Idle
                    &&& if args.single_frame {
                        &&& output matches Output::ImageOutput(image)
                        &&& image@.fresh(renderer.size, args.output_file@)
                    } else {
                        &&& output matches Output::VideoOutput(video)
                        &&& video@.encoder.fresh(renderer.size, args.quality.spec_frame_rate())
                        &&& video@.output_path == args.output_file@
                    }
                },
            },
    {
        match render_mode {
            RenderMode::Preview { width, height } => {
                if width > MAX_WIDTH {
                    return Err(Error::InvalidSize);
                }
                Ok(Self { size: Size::new(width, height), render_target: RenderTarget::Window })
            },
            RenderMode::Output { args } => {
                let size = args.quality.size();
                let canvas_buf = CanvasBuffer::new(size);
                assert(size.row_bytes() * size.height <= 3840 * 4 * 2160) by (nonlinear_arith)
                    requires
                        size.row_bytes() <= 3840 * 4,
                        size.height <= 2160,
                ;
                match Output::new(
                    size,
                    args.output_file,
                    args.single_frame,
                    args.quality.frame_rate(),
                ) {
                    Ok(output) => Ok(
                        Self { size, render_target: RenderTarget::Output { canvas_buf, output } },
                    ),
                    Err(e) => Err(e),
                }
            },
        }
    }

    /// Takes a new size.
    ///
    /// A session that goes to a file keeps its size and refuses any other. A
    /// window takes the size it is given, unless that has no area.
    pub fn resize(&mut self, width: u32, height: u32) -> (result: Result<Resize, Error>)
        ensures
            match old(self).render_target {
                RenderTarget::Output { .. } => {
                    &&& result == Err::<Resize, Error>(Error::ResizeUnsupported)
                    &&& *final(self) == *old(self)
                },
                RenderTarget::Window => {
                    &&& final(self).render_target is Window
                    &&& if width == 0 || height == 0 {
                        &&& result == Ok::<Resize, Error>(Resize::Ignored)
                        &&& final(self).size == old(self).size
                    } else if width <= MAX_WIDTH {
                        &&& result == Ok::<Resize, Error>(Resize::Reconfigure { width, height })
                        &&& final(self).size == Size::spec_new(width, height)
                    } else {
                        &&& result == Err::<Resize, Error>(Error::InvalidSize)
                        &&& final(self).size == old(self).size
                    }
                },
            },
    {
        match self.render_target {
            RenderTarget::Output { .. } => Err(Error::ResizeUnsupported),
            RenderTarget::Window => {
                if width == 0 || height == 0 {
                    Ok(Resize::Ignored)
                } else if width <= MAX_WIDTH {
                    self.size = Size::new(width, height);
                    Ok(Resize::Reconfigure { width, height })
                } else {
                    Err(Error::InvalidSize)
                }
            },
        }
    }

    /// The steps of the work on one frame, in the order in which the caller
    /// takes them.
    pub fn render(&self) -> (steps: Vec<Step>)
        ensures
            steps@ == match self.render_target {
                RenderTarget::Window => window_frame(),
                RenderTarget::Output { .. } => output_frame(),
            },
    {
        let mut steps: Vec<Step> = Vec::new();
        steps.push(Step::Draw);
        match self.render_target {
            RenderTarget::Window => {
                steps.push(Step::Submit);
                steps.push(Step::Present);
                assert(steps@ =~= window_frame());
            },
            RenderTarget::Output { .. } => {
                steps.push(Step::Readback(ReadbackOp::Copy));
                steps.push(Step::Submit);
                steps.push(Step::Readback(ReadbackOp::RequestMap));
                steps.push(Step::Readback(ReadbackOp::Poll));
                steps.push(Step::Readback(ReadbackOp::View));
                steps.push(Step::Encode);
                steps.push(Step::Readback(ReadbackOp::Unmap));
                assert(steps@ =~= output_frame());
            },
        }
        steps
    }

    /// Takes the step `op` of reading a frame back, where it is due. A window
    /// has no buffer to read back.
    pub fn readback(&mut self, op: ReadbackOp) -> (result: Result<(), Error>)
        ensures
            final(self).size == old(self).size,
            match (old(self).render_target, final(self).render_target) {
                (RenderTarget::Window, RenderTarget::Window) => result == Err::<(), Error>(
                    Error::OutOfOrder,
                ),
                (
                    RenderTarget::Output { canvas_buf: before, output: output_before },
                    RenderTarget::Output { canvas_buf: after, output: output_after },
                ) => {
                    &&& output_after == output_before
                    &&& after.size == before.size
                    &&& match readback_step(before.state, op) {
                        Some(state) => result is Ok && after.state == state,
                        None => result == Err::<(), Error>(Error::OutOfOrder) && after.state
                            == before.state,
                    }
                },
                _ => false,
            },
    {
        match &mut self.render_target {
            RenderTarget::Window => Err(Error::OutOfOrder),
            RenderTarget::Output { canvas_buf, .. } => canvas_buf.advance(op),
        }
    }

    /// Hands the view of the frame that was read back to the output. It is
    /// due while the buffer is mapped, and a window has no output.
    pub fn encode(&mut self, view: &[u8]) -> (result: Result<Action, Error>)
        requires
            old(self).valid(),
            old(self).render_target matches RenderTarget::Output { output, .. } ==> output.takes(
                view.len() as int,
            ),
        ensures
            final(self).valid(),
            final(self).size == old(self).size,
            match (old(self).render_target, final(self).render_target) {
                (RenderTarget::Window, RenderTarget::Window) => result == Err::<Action, Error>(
                    Error::OutOfOrder,
                ),
                (
                    RenderTarget::Output { canvas_buf: before, output: output_before },
                    RenderTarget::Output { canvas_buf: after, output: output_after },
                ) => {
                    &&& after == before
                    &&& if before.state == Readback::Mapped {
                        match (output_before, output_after) {
                            (Output::ImageOutput(image_before), Output::ImageOutput(image)) => {
                                &&& result == Ok::<Action, Error>(Action::Idle)
                                &&& image@.size == image_before@.size
                                &&& image@.output_path == image_before@.output_path
                                &&& image@.holds_frame(view@)
                            },
                            (Output::VideoOutput(video_before), Output::VideoOutput(video)) => {
                                &&& (video@.encoder.session(), result) == step(
                                    video_before@.encoder.session(),
                                    Op::Encode,
                                )
                                &&& video@.encoder.size == video_before@.encoder.size
                                &&& video@.encoder.frame_rate == video_before@.encoder.frame_rate
                                &&& video@.output_path == video_before@.output_path
                                &&& result is Ok ==> video@.encoder.holds_frame(view@)
                                &&& result is Err ==> video@ == video_before@
                            },
                            _ => false,
                        }
                    } else {
                        &&& result == Err::<Action, Error>(Error::OutOfOrder)
                        &&& output_after == output_before
                    }
                },
                _ => false,
            },
    {
        match &mut self.render_target {
            RenderTarget::Window => Err(Error::OutOfOrder),
            RenderTarget::Output { canvas_buf, output } => {
                if canvas_buf.state == Readback::Mapped {
                    output.encode_frame(view)
                } else {
                    Err(Error::OutOfOrder)
                }
            },
        }
    }

    /// Takes what came of asking the codec for a packet.
    pub fn write(&mut self, event: Event) -> (result: Result<Action, Error>)
        requires
            old(self).valid(),
        ensures
            final(self).valid(),
            final(self).size == old(self).size,
            match (old(self).render_target, final(self).render_target) {
                (RenderTarget::Window, RenderTarget::Window) => result == Err::<Action, Error>(
                    Error::NotDraining,
                ),
                (
                    RenderTarget::Output { canvas_buf: before, output: output_before },
                    RenderTarget::Output { canvas_buf: after, output: output_after },
                ) => {
                    &&& after == before
                    &&& match (output_before, output_after) {
                        (Output::ImageOutput(image_before), Output::ImageOutput(image)) => {
                            &&& result == Err::<Action, Error>(Error::NotDraining)
                            &&& image@ == image_before@
                        },
                        (Output::VideoOutput(video_before), Output::VideoOutput(video)) => {
                            &&& (video@.encoder.session(), result) == step(
                                video_before@.encoder.session(),
                                Op::Write(event),
                            )
                            &&& video@.encoder.size == video_before@.encoder.size
                            &&& video@.encoder.frame_rate == video_before@.encoder.frame_rate
                            &&& video@.encoder.y == video_before@.encoder.y
                            &&& video@.encoder.u == video_before@.encoder.u
                            &&& video@.encoder.v == video_before@.encoder.v
                            &&& video@.output_path == video_before@.output_path
                        },
                        _ => false,
                    }
                },
                _ => false,
            },
    {
        match &mut self.render_target {
            RenderTarget::Window => Err(Error::NotDraining),
            RenderTarget::Output { output, .. } => output.write(event),
        }
    }

    /// Ends the session: a file's output is concluded, and a window has
    /// nothing to conclude.
    pub fn finish(&mut self) -> (result: Result<Action, Error>)
        requires
            old(self).valid(),
        ensures
            final(self).valid(),
            final(self).size == old(self).size,
            match (old(self).render_target, final(self).render_target) {
                (RenderTarget::Window, RenderTarget::Window) => result == Ok::<Action, Error>(
                    Action::Idle,
                ),
                (
                    RenderTarget::Output { canvas_buf: before, output: output_before },
                    RenderTarget::Output { canvas_buf: after, output: output_after },
                ) => {
                    &&& after == before
                    &&& match (output_before, output_after) {
                        (Output::ImageOutput(image_before), Output::ImageOutput(image)) => {
                            &&& result == Ok::<Action, Error>(Action::SaveImage)
                            &&& image@ == image_before@
                        },
                        (Output::VideoOutput(video_before), Output::VideoOutput(video)) => {
                            &&& (video@.encoder.session(), result) == step(
                                video_before@.encoder.session(),
                                Op::Conclude,
                            )
                            &&& video@.encoder.size == video_before@.encoder.size
                            &&& video@.encoder.frame_rate == video_before@.encoder.frame_rate
                            &&& video@.encoder.y == video_before@.encoder.y
                            &&& video@.encoder.u == video_before@.encoder.u
                            &&& video@.encoder.v == video_before@.encoder.v
                            &&& video@.output_path == video_before@.output_path
                        },
                        _ => false,
                    }
                },
                _ => false,
            },
    {
        match &mut self.render_target {
            RenderTarget::Window => Ok(Action::Idle),
            RenderTarget::Output { output, .. } => output.conclude(),
        }
    }
}

} // verus!
