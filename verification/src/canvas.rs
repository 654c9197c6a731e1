//! The buffer that a rendered frame is copied to and read back from.
//!
//! Copy and mapping are asynchronous on the GPU. A frame is read back in a
//! fixed order: the mapping is requested, the device's queue is driven, the
//! mapping is awaited and gives the view, and the view is released before the
//! next copy. The buffer here keeps that order; the caller does the steps.

use vstd::prelude::*;
use crate::util::Size;
use crate::Error;

verus! {

/// The size of the canvas: its pixels and the pitch of its rows.
pub type CanvasSize = Size;

/// Where a readback buffer stands.
#[derive(Debug, Clone, Copy, PartialEq, Eq, Structural)]
pub enum Readback {
    /// Not mapped: the GPU may copy into the buffer.
    Idle,
    /// The mapping is requested, and the queue not driven since.
    Requested,
    /// The queue was driven: the mapping can be awaited.
    Polled,
    /// The view is out: the buffer is read, and must not be written.
    Mapped,
}

/// A step of reading a frame back.
#[derive(Debug, Clone, Copy, PartialEq, Eq, Structural)]
pub enum ReadbackOp {
    /// Copy the rendered texture into the buffer.
    Copy,
    /// Request the mapping of the buffer.
    RequestMap,
    /// Drive the device's queue.
    Poll,
    /// Await the mapping and take the view.
    View,
    /// Release the view and unmap the buffer.
    Unmap,
}

/// The state after `op`, where `op` is due in `state`.
pub open spec fn readback_step(state: Readback, op: ReadbackOp) -> Option<Readback> {
    match (state, op) {
        (Readback::Idle, ReadbackOp::Copy) => Some(Readback::Idle),
        (Readback::Idle, ReadbackOp::RequestMap) => Some(Readback::Requested),
        (Readback::Requested, ReadbackOp::Poll) => Some(Readback::Polled),
        (Readback::Polled, ReadbackOp::View) => Some(Readback::Mapped),
        (Readback::Mapped, ReadbackOp::Unmap) => Some(Readback::Idle),
        _ => None,
    }
}

/// The state after the steps `ops`, where each was due in its turn.
pub open spec fn readback_run(state: Readback, ops: Seq<ReadbackOp>) -> Option<Readback>
    decreases ops.len(),
{
    if ops.len() == 0 {
        Some(state)
    } else {
        match readback_run(state, ops.drop_last()) {
            Some(before) => readback_step(before, ops.last()),
            None => None,
        }
    }
}

/// In steps that were all due, from an idle buffer: a view is taken only
/// right after the queue was driven, the queue is driven only right after the
/// mapping was requested, and a copy is made only while no mapping is
/// requested or out.
pub proof fn lemma_readback_order(ops: Seq<ReadbackOp>, i: int)
    requires
        readback_run(Readback::Idle, ops) is Some,
        0 <= i < ops.len(),
    ensures
        ops[i] == ReadbackOp::View ==> i >= 1 && ops[i - 1] == ReadbackOp::Poll,
        ops[i] == ReadbackOp::Poll ==> i >= 1 && ops[i - 1] == ReadbackOp::RequestMap,
        ops[i] == ReadbackOp::Unmap ==> i >= 1 && ops[i - 1] == ReadbackOp::View,
        ops[i] == ReadbackOp::Copy || ops[i] == ReadbackOp::RequestMap ==> i == 0 || ops[i - 1]
            == ReadbackOp::Copy || ops[i - 1] == ReadbackOp::Unmap,
    decreases ops.len(),
{
    let before = ops.drop_last();
    if i < ops.len() - 1 {
        lemma_readback_order(before, i);
    } else {
        lemma_readback_state(before);
    }
}

/// After steps that were all due, from an idle buffer, the state is the one
/// that the last step leaves.
pub proof fn lemma_readback_state(ops: Seq<ReadbackOp>)
    requires
        readback_run(Readback::Idle, ops) is Some,
    ensures
        readback_run(Readback::Idle, ops) == Some(
            if ops.len() == 0 {
                Readback::Idle
            } else {
                match ops.last() {
                    ReadbackOp::Copy | ReadbackOp::Unmap => Readback::Idle,
                    ReadbackOp::RequestMap => Readback::Requested,
                    ReadbackOp::Poll => Readback::Polled,
                    ReadbackOp::View => Readback::Mapped,
                }
            },
        ),
    decreases ops.len(),
{
    if ops.len() > 0 {
        lemma_readback_state(ops.drop_last());
    }
}

/// How a texture lies in the buffer that it is copied to.
#[derive(Debug, Clone, Copy, PartialEq, Eq, Structural)]
pub struct CopyLayout {
    pub offset: u64,
    pub bytes_per_row: u32,
    pub rows_per_image: u32,
}

/// The buffer that receives the rendered frame, and is mapped to be read.
#[derive(Debug, Clone, Copy)]
pub struct CanvasBuffer {
    pub size: CanvasSize,
    pub state: Readback,
}

impl CanvasBuffer {
    /// An idle buffer for frames of `size`.
    pub fn new(size: CanvasSize) -> (buffer: Self)
        ensures
            buffer.size == size,
            buffer.state == Readback::Idle,
    {
        Self { size, state: Readback::Idle }
    }

    /// The layout of a copy into the buffer: from its start, row by row at
    /// the padded pitch.
    pub fn copy_layout(&self) -> (layout: CopyLayout)
        ensures
            layout.offset == 0,
            layout.bytes_per_row == self.size.bytes_per_row,
            layout.rows_per_image == self.size.height,
    {
        CopyLayout {
            offset: 0,
            bytes_per_row: self.size.bytes_per_row,
            rows_per_image: self.size.height,
        }
    }

    /// Takes the step `op` where it is due, and refuses it where it is not.
    pub fn advance(&mut self, op: ReadbackOp) -> (result: Result<(), Error>)
        ensures
            final(self).size == old(self).size,
            match readback_step(old(self).state, op) {
                Some(state) => result is Ok && final(self).state == state,
                None => result == Err::<(), Error>(Error::OutOfOrder) && final(self).state == old(
                    self,
                ).state,
            },
    {
        let next = match (self.state, op) {
            (Readback::Idle, ReadbackOp::Copy) => Readback::Idle,
            (Readback::Idle, ReadbackOp::RequestMap) => Readback::Requested,
            (Readback::Requested, ReadbackOp::Poll) => Readback::Polled,
            (Readback::Polled, ReadbackOp::View) => Readback::Mapped,
            (Readback::Mapped, ReadbackOp::Unmap) => Readback::Idle,
            _ => {
                return Err(Error::OutOfOrder);
            },
        };
        self.state = next;
        Ok(())
    }

    /// Takes the view: the mapping is awaited. It is due once the mapping was
    /// requested and the queue driven, in this order.
    pub fn view(&mut self) -> (result: Result<(), Error>)
        ensures
            final(self).size == old(self).size,
            old(self).state == Readback::Polled ==> result is Ok && final(self).state
                == Readback::Mapped,
            old(self).state != Readback::Polled ==> result == Err::<(), Error>(Error::OutOfOrder)
                && final(self).state == old(self).state,
    {
        self.advance(ReadbackOp::View)
    }

    /// Releases the view: the buffer is unmapped, and free for the next copy.
    pub fn unmap(&mut self) -> (result: Result<(), Error>)
        ensures
            final(self).size == old(self).size,
            old(self).state == Readback::Mapped ==> result is Ok && final(self).state
                == Readback::Idle,
            old(self).state != Readback::Mapped ==> result == Err::<(), Error>(Error::OutOfOrder)
                && final(self).state == old(self).state,
    {
        self.advance(ReadbackOp::Unmap)
    }
}

} // verus!
