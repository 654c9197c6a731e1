//! One still image as a session's output.

use vstd::prelude::*;
use crate::output::{holds_part, output_file, plain_name, Action, OutputBehavior};
use crate::util::{Size, PIXEL_STRIDE};
use crate::video::{frame_fits, lemma_pixel_in_frame, lemma_sample_in_plane, FrameData};
use crate::Error;

verus! {

/// The extension that the file of an image gets where none is given.
pub const IMAGE_EXTENSION: &'static str = "png";

/// An output that keeps the last captured frame, without the padding of its
/// rows, to be written as one image.
pub struct ImageOutput {
    size: Size,
    image: FrameData,
    output_path: String,
}

/// What an image output holds.
pub struct ImageOutputView {
    pub size: Size,
    /// The image: rows of `size.row_bytes()` bytes, one after the other.
    pub image: FrameData,
    pub output_path: Seq<char>,
}

impl ImageOutputView {
    /// The image has exactly the bytes of the pixels.
    pub open spec fn wf(self) -> bool {
        &&& self.image.linesize == self.size.row_bytes()
        &&& self.image.buf.len() == self.size.row_bytes() * self.size.height
    }

    /// The output is as `new` makes it for frames of `size`: its image is all
    /// zero.
    pub open spec fn fresh(self, size: Size, output_path: Seq<char>) -> bool {
        &&& self.wf()
        &&& self.size == size
        &&& self.output_path == output_path
        &&& forall|i: int| 0 <= i < self.image.buf.len() ==> self.image.buf@[i] == 0
    }

    /// The image is the frame `src`, row by row and without the padding.
    pub open spec fn holds_frame(self, src: Seq<u8>) -> bool {
        forall|column: int, row: int|
            0 <= column < self.size.row_bytes() && 0 <= row < self.size.height
                ==> #[trigger] self.image.at(column, row) == src[row * self.size.bytes_per_row
                + column]
    }
}

impl View for ImageOutput {
    type V = ImageOutputView;

    closed spec fn view(&self) -> ImageOutputView {
        ImageOutputView { size: self.size, image: self.image, output_path: self.output_path@ }
    }
}

impl ImageOutput {
    /// An output for frames of `size`, with an image that is all zero.
    pub fn new(size: Size, output_path: String) -> (output: Self)
        requires
            size.row_bytes() <= usize::MAX,
            size.row_bytes() * size.height <= usize::MAX,
        ensures
            output@.fresh(size, output_path@),
    {
        let image = FrameData::new((size.width as usize) * PIXEL_STRIDE, size.height as usize);
        Self { size, image, output_path }
    }

    pub fn size(&self) -> (size: Size)
        ensures
            size == self@.size,
    {
        self.size
    }

    /// The bytes of the image.
    pub fn image_buffer(&self) -> (image: &Vec<u8>)
        ensures
            image@ == self@.image.buf@,
    {
        &self.image.buf
    }

    /// Where the image is to be written, as it was given.
    pub fn output_path(&self) -> (path: &String)
        ensures
            path@ == self@.output_path,
    {
        &self.output_path
    }

    /// The file that the image is written to: the path, with the extension
    /// of an image where it has none.
    ///
    /// The platform says whether a path has an extension. A path that is the
    /// plain name of a file has none on any platform, and gets it.
    pub fn output_file(&self) -> (file: String)
        ensures
            plain_name(self@.output_path) ==> file@ == self@.output_path + seq!['.']
                + IMAGE_EXTENSION@,
            !self@.output_path.contains('.') ==> file@ == self@.output_path || holds_part(
                file@,
                seq!['.'] + IMAGE_EXTENSION@,
            ),
    {
        proof {
            reveal_strlit("png");
        }
        output_file(self.output_path.as_str(), IMAGE_EXTENSION)
    }
}

impl OutputBehavior for ImageOutput {
    open spec fn valid(&self) -> bool {
        self@.wf()
    }

    open spec fn takes(&self, len: int) -> bool {
        frame_fits(
            len,
            self@.size.bytes_per_row as int,
            self@.size.width as int,
            self@.size.height as int,
        )
    }

    /// Copies the pixels of the frame into the image, row by row, leaving the
    /// padding of the rows behind.
    fn encode_frame(&mut self, view: &[u8]) -> (result: Result<Action, Error>)
        ensures
            result == Ok::<Action, Error>(Action::Idle),
            final(self)@.size == old(self)@.size,
            final(self)@.output_path == old(self)@.output_path,
            final(self)@.holds_frame(view@),
    {
        let row_bytes = (self.size.width as usize) * PIXEL_STRIDE;
        let height = self.size.height as usize;
        let bytes_per_row = self.size.bytes_per_row as usize;
        let ghost len = self.image.buf.len() as int;
        let mut row: usize = 0;
        while row < height
            invariant
                row <= height,
                row_bytes == self.size.row_bytes(),
                height == self.size.height,
                bytes_per_row == self.size.bytes_per_row,
                self.size == old(self).size,
                self.output_path == old(self).output_path,
                self.image.linesize == row_bytes,
                self.image.buf.len() == len,
                len == row_bytes * height,
                frame_fits(
                    view.len() as int,
                    bytes_per_row as int,
                    self.size.width as int,
                    height as int,
                ),
                forall|c: int, r: int|
                    0 <= c < row_bytes && 0 <= r < row ==> #[trigger] self.image.at(c, r)
                        == view@[r * bytes_per_row + c],
            decreases height - row,
        {
            let mut column: usize = 0;
            while column < row_bytes
                invariant
                    column <= row_bytes,
                    row < height,
                    row_bytes == self.size.row_bytes(),
                    height == self.size.height,
                    bytes_per_row == self.size.bytes_per_row,
                    self.size == old(self).size,
                    self.output_path == old(self).output_path,
                    self.image.linesize == row_bytes,
                    self.image.buf.len() == len,
                    len == row_bytes * height,
                    frame_fits(
                        view.len() as int,
                        bytes_per_row as int,
                        self.size.width as int,
                        height as int,
                    ),
                    forall|c: int, r: int|
                        0 <= c < row_bytes && 0 <= r < row ==> #[trigger] self.image.at(c, r)
                            == view@[r * bytes_per_row + c],
                    forall|c: int, r: int|
                        0 <= c < column && r == row ==> #[trigger] self.image.at(c, r)
                            == view@[r * bytes_per_row + c],
                decreases row_bytes - column,
            {
                proof {
                    lemma_pixel_in_frame(
                        view.len() as int,
                        bytes_per_row as int,
                        self.size.width as int,
                        height as int,
                        column as int / 4,
                        row as int,
                    );
                    assert((height - 1) * row_bytes + row_bytes == row_bytes * height)
                        by (nonlinear_arith);
                    lemma_sample_in_plane(
                        len,
                        row_bytes as int,
                        row_bytes as int,
                        height as int,
                        column as int,
                        row as int,
                    );
                }
                let byte = view[row * bytes_per_row + column];
                self.image.set(column, row, byte);
                column += 1;
            }
            row += 1;
        }
        Ok(Action::Idle)
    }

    /// Calls for the image to be written.
    fn conclude(&mut self) -> (result: Result<Action, Error>)
        ensures
            result == Ok::<Action, Error>(Action::SaveImage),
            final(self)@ == old(self)@,
    {
        Ok(Action::SaveImage)
    }
}

} // verus!
