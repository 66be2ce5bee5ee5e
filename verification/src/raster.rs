use crate::geometry::CropRect;
use vstd::prelude::*;

verus! {

/// Bytes per pixel: red, green, blue and alpha, one byte each.
pub const CHANNELS: usize = 4;

/// A decoded image: its size and its pixels, row after row from the top,
/// each row from the left, four bytes to a pixel.
#[derive(Clone, Debug)]
pub struct Raster {
    pub width: u32,
    pub height: u32,
    pub pixels: Vec<u8>,
}

/// Where row `row` of the crop begins in the source's pixels.
pub open spec fn row_start(image_width: int, rect: CropRect, row: int) -> int {
    ((rect.y + row) * image_width + rect.x) * 4
}

/// The first `rows` rows of the crop, one after the other. A row of the
/// crop is one run of the source's pixels: it begins `rect.x` pixels into
/// row `rect.y + row` of the source and is `rect.width` pixels long.
pub open spec fn cropped_rows(pixels: Seq<u8>, image_width: int, rect: CropRect, rows: nat) -> Seq<
    u8,
>
    decreases rows,
{
    if rows == 0 {
        Seq::empty()
    } else {
        cropped_rows(pixels, image_width, rect, (rows - 1) as nat) + pixels.subrange(
            row_start(image_width, rect, rows - 1),
            row_start(image_width, rect, rows - 1) + 4 * rect.width,
        )
    }
}

/// The pixels of the crop of an image `image_width` pixels wide.
pub open spec fn cropped_pixels(pixels: Seq<u8>, image_width: int, rect: CropRect) -> Seq<u8> {
    cropped_rows(pixels, image_width, rect, rect.height as nat)
}

impl Raster {
    /// A raster is well formed if it holds four bytes for each pixel.
    pub open spec fn wf(&self) -> bool {
        self.pixels@.len() == 4 * self.width * self.height
    }

    /// Whether the raster holds four bytes for each pixel.
    pub fn is_wf(&self) -> (ok: bool)
        ensures
            ok == self.wf(),
    {
        assert(self.width * self.height <= 0xffff_ffff * 0xffff_ffff) by (nonlinear_arith);
        let area: u64 = (self.width as u64) * (self.height as u64);
        let len: u64 = self.pixels.len() as u64;
        assert(4 * self.width * self.height == 4 * area) by (nonlinear_arith)
            requires
                area == self.width * self.height,
        ;
        len % 4 == 0 && len / 4 == area
    }

    /// Cuts `rect` out of the raster. The rectangle must lie inside it.
    pub fn crop(&self, rect: CropRect) -> (out: Raster)
        requires
            self.wf(),
            rect.within(self.width as int, self.height as int),
        ensures
            out.width == rect.width,
            out.height == rect.height,
            out.pixels@ == cropped_pixels(self.pixels@, self.width as int, rect),
            out.wf(),
    {
        let mut pixels: Vec<u8> = Vec::new();
        if rect.height == 0 {
            assert(4 * rect.width * rect.height == 0) by (nonlinear_arith)
                requires
                    rect.height == 0,
            ;
            return Raster { width: rect.width, height: rect.height, pixels };
        }
        let total: usize = self.pixels.len();
        proof {
            lemma_row_inside(self.width as int, self.height as int, rect, 0);
        }
        let row_len: usize = 4 * (rect.width as usize);
        let mut row: u32 = 0;
        while row < rect.height
            invariant
                self.wf(),
                total == self.pixels@.len(),
                rect.within(self.width as int, self.height as int),
                row <= rect.height,
                row_len == 4 * rect.width,
                pixels@ == cropped_rows(self.pixels@, self.width as int, rect, row as nat),
                pixels@.len() == 4 * rect.width * row,
            decreases rect.height - row,
        {
            proof {
                lemma_row_inside(self.width as int, self.height as int, rect, row as int);
            }
            let line: usize = rect.y as usize + row as usize;
            let above: usize = line * (self.width as usize);
            let start: usize = (above + rect.x as usize) * 4;
            let ghost rows_before = pixels@;
            let mut j: usize = 0;
            while j < row_len
                invariant
                    j <= row_len,
                    row_len == 4 * rect.width,
                    start == row_start(self.width as int, rect, row as int),
                    total == self.pixels@.len(),
                    start + row_len <= total,
                    pixels@ == rows_before + self.pixels@.subrange(start as int, start + j),
                decreases row_len - j,
            {
                pixels.push(self.pixels[start + j]);
                j = j + 1;
            }
            assert(4 * rect.width * (row + 1) == 4 * rect.width * row + 4 * rect.width)
                by (nonlinear_arith);
            row = row + 1;
        }
        Raster { width: rect.width, height: rect.height, pixels }
    }
}

/// Every row of a crop that lies inside the image is a run of the image's
/// pixels.
pub proof fn lemma_row_inside(image_width: int, image_height: int, rect: CropRect, row: int)
    requires
        rect.within(image_width, image_height),
        0 <= row < rect.height,
    ensures
        0 <= (rect.y + row) * image_width <= row_start(image_width, rect, row),
        row_start(image_width, rect, row) + 4 * rect.width <= 4 * image_width * image_height,
        4 * rect.width <= 4 * image_width * image_height,
{
    let line = rect.y + row;
    assert(0 <= line * image_width && (line + 1) * image_width <= image_height * image_width)
        by (nonlinear_arith)
        requires
            0 <= line,
            line + 1 <= image_height,
            0 <= image_width,
    ;
    assert((line + 1) * image_width == line * image_width + image_width) by (nonlinear_arith);
    assert(4 * image_width * image_height == 4 * (image_height * image_width))
        by (nonlinear_arith);
}

/// The first `rows` rows of a crop that lies inside the image hold four
/// bytes for each of their pixels.
pub proof fn lemma_cropped_rows_len(
    pixels: Seq<u8>,
    image_width: int,
    image_height: int,
    rect: CropRect,
    rows: nat,
)
    requires
        rect.within(image_width, image_height),
        pixels.len() == 4 * image_width * image_height,
        rows <= rect.height,
    ensures
        cropped_rows(pixels, image_width, rect, rows).len() == 4 * rect.width * rows,
    decreases rows,
{
    if rows > 0 {
        lemma_cropped_rows_len(pixels, image_width, image_height, rect, (rows - 1) as nat);
        lemma_row_inside(image_width, image_height, rect, rows - 1);
        assert(4 * rect.width * rows == 4 * rect.width * (rows - 1) + 4 * rect.width)
            by (nonlinear_arith);
    } else {
        assert(4 * rect.width * rows == 0) by (nonlinear_arith)
            requires
                rows == 0,
        ;
    }
}

/// Byte `offset` of row `row` of the crop is byte `offset` of the run of
/// the source that the row is taken from.
pub proof fn lemma_cropped_rows_index(
    pixels: Seq<u8>,
    image_width: int,
    image_height: int,
    rect: CropRect,
    rows: nat,
    row: int,
    offset: int,
)
    requires
        rect.within(image_width, image_height),
        pixels.len() == 4 * image_width * image_height,
        0 <= row < rows <= rect.height,
        0 <= offset < 4 * rect.width,
    ensures
        0 <= 4 * rect.width * row + offset < cropped_rows(pixels, image_width, rect, rows).len(),
        cropped_rows(pixels, image_width, rect, rows)[4 * rect.width * row + offset]
            == pixels[row_start(image_width, rect, row) + offset],
    decreases rows,
{
    let before = (rows - 1) as nat;
    lemma_cropped_rows_len(pixels, image_width, image_height, rect, before);
    lemma_cropped_rows_len(pixels, image_width, image_height, rect, rows);
    lemma_row_inside(image_width, image_height, rect, rows - 1);
    assert(4 * rect.width * rows == 4 * rect.width * before + 4 * rect.width)
        by (nonlinear_arith)
        requires
            before == rows - 1,
    ;
    if row < before {
        lemma_cropped_rows_index(pixels, image_width, image_height, rect, before, row, offset);
    } else {
        assert(4 * rect.width * row == 4 * rect.width * before);
        assert(0 <= 4 * rect.width * before) by (nonlinear_arith);
    }
}

/// What a crop holds, pixel by pixel: channel `channel` of the pixel in
/// column `column` and row `row` of the crop is that channel of the
/// source's pixel `rect.x` columns further right and `rect.y` rows further
/// down.
pub proof fn lemma_cropped_pixel(
    pixels: Seq<u8>,
    image_width: int,
    image_height: int,
    rect: CropRect,
    column: int,
    row: int,
    channel: int,
)
    requires
        rect.within(image_width, image_height),
        pixels.len() == 4 * image_width * image_height,
        0 <= column < rect.width,
        0 <= row < rect.height,
        0 <= channel < 4,
    ensures
        cropped_pixels(pixels, image_width, rect).len() == 4 * rect.width * rect.height,
        0 <= (row * rect.width + column) * 4 + channel < 4 * rect.width * rect.height,
        0 <= ((rect.y + row) * image_width + rect.x + column) * 4 + channel < pixels.len(),
        cropped_pixels(pixels, image_width, rect)[(row * rect.width + column) * 4 + channel]
            == pixels[((rect.y + row) * image_width + rect.x + column) * 4 + channel],
{
    let offset = 4 * column + channel;
    lemma_cropped_rows_len(pixels, image_width, image_height, rect, rect.height as nat);
    lemma_cropped_rows_index(
        pixels,
        image_width,
        image_height,
        rect,
        rect.height as nat,
        row,
        offset,
    );
    lemma_row_inside(image_width, image_height, rect, row);
    assert((row * rect.width + column) * 4 + channel == 4 * rect.width * row + offset)
        by (nonlinear_arith)
        requires
            offset == 4 * column + channel,
    ;
    assert(((rect.y + row) * image_width + rect.x + column) * 4 + channel == row_start(
        image_width,
        rect,
        row,
    ) + offset) by (nonlinear_arith)
        requires
            offset == 4 * column + channel,
            row_start(image_width, rect, row) == ((rect.y + row) * image_width + rect.x) * 4,
    ;
}

} // verus!
