use vstd::prelude::*;
use crate::error::FaceError;

verus! {

/// Side of the square canonical frame, in pixels.
pub const FRAME_SIZE: i64 = 300;

/// Side of the square tile that the embedding network takes, in pixels.
pub const REGION_SIZE: i64 = 96;

/// Bytes per pixel (blue, green, red).
pub const CHANNELS: usize = 3;

/// Normalized coordinates are held as fixed-point integers: this many units
/// make the whole side of the frame.
pub const UNIT: i64 = 1_000_000_000;

/// Integer division of `a` by a positive `b`, truncated toward zero.
pub open spec fn div_toward_zero(a: int, b: int) -> int {
    if a >= 0 { a / b } else { -((-a) / b) }
}

/// The pixel coordinate of a normalized coordinate `v` (in units of `UNIT`):
/// `v` times the frame size, truncated toward zero.
pub open spec fn to_pixel(v: int) -> int {
    div_toward_zero(FRAME_SIZE * v, UNIT as int)
}

/// A face's bounding box in normalized coordinates, each field in units of
/// `UNIT` (so `UNIT` is the full frame side). Values outside `[0, UNIT]` are
/// allowed; they fail only when the box is cut out of a frame.
#[derive(Debug, Clone, Copy, PartialEq, Eq, Structural)]
pub struct FaceLocation {
    pub x: i64,
    pub y: i64,
    pub width: i64,
    pub height: i64,
}

/// A rectangle in pixels of the canonical frame.
#[derive(Debug, Clone, Copy, PartialEq, Eq, Structural)]
pub struct PixelRect {
    pub x: i64,
    pub y: i64,
    pub width: i64,
    pub height: i64,
}

impl PixelRect {
    /// The rectangle is non-empty and lies wholly inside the frame.
    pub open spec fn in_frame(self) -> bool {
        0 <= self.x && 0 < self.width && self.x + self.width <= FRAME_SIZE
        && 0 <= self.y && 0 < self.height && self.y + self.height <= FRAME_SIZE
    }
}

impl FaceLocation {
    pub fn new(x: i64, y: i64, width: i64, height: i64) -> (r: Self)
        ensures
            r.x == x,
            r.y == y,
            r.width == width,
            r.height == height,
    {
        FaceLocation { x, y, width, height }
    }

    /// The box in pixels of the canonical frame.
    pub open spec fn pixel_rect(self) -> PixelRect {
        PixelRect {
            x: to_pixel(self.x as int) as i64,
            y: to_pixel(self.y as int) as i64,
            width: to_pixel(self.width as int) as i64,
            height: to_pixel(self.height as int) as i64,
        }
    }

    /// Each field times the frame size, truncated toward zero: `(x, y, width, height)`.
    pub fn coords(&self) -> (r: (i64, i64, i64, i64))
        ensures
            r.0 == to_pixel(self.x as int),
            r.1 == to_pixel(self.y as int),
            r.2 == to_pixel(self.width as int),
            r.3 == to_pixel(self.height as int),
    {
        (pixel_of(self.x), pixel_of(self.y), pixel_of(self.width), pixel_of(self.height))
    }

    /// The box in pixels, or `RegionOutOfBounds` when that rectangle is empty
    /// or reaches outside the frame (it is never clamped).
    pub fn to_rect(&self) -> (r: Result<PixelRect, FaceError>)
        ensures
            self.pixel_rect().in_frame() <==> r is Ok,
            r is Ok ==> r->Ok_0 == self.pixel_rect(),
            r is Err ==> r->Err_0 == FaceError::RegionOutOfBounds,
    {
        let (x, y, width, height) = self.coords();
        let rect = PixelRect { x, y, width, height };
        if 0 <= x && 0 < width && width <= FRAME_SIZE - x && 0 <= y && 0 < height
            && height <= FRAME_SIZE - y {
            Ok(rect)
        } else {
            Err(FaceError::RegionOutOfBounds)
        }
    }
}

fn pixel_of(v: i64) -> (r: i64)
    ensures
        r == to_pixel(v as int),
{
    let scaled: i128 = (v as i128) * 300;
    let q: i128 = if scaled >= 0 {
        scaled / (UNIT as i128)
    } else {
        -((-scaled) / (UNIT as i128))
    };
    assert(-300 * 0x8000_0000_0000_0000 <= scaled <= 300 * 0x7fff_ffff_ffff_ffff) by (nonlinear_arith)
        requires
            scaled == v * 300,
            i64::MIN <= v <= i64::MAX,
    ;
    assert(-0x8000_0000_0000_0000 <= q <= 0x7fff_ffff_ffff_ffff) by (nonlinear_arith)
        requires
            -300 * 0x8000_0000_0000_0000 <= scaled <= 300 * 0x7fff_ffff_ffff_ffff,
            scaled >= 0 ==> q == scaled / 1_000_000_000,
            scaled < 0 ==> q == -((-scaled) / 1_000_000_000),
    ;
    q as i64
}

} // verus!

verus! {

/// Bytes in one row of the canonical frame.
pub const ROW_BYTES: usize = 900;

/// Rows of pixels, each a run of blue, green, red bytes, viewed as sequences.
pub open spec fn rows_view(rows: Seq<Vec<u8>>) -> Seq<Seq<u8>> {
    rows.map_values(|r: Vec<u8>| r@)
}

/// `FRAME_SIZE` rows of `FRAME_SIZE` pixels of three bytes each.
pub open spec fn frame_shaped(rows: Seq<Seq<u8>>) -> bool {
    &&& rows.len() == FRAME_SIZE
    &&& forall|i: int| 0 <= i < rows.len() ==> (#[trigger] rows[i]).len() == ROW_BYTES
}

/// The pixels of `rect`, row by row, cut out of `rows`.
pub open spec fn crop(rows: Seq<Seq<u8>>, rect: PixelRect) -> Seq<Seq<u8>> {
    Seq::new(
        rect.height as nat,
        |i: int|
            rows[rect.y + i].subrange(
                CHANNELS * rect.x,
                CHANNELS * (rect.x + rect.width),
            ),
    )
}

/// The canonical frame: a decoded image scaled to `FRAME_SIZE` × `FRAME_SIZE`
/// pixels, held as rows of blue, green, red bytes. Immutable once built.
pub struct Image {
    rows: Vec<Vec<u8>>,
}

impl Image {
    #[verifier::type_invariant]
    spec fn shaped(&self) -> bool {
        frame_shaped(rows_view(self.rows@))
    }

    /// The frame's rows.
    pub closed spec fn pixels(&self) -> Seq<Seq<u8>> {
        rows_view(self.rows@)
    }

    /// Takes a frame already scaled to the canonical size; any other shape
    /// is `ImageDecode`.
    pub fn from_rows(rows: Vec<Vec<u8>>) -> (r: Result<Image, FaceError>)
        ensures
            r is Ok <==> frame_shaped(rows_view(rows@)),
            r is Ok ==> r->Ok_0.pixels() == rows_view(rows@),
            r is Err ==> r->Err_0 == FaceError::ImageDecode,
    {
        if rows.len() != FRAME_SIZE as usize {
            return Err(FaceError::ImageDecode);
        }
        let mut i: usize = 0;
        while i < rows.len()
            invariant
                0 <= i <= rows.len(),
                rows.len() == FRAME_SIZE,
                forall|k: int| 0 <= k < i ==> (#[trigger] rows@[k]).len() == ROW_BYTES,
            decreases rows.len() - i,
        {
            if rows[i].len() != ROW_BYTES {
                assert(rows_view(rows@)[i as int].len() != ROW_BYTES);
                return Err(FaceError::ImageDecode);
            }
            i = i + 1;
        }
        assert(frame_shaped(rows_view(rows@)));
        Ok(Image { rows })
    }

    /// Cuts the face's box out of the frame. The box is first mapped to
    /// pixels (`FaceLocation::pixel_rect`); a rectangle that is empty or
    /// reaches outside the frame gives `RegionOutOfBounds`.
    pub fn extract_face(&self, location: FaceLocation) -> (r: Result<FaceRegion, FaceError>)
        ensures
            r is Ok <==> location.pixel_rect().in_frame(),
            r is Ok ==> r->Ok_0.rect() == location.pixel_rect()
                && r->Ok_0.pixels() == crop(self.pixels(), location.pixel_rect()),
            r is Err ==> r->Err_0 == FaceError::RegionOutOfBounds,
    {
        proof { use_type_invariant(self); }
        let rect = location.to_rect()?;
        let h = rect.height as usize;
        let start = CHANNELS * (rect.x as usize);
        let end = CHANNELS * ((rect.x + rect.width) as usize);
        let mut out: Vec<Vec<u8>> = Vec::new();
        let mut i: usize = 0;
        while i < h
            invariant
                rect == location.pixel_rect(),
                rect.in_frame(),
                h == rect.height,
                start == CHANNELS * rect.x,
                end == CHANNELS * (rect.x + rect.width),
                frame_shaped(self.pixels()),
                self.pixels() == rows_view(self.rows@),
                0 <= i <= h,
                out.len() == i,
                forall|k: int| 0 <= k < i ==> (#[trigger] out@[k])@ == crop(self.pixels(), rect)[k],
            decreases h - i,
        {
            let src = &self.rows[rect.y as usize + i];
            assert(src@ == self.pixels()[rect.y + i]);
            let mut row: Vec<u8> = Vec::new();
            let mut j: usize = start;
            while j < end
                invariant
                    start <= j <= end,
                    end <= ROW_BYTES,
                    src@.len() == ROW_BYTES,
                    row@ == src@.subrange(start as int, j as int),
                decreases end - j,
            {
                row.push(src[j]);
                j = j + 1;
            }
            assert(row@ == crop(self.pixels(), rect)[i as int]);
            out.push(row);
            i = i + 1;
        }
        let region = FaceRegion { rect, rows: out };
        assert(region.pixels() =~= crop(self.pixels(), rect));
        Ok(region)
    }
}

/// A face's pixels as cut out of the canonical frame, before being scaled
/// to the networks' tile size.
pub struct FaceRegion {
    rect: PixelRect,
    rows: Vec<Vec<u8>>,
}

impl FaceRegion {
    /// Where in the frame the region was cut.
    pub closed spec fn rect(&self) -> PixelRect {
        self.rect
    }

    /// The region's rows, `rect().height` of them, each `3 * rect().width` bytes.
    pub closed spec fn pixels(&self) -> Seq<Seq<u8>> {
        rows_view(self.rows@)
    }

    /// Where in the frame the region was cut.
    pub fn bounds(&self) -> (r: PixelRect)
        ensures
            r == self.rect(),
    {
        self.rect
    }

    /// The region's rows of blue, green, red bytes.
    pub fn rows(&self) -> (r: &Vec<Vec<u8>>)
        ensures
            rows_view(r@) == self.pixels(),
    {
        &self.rows
    }
}

} // verus!
