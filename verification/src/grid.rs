//! The decoded palette image: a fixed-shape, row-major grid of
//! palette-index bytes, and read-only tile views into it.

use vstd::prelude::*;

verus! {

/// The edge length of one tile, in pixels.
pub const SQUARE: usize = 90;

/// The edge length of the whole atlas, eight tiles: `8 * SQUARE`.
pub const GRID_SIDE: usize = 720;

/// The number of palette-index bytes in a decoded atlas image:
/// `GRID_SIDE * GRID_SIDE`.
pub const GRID_AREA: usize = 518400;

/// A decoded palette image of exactly `GRID_SIDE` by `GRID_SIDE`
/// palette-index bytes, stored row-major.  The shape is an invariant of the
/// type: a buffer of any other size cannot become a `PaletteGrid`.
pub struct PaletteGrid {
    data: Vec<u8>,
}

impl View for PaletteGrid {
    type V = Seq<u8>;

    closed spec fn view(&self) -> Seq<u8> {
        self.data@
    }
}

impl PaletteGrid {
    #[verifier::type_invariant]
    spec fn inv(self) -> bool {
        self.data@.len() == GRID_AREA
    }

    /// Wrap a row-major pixel buffer of exactly the atlas shape.
    pub fn new(data: Vec<u8>) -> (g: PaletteGrid)
        requires
            data@.len() == GRID_AREA,
        ensures
            g@ == data@,
    {
        PaletteGrid { data }
    }

    /// The number of bytes in the image: always exactly `GRID_AREA`.
    pub fn len(&self) -> (n: usize)
        ensures
            n == self@.len(),
            n == GRID_AREA,
    {
        proof {
            use_type_invariant(self);
        }
        self.data.len()
    }

    /// The palette-index byte at the given row and column of the image.
    pub fn pixel(&self, row: usize, col: usize) -> (b: u8)
        requires
            row < GRID_SIDE,
            col < GRID_SIDE,
        ensures
            b == self@[row * GRID_SIDE + col],
    {
        proof {
            use_type_invariant(self);
        }
        self.data[row * GRID_SIDE + col]
    }
}

/// A read-only view of one `SQUARE` by `SQUARE` tile of a palette image.
///
/// The view borrows the image and copies nothing; it cannot outlive the
/// atlas it was taken from.  A caller that needs owned pixel data copies
/// explicitly with [`TileView::to_vec`].
pub struct TileView<'a> {
    grid: &'a PaletteGrid,
    row0: usize,
    col0: usize,
}

impl<'a> TileView<'a> {
    #[verifier::type_invariant]
    spec fn inv(self) -> bool {
        self.row0 + SQUARE <= GRID_SIDE && self.col0 + SQUARE <= GRID_SIDE
    }

    /// The whole image the view borrows from.
    pub closed spec fn base(self) -> Seq<u8> {
        self.grid@
    }

    /// The topmost image row covered by the view.
    pub closed spec fn spec_row0(self) -> int {
        self.row0 as int
    }

    /// The leftmost image column covered by the view.
    pub closed spec fn spec_col0(self) -> int {
        self.col0 as int
    }

    /// The byte at tile coordinates `(i, j)`, read from the underlying
    /// image at `(spec_row0() + i, spec_col0() + j)`.
    pub open spec fn spec_pixel(self, i: int, j: int) -> u8 {
        self.base()[(self.spec_row0() + i) * GRID_SIDE + self.spec_col0() + j]
    }

    pub(crate) fn new(grid: &'a PaletteGrid, row0: usize, col0: usize) -> (v: TileView<'a>)
        requires
            row0 + SQUARE <= GRID_SIDE,
            col0 + SQUARE <= GRID_SIDE,
        ensures
            v.base() == grid@,
            v.spec_row0() == row0,
            v.spec_col0() == col0,
    {
        TileView { grid, row0, col0 }
    }

    /// The edge length of the view: one tile.
    pub fn side(&self) -> (s: usize)
        ensures
            s == SQUARE,
    {
        SQUARE
    }

    /// The topmost image row covered by the view.
    pub fn row_offset(&self) -> (r: usize)
        ensures
            r == self.spec_row0(),
    {
        self.row0
    }

    /// The leftmost image column covered by the view.
    pub fn col_offset(&self) -> (c: usize)
        ensures
            c == self.spec_col0(),
    {
        self.col0
    }

    /// The palette-index byte at tile coordinates `(i, j)`.
    pub fn pixel(&self, i: usize, j: usize) -> (b: u8)
        requires
            i < SQUARE,
            j < SQUARE,
        ensures
            b == self.spec_pixel(i as int, j as int),
    {
        proof {
            use_type_invariant(self);
        }
        self.grid.pixel(self.row0 + i, self.col0 + j)
    }

    /// Copy the tile into an owned row-major buffer: the one, explicit way
    /// to turn the borrowed view into owned pixel data.
    pub fn to_vec(&self) -> (v: Vec<u8>)
        ensures
            v@.len() == SQUARE * SQUARE,
            forall|i: int, j: int|
                0 <= i < SQUARE && 0 <= j < SQUARE ==> v@[i * SQUARE + j] == self.spec_pixel(i, j),
    {
        let mut v: Vec<u8> = Vec::new();
        let mut i: usize = 0;
        while i < SQUARE
            invariant
                i <= SQUARE,
                v@.len() == i * SQUARE,
                forall|a: int, b: int|
                    0 <= a < i && 0 <= b < SQUARE ==> v@[a * SQUARE + b] == self.spec_pixel(a, b),
            decreases SQUARE - i,
        {
            let mut j: usize = 0;
            while j < SQUARE
                invariant
                    i < SQUARE,
                    j <= SQUARE,
                    v@.len() == i * SQUARE + j,
                    forall|a: int, b: int|
                        0 <= a < i && 0 <= b < SQUARE ==> v@[a * SQUARE + b] == self.spec_pixel(
                            a,
                            b,
                        ),
                    forall|b: int| 0 <= b < j ==> v@[i * SQUARE + b] == self.spec_pixel(i as int, b),
                decreases SQUARE - j,
            {
                let p = self.pixel(i, j);
                v.push(p);
                j += 1;
            }
            i += 1;
        }
        v
    }
}

} // verus!
