//! One atlas: a decoded palette image together with its color-table
//! metadata, exposing geometry, palette-strip and tile accessors.

use vstd::prelude::*;
use crate::gif::{decode_ok, decoded_palette_present, decoded_pixels, decode_gif_frame};
use crate::grid::{PaletteGrid, TileView, GRID_AREA, GRID_SIDE, SQUARE};
use crate::keys::{PocketKey, SpriteKey};

verus! {

/// The margin around a pocket strip, in pixels.
pub const POCKET_MARGIN: usize = 10;

/// The width of one entry of the auxiliary color strip: `2 * SQUARE / 3`.
pub const COLOR_WIDTH: usize = 60;

/// The height of one info bar, in pixels.
pub const BAR_HEIGHT: usize = 60;

/// Why a byte buffer failed to become an atlas.
#[derive(Clone, Copy, Debug, PartialEq, Eq, Structural)]
pub enum ThemeError {
    /// The container's preamble or frame could not be decoded.
    MalformedContainer,
    /// The decoded frame does not hold exactly `GRID_AREA` pixels.
    ShapeMismatch,
    /// The container carries no global palette.
    MissingPalette,
}

/// Whether a byte buffer decodes into a well-shaped atlas: the container
/// decodes, the frame holds exactly the atlas shape, and a global palette
/// is present.
pub open spec fn valid_asset(data: Seq<u8>) -> bool {
    decode_ok(data) && decoded_pixels(data).len() == GRID_AREA && decoded_palette_present(data)
}

/// The error an invalid asset is rejected with.  The container is read
/// first, then the frame's shape, then the palette.
pub open spec fn asset_error(data: Seq<u8>) -> ThemeError {
    if !decode_ok(data) {
        ThemeError::MalformedContainer
    } else if decoded_pixels(data).len() != GRID_AREA {
        ThemeError::ShapeMismatch
    } else {
        ThemeError::MissingPalette
    }
}

/// One atlas: a decoded palette image of fixed shape, plus the container's
/// color-table metadata, passed through untouched.
pub struct Theme {
    color_table_config: gift::block::ColorTableConfig,
    global_color_table: gift::block::GlobalColorTable,
    sprite: PaletteGrid,
}

/// The tile edge length, as a spec value.
pub open spec fn spec_square() -> int {
    SQUARE as int
}

/// The pocket margin, as a spec value.
pub open spec fn spec_pocket_margin() -> int {
    POCKET_MARGIN as int
}

/// The board width: eight tiles.
pub open spec fn spec_width() -> int {
    8 * spec_square()
}

/// The info-bar height, as a spec value.
pub open spec fn spec_bar_height() -> int {
    BAR_HEIGHT as int
}

/// The composite board height: the board itself, plus two info bars when
/// requested, plus two pocket strips when requested.
pub open spec fn spec_height(bars: bool, pockets: bool) -> int {
    (if bars {
        spec_width() + 2 * spec_bar_height()
    } else {
        spec_width()
    }) + (if pockets {
        2 * (spec_square() + 2 * spec_pocket_margin())
    } else {
        0
    })
}

/// The byte of image `g` at tile coordinates `(i, j)` of the tile in
/// column `col`, row `row`.
pub open spec fn tile_pixel(g: Seq<u8>, col: int, row: int, i: int, j: int) -> u8 {
    g[(spec_square() * row + i) * GRID_SIDE + spec_square() * col + j]
}

impl Theme {
    /// The decoded palette image, row-major.
    pub closed spec fn grid(self) -> Seq<u8> {
        self.sprite@
    }

    /// The stored color-table configuration.
    pub closed spec fn spec_color_table_config(self) -> gift::block::ColorTableConfig {
        self.color_table_config
    }

    /// The stored global palette.
    pub closed spec fn spec_global_color_table(self) -> gift::block::GlobalColorTable {
        self.global_color_table
    }

    /// Decode a byte buffer into an atlas.  Succeeds exactly on valid
    /// assets; an invalid one is rejected with the error named by
    /// [`asset_error`].
    pub fn new(sprite_data: &Vec<u8>) -> (r: Result<Theme, ThemeError>)
        ensures
            r is Ok <==> valid_asset(sprite_data@),
            r matches Ok(t) ==> t.grid() == decoded_pixels(sprite_data@),
            r matches Err(e) ==> e == asset_error(sprite_data@),
    {
        match decode_gif_frame(sprite_data) {
            None => Err(ThemeError::MalformedContainer),
            Some((color_table_config, global_color_table, pixels)) => {
                if pixels.len() != GRID_AREA {
                    Err(ThemeError::ShapeMismatch)
                } else {
                    match global_color_table {
                        None => Err(ThemeError::MissingPalette),
                        Some(global_color_table) => Ok(
                            Theme {
                                color_table_config,
                                global_color_table,
                                sprite: PaletteGrid::new(pixels),
                            },
                        ),
                    }
                }
            },
        }
    }

    /// Decode the secondary ("ch") asset variant.  The container format and
    /// the checks are the same as for [`Theme::new`].
    pub fn new_ch(sprite_data: &Vec<u8>) -> (r: Result<Theme, ThemeError>)
        ensures
            r is Ok <==> valid_asset(sprite_data@),
            r matches Ok(t) ==> t.grid() == decoded_pixels(sprite_data@),
            r matches Err(e) ==> e == asset_error(sprite_data@),
    {
        Theme::new(sprite_data)
    }

    /// The container's color-table configuration, passed through.
    pub fn color_table_config(&self) -> (c: gift::block::ColorTableConfig)
        ensures
            c == self.spec_color_table_config(),
    {
        self.color_table_config
    }

    /// The container's global palette, passed through.
    pub fn global_color_table(&self) -> (t: &gift::block::GlobalColorTable)
        ensures
            t == self.spec_global_color_table(),
    {
        &self.global_color_table
    }

    /// The info-bar background color: entry 0 of the auxiliary color strip.
    pub fn bar_color(&self) -> (b: u8)
        ensures
            b == self.grid()[4 * spec_square()],
    {
        self.sprite.pixel(0, 4 * SQUARE)
    }

    /// The text color: entry 1 of the auxiliary color strip.
    pub fn text_color(&self) -> (b: u8)
        ensures
            b == self.grid()[4 * spec_square() + COLOR_WIDTH],
    {
        self.sprite.pixel(0, 4 * SQUARE + COLOR_WIDTH)
    }

    /// The gold accent color: entry 2 of the auxiliary color strip.
    pub fn gold_color(&self) -> (b: u8)
        ensures
            b == self.grid()[4 * spec_square() + 2 * COLOR_WIDTH],
    {
        self.sprite.pixel(0, 4 * SQUARE + 2 * COLOR_WIDTH)
    }

    /// The bot-indicator color: entry 3 of the auxiliary color strip.
    pub fn bot_color(&self) -> (b: u8)
        ensures
            b == self.grid()[4 * spec_square() + 3 * COLOR_WIDTH],
    {
        self.sprite.pixel(0, 4 * SQUARE + 3 * COLOR_WIDTH)
    }

    /// The secondary text color: entry 4 of the auxiliary color strip.
    pub fn med_text_color(&self) -> (b: u8)
        ensures
            b == self.grid()[4 * spec_square() + 4 * COLOR_WIDTH],
    {
        self.sprite.pixel(0, 4 * SQUARE + 4 * COLOR_WIDTH)
    }

    /// The transparent background color: entry 5 of the auxiliary strip.
    pub fn transparent_color(&self) -> (b: u8)
        ensures
            b == self.grid()[4 * spec_square() + 5 * COLOR_WIDTH],
    {
        self.sprite.pixel(0, 4 * SQUARE + 5 * COLOR_WIDTH)
    }

    /// The tile edge length.
    pub fn square(&self) -> (s: usize)
        ensures
            s == spec_square(),
    {
        SQUARE
    }

    /// The pocket margin.
    pub fn pocket_margin(&self) -> (m: usize)
        ensures
            m == spec_pocket_margin(),
    {
        POCKET_MARGIN
    }

    /// The board width: eight tiles.
    pub fn width(&self) -> (w: usize)
        ensures
            w == spec_width(),
    {
        self.square() * 8
    }

    /// The light square shading color, at `(0, 0)` of the image.
    pub fn square_light_color(&self) -> (b: u8)
        ensures
            b == self.grid()[0],
    {
        self.sprite.pixel(0, 0)
    }

    /// The dark square shading color, at `(0, SQUARE)` of the image.
    pub fn square_dark_color(&self) -> (b: u8)
        ensures
            b == self.grid()[spec_square()],
    {
        self.sprite.pixel(0, SQUARE)
    }

    /// The highlighted light square shading color, at `(0, 2 * SQUARE)`.
    pub fn square_highlighted_light_color(&self) -> (b: u8)
        ensures
            b == self.grid()[2 * spec_square()],
    {
        self.sprite.pixel(0, 2 * SQUARE)
    }

    /// The highlighted dark square shading color, at `(0, 3 * SQUARE)`.
    pub fn square_highlighted_dark_color(&self) -> (b: u8)
        ensures
            b == self.grid()[3 * spec_square()],
    {
        self.sprite.pixel(0, 3 * SQUARE)
    }

    /// The info-bar height.
    pub fn bar_height(&self) -> (h: usize)
        ensures
            h == spec_bar_height(),
    {
        BAR_HEIGHT
    }

    /// The composite board height under a bar and pocket configuration.
    pub fn height(&self, bars: bool, pockets: bool) -> (h: usize)
        ensures
            h == spec_height(bars, pockets),
    {
        let pockets_h: usize = if pockets {
            2 * (self.square() + 2 * self.pocket_margin())
        } else {
            0
        };
        let bars_h: usize = if bars {
            self.width() + 2 * self.bar_height()
        } else {
            self.width()
        };
        pockets_h + bars_h
    }

    /// A read-only view of the tile addressed by a sprite descriptor.
    pub fn sprite<'a>(&'a self, key: &SpriteKey) -> (v: TileView<'a>)
        ensures
            v.base() == self.grid(),
            v.spec_row0() == spec_square() * key.spec_y(),
            v.spec_col0() == spec_square() * key.spec_x(),
    {
        let y = key.y();
        let x = key.x();
        TileView::new(&self.sprite, SQUARE * y, SQUARE * x)
    }

    /// A read-only view of the tile addressed by a pocket descriptor.
    pub fn chsprite<'a>(&'a self, key: &PocketKey) -> (v: TileView<'a>)
        ensures
            v.base() == self.grid(),
            v.spec_row0() == spec_square() * 6,
            v.spec_col0() == spec_square() * 1,
    {
        let y = key.y();
        let x = key.x();
        TileView::new(&self.sprite, SQUARE * y, SQUARE * x)
    }
}

/// The composite height decomposes over its two options: no option gives
/// the board width alone, bars add twice the bar height, pockets add twice
/// a tile edge plus two margins, and the two additions are independent.
pub proof fn lemma_height_composition()
    ensures
        spec_height(false, false) == spec_width(),
        spec_height(true, false) == spec_width() + 2 * spec_bar_height(),
        spec_height(false, true) == spec_width() + 2 * (spec_square() + 2 * spec_pocket_margin()),
        spec_height(true, true) == spec_width() + 2 * spec_bar_height() + 2 * (spec_square() + 2
            * spec_pocket_margin()),
{
}

/// A tile view whose offsets sit at column `c`, row `r` of the tile grid
/// covers exactly the sub-block of the image spanning rows
/// `[r * SQUARE, (r + 1) * SQUARE)` and columns `[c * SQUARE, (c + 1) * SQUARE)`;
/// in particular its top-left pixel is the image byte at
/// `(r * SQUARE, c * SQUARE)`.
pub proof fn lemma_tile_view_is_subblock(v: TileView<'_>, g: Seq<u8>, c: int, r: int)
    requires
        v.base() == g,
        v.spec_row0() == spec_square() * r,
        v.spec_col0() == spec_square() * c,
    ensures
        forall|i: int, j: int|
            0 <= i < SQUARE && 0 <= j < SQUARE ==> v.spec_pixel(i, j) == tile_pixel(g, c, r, i, j),
        v.spec_pixel(0, 0) == g[spec_square() * r * GRID_SIDE + spec_square() * c],
{
}

/// Atlas construction is deterministic: two atlases decoded from the same
/// bytes hold the same image, and with it the same pixel for every tile
/// coordinate of every grid address.
pub proof fn lemma_construction_deterministic(t1: Theme, t2: Theme, data: Seq<u8>)
    requires
        t1.grid() == decoded_pixels(data),
        t2.grid() == decoded_pixels(data),
    ensures
        t1.grid() == t2.grid(),
        forall|c: int, r: int, i: int, j: int|
            tile_pixel(t1.grid(), c, r, i, j) == tile_pixel(t2.grid(), c, r, i, j),
{
}

} // verus!
