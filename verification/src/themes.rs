//! The atlas cache: one atlas per (board theme, piece set) pair, one
//! secondary atlas per piece set, and one shared font, all built eagerly
//! from caller-supplied asset bytes and read-only afterwards.

use vstd::prelude::*;
use crate::gif::decoded_pixels;
use crate::theme::{asset_error, valid_asset, Theme, ThemeError};

verus! {

/// The closed enumeration of board themes.
#[derive(Clone, Copy, Debug, PartialEq, Eq, Structural)]
pub enum BoardTheme {
    Blue,
    Brown,
    Green,
    Purple,
}

/// The closed enumeration of piece sets.
#[derive(Clone, Copy, Debug, PartialEq, Eq, Structural)]
pub enum PieceSet {
    Alpha,
    Cburnett,
    Horsey,
    Kosal,
    Maestro,
    Merida,
}

/// How many board themes there are.
pub const N_BOARD_THEMES: usize = 4;

/// How many piece sets there are.
pub const N_PIECE_SETS: usize = 6;

impl BoardTheme {
    /// The ordinal of this board theme, in declaration order.
    pub open spec fn spec_index(self) -> int {
        match self {
            BoardTheme::Blue => 0,
            BoardTheme::Brown => 1,
            BoardTheme::Green => 2,
            BoardTheme::Purple => 3,
        }
    }

    /// The ordinal of this board theme, as an executable value.
    pub fn index(&self) -> (i: usize)
        ensures
            i == self.spec_index(),
            i < N_BOARD_THEMES,
    {
        match self {
            BoardTheme::Blue => 0,
            BoardTheme::Brown => 1,
            BoardTheme::Green => 2,
            BoardTheme::Purple => 3,
        }
    }
}

impl PieceSet {
    /// The ordinal of this piece set, in declaration order.
    pub open spec fn spec_index(self) -> int {
        match self {
            PieceSet::Alpha => 0,
            PieceSet::Cburnett => 1,
            PieceSet::Horsey => 2,
            PieceSet::Kosal => 3,
            PieceSet::Maestro => 4,
            PieceSet::Merida => 5,
        }
    }

    /// The ordinal of this piece set, as an executable value.
    pub fn index(&self) -> (i: usize)
        ensures
            i == self.spec_index(),
            i < N_PIECE_SETS,
    {
        match self {
            PieceSet::Alpha => 0,
            PieceSet::Cburnett => 1,
            PieceSet::Horsey => 2,
            PieceSet::Kosal => 3,
            PieceSet::Maestro => 4,
            PieceSet::Merida => 5,
        }
    }
}

/// Every board theme's ordinal lies inside the enumeration.
pub proof fn lemma_board_index_range(b: BoardTheme)
    ensures
        0 <= b.spec_index() < N_BOARD_THEMES,
{
}

/// Every piece set's ordinal lies inside the enumeration.
pub proof fn lemma_piece_index_range(p: PieceSet)
    ensures
        0 <= p.spec_index() < N_PIECE_SETS,
{
}

/// All board themes, in ordinal order.
pub fn all_board_themes() -> (v: Vec<BoardTheme>)
    ensures
        v@.len() == N_BOARD_THEMES,
        forall|i: int| 0 <= i < v@.len() ==> v@[i].spec_index() == i,
{
    let v = vec![BoardTheme::Blue, BoardTheme::Brown, BoardTheme::Green, BoardTheme::Purple];
    v
}

/// All piece sets, in ordinal order.
pub fn all_piece_sets() -> (v: Vec<PieceSet>)
    ensures
        v@.len() == N_PIECE_SETS,
        forall|i: int| 0 <= i < v@.len() ==> v@[i].spec_index() == i,
{
    let v = vec![
        PieceSet::Alpha,
        PieceSet::Cburnett,
        PieceSet::Horsey,
        PieceSet::Kosal,
        PieceSet::Maestro,
        PieceSet::Merida,
    ];
    v
}

/// Whether a byte buffer parses as a font face.  The outcome depends on
/// the bytes alone.
pub uninterp spec fn font_parses(data: Seq<u8>) -> bool;

#[verifier::external_type_specification]
#[verifier::external_body]
pub struct ExFont<'a>(rusttype::Font<'a>);

/// Relies on rusttype's `Font::try_from_vec`: it returns `Some` exactly
/// when the bytes parse as a font face, and never panics.
#[verifier::external_body]
fn parse_font(data: Vec<u8>) -> (r: Option<rusttype::Font<'static>>)
    ensures
        r is Some <==> font_parses(data@),
{
    rusttype::Font::try_from_vec(data)
}

/// Why the cache could not be built.
#[derive(Clone, Copy, Debug, PartialEq, Eq, Structural)]
pub enum ThemesError {
    /// The font bytes do not parse.
    BadFont,
    /// The board asset at the given flat index failed to decode.
    BadBoardAsset(usize, ThemeError),
    /// The secondary asset at the given index failed to decode.
    BadChAsset(usize, ThemeError),
}

/// The views of a sequence of byte buffers.
pub open spec fn views_of(assets: Seq<Vec<u8>>) -> Seq<Seq<u8>> {
    assets.map_values(|v: Vec<u8>| v@)
}

/// The index of the first invalid asset in a sequence, or its length if
/// all are valid.
pub open spec fn first_invalid(assets: Seq<Seq<u8>>) -> int
    decreases assets.len(),
{
    if assets.len() == 0 {
        0
    } else if !valid_asset(assets[0]) {
        0
    } else {
        1 + first_invalid(assets.skip(1))
    }
}

/// When every asset before `i` is valid and the one at `i` is not, `i` is
/// the first invalid index.
pub proof fn lemma_first_invalid(assets: Seq<Seq<u8>>, i: int)
    requires
        0 <= i < assets.len(),
        forall|j: int| 0 <= j < i ==> valid_asset(assets[j]),
        !valid_asset(assets[i]),
    ensures
        first_invalid(assets) == i,
    decreases i,
{
    if i > 0 {
        assert(valid_asset(assets[0]));
        assert forall|j: int| 0 <= j < i - 1 implies valid_asset(assets.skip(1)[j]) by {
            assert(assets.skip(1)[j] == assets[j + 1]);
        }
        assert(assets.skip(1)[i - 1] == assets[i]);
        lemma_first_invalid(assets.skip(1), i - 1);
    }
}

/// The error the cache construction fails with: the font is read first,
/// then every board asset in flat order, then every secondary asset.
pub open spec fn construction_error(
    boards: Seq<Seq<u8>>,
    chs: Seq<Seq<u8>>,
    font: Seq<u8>,
) -> ThemesError {
    if !font_parses(font) {
        ThemesError::BadFont
    } else if exists|i: int| 0 <= i < boards.len() && !valid_asset(boards[i]) {
        ThemesError::BadBoardAsset(
            first_invalid(boards) as usize,
            asset_error(boards[first_invalid(boards)]),
        )
    } else {
        ThemesError::BadChAsset(
            first_invalid(chs) as usize,
            asset_error(chs[first_invalid(chs)]),
        )
    }
}

/// The atlas cache: one atlas per (board theme, piece set) pair in flat
/// row-major order, one secondary atlas per piece set, and the shared font.
pub struct Themes {
    atlases: Vec<Theme>,
    ch_atlases: Vec<Theme>,
    font: rusttype::Font<'static>,
}

impl Themes {
    #[verifier::type_invariant]
    spec fn inv(self) -> bool {
        self.atlases@.len() == N_BOARD_THEMES * N_PIECE_SETS && self.ch_atlases@.len()
            == N_PIECE_SETS
    }

    /// The atlas stored for a (board theme, piece set) pair.
    pub closed spec fn spec_atlas(self, board: BoardTheme, pieces: PieceSet) -> Theme {
        self.atlases@[board.spec_index() * (N_PIECE_SETS as int) + pieces.spec_index()]
    }

    /// The secondary atlas stored for a piece set.
    pub closed spec fn spec_ch_atlas(self, pieces: PieceSet) -> Theme {
        self.ch_atlases@[pieces.spec_index()]
    }

    /// The shared font.
    pub closed spec fn spec_font(self) -> rusttype::Font<'static> {
        self.font
    }

    /// Build the cache eagerly from asset bytes: one buffer per (board
    /// theme, piece set) pair, flat at index
    /// `board.index() * N_PIECE_SETS + pieces.index()`, one secondary
    /// buffer per piece set, and the font bytes.  Succeeds exactly when
    /// the font parses and every asset is valid; the first defect, in
    /// construction order, is the error.
    pub fn new(board_assets: &Vec<Vec<u8>>, ch_assets: &Vec<Vec<u8>>, font_data: Vec<u8>) -> (r:
        Result<Themes, ThemesError>)
        requires
            board_assets@.len() == N_BOARD_THEMES * N_PIECE_SETS,
            ch_assets@.len() == N_PIECE_SETS,
        ensures
            r is Ok <==> font_parses(font_data@) && (forall|i: int|
                0 <= i < board_assets@.len() ==> valid_asset(board_assets@[i]@)) && (forall|i: int|
                0 <= i < ch_assets@.len() ==> valid_asset(ch_assets@[i]@)),
            r matches Ok(th) ==> (forall|b: BoardTheme, p: PieceSet|
                #[trigger] th.spec_atlas(b, p).grid() == decoded_pixels(
                    board_assets@[b.spec_index() * (N_PIECE_SETS as int) + p.spec_index()]@,
                )) && (forall|p: PieceSet| #[trigger]
                th.spec_ch_atlas(p).grid() == decoded_pixels(ch_assets@[p.spec_index()]@)),
            r matches Err(e) ==> e == construction_error(
                views_of(board_assets@),
                views_of(ch_assets@),
                font_data@,
            ),
    {
        let font = match parse_font(font_data) {
            None => {
                return Err(ThemesError::BadFont);
            },
            Some(f) => f,
        };
        let mut atlases: Vec<Theme> = Vec::new();
        let mut i: usize = 0;
        while i < board_assets.len()
            invariant
                i <= board_assets@.len(),
                board_assets@.len() == N_BOARD_THEMES * N_PIECE_SETS,
                atlases@.len() == i,
                font_parses(font_data@),
                forall|j: int| 0 <= j < i ==> valid_asset(board_assets@[j]@),
                forall|j: int| 0 <= j < i ==> #[trigger] atlases@[j].grid() == decoded_pixels(
                    board_assets@[j]@,
                ),
            decreases board_assets@.len() - i,
        {
            match Theme::new(&board_assets[i]) {
                Ok(t) => {
                    atlases.push(t);
                },
                Err(e) => {
                    proof {
                        assert forall|j: int|
                            0 <= j < i implies valid_asset(
                            views_of(board_assets@)[j],
                        ) by {
                            assert(views_of(board_assets@)[j] == board_assets@[j]@);
                        }
                        assert(views_of(board_assets@)[i as int] == board_assets@[i as int]@);
                        lemma_first_invalid(views_of(board_assets@), i as int);
                    }
                    return Err(ThemesError::BadBoardAsset(i, e));
                },
            }
            i += 1;
        }
        let mut ch_atlases: Vec<Theme> = Vec::new();
        let mut k: usize = 0;
        while k < ch_assets.len()
            invariant
                k <= ch_assets@.len(),
                ch_assets@.len() == N_PIECE_SETS,
                board_assets@.len() == N_BOARD_THEMES * N_PIECE_SETS,
                atlases@.len() == board_assets@.len(),
                ch_atlases@.len() == k,
                font_parses(font_data@),
                forall|j: int| 0 <= j < board_assets@.len() ==> valid_asset(board_assets@[j]@),
                forall|j: int|
                    0 <= j < board_assets@.len() ==> #[trigger] atlases@[j].grid()
                        == decoded_pixels(board_assets@[j]@),
                forall|j: int| 0 <= j < k ==> valid_asset(ch_assets@[j]@),
                forall|j: int| 0 <= j < k ==> #[trigger] ch_atlases@[j].grid() == decoded_pixels(
                    ch_assets@[j]@,
                ),
            decreases ch_assets@.len() - k,
        {
            match Theme::new_ch(&ch_assets[k]) {
                Ok(t) => {
                    ch_atlases.push(t);
                },
                Err(e) => {
                    proof {
                        assert forall|j: int|
                            0 <= j < k implies valid_asset(views_of(ch_assets@)[j]) by {
                            assert(views_of(ch_assets@)[j] == ch_assets@[j]@);
                        }
                        assert(views_of(ch_assets@)[k as int] == ch_assets@[k as int]@);
                        lemma_first_invalid(views_of(ch_assets@), k as int);
                    }
                    return Err(ThemesError::BadChAsset(k, e));
                },
            }
            k += 1;
        }
        let themes = Themes { atlases, ch_atlases, font };
        proof {
            assert forall|b: BoardTheme, p: PieceSet| #[trigger]
                themes.spec_atlas(b, p).grid() == decoded_pixels(
                board_assets@[b.spec_index() * (N_PIECE_SETS as int) + p.spec_index()]@,
            ) by {
                lemma_board_index_range(b);
                lemma_piece_index_range(p);
            }
            assert forall|p: PieceSet| #[trigger]
                themes.spec_ch_atlas(p).grid() == decoded_pixels(ch_assets@[p.spec_index()]@) by {
                lemma_piece_index_range(p);
            }
        }
        Ok(themes)
    }

    /// The shared font resource.
    pub fn font(&self) -> (f: &rusttype::Font<'static>)
        ensures
            f == self.spec_font(),
    {
        &self.font
    }

    /// The atlas for a (board theme, piece set) pair.  Lookup is total:
    /// the cache holds an atlas for every pair of the closed enumerations.
    pub fn get(&self, board: BoardTheme, pieces: PieceSet) -> (t: &Theme)
        ensures
            *t == self.spec_atlas(board, pieces),
    {
        proof {
            use_type_invariant(self);
        }
        &self.atlases[board.index() * N_PIECE_SETS + pieces.index()]
    }

    /// The secondary atlas for a piece set.  Lookup is total over the
    /// closed enumeration.
    pub fn get_ch(&self, pieces: PieceSet) -> (t: &Theme)
        ensures
            *t == self.spec_ch_atlas(pieces),
    {
        proof {
            use_type_invariant(self);
        }
        &self.ch_atlases[pieces.index()]
    }
}

} // verus!
