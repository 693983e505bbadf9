use theme_atlas::keys::{PocketKey, SpriteKey};
use theme_atlas::pieces::{Color, Piece, Role};
use theme_atlas::theme::{Theme, ThemeError};
use theme_atlas::themes::{
    all_board_themes, all_piece_sets, Themes, ThemesError, N_BOARD_THEMES, N_PIECE_SETS,
};

const SQUARE: usize = 90;
const SIDE: usize = 720;
const AREA: usize = SIDE * SIDE;

/// Encode a single-frame GIF of the given size around the given pixel
/// bytes, with or without a global color table.
fn encode_gif(width: u16, height: u16, pixels: &[u8], with_palette: bool) -> Vec<u8> {
    let mut out: Vec<u8> = Vec::new();
    {
        let mut enc = gift::Encoder::new(&mut out).into_frame_enc();
        let mut preamble = gift::block::Preamble::default();
        let mut desc = gift::block::LogicalScreenDesc::default()
            .with_screen_width(width)
            .with_screen_height(height);
        if with_palette {
            let ctc = gift::block::ColorTableConfig::new(
                gift::block::ColorTableExistence::Present,
                gift::block::ColorTableOrdering::NotSorted,
                256,
            );
            desc = desc.with_color_table_config(ctc);
            let colors = vec![0u8; 256 * 3];
            preamble.global_color_table =
                Some(gift::block::GlobalColorTable::with_colors(&colors));
        }
        preamble.logical_screen_desc = desc;
        enc.encode_preamble(&preamble).unwrap();
        let image_desc = gift::block::ImageDesc::default().with_width(width).with_height(height);
        let mut image_data = gift::block::ImageData::new(pixels.len());
        image_data.data_mut().extend_from_slice(pixels);
        let frame = gift::block::Frame::new(None, image_desc, None, image_data);
        enc.encode_frame(&frame).unwrap();
        enc.encode_trailer().unwrap();
    }
    out
}

/// A full-size pixel buffer with distinctive bytes at every offset the
/// accessors read, plus markers inside two reachable tiles.
fn base_pixels() -> Vec<u8> {
    let mut px = vec![0u8; AREA];
    px[0] = 11; // light square color
    px[SQUARE] = 22; // dark square color
    px[2 * SQUARE] = 33; // highlighted light
    px[3 * SQUARE] = 44; // highlighted dark
    px[4 * SQUARE] = 55; // bar
    px[4 * SQUARE + 60] = 66; // text
    px[4 * SQUARE + 120] = 77; // gold
    px[4 * SQUARE + 180] = 88; // bot
    px[4 * SQUARE + 240] = 99; // med text
    px[4 * SQUARE + 300] = 110; // transparent
    // tile for a white pawn on a dark square: column 5, row 1
    px[SQUARE * SIDE + 5 * SQUARE] = 123;
    px[(SQUARE + 10) * SIDE + 5 * SQUARE + 20] = 124;
    // the fixed pocket tile: column 1, row 6
    px[6 * SQUARE * SIDE + SQUARE] = 125;
    px
}

fn valid_asset_bytes() -> Vec<u8> {
    encode_gif(720, 720, &base_pixels(), true)
}

/// A board asset whose flat cache index is recoverable from a pixel inside
/// the tile at column 3, row 0 (reachable as highlight + dark square).
fn board_asset(n: u8) -> Vec<u8> {
    let mut px = base_pixels();
    px[5 * SIDE + 3 * SQUARE + 5] = n;
    encode_gif(720, 720, &px, true)
}

/// A secondary asset marked inside the tile at column 1, row 0.
fn ch_asset(n: u8) -> Vec<u8> {
    let mut px = base_pixels();
    px[7 * SIDE + SQUARE + 7] = 200 + n;
    encode_gif(720, 720, &px, true)
}

fn push_u32(v: &mut Vec<u8>, x: u32) {
    v.extend_from_slice(&x.to_be_bytes());
}

fn push_u16(v: &mut Vec<u8>, x: u16) {
    v.extend_from_slice(&x.to_be_bytes());
}

/// A minimal TrueType face: just the three required tables.
fn tiny_font_bytes() -> Vec<u8> {
    let mut head: Vec<u8> = Vec::new();
    push_u32(&mut head, 0x00010000); // version
    push_u32(&mut head, 0); // font revision
    push_u32(&mut head, 0); // checksum adjustment
    push_u32(&mut head, 0x5F0F3CF5); // magic number
    push_u16(&mut head, 0); // flags
    push_u16(&mut head, 1000); // units per em
    head.extend_from_slice(&[0u8; 16]); // created + modified
    push_u16(&mut head, 0); // x min
    push_u16(&mut head, 0); // y min
    push_u16(&mut head, 100); // x max
    push_u16(&mut head, 100); // y max
    push_u16(&mut head, 0); // mac style
    push_u16(&mut head, 8); // lowest rec ppem
    push_u16(&mut head, 0); // font direction hint
    push_u16(&mut head, 0); // index to loc format
    push_u16(&mut head, 0); // glyph data format
    assert_eq!(head.len(), 54);

    let mut hhea: Vec<u8> = Vec::new();
    push_u32(&mut hhea, 0x00010000); // version
    push_u16(&mut hhea, 800); // ascender
    push_u16(&mut hhea, (-200i16) as u16); // descender
    push_u16(&mut hhea, 0); // line gap
    hhea.extend_from_slice(&[0u8; 24]);
    push_u16(&mut hhea, 1); // number of h metrics
    assert_eq!(hhea.len(), 36);

    let mut maxp: Vec<u8> = Vec::new();
    push_u32(&mut maxp, 0x00005000); // version 0.5
    push_u16(&mut maxp, 1); // number of glyphs
    assert_eq!(maxp.len(), 6);

    let mut font: Vec<u8> = Vec::new();
    push_u32(&mut font, 0x00010000); // sfnt version
    push_u16(&mut font, 3); // table count
    push_u16(&mut font, 0); // search range
    push_u16(&mut font, 0); // entry selector
    push_u16(&mut font, 0); // range shift
    for (tag, offset, length) in
        [(*b"head", 60u32, 54u32), (*b"hhea", 114, 36), (*b"maxp", 150, 6)]
    {
        font.extend_from_slice(&tag);
        push_u32(&mut font, 0); // checksum (unchecked)
        push_u32(&mut font, offset);
        push_u32(&mut font, length);
    }
    font.extend_from_slice(&head);
    font.extend_from_slice(&hhea);
    font.extend_from_slice(&maxp);
    font
}

fn white_pawn_dark_key() -> SpriteKey {
    SpriteKey {
        piece: Some(Piece { color: Color::White, role: Role::Pawn }),
        dark_square: true,
        highlight: false,
        check: false,
    }
}

fn all_descriptors() -> Vec<SpriteKey> {
    let mut pieces: Vec<Option<Piece>> = vec![None];
    for color in [Color::White, Color::Black] {
        for role in [Role::Pawn, Role::Knight, Role::Bishop, Role::Rook, Role::Queen, Role::King] {
            pieces.push(Some(Piece { color, role }));
        }
    }
    let mut keys = Vec::new();
    for piece in pieces {
        for dark_square in [false, true] {
            for highlight in [false, true] {
                for check in [false, true] {
                    keys.push(SpriteKey { piece, dark_square, highlight, check });
                }
            }
        }
    }
    keys
}

#[test]
fn geometry_accessors_and_height_composition() {
    let theme = Theme::new(&valid_asset_bytes()).unwrap();
    assert_eq!(theme.square(), 90);
    assert_eq!(theme.pocket_margin(), 10);
    assert_eq!(theme.width(), 720);
    assert_eq!(theme.bar_height(), 60);
    assert_eq!(theme.height(false, false), theme.width());
    assert_eq!(theme.height(true, false), theme.width() + 2 * theme.bar_height());
    assert_eq!(theme.height(false, true), theme.width() + 2 * (90 + 2 * 10));
    assert_eq!(
        theme.height(true, true),
        theme.width() + 2 * theme.bar_height() + 2 * (90 + 2 * 10)
    );
    assert_eq!(theme.height(true, true), 1060);
}

#[test]
fn square_colors_come_from_the_fixed_offsets() {
    let theme = Theme::new(&valid_asset_bytes()).unwrap();
    assert_eq!(theme.square_light_color(), 11);
    assert_eq!(theme.square_dark_color(), 22);
    assert_eq!(theme.square_highlighted_light_color(), 33);
    assert_eq!(theme.square_highlighted_dark_color(), 44);
}

#[test]
fn auxiliary_colors_come_from_the_color_strip() {
    let theme = Theme::new(&valid_asset_bytes()).unwrap();
    assert_eq!(theme.bar_color(), 55);
    assert_eq!(theme.text_color(), 66);
    assert_eq!(theme.gold_color(), 77);
    assert_eq!(theme.bot_color(), 88);
    assert_eq!(theme.med_text_color(), 99);
    assert_eq!(theme.transparent_color(), 110);
}

#[test]
fn color_table_metadata_is_passed_through() {
    let theme = Theme::new(&valid_asset_bytes()).unwrap();
    assert_eq!(theme.color_table_config().len(), 256);
    assert_eq!(theme.global_color_table().len(), 256);
}

#[test]
fn tile_view_is_the_descriptor_subblock() {
    let theme = Theme::new(&valid_asset_bytes()).unwrap();
    let view = theme.sprite(&white_pawn_dark_key());
    assert_eq!(view.side(), 90);
    assert_eq!(view.row_offset(), 90);
    assert_eq!(view.col_offset(), 450);
    assert_eq!(view.pixel(0, 0), 123);
    assert_eq!(view.pixel(10, 20), 124);
    assert_eq!(view.pixel(1, 0), 0);
}

#[test]
fn tile_copy_reproduces_the_view() {
    let theme = Theme::new(&valid_asset_bytes()).unwrap();
    let view = theme.sprite(&white_pawn_dark_key());
    let owned = view.to_vec();
    assert_eq!(owned.len(), 90 * 90);
    assert_eq!(owned[0], 123);
    assert_eq!(owned[10 * 90 + 20], 124);
    assert_eq!(owned[1], 0);
}

#[test]
fn pocket_view_is_the_fixed_tile() {
    let theme = Theme::new(&valid_asset_bytes()).unwrap();
    let key = PocketKey {
        piece: Some(Piece { color: Color::Black, role: Role::Rook }),
        count: 2,
    };
    let view = theme.chsprite(&key);
    assert_eq!(view.row_offset(), 540);
    assert_eq!(view.col_offset(), 90);
    assert_eq!(view.pixel(0, 0), 125);
}

#[test]
fn decoding_twice_is_deterministic() {
    let bytes = valid_asset_bytes();
    let a = Theme::new(&bytes).unwrap();
    let b = Theme::new(&bytes).unwrap();
    assert_eq!(a.square(), b.square());
    assert_eq!(a.pocket_margin(), b.pocket_margin());
    assert_eq!(a.width(), b.width());
    assert_eq!(a.bar_height(), b.bar_height());
    for bars in [false, true] {
        for pockets in [false, true] {
            assert_eq!(a.height(bars, pockets), b.height(bars, pockets));
        }
    }
    for key in all_descriptors() {
        let va = a.sprite(&key);
        let vb = b.sprite(&key);
        assert_eq!(va.row_offset(), vb.row_offset());
        assert_eq!(va.col_offset(), vb.col_offset());
        assert_eq!(va.to_vec(), vb.to_vec());
    }
}

#[test]
fn wrong_pixel_count_is_a_shape_mismatch() {
    let small = encode_gif(8, 8, &[1u8; 64], true);
    assert!(matches!(Theme::new(&small), Err(ThemeError::ShapeMismatch)));
}

#[test]
fn garbage_bytes_are_a_malformed_container() {
    let garbage: Vec<u8> = b"this is not an image container".to_vec();
    assert!(matches!(Theme::new(&garbage), Err(ThemeError::MalformedContainer)));
    let empty: Vec<u8> = Vec::new();
    assert!(matches!(Theme::new(&empty), Err(ThemeError::MalformedContainer)));
}

#[test]
fn absent_palette_is_a_missing_palette() {
    let bytes = encode_gif(720, 720, &base_pixels(), false);
    assert!(matches!(Theme::new(&bytes), Err(ThemeError::MissingPalette)));
}

#[test]
fn shape_is_checked_before_the_palette() {
    let bytes = encode_gif(8, 8, &[1u8; 64], false);
    assert!(matches!(Theme::new(&bytes), Err(ThemeError::ShapeMismatch)));
}

#[test]
fn secondary_variant_decodes_like_the_primary() {
    let bytes = valid_asset_bytes();
    let a = Theme::new(&bytes).unwrap();
    let b = Theme::new_ch(&bytes).unwrap();
    assert_eq!(a.sprite(&white_pawn_dark_key()).to_vec(), b.sprite(&white_pawn_dark_key()).to_vec());
    let small = encode_gif(8, 8, &[1u8; 64], true);
    assert!(matches!(Theme::new_ch(&small), Err(ThemeError::ShapeMismatch)));
}

fn build_cache() -> Themes {
    let board_assets: Vec<Vec<u8>> =
        (0..N_BOARD_THEMES * N_PIECE_SETS).map(|n| board_asset(n as u8)).collect();
    let ch_assets: Vec<Vec<u8>> = (0..N_PIECE_SETS).map(|n| ch_asset(n as u8)).collect();
    Themes::new(&board_assets, &ch_assets, tiny_font_bytes()).unwrap()
}

#[test]
fn lookup_is_total_and_exhaustively_populated() {
    let themes = build_cache();
    let marker_key = SpriteKey { piece: None, dark_square: true, highlight: true, check: false };
    for board in all_board_themes() {
        for pieces in all_piece_sets() {
            let theme = themes.get(board, pieces);
            let flat = board.index() * N_PIECE_SETS + pieces.index();
            assert_eq!(theme.sprite(&marker_key).pixel(5, 5), flat as u8);
        }
    }
    let ch_key = SpriteKey { piece: None, dark_square: true, highlight: false, check: false };
    for pieces in all_piece_sets() {
        let theme = themes.get_ch(pieces);
        assert_eq!(theme.sprite(&ch_key).pixel(7, 7), 200 + pieces.index() as u8);
    }
}

#[test]
fn font_is_shared_and_loaded() {
    let themes = build_cache();
    let font = themes.font();
    assert_eq!(font.glyph_count(), 1);
}

#[test]
fn unparsable_font_fails_the_cache() {
    let board_assets: Vec<Vec<u8>> =
        (0..N_BOARD_THEMES * N_PIECE_SETS).map(|_| valid_asset_bytes()).collect();
    let ch_assets: Vec<Vec<u8>> = (0..N_PIECE_SETS).map(|_| valid_asset_bytes()).collect();
    let r = Themes::new(&board_assets, &ch_assets, b"not a font".to_vec());
    assert!(matches!(r, Err(ThemesError::BadFont)));
}

#[test]
fn first_bad_board_asset_is_reported() {
    let mut board_assets: Vec<Vec<u8>> =
        (0..N_BOARD_THEMES * N_PIECE_SETS).map(|_| valid_asset_bytes()).collect();
    board_assets[3] = b"broken".to_vec();
    board_assets[5] = encode_gif(8, 8, &[0u8; 64], true);
    let ch_assets: Vec<Vec<u8>> = (0..N_PIECE_SETS).map(|_| valid_asset_bytes()).collect();
    let r = Themes::new(&board_assets, &ch_assets, tiny_font_bytes());
    assert!(matches!(r, Err(ThemesError::BadBoardAsset(3, ThemeError::MalformedContainer))));
}

#[test]
fn bad_secondary_asset_is_reported_with_its_index() {
    let board_assets: Vec<Vec<u8>> =
        (0..N_BOARD_THEMES * N_PIECE_SETS).map(|_| valid_asset_bytes()).collect();
    let mut ch_assets: Vec<Vec<u8>> = (0..N_PIECE_SETS).map(|_| valid_asset_bytes()).collect();
    ch_assets[2] = encode_gif(8, 8, &[0u8; 64], true);
    let r = Themes::new(&board_assets, &ch_assets, tiny_font_bytes());
    assert!(matches!(r, Err(ThemesError::BadChAsset(2, ThemeError::ShapeMismatch))));
}

#[test]
fn cache_construction_is_deterministic() {
    let board_assets: Vec<Vec<u8>> =
        (0..N_BOARD_THEMES * N_PIECE_SETS).map(|n| board_asset(n as u8)).collect();
    let ch_assets: Vec<Vec<u8>> = (0..N_PIECE_SETS).map(|n| ch_asset(n as u8)).collect();
    let t1 = Themes::new(&board_assets, &ch_assets, tiny_font_bytes()).unwrap();
    let t2 = Themes::new(&board_assets, &ch_assets, tiny_font_bytes()).unwrap();
    let key = white_pawn_dark_key();
    for board in all_board_themes() {
        for pieces in all_piece_sets() {
            let a = t1.get(board, pieces).sprite(&key).to_vec();
            let b = t2.get(board, pieces).sprite(&key).to_vec();
            assert_eq!(a, b);
        }
    }
}
