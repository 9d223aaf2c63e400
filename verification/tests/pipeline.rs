use zzt::binary::BinaryAsset;
use zzt::char::{Char, CharacterMaterial};
use zzt::color::Color;
use zzt::dos::char::{
    create_bundle, CharBundle, TerminalChar, TerminalCharMaterial, TerminalTextureAtlas,
};
use zzt::dos::{
    place_char, startup_load_fonts, system_build_fonts, system_build_tiles, system_spawn_chars,
    CellRequest, Entity, Placement, Terminal,
};
use zzt::error::DosError;
use zzt::font::DosFont;
use zzt::math::{IVec3, Ratio, Transform, UVec2, UVec3, Vec2};
use zzt::state::FontAction::{Decode, Load, Nothing, Publish, Report};
use zzt::state::FontStage::{Decoding, Failed, Loading, Ready, Unloaded};
use zzt::state::{FontEvent, FontStage, State};

fn cell(code: u8, x: u32, y: u32) -> TerminalChar {
    TerminalChar {
        code,
        loc: UVec3 { x, y, z: 0 },
        background: Color::rgba(1, 2, 3, 4),
        foreground: Color::rgba(5, 6, 7, 8),
    }
}

fn atlas_of(columns: u32, rows: u32) -> TerminalTextureAtlas {
    let font = DosFont {
        image: BinaryAsset { data: vec![0x5a; (columns * rows * 8) as usize] },
        num_columns: columns,
        num_rows: rows,
        char_width: 8,
        char_height: 8,
        bytes_per_char: 8,
    };
    match font.build_texture_atlas() {
        Ok(atlas) => TerminalTextureAtlas(atlas),
        Err(error) => panic!("no atlas: {:?}", error),
    }
}

fn placed(char: TerminalChar, atlas: &TerminalTextureAtlas, x: i128, y: i128) -> CharBundle {
    let mut bundle = create_bundle(char, &atlas.0).expect("a glyph of the atlas");
    bundle.mesh.transform = Transform {
        translation: IVec3 { x, y, z: 0 },
        scale: UVec3 { x: 8, y: 8, z: 1 },
    };
    bundle
}

fn point(x: (u64, u64), y: (u64, u64)) -> Vec2 {
    Vec2 { x: Ratio { num: x.0, den: x.1 }, y: Ratio { num: y.0, den: y.1 } }
}

#[test]
fn a_cell_is_bundled_with_its_tile_and_its_colours() {
    let atlas = atlas_of(16, 16);
    let bundle = create_bundle(cell(17, 3, 4), &atlas.0).expect("glyph 17");
    assert_eq!(bundle.char, cell(17, 3, 4));
    assert_eq!(
        bundle.mesh.mesh.uvs,
        [
            point((8, 128), (16, 128)),
            point((8, 128), (8, 128)),
            point((16, 128), (8, 128)),
            point((16, 128), (16, 128)),
        ]
    );
    assert_eq!(
        bundle.mesh.material,
        TerminalCharMaterial {
            foreground_color: Color::rgba(5, 6, 7, 8),
            background_color: Color::rgba(1, 2, 3, 4),
            uses_atlas: true,
        }
    );
    assert_eq!(bundle.mesh.transform, Transform::default());
}

#[test]
fn a_cell_of_an_unknown_glyph_is_not_bundled() {
    let atlas = atlas_of(2, 2);
    assert!(create_bundle(cell(3, 0, 0), &atlas.0).is_ok());
    assert_eq!(create_bundle(cell(4, 0, 0), &atlas.0), Err(DosError::UnknownGlyphCode));
    assert_eq!(create_bundle(cell(255, 0, 0), &atlas.0), Err(DosError::UnknownGlyphCode));
}

#[test]
fn a_free_character_keeps_its_place_and_is_drawn_eight_units_large() {
    let atlas = atlas_of(16, 16);
    let char = Char {
        code: 255,
        color_fg: Color::white(),
        color_bg: Color::rgba(0, 0, 0, 255),
        transform: Transform {
            translation: IVec3 { x: 10, y: -20, z: 30 },
            scale: UVec3 { x: 1, y: 2, z: 3 },
        },
    };
    let bundle = char.create_bundle(&atlas.0).expect("glyph 255");
    assert_eq!(bundle.char, char);
    assert_eq!(
        bundle.mesh.mesh.uvs,
        [
            point((120, 128), (128, 128)),
            point((120, 128), (120, 128)),
            point((128, 128), (120, 128)),
            point((128, 128), (128, 128)),
        ]
    );
    assert_eq!(
        bundle.mesh.material,
        CharacterMaterial {
            foreground_color: Color::white(),
            background_color: Color::rgba(0, 0, 0, 255),
            uses_atlas: true,
        }
    );
    assert_eq!(
        bundle.mesh.transform,
        Transform { translation: IVec3 { x: 10, y: -20, z: 30 }, scale: UVec3 { x: 8, y: 8, z: 8 } }
    );
    let unknown = Char { code: 9, ..char };
    assert_eq!(unknown.create_bundle(&atlas_of(3, 3).0), Err(DosError::UnknownGlyphCode));
}

#[test]
fn materials_start_green_on_blue_without_a_texture() {
    let green = Color { r: 0, g: 255, b: 0, a: 255 };
    let blue = Color { r: 0, g: 0, b: 255, a: 255 };
    assert_eq!(
        TerminalCharMaterial::default(),
        TerminalCharMaterial { foreground_color: green, background_color: blue, uses_atlas: false }
    );
    assert_eq!(
        CharacterMaterial::default(),
        CharacterMaterial { foreground_color: green, background_color: blue, uses_atlas: false }
    );
}

#[test]
fn the_named_colours() {
    assert_eq!(Color::none(), Color { r: 0, g: 0, b: 0, a: 0 });
    assert_eq!(Color::white(), Color { r: 255, g: 255, b: 255, a: 255 });
    assert_eq!(Color::green(), Color { r: 0, g: 255, b: 0, a: 255 });
    assert_eq!(Color::blue(), Color { r: 0, g: 0, b: 255, a: 255 });
    assert_eq!(Color::rgba(1, 2, 3, 4), Color { r: 1, g: 2, b: 3, a: 4 });
}

#[test]
fn a_request_waits_for_the_atlas_and_is_placed_once() {
    let mut terminal = Terminal::default();
    let request = cell(65, 1, 1);
    terminal.add_char(request, Some(Entity { bits: 42 }));

    assert_eq!(system_spawn_chars(None, &mut terminal), Err(DosError::AtlasNotReady));
    assert_eq!(system_spawn_chars(None, &mut terminal), Err(DosError::AtlasNotReady));
    assert_eq!(terminal.pending_len(), 1);

    let atlas = atlas_of(16, 16);
    let expected = placed(request, &atlas, 12, 188);
    assert_eq!(
        system_spawn_chars(Some(&atlas), &mut terminal),
        Ok(vec![Placement::Spawn { parent: Some(Entity { bits: 42 }), bundle: expected }])
    );
    assert_eq!(terminal.pending_len(), 0);
    assert_eq!(system_spawn_chars(Some(&atlas), &mut terminal), Ok(Vec::new()));
}

#[test]
fn a_cycle_places_the_queue_in_order_and_skips_unknown_glyphs() {
    let mut terminal = Terminal::default();
    let atlas = atlas_of(2, 2);
    terminal.add_char(cell(1, 0, 0), None);
    terminal.add_char(cell(9, 1, 0), Some(Entity { bits: 1 }));
    terminal.add_char(cell(2, 2, 0), Some(Entity { bits: 2 }));
    let decided = system_spawn_chars(Some(&atlas), &mut terminal).expect("the atlas is there");
    assert_eq!(
        decided,
        vec![
            Placement::Spawn { parent: None, bundle: placed(cell(1, 0, 0), &atlas, 4, 196) },
            Placement::Skip { char: cell(9, 1, 0), error: DosError::UnknownGlyphCode },
            Placement::Spawn {
                parent: Some(Entity { bits: 2 }),
                bundle: placed(cell(2, 2, 0), &atlas, 20, 196),
            },
        ]
    );
    assert_eq!(terminal.pending_len(), 0);
}

#[test]
fn one_request_is_decided_against_the_atlas() {
    let atlas = atlas_of(2, 1);
    let known = CellRequest { parent: Some(Entity { bits: 3 }), char: cell(1, 5, 5) };
    let unknown = CellRequest { parent: None, char: cell(2, 5, 5) };
    let terminal = Terminal::default();
    assert_eq!(
        place_char(known, &atlas, &terminal),
        Placement::Spawn {
            parent: Some(Entity { bits: 3 }),
            bundle: placed(cell(1, 5, 5), &atlas, 44, 156),
        }
    );
    assert_eq!(
        place_char(unknown, &atlas, &terminal),
        Placement::Skip { char: cell(2, 5, 5), error: DosError::UnknownGlyphCode }
    );
}

#[test]
fn a_placed_cell_stands_where_the_grid_puts_it() {
    let mut terminal =
        Terminal::new(UVec2 { x: 10, y: 4 }, UVec2 { x: 9, y: 5 }).expect("a grid");
    let atlas = atlas_of(16, 16);
    let mut far = cell(3, 2, 7);
    far.loc.z = 6;
    terminal.add_char(far, None);
    let placements = system_spawn_chars(Some(&atlas), &mut terminal).expect("the atlas is there");
    match &placements[..] {
        [Placement::Spawn { parent: None, bundle }] => {
            assert_eq!(bundle.char, far);
            assert_eq!(
                bundle.mesh.transform,
                Transform {
                    translation: IVec3 { x: 22, y: -17, z: 6 },
                    scale: UVec3 { x: 9, y: 5, z: 1 },
                }
            );
        }
        other => panic!("{:?}", other),
    }
}

#[test]
fn the_font_file_is_asked_for_once() {
    let mut state = State::default();
    assert_eq!(state, State { font: FontStage::Unloaded, tiles_added: false });
    assert!(!state.font_loaded());
    assert_eq!(startup_load_fonts(&mut state), Some("CP437.F08"));
    assert_eq!(state.font, FontStage::Loading);
    assert_eq!(startup_load_fonts(&mut state), None);
    assert_eq!(state.font, FontStage::Loading);
    assert!(!state.font_loaded());
}

#[test]
fn the_atlas_is_built_when_the_bytes_arrive_and_only_once() {
    let mut state = State::default();
    let bytes = BinaryAsset { data: vec![0x81; 2048] };
    assert!(system_build_fonts(&mut state, Some(&bytes)).is_none());
    assert_eq!(state.font, FontStage::Unloaded);

    startup_load_fonts(&mut state);
    assert!(system_build_fonts(&mut state, None).is_none());
    assert_eq!(state.font, FontStage::Loading);

    let atlas = match system_build_fonts(&mut state, Some(&bytes)) {
        Some(Ok(atlas)) => atlas,
        _ => panic!("the bytes are a font"),
    };
    assert_eq!(state.font, FontStage::Ready);
    assert!(state.font_loaded());
    assert_eq!(atlas.0.len(), 256);
    assert_eq!(atlas.0.size(), UVec2 { x: 128, y: 128 });
    assert_eq!(atlas.0.texture().get_pixel(0, 0), Some((255, 255)));
    assert_eq!(atlas.0.texture().get_pixel(1, 0), Some((0, 0)));
    assert_eq!(atlas.0.texture().get_pixel(127, 127), Some((255, 255)));

    assert!(system_build_fonts(&mut state, Some(&bytes)).is_none());
    assert!(system_build_fonts(&mut state, None).is_none());
    assert_eq!(state.font, FontStage::Ready);
}

#[test]
fn a_truncated_font_fails_and_is_not_tried_again() {
    let mut state = State::default();
    startup_load_fonts(&mut state);
    let short = BinaryAsset { data: vec![0; 2047] };
    match system_build_fonts(&mut state, Some(&short)) {
        Some(Err(error)) => assert_eq!(error, DosError::MalformedFont),
        _ => panic!("2047 bytes are no font"),
    }
    assert_eq!(state.font, FontStage::Failed);
    assert!(state.font_loaded());
    let whole = BinaryAsset { data: vec![0; 2048] };
    assert!(system_build_fonts(&mut state, Some(&whole)).is_none());
    assert_eq!(state.font, FontStage::Failed);
    assert_eq!(startup_load_fonts(&mut state), None);
}

#[test]
fn a_font_left_in_decoding_is_decoded_by_the_next_cycle() {
    let mut state = State { font: FontStage::Decoding, tiles_added: true };
    assert!(system_build_fonts(&mut state, None).is_none());
    assert_eq!(state.font, FontStage::Decoding);
    let bytes = BinaryAsset { data: vec![0; 4096] };
    assert!(matches!(system_build_fonts(&mut state, Some(&bytes)), Some(Ok(_))));
    assert_eq!(state, State { font: FontStage::Ready, tiles_added: true });
}

#[test]
fn the_bytes_are_of_use_while_loading_and_decoding() {
    assert!(!Unloaded.awaits_bytes());
    assert!(Loading.awaits_bytes());
    assert!(Decoding.awaits_bytes());
    assert!(!Ready.awaits_bytes());
    assert!(!Failed.awaits_bytes());
    for (stage, loaded) in [(Unloaded, false), (Loading, false), (Decoding, true), (Ready, true), (Failed, true)] {
        assert_eq!(State { font: stage, tiles_added: false }.font_loaded(), loaded);
    }
}

#[test]
fn every_stage_answers_every_event() {
    let events = [
        FontEvent::Startup,
        FontEvent::Polled { loaded: false },
        FontEvent::Polled { loaded: true },
        FontEvent::Decoded { ok: false },
        FontEvent::Decoded { ok: true },
    ];
    let table = [
        (Unloaded, [(Loading, Load), (Unloaded, Nothing), (Unloaded, Nothing), (Unloaded, Nothing), (Unloaded, Nothing)]),
        (Loading, [(Loading, Nothing), (Loading, Nothing), (Decoding, Decode), (Loading, Nothing), (Loading, Nothing)]),
        (Decoding, [(Decoding, Nothing), (Decoding, Nothing), (Decoding, Nothing), (Failed, Report), (Ready, Publish)]),
        (Ready, [(Ready, Nothing), (Ready, Nothing), (Ready, Nothing), (Ready, Nothing), (Ready, Nothing)]),
        (Failed, [(Failed, Nothing), (Failed, Nothing), (Failed, Nothing), (Failed, Nothing), (Failed, Nothing)]),
    ];
    for (stage, answers) in table {
        for (event, answer) in events.iter().zip(answers) {
            assert_eq!(stage.step(*event), answer, "{:?} on {:?}", stage, event);
            let mut state = State { font: stage, tiles_added: true };
            assert_eq!(state.handle(*event), answer.1);
            assert_eq!(state, State { font: answer.0, tiles_added: true });
        }
    }
}

#[test]
fn the_grid_is_filled_once_column_by_column() {
    let mut terminal = Terminal::default();
    let mut state = State::default();
    let camera = system_build_tiles(&mut terminal, &mut state);
    assert_eq!(camera, Some(point((320, 2), (200, 2))));
    assert!(state.tiles_added);
    assert_eq!(state.font, FontStage::Unloaded);
    let queue = terminal.drain_pending();
    assert_eq!(queue.len(), 1000);
    for (i, request) in queue.iter().enumerate() {
        let x = (i / 25) as u32;
        let y = (i % 25) as u32;
        let expected = TerminalChar {
            code: ((y * 40 + x) % 255) as u8,
            loc: UVec3 { x, y, z: 0 },
            background: Color::none(),
            foreground: Color::white(),
        };
        assert_eq!(*request, CellRequest { parent: None, char: expected });
    }
    assert_eq!(queue[26].char.code, 41);
    assert_eq!(queue[15 + 6 * 25].char.code, 96);
    assert_eq!(queue[15 + 6 * 25].char.loc, UVec3 { x: 6, y: 15, z: 0 });
    assert_eq!(queue[6 * 25 + 6].char.code, 246);
    assert_eq!(queue[15 * 25 + 6].char.code, 0);
    assert_eq!(queue[999].char.code, 234);

    assert_eq!(system_build_tiles(&mut terminal, &mut state), None);
    assert_eq!(terminal.pending_len(), 0);
    assert!(state.tiles_added);
}

#[test]
fn the_fill_goes_behind_what_waits_already() {
    let mut terminal =
        Terminal::new(UVec2 { x: 2, y: 3 }, UVec2 { x: 5, y: 7 }).expect("a grid");
    let mut state = State { font: FontStage::Ready, tiles_added: false };
    terminal.add_char(cell(200, 9, 9), None);
    let camera = system_build_tiles(&mut terminal, &mut state);
    assert_eq!(camera, Some(point((10, 2), (21, 2))));
    assert_eq!(state, State { font: FontStage::Ready, tiles_added: true });
    let queue = terminal.drain_pending();
    let places: Vec<(u8, u32, u32)> =
        queue.iter().map(|request| (request.char.code, request.char.loc.x, request.char.loc.y)).collect();
    assert_eq!(
        places,
        vec![(200, 9, 9), (0, 0, 0), (2, 0, 1), (4, 0, 2), (1, 1, 0), (3, 1, 1), (5, 1, 2)]
    );
}
