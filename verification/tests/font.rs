use tiny_game_framework::{Character, Font, PlacedGlyph, GLYPH_COUNT};

fn glyph(texture: u32) -> Character {
    Character { texture, size: (10, 12), bearing: (1, 9), advance: 704 }
}

fn ascii_font() -> Font {
    let mut loaded: Vec<Option<Character>> = vec![None; 128];
    loaded['a' as usize] = Some(glyph(1));
    loaded['b' as usize] = Some(Character { texture: 2, size: (8, 20), bearing: (-2, 25), advance: 63 });
    loaded['c' as usize] = Some(Character { texture: 3, size: (0, 0), bearing: (0, 0), advance: 64 });
    Font::init(11, 22, &loaded)
}

#[test]
fn init_keeps_the_glyphs_that_could_be_had() {
    let font = ascii_font();
    assert_eq!((font.VBO, font.VAO), (11, 22));
    assert_eq!(font.characters.len(), 3);
    assert_eq!(font.character('a'), Some(glyph(1)));
    assert_eq!(font.character('d'), None);
    assert_eq!(font.character('\0'), None);
}

#[test]
fn init_counts_the_first_glyph_codes_only() {
    assert_eq!(GLYPH_COUNT, 128);
    let loaded: Vec<Option<Character>> = (0..200).map(|code| Some(glyph(code))).collect();
    let font = Font::init(0, 0, &loaded);
    assert_eq!(font.characters.len(), 128);
    assert_eq!(font.character('\u{7f}'), Some(glyph(127)));
    assert_eq!(font.character('\u{80}'), None);
    assert_eq!(font.character('é'), None);
}

#[test]
fn init_takes_a_short_table() {
    let font = Font::init(0, 0, &vec![Some(glyph(0)), None, Some(glyph(2))]);
    assert_eq!(font.characters.len(), 2);
    assert_eq!(font.character('\u{2}'), Some(glyph(2)));
    assert_eq!(font.character('\u{1}'), None);
    let empty = Font::init(0, 0, &Vec::new());
    assert!(empty.characters.is_empty());
}

#[test]
fn layout_places_each_glyph() {
    let font = ascii_font();
    assert_eq!(
        font.layout("ab"),
        vec![
            PlacedGlyph { texture: 1, bearing_x: 1, descent: 3, width: 10, height: 12, advance: 11 },
            PlacedGlyph { texture: 2, bearing_x: -2, descent: -5, width: 8, height: 20, advance: 0 },
        ]
    );
}

#[test]
fn layout_passes_over_characters_without_a_glyph() {
    let font = ascii_font();
    let run = font.layout("a b\u{e9}c!a");
    let textures: Vec<u32> = run.iter().map(|g| g.texture).collect();
    assert_eq!(textures, vec![1, 2, 3, 1]);
    assert!(font.layout("").is_empty());
    assert!(font.layout("xyz").is_empty());
}

#[test]
fn advance_is_in_whole_pixels() {
    let loaded = vec![
        Some(Character { texture: 0, size: (0, 0), bearing: (0, 0), advance: 0 }),
        Some(Character { texture: 1, size: (0, 0), bearing: (0, 0), advance: 63 }),
        Some(Character { texture: 2, size: (0, 0), bearing: (0, 0), advance: 64 }),
        Some(Character { texture: 3, size: (0, 0), bearing: (0, 0), advance: 1920 }),
        Some(Character { texture: 4, size: (0, 0), bearing: (0, 0), advance: u32::MAX }),
    ];
    let font = Font::init(0, 0, &loaded);
    let advances: Vec<u32> = font.layout("\u{0}\u{1}\u{2}\u{3}\u{4}").iter().map(|g| g.advance).collect();
    assert_eq!(advances, vec![0, 0, 1, 30, 67108863]);
}

#[test]
fn descent_does_not_overflow() {
    let loaded = vec![
        Some(Character { texture: 0, size: (0, i32::MAX), bearing: (0, i32::MIN), advance: 0 }),
        Some(Character { texture: 1, size: (0, i32::MIN), bearing: (0, i32::MAX), advance: 0 }),
    ];
    let font = Font::init(0, 0, &loaded);
    let run = font.layout("\u{0}\u{1}");
    assert_eq!(run[0].descent, i32::MAX as i64 - i32::MIN as i64);
    assert_eq!(run[1].descent, i32::MIN as i64 - i32::MAX as i64);
}
