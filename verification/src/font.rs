//! Fonts: the glyphs of a typeface by character, and the run of glyphs that
//! a text is drawn with.

use std::collections::HashMap;
use vstd::prelude::*;

verus! {

/// A rasterised glyph: the texture that holds its bitmap, and its metrics.
#[derive(Clone, Copy, Debug, PartialEq, Eq)]
pub struct Character {
    pub texture: u32,
    /// Width and height of the bitmap in pixels.
    pub size: (i32, i32),
    /// Offset of the bitmap's left edge from the pen position, and of its
    /// top edge from the baseline.
    pub bearing: (i32, i32),
    /// How far the pen moves on, in 1/64 of a pixel.
    pub advance: u32,
}

/// A glyph ready to be put on the baseline.
#[derive(Clone, Copy, Debug, PartialEq, Eq)]
pub struct PlacedGlyph {
    pub texture: u32,
    /// Offset of the left edge from the pen position.
    pub bearing_x: i32,
    /// How far the bitmap reaches below the baseline.
    pub descent: i64,
    pub width: i32,
    pub height: i32,
    /// How far the pen moves on, in whole pixels.
    pub advance: u32,
}

/// The codes that a font is asked to hold a glyph for: `0..GLYPH_COUNT`.
pub const GLYPH_COUNT: usize = 128;

/// A typeface, rasterised: its glyphs and the buffers that text is drawn
/// from.
#[allow(non_snake_case)]
pub struct Font {
    pub VBO: u32,
    pub VAO: u32,
    /// The glyphs by the code of their character.
    pub characters: HashMap<u32, Character>,
}

/// How `character` is put on the baseline.
pub open spec fn placed(character: Character) -> PlacedGlyph {
    PlacedGlyph {
        texture: character.texture,
        bearing_x: character.bearing.0,
        descent: (character.size.1 - character.bearing.1) as i64,
        width: character.size.0,
        height: character.size.1,
        advance: character.advance >> 6,
    }
}

/// The glyphs that `text` is drawn with, in order. A character without a
/// glyph is passed over.
pub open spec fn glyph_run(characters: Map<u32, Character>, text: Seq<char>) -> Seq<PlacedGlyph>
    decreases text.len(),
{
    if text.len() == 0 {
        Seq::empty()
    } else {
        let before = glyph_run(characters, text.drop_last());
        let code = text.last() as u32;
        if characters.contains_key(code) {
            before.push(placed(characters[code]))
        } else {
            before
        }
    }
}

/// A text in two parts is drawn with the glyphs of the first part, then
/// those of the second.
pub proof fn glyph_run_of_joined_texts(
    characters: Map<u32, Character>,
    first: Seq<char>,
    second: Seq<char>,
)
    ensures
        glyph_run(characters, first + second) == glyph_run(characters, first) + glyph_run(
            characters,
            second,
        ),
    decreases second.len(),
{
    if second.len() == 0 {
        assert(first + second =~= first);
        assert(glyph_run(characters, first) + glyph_run(characters, second) =~= glyph_run(
            characters,
            first,
        ));
    } else {
        glyph_run_of_joined_texts(characters, first, second.drop_last());
        assert((first + second).drop_last() =~= first + second.drop_last());
        assert((first + second).last() == second.last());
        let code = second.last() as u32;
        let before = glyph_run(characters, second.drop_last());
        if characters.contains_key(code) {
            assert(glyph_run(characters, first) + before.push(placed(characters[code]))
                =~= (glyph_run(characters, first) + before).push(placed(characters[code])));
        }
    }
}

/// No more glyphs are drawn than the text has characters.
pub proof fn glyph_run_is_no_longer_than_the_text(characters: Map<u32, Character>, text: Seq<char>)
    ensures
        glyph_run(characters, text).len() <= text.len(),
    decreases text.len(),
{
    if text.len() > 0 {
        glyph_run_is_no_longer_than_the_text(characters, text.drop_last());
    }
}

impl Font {
    /// The glyph of `c`, if the font has one.
    pub open spec fn glyph(&self, c: char) -> Option<Character> {
        if self.characters@.contains_key(c as u32) {
            Some(self.characters@[c as u32])
        } else {
            None
        }
    }

    /// A font of the glyphs in `loaded`, where entry `code` is the glyph of
    /// the character with that code, or nothing where it could not be had.
    /// Only the first `GLYPH_COUNT` entries count.
    #[allow(non_snake_case)]
    pub fn init(VBO: u32, VAO: u32, loaded: &Vec<Option<Character>>) -> (font: Self)
        ensures
            font.VBO == VBO,
            font.VAO == VAO,
            forall|code: u32| #[trigger]
                font.characters@.contains_key(code) <==> code < GLYPH_COUNT && code < loaded@.len()
                    && loaded@[code as int] is Some,
            forall|code: u32| #[trigger]
                font.characters@.contains_key(code) ==> Some(font.characters@[code])
                    == loaded@[code as int],
    {
        let mut characters: HashMap<u32, Character> = HashMap::new();
        let mut code: usize = 0;
        while code < GLYPH_COUNT && code < loaded.len()
            invariant
                code <= GLYPH_COUNT,
                code <= loaded@.len(),
                forall|k: u32| #[trigger]
                    characters@.contains_key(k) <==> k < code && loaded@[k as int] is Some,
                forall|k: u32| #[trigger]
                    characters@.contains_key(k) ==> characters@[k] == loaded@[k as int]->0,
            decreases GLYPH_COUNT - code,
        {
            match loaded[code] {
                Some(character) => {
                    characters.insert(code as u32, character);
                },
                None => {},
            }
            code += 1;
        }
        Font { VBO, VAO, characters }
    }

    /// The glyph of `c`, if the font has one.
    pub fn character(&self, c: char) -> (found: Option<Character>)
        ensures
            found == self.glyph(c),
    {
        let code: u32 = c as u32;
        match self.characters.get(&code) {
            Some(character) => Some(*character),
            None => None,
        }
    }

    /// The glyphs that `text` is drawn with.
    pub fn layout(&self, text: &str) -> (run: Vec<PlacedGlyph>)
        ensures
            run@ == glyph_run(self.characters@, text@),
    {
        let mut run: Vec<PlacedGlyph> = Vec::new();
        for c in letters: text.chars()
            invariant
                letters.seq() == text@,
                run@ == glyph_run(self.characters@, text@.take(letters.index() as int)),
        {
            let ghost seen_next = text@.take(letters.index() + 1);
            assert(seen_next.drop_last() =~= text@.take(letters.index() as int));
            assert(seen_next.last() == c);
            match self.character(c) {
                Some(ch) => {
                    run.push(
                        PlacedGlyph {
                            texture: ch.texture,
                            bearing_x: ch.bearing.0,
                            descent: ch.size.1 as i64 - ch.bearing.1 as i64,
                            width: ch.size.0,
                            height: ch.size.1,
                            advance: ch.advance >> 6,
                        },
                    );
                },
                None => {},
            }
        }
        assert(text@.take(text@.len() as int) =~= text@);
        run
    }
}

} // verus!
