//! Console fonts: a font format reader fills in the glyph metrics of a font.
use vstd::prelude::*;

verus! {

/// The bitmap of one character.
pub struct Glyph<'a>(pub &'a [u8]);

/// A reader of one font format.
pub trait FontBuilder {
    /// Whether `init` can read `data` at all.
    spec fn can_init(data: Seq<u8>) -> bool;

    /// Whether `init` accepts `data`.
    spec fn init_succeeds(data: Seq<u8>) -> bool;

    /// Whether the reader holds the font that `data` describes.
    spec fn initialised_from(&self, data: Seq<u8>) -> bool;

    /// Glyph width and height, in pixels.
    spec fn font_dimensions(&self) -> (u8, u8);

    /// Number of glyphs.
    spec fn glyph_total(&self) -> usize;

    /// Whether `get_glyph` can look `c` up in `data`.
    spec fn glyph_readable(&self, data: Seq<u8>, c: char) -> bool;

    /// The bitmap of `c` in `data`, if the font has one.
    spec fn glyph_of(&self, data: Seq<u8>, c: char) -> Option<Seq<u8>>;

    fn init(&mut self, data: &[u8]) -> (r: Result<(), ()>)
        requires
            Self::can_init(data@),
        ensures
            r is Ok <==> Self::init_succeeds(data@),
            r is Ok ==> final(self).initialised_from(data@),
    ;

    fn dimensions(&self) -> (r: (u8, u8))
        ensures
            r == self.font_dimensions(),
    ;

    fn length(&self) -> (r: usize)
        ensures
            r == self.glyph_total(),
    ;

    fn get_glyph<'a>(&self, data: &'a [u8], c: char) -> (r: Option<Glyph<'a>>)
        requires
            self.glyph_readable(data@, c),
        ensures
            match r {
                Some(g) => self.glyph_of(data@, c) == Some(g.0@),
                None => self.glyph_of(data@, c) is None,
            },
    ;
}

/// A font: its glyph size and its glyphs.
pub struct Font<'a> {
    pub height: u8,
    pub width: u8,
    pub values: &'a [Glyph<'a>],
}

impl<'a> Font<'a> {
    /// Reads `data` with `builder` and takes the glyph size it finds; `None` when the
    /// builder refuses the data. No glyph is taken over yet.
    pub fn parse<B: FontBuilder>(data: &[u8], builder: &mut B) -> (r: Option<Self>)
        requires
            B::can_init(data@),
        ensures
            r is Some <==> B::init_succeeds(data@),
            r matches Some(f) ==> {
                &&& final(builder).initialised_from(data@)
                &&& f.width == final(builder).font_dimensions().0
                &&& f.height == final(builder).font_dimensions().1
                &&& f.values@.len() == 0
            },
    {
        if builder.init(data).is_err() {
            return None;
        }
        let ret = Font { width: builder.dimensions().0, height: builder.dimensions().1, values: &[] };
        Some(ret)
    }
}

} // verus!
