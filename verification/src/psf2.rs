//! The PC Screen Font 2 format: a 32-byte little-endian header followed by the glyph
//! bitmaps, all of the same size.
use vstd::prelude::*;
use crate::bytes::{le32, read_u32_le, sub_array};
use crate::font::{FontBuilder, Glyph};

verus! {

/// Size of the PSF2 header.
pub const PSF2_HEADER_SIZE: usize = 32;

pub open spec fn psf2_magic() -> Seq<u8> {
    seq![0x72u8, 0xB5u8, 0x4Au8, 0x86u8]
}

/// The PSF2 header.
#[derive(Clone, Copy, Debug)]
pub struct PSF2Header {
    pub magic: [u8; 4],
    pub version: u32,
    pub header_size: u32,
    pub flags: u32,
    pub glyph_count: u32,
    pub bytes_per_glyph: u32,
    pub height: u32,
    pub width: u32,
}

/// Whether `h` is the header that `data` opens with.
pub open spec fn header_read_from(h: PSF2Header, data: Seq<u8>) -> bool {
    &&& h.magic@ == data.subrange(0, 4)
    &&& h.version == le32(data, 4)
    &&& h.header_size == le32(data, 8)
    &&& h.flags == le32(data, 12)
    &&& h.glyph_count == le32(data, 16)
    &&& h.bytes_per_glyph == le32(data, 20)
    &&& h.height == le32(data, 24)
    &&& h.width == le32(data, 28)
}

pub open spec fn header_is_zero(h: PSF2Header) -> bool {
    &&& h.magic@ == seq![0u8, 0u8, 0u8, 0u8]
    &&& h.version == 0
    &&& h.header_size == 0
    &&& h.flags == 0
    &&& h.glyph_count == 0
    &&& h.bytes_per_glyph == 0
    &&& h.height == 0
    &&& h.width == 0
}

pub open spec fn has_unicode_table(h: PSF2Header) -> bool {
    h.flags & PSF2Header::FLAG_HAS_UNICODE_TABLE != 0
}

pub open spec fn is_ascii_char(c: char) -> bool {
    (c as u32) < 128
}

/// Whether the font can show `c`: ASCII always, anything else only with a Unicode table.
pub open spec fn can_show(h: PSF2Header, c: char) -> bool {
    is_ascii_char(c) || has_unicode_table(h)
}

/// Byte offset of the bitmap of `c`.
pub open spec fn glyph_offset(h: PSF2Header, c: char) -> int {
    h.header_size + h.bytes_per_glyph * (c as u32)
}

/// Byte offset just past the last bitmap.
pub open spec fn glyphs_end(h: PSF2Header) -> int {
    h.header_size + h.bytes_per_glyph * h.glyph_count
}

/// Whether looking `c` up stays within 32-bit offsets and, when the font has the glyph,
/// within `len` bytes of font data.
pub open spec fn glyph_lookup_fits(h: PSF2Header, len: int, c: char) -> bool {
    can_show(h, c) ==> {
        &&& glyph_offset(h, c) <= u32::MAX
        &&& glyphs_end(h) <= u32::MAX
        &&& glyph_offset(h, c) < glyphs_end(h) ==> glyph_offset(h, c) + h.bytes_per_glyph <= len
    }
}

/// The bitmap of `c` in `data`, if the font has one.
pub open spec fn glyph_bytes(h: PSF2Header, data: Seq<u8>, c: char) -> Option<Seq<u8>> {
    if !can_show(h, c) {
        None
    } else if glyph_offset(h, c) >= glyphs_end(h) {
        None
    } else {
        Some(data.subrange(glyph_offset(h, c), glyph_offset(h, c) + h.bytes_per_glyph))
    }
}

/// With the Unicode-table flag (bit 0 of the flags) set, every character that falls
/// within the glyph table has its bitmap, ASCII or not: the `bytes_per_glyph` bytes at
/// `header_size + bytes_per_glyph * c`. Without it, only ASCII characters do.
pub proof fn lemma_glyph_lookup(h: PSF2Header, data: Seq<u8>, c: char)
    ensures
        ({
            let off = h.header_size as int + h.bytes_per_glyph as int * (c as u32) as int;
            let end = h.header_size as int + h.bytes_per_glyph as int * h.glyph_count as int;
            &&& (h.flags & 1u32 != 0 || (c as u32) < 128) && off < end ==> glyph_bytes(h, data, c)
                == Some(data.subrange(off, off + h.bytes_per_glyph))
            &&& off >= end ==> glyph_bytes(h, data, c) is None
            &&& h.flags & 1u32 == 0 && (c as u32) >= 128 ==> glyph_bytes(h, data, c) is None
        }),
{
}

impl PSF2Header {
    pub const MAGIC: [u8; 4] = [0x72, 0xB5, 0x4A, 0x86];

    pub const FLAG_HAS_UNICODE_TABLE: u32 = 0x00000001;

    /// The header that `data` opens with.
    pub fn read(data: &[u8]) -> (r: Self)
        requires
            data@.len() >= PSF2_HEADER_SIZE,
        ensures
            header_read_from(r, data@),
    {
        PSF2Header {
            magic: sub_array::<4>(data, 0),
            version: read_u32_le(data, 4),
            header_size: read_u32_le(data, 8),
            flags: read_u32_le(data, 12),
            glyph_count: read_u32_le(data, 16),
            bytes_per_glyph: read_u32_le(data, 20),
            height: read_u32_le(data, 24),
            width: read_u32_le(data, 28),
        }
    }

    /// Whether the header carries the PSF2 magic number.
    pub fn validate(&self) -> (r: bool)
        ensures
            r == (self.magic@ == psf2_magic()),
    {
        let m = Self::MAGIC;
        assert(m@ == psf2_magic());
        let r = self.magic[0] == m[0] && self.magic[1] == m[1] && self.magic[2] == m[2]
            && self.magic[3] == m[3];
        assert(r == (self.magic@ =~= psf2_magic()));
        r
    }

    /// Whether the font carries a Unicode mapping table.
    pub fn supports_unicode(&self) -> (r: bool)
        ensures
            r == has_unicode_table(*self),
    {
        self.flags & Self::FLAG_HAS_UNICODE_TABLE != 0
    }
}

impl Default for PSF2Header {
    fn default() -> (r: Self)
        ensures
            header_is_zero(r),
    {
        let r = PSF2Header {
            magic: [0u8; 4],
            version: 0,
            header_size: 0,
            flags: 0,
            glyph_count: 0,
            bytes_per_glyph: 0,
            height: 0,
            width: 0,
        };
        assert(r.magic@ =~= seq![0u8, 0u8, 0u8, 0u8]);
        r
    }
}

/// A PSF2 reader, holding the header of the font it read.
pub struct PSF2 {
    header: PSF2Header,
}

impl View for PSF2 {
    type V = PSF2Header;

    closed spec fn view(&self) -> PSF2Header {
        self.header
    }
}

impl Default for PSF2 {
    fn default() -> (r: Self)
        ensures
            header_is_zero(r@),
    {
        PSF2 { header: PSF2Header::default() }
    }
}

impl FontBuilder for PSF2 {
    open spec fn can_init(data: Seq<u8>) -> bool {
        data.len() >= PSF2_HEADER_SIZE
    }

    open spec fn init_succeeds(data: Seq<u8>) -> bool {
        true
    }

    open spec fn initialised_from(&self, data: Seq<u8>) -> bool {
        header_read_from(self@, data)
    }

    open spec fn font_dimensions(&self) -> (u8, u8) {
        (self@.width as u8, self@.height as u8)
    }

    open spec fn glyph_total(&self) -> usize {
        self@.glyph_count as usize
    }

    open spec fn glyph_readable(&self, data: Seq<u8>, c: char) -> bool {
        glyph_lookup_fits(self@, data.len() as int, c)
    }

    open spec fn glyph_of(&self, data: Seq<u8>, c: char) -> Option<Seq<u8>> {
        glyph_bytes(self@, data, c)
    }

    /// Takes the header from the start of `data`; the magic number is not checked.
    fn init(&mut self, data: &[u8]) -> (r: Result<(), ()>) {
        self.header = PSF2Header::read(data);
        Ok(())
    }

    /// Width and height, each truncated to a byte.
    fn dimensions(&self) -> (r: (u8, u8)) {
        (self.header.width as u8, self.header.height as u8)
    }

    fn length(&self) -> (r: usize) {
        self.header.glyph_count as usize
    }

    fn get_glyph<'a>(&self, data: &'a [u8], c: char) -> (r: Option<Glyph<'a>>)
        ensures
            match r {
                Some(g) => glyph_bytes(self@, data@, c) == Some(g.0@),
                None => glyph_bytes(self@, data@, c) is None,
            },
    {
        let code = c as u32;
        if !(code < 128) && !self.header.supports_unicode() {
            return None;
        }
        let offset = self.header.header_size + (self.header.bytes_per_glyph * code);
        if offset >= self.header.header_size + (self.header.bytes_per_glyph * self.header.glyph_count) {
            return None;
        }
        let len = data.len();
        assert(offset + self.header.bytes_per_glyph <= len);
        let glyph = vstd::slice::slice_subrange(
            data,
            offset as usize,
            offset as usize + self.header.bytes_per_glyph as usize,
        );
        Some(Glyph(glyph))
    }
}

} // verus!
