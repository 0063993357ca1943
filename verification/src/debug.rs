//! The debug console: text goes out one byte per character on the debug port.
use vstd::prelude::*;

verus! {

/// The byte that is sent for a character: its code truncated to eight bits.
pub open spec fn debug_byte(c: char) -> u8 {
    (c as u32) as u8
}

/// Writer to the debug console.
pub struct DebugWriter;

impl DebugWriter {
    /// The byte written for `c`.
    pub fn char_byte(&self, c: char) -> (r: u8)
        ensures
            r == debug_byte(c),
    {
        (c as u32) as u8
    }

    /// The bytes written for `s`, one per character, in order.
    pub fn str_bytes(&self, s: &str) -> (r: Vec<u8>)
        ensures
            r@ == s@.map_values(|c: char| debug_byte(c)),
    {
        let mut out: Vec<u8> = Vec::new();
        for c in it: s.chars()
            invariant
                it.seq() == s@,
                out@ == s@.take(it.index() as int).map_values(|c: char| debug_byte(c)),
        {
            out.push(self.char_byte(c));
            assert(s@.take(it.index() + 1) =~= s@.take(it.index() as int).push(c));
        }
        assert(s@.take(s@.len() as int) =~= s@);
        out
    }
}

} // verus!
