//! Human-readable renderings of info block fields: version, build date, size, UUID.
use vstd::prelude::*;
use vstd::utf8::{decode_utf8, valid_utf8};
use crate::text::{
    decimal, hex_upper, push_radix, push_radix_padded, radix_digits, string_from_utf8,
    trim_trailing_nul, zero_pad,
};

verus! {

pub const VERSION_FLAG_ALPHA: u8 = 0b00000001;
pub const VERSION_FLAG_BETA: u8 = 0b00000010;
pub const VERSION_FLAG_RC: u8 = 0b00000100;
pub const VERSION_FLAG_XPER: u8 = 0b00001000;

pub open spec fn label_alpha() -> Seq<char> {
    seq!['a', 'l', 'p', 'h', 'a']
}

pub open spec fn label_beta() -> Seq<char> {
    seq!['b', 'e', 't', 'a']
}

pub open spec fn label_rc() -> Seq<char> {
    seq!['r', 'c']
}

pub open spec fn label_experimental() -> Seq<char> {
    seq!['e', 'x', 'p', 'e', 'r', 'i', 'm', 'e', 'n', 't', 'a', 'l']
}

/// The labels of the version flags that are set, in the order alpha, beta, rc,
/// experimental.
pub open spec fn version_labels(flags: u8) -> Seq<Seq<char>> {
    let l0 = Seq::<Seq<char>>::empty();
    let l1 = if flags & VERSION_FLAG_ALPHA != 0 { l0.push(label_alpha()) } else { l0 };
    let l2 = if flags & VERSION_FLAG_BETA != 0 { l1.push(label_beta()) } else { l1 };
    let l3 = if flags & VERSION_FLAG_RC != 0 { l2.push(label_rc()) } else { l2 };
    if flags & VERSION_FLAG_XPER != 0 { l3.push(label_experimental()) } else { l3 }
}

/// The words of `labels` separated by single spaces.
pub open spec fn join_spaced(labels: Seq<Seq<char>>) -> Seq<char>
    decreases labels.len(),
{
    if labels.len() == 0 {
        Seq::empty()
    } else if labels.len() == 1 {
        labels[0]
    } else {
        join_spaced(labels.drop_last()) + seq![' '] + labels.last()
    }
}

/// `[ label label ... ]`, or nothing when no flag is set.
pub open spec fn labels_text(flags: u8) -> Seq<char> {
    let labels = version_labels(flags);
    if labels.len() == 0 {
        Seq::empty()
    } else {
        seq!['[', ' '] + join_spaced(labels) + seq![' ', ']']
    }
}

/// `major.minor.patch "name" labels`: the three numbers in decimal, the name in quotes,
/// then a space and the labels of the version flags.
pub open spec fn version_text(major: u8, minor: u8, patch: u8, name: Seq<char>, flags: u8) -> Seq<char> {
    decimal(major as nat) + seq!['.'] + decimal(minor as nat) + seq!['.'] + decimal(patch as nat)
        + seq![' ', '"'] + name + seq!['"', ' '] + labels_text(flags)
}

/// The characters that a version name encodes, without its trailing NUL padding.
pub open spec fn version_name_text(name: Seq<u8>) -> Seq<char> {
    trim_trailing_nul(decode_utf8(name))
}

/// `YYYY-MM-DD`, each number in decimal, zero-padded to 4, 2 and 2 digits.
pub open spec fn date_text(year: u16, month: u8, day: u8) -> Seq<char> {
    zero_pad(decimal(year as nat), 4) + seq!['-'] + zero_pad(decimal(month as nat), 2) + seq!['-']
        + zero_pad(decimal(day as nat), 2)
}

/// The size in the largest binary unit (B, K, M, G) that does not exceed it, truncated.
pub open spec fn size_text(size: u64) -> Seq<char> {
    if size < 0x400 {
        decimal(size as nat) + seq!['B']
    } else if size < 0x10_0000 {
        decimal((size / 0x400) as nat) + seq!['K']
    } else if size < 0x4000_0000 {
        decimal((size / 0x10_0000) as nat) + seq!['M']
    } else {
        decimal((size / 0x4000_0000) as nat) + seq!['G']
    }
}

/// The unit a size is shown in, in bytes.
pub open spec fn size_unit_scale(size: u64) -> int {
    if size < 0x400 {
        1
    } else if size < 0x10_0000 {
        0x400
    } else if size < 0x4000_0000 {
        0x10_0000
    } else {
        0x4000_0000
    }
}

/// A size is shown as the number of whole units it holds, followed by the unit letter;
/// the number is below 1024 in every unit but gigabytes, and at least 1 in every unit but
/// bytes.
pub proof fn lemma_size_text_truncates(size: u64)
    ensures
        ({
            let scale = size_unit_scale(size);
            let shown = (size as int) / scale;
            &&& size_text(size) == decimal(shown as nat) + seq![
                if scale == 1 {
                    'B'
                } else if scale == 0x400 {
                    'K'
                } else if scale == 0x10_0000 {
                    'M'
                } else {
                    'G'
                },
            ]
            &&& scale * shown <= size < scale * (shown + 1)
            &&& scale != 0x4000_0000 ==> shown < 1024
            &&& scale != 1 ==> shown >= 1
        }),
{
    let scale = size_unit_scale(size);
    let shown = (size as int) / scale;
    assert(scale * shown <= size < scale * (shown + 1)) by (nonlinear_arith)
        requires scale > 0, shown == (size as int) / scale;
}

/// Bytes `a..b` of `u`, each in upper-case hexadecimal without padding, run together.
pub open spec fn hex_run(u: Seq<u8>, a: int, b: int) -> Seq<char>
    decreases b - a,
{
    if b <= a {
        Seq::empty()
    } else {
        hex_run(u, a, b - 1) + hex_upper(u[b - 1] as nat)
    }
}

/// The UUID in the 8-4-4-4-12 grouping, each byte in unpadded upper-case hexadecimal.
pub open spec fn uuid_text(u: Seq<u8>) -> Seq<char> {
    hex_run(u, 0, 4) + seq!['-'] + hex_run(u, 4, 6) + seq!['-'] + hex_run(u, 6, 8) + seq!['-']
        + hex_run(u, 8, 10) + seq!['-'] + hex_run(u, 10, 16)
}

proof fn lemma_join_push(labels: Seq<Seq<char>>, x: Seq<char>)
    requires
        labels.len() > 0,
    ensures
        join_spaced(labels.push(x)) == join_spaced(labels) + seq![' '] + x,
{
    assert(labels.push(x).drop_last() =~= labels);
}

fn push_label(s: &mut String, word: &str, any: bool, Ghost(labels): Ghost<Seq<Seq<char>>>)
    requires
        any == (labels.len() > 0),
        old(s)@ == join_spaced(labels),
    ensures
        final(s)@ == join_spaced(labels.push(word@)),
{
    if any {
        s.push(' ');
        proof {
            lemma_join_push(labels, word@);
        }
    } else {
        assert(labels.push(word@) =~= seq![word@]);
    }
    s.push_str(word);
    proof {
        if any {
            assert(s@ =~= join_spaced(labels) + seq![' '] + word@);
        } else {
            assert(s@ =~= word@);
        }
    }
}

/// The labels of the set version flags, separated by spaces, and whether there are any.
fn labels_string(flags: u8) -> (r: (String, bool))
    ensures
        r.0@ == join_spaced(version_labels(flags)),
        r.1 == (version_labels(flags).len() > 0),
{
    let mut labels = String::new();
    let mut any = false;
    let ghost mut ls = Seq::<Seq<char>>::empty();
    if flags & VERSION_FLAG_ALPHA != 0 {
        proof {
            reveal_strlit("alpha");
            assert("alpha"@ =~= label_alpha());
        }
        push_label(&mut labels, "alpha", any, Ghost(ls));
        proof { ls = ls.push(label_alpha()); }
        any = true;
    }
    if flags & VERSION_FLAG_BETA != 0 {
        proof {
            reveal_strlit("beta");
            assert("beta"@ =~= label_beta());
        }
        push_label(&mut labels, "beta", any, Ghost(ls));
        proof { ls = ls.push(label_beta()); }
        any = true;
    }
    if flags & VERSION_FLAG_RC != 0 {
        proof {
            reveal_strlit("rc");
            assert("rc"@ =~= label_rc());
        }
        push_label(&mut labels, "rc", any, Ghost(ls));
        proof { ls = ls.push(label_rc()); }
        any = true;
    }
    if flags & VERSION_FLAG_XPER != 0 {
        proof {
            reveal_strlit("experimental");
            assert("experimental"@ =~= label_experimental());
        }
        push_label(&mut labels, "experimental", any, Ghost(ls));
        proof { ls = ls.push(label_experimental()); }
        any = true;
    }
    assert(ls =~= version_labels(flags));
    (labels, any)
}

/// The characters of a NUL-padded UTF-8 name, without the padding.
fn name_string(name: &[u8; 16]) -> (r: String)
    requires
        valid_utf8(name@),
    ensures
        r@ == version_name_text(name@),
{
    let decoded = string_from_utf8(vstd::slice::slice_to_vec(name));
    let mut text = match decoded {
        Some(t) => t,
        None => String::new(),
    };
    let ghost full = text@;
    loop
        invariant
            trim_trailing_nul(text@) == trim_trailing_nul(full),
        ensures
            text@ == trim_trailing_nul(full),
        decreases text@.len(),
    {
        let ghost before = text@;
        match text.pop() {
            Some(c) => {
                if c != '\0' {
                    text.push(c);
                    assert(text@ =~= before);
                    break;
                }
            },
            None => {
                break;
            },
        }
    }
    text
}

/// Renders the version line of an info block. The name is the 16-byte UTF-8 version name,
/// NUL-padded at its end.
pub fn version_string(major: u8, minor: u8, patch: u8, name: &[u8; 16], flags: u8) -> (r: String)
    requires
        valid_utf8(name@),
    ensures
        r@ == version_text(major, minor, patch, version_name_text(name@), flags),
{
    let (labels, any) = labels_string(flags);
    let text = name_string(name);
    let mut r = String::new();
    push_radix(&mut r, major as u64, 10);
    r.push('.');
    push_radix(&mut r, minor as u64, 10);
    r.push('.');
    push_radix(&mut r, patch as u64, 10);
    r.push(' ');
    r.push('"');
    r.push_str(text.as_str());
    r.push('"');
    r.push(' ');
    if any {
        r.push('[');
        r.push(' ');
        r.push_str(labels.as_str());
        r.push(' ');
        r.push(']');
    }
    assert(r@ =~= version_text(major, minor, patch, version_name_text(name@), flags));
    r
}

/// Renders a build date.
pub fn date_string(year: u16, month: u8, day: u8) -> (r: String)
    ensures
        r@ == date_text(year, month, day),
{
    let mut r = String::new();
    push_radix_padded(&mut r, year as u64, 10, 4);
    r.push('-');
    push_radix_padded(&mut r, month as u64, 10, 2);
    r.push('-');
    push_radix_padded(&mut r, day as u64, 10, 2);
    assert(r@ =~= date_text(year, month, day));
    r
}

/// Renders a size in bytes.
pub fn size_string(size: u64) -> (r: String)
    ensures
        r@ == size_text(size),
{
    let mut r = String::new();
    if size < 0x400 {
        push_radix(&mut r, size, 10);
        r.push('B');
    } else if size < 0x10_0000 {
        push_radix(&mut r, size / 0x400, 10);
        r.push('K');
    } else if size < 0x4000_0000 {
        push_radix(&mut r, size / 0x10_0000, 10);
        r.push('M');
    } else {
        push_radix(&mut r, size / 0x4000_0000, 10);
        r.push('G');
    }
    assert(r@ =~= size_text(size));
    r
}

fn push_hex_run(s: &mut String, u: &[u8; 16], a: usize, b: usize)
    requires
        a <= b <= 16,
    ensures
        final(s)@ == old(s)@ + hex_run(u@, a as int, b as int),
{
    let mut i = a;
    while i < b
        invariant
            a <= i <= b <= 16,
            s@ == old(s)@ + hex_run(u@, a as int, i as int),
        decreases b - i,
    {
        push_radix(s, u[i] as u64, 16);
        i = i + 1;
        assert(s@ =~= old(s)@ + hex_run(u@, a as int, i as int));
    }
}

/// Renders a UUID.
pub fn uuid_string(u: &[u8; 16]) -> (r: String)
    ensures
        r@ == uuid_text(u@),
{
    let mut r = String::new();
    push_hex_run(&mut r, u, 0, 4);
    r.push('-');
    push_hex_run(&mut r, u, 4, 6);
    r.push('-');
    push_hex_run(&mut r, u, 6, 8);
    r.push('-');
    push_hex_run(&mut r, u, 8, 10);
    r.push('-');
    push_hex_run(&mut r, u, 10, 16);
    assert(r@ =~= uuid_text(u@));
    r
}

} // verus!
