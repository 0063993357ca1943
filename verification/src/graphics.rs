//! The choice of a video mode, and what the kernel is told about the framebuffer.
use vstd::prelude::*;
use crate::paging::MemoryDescriptor;
use crate::sysinfo::PixelFormat;

verus! {

/// Modes with more pixels than this are never chosen.
pub const MAX_RESOLUTION: u64 = 6000 * 4000;

/// Which bits of a pixel hold each colour channel.
#[derive(Clone, Copy, Debug, PartialEq, Eq, Structural)]
pub struct PixelBitmask {
    pub red: u32,
    pub green: u32,
    pub blue: u32,
    pub reserved: u32,
}

/// A video mode as the firmware describes it. `bitmask` is present exactly for
/// `PixelFormat::Bitmask` modes.
#[derive(Clone, Copy, Debug)]
pub struct ModeInfo {
    pub res_h: u32,
    pub res_v: u32,
    pub format: PixelFormat,
    pub bitmask: Option<PixelBitmask>,
}

/// The mode chosen so far.
#[derive(Clone, Copy, Debug, PartialEq, Eq, Structural)]
pub struct ModeChoice {
    pub mode: u32,
    pub res_h: u32,
    pub res_v: u32,
    pub format: PixelFormat,
    pub bitmask: PixelBitmask,
}

/// Before any mode is looked at: mode 0, a one-pixel screen, RGB, no bitmask.
pub open spec fn initial_choice() -> ModeChoice {
    ModeChoice {
        mode: 0,
        res_h: 1,
        res_v: 1,
        format: PixelFormat::RedGreenBlue,
        bitmask: PixelBitmask { red: 0, green: 0, blue: 0, reserved: 0 },
    }
}

pub open spec fn area(h: u32, v: u32) -> int {
    h * v
}

/// Width over height in 1/128 steps, truncated.
pub open spec fn aspect(h: u32, v: u32) -> int {
    if v == 0 {
        0
    } else {
        (h * 128) / (v as int)
    }
}

/// Whether mode `m` displaces the current choice: it fits the pixel limit, has more
/// pixels, and is at least as wide for its height.
pub open spec fn displaces(m: ModeInfo, best: ModeChoice) -> bool {
    &&& area(m.res_h, m.res_v) <= MAX_RESOLUTION
    &&& area(m.res_h, m.res_v) > area(best.res_h, best.res_v)
    &&& aspect(m.res_h, m.res_v) >= aspect(best.res_h, best.res_v)
}

/// The choice after looking at mode `m`, which has index `idx`. The bitmask is only
/// replaced by that of a bitmask mode.
pub open spec fn consider(best: ModeChoice, m: ModeInfo, idx: int) -> ModeChoice {
    if displaces(m, best) {
        ModeChoice {
            mode: idx as u32,
            res_h: m.res_h,
            res_v: m.res_v,
            format: m.format,
            bitmask: if m.format == PixelFormat::Bitmask {
                m.bitmask.unwrap()
            } else {
                best.bitmask
            },
        }
    } else {
        best
    }
}

/// The choice after looking at the first `n` modes in order.
pub open spec fn choice_after(modes: Seq<ModeInfo>, n: int) -> ModeChoice
    decreases n,
{
    if n <= 0 {
        initial_choice()
    } else {
        consider(choice_after(modes, n - 1), modes[n - 1], n - 1)
    }
}

/// Every bitmask mode that displaces the choice before it carries its bitmask.
#[verifier::opaque]
pub open spec fn bitmasks_present(modes: Seq<ModeInfo>) -> bool {
    forall|i: int|
        0 <= i < modes.len() && (#[trigger] modes[i]).format == PixelFormat::Bitmask && displaces(
            modes[i],
            choice_after(modes, i),
        ) ==> modes[i].bitmask is Some
}

proof fn lemma_selected_bitmask(modes: Seq<ModeInfo>, i: int)
    requires
        bitmasks_present(modes),
        0 <= i < modes.len(),
        modes[i].format == PixelFormat::Bitmask,
        displaces(modes[i], choice_after(modes, i)),
    ensures
        modes[i].bitmask is Some,
{
    reveal(bitmasks_present);
}

proof fn lemma_choice_bounds(modes: Seq<ModeInfo>, n: int)
    requires
        0 <= n <= modes.len(),
    ensures
        choice_after(modes, n).res_v >= 1,
        area(choice_after(modes, n).res_h, choice_after(modes, n).res_v) >= 1,
        area(choice_after(modes, n).res_h, choice_after(modes, n).res_v) <= MAX_RESOLUTION,
    decreases n,
{
    if n > 0 {
        lemma_choice_bounds(modes, n - 1);
        let m = modes[n - 1];
        if displaces(m, choice_after(modes, n - 1)) {
            if m.res_v == 0 {
                assert(area(m.res_h, m.res_v) == 0) by (nonlinear_arith)
                    requires m.res_v == 0;
            }
        }
    }
}

/// Looks at the modes in order and keeps each one that displaces the current choice.
pub fn select_mode(modes: &[ModeInfo]) -> (r: ModeChoice)
    requires
        bitmasks_present(modes@),
    ensures
        r == choice_after(modes@, modes@.len() as int),
{
    match try_select_mode(modes) {
        Some(c) => c,
        None => {
            proof {
                assert(false);
            }
            ModeChoice {
                mode: 0,
                res_h: 1,
                res_v: 1,
                format: PixelFormat::RedGreenBlue,
                bitmask: PixelBitmask { red: 0, green: 0, blue: 0, reserved: 0 },
            }
        },
    }
}

/// The mode choice, or `None` when a bitmask mode that displaces the choice before it
/// carries no bitmask.
pub fn try_select_mode(modes: &[ModeInfo]) -> (r: Option<ModeChoice>)
    ensures
        r == (if bitmasks_present(modes@) {
            Some(choice_after(modes@, modes@.len() as int))
        } else {
            None::<ModeChoice>
        }),
{
    let mut best = ModeChoice {
        mode: 0,
        res_h: 1,
        res_v: 1,
        format: PixelFormat::RedGreenBlue,
        bitmask: PixelBitmask { red: 0, green: 0, blue: 0, reserved: 0 },
    };
    let mut idx: usize = 0;
    proof {
        lemma_bitmasks_present_start(modes@);
    }
    while idx < modes.len()
        invariant
            idx <= modes@.len(),
            best == choice_after(modes@, idx as int),
            bitmasks_present_before(modes@, idx as int),
        decreases modes@.len() - idx,
    {
        proof {
            lemma_choice_bounds(modes@, idx as int);
        }
        let m = modes[idx];
        let h = m.res_h as u64;
        let v = m.res_v as u64;
        assert(h * v <= u64::MAX) by (nonlinear_arith)
            requires h <= u32::MAX, v <= u32::MAX;
        let mode_resolution = h * v;
        assert(best.res_h as u64 * best.res_v as u64 <= u64::MAX) by (nonlinear_arith)
            requires best.res_h <= u32::MAX, best.res_v <= u32::MAX;
        let best_resolution = best.res_h as u64 * best.res_v as u64;
        if mode_resolution <= MAX_RESOLUTION && mode_resolution > best_resolution {
            assert(v != 0) by (nonlinear_arith)
                requires mode_resolution == h * v, mode_resolution > best_resolution, best_resolution >= 1;
            let ratio = (h * 128) / v;
            let best_ratio = (best.res_h as u64 * 128) / (best.res_v as u64);
            if ratio >= best_ratio {
                best.mode = idx as u32;
                best.res_h = m.res_h;
                best.res_v = m.res_v;
                best.format = m.format;
                if m.format == PixelFormat::Bitmask {
                    match m.bitmask {
                        Some(b) => {
                            best.bitmask = b;
                        },
                        None => {
                            proof {
                                lemma_missing_bitmask(modes@, idx as int);
                            }
                            return None;
                        },
                    }
                }
            }
        }
        proof {
            lemma_bitmasks_present_extend(modes@, idx as int);
        }
        idx = idx + 1;
    }
    proof {
        lemma_bitmasks_present_all(modes@);
    }
    Some(best)
}

/// Every bitmask mode among the first `n` that displaces the choice before it carries
/// its bitmask.
#[verifier::opaque]
spec fn bitmasks_present_before(modes: Seq<ModeInfo>, n: int) -> bool {
    forall|i: int|
        0 <= i < n && (#[trigger] modes[i]).format == PixelFormat::Bitmask && displaces(
            modes[i],
            choice_after(modes, i),
        ) ==> modes[i].bitmask is Some
}

proof fn lemma_bitmasks_present_extend(modes: Seq<ModeInfo>, n: int)
    requires
        0 <= n < modes.len(),
        bitmasks_present_before(modes, n),
        modes[n].format == PixelFormat::Bitmask && displaces(modes[n], choice_after(modes, n))
            ==> modes[n].bitmask is Some,
    ensures
        bitmasks_present_before(modes, n + 1),
{
    reveal(bitmasks_present_before);
}

proof fn lemma_bitmasks_present_start(modes: Seq<ModeInfo>)
    ensures
        bitmasks_present_before(modes, 0),
{
    reveal(bitmasks_present_before);
}

proof fn lemma_bitmasks_present_all(modes: Seq<ModeInfo>)
    requires
        bitmasks_present_before(modes, modes.len() as int),
    ensures
        bitmasks_present(modes),
{
    reveal(bitmasks_present);
    reveal(bitmasks_present_before);
}

proof fn lemma_missing_bitmask(modes: Seq<ModeInfo>, n: int)
    requires
        0 <= n < modes.len(),
        modes[n].format == PixelFormat::Bitmask,
        displaces(modes[n], choice_after(modes, n)),
        modes[n].bitmask is None,
    ensures
        !bitmasks_present(modes),
{
    reveal(bitmasks_present);
}

/// A mode takes the place of the choice so far exactly when it has at most 6000 * 4000
/// pixels, more pixels than the choice, and an aspect `h * 128 / v` at least that of the
/// choice; it then becomes the choice, under its own index.
pub proof fn lemma_choice_step(modes: Seq<ModeInfo>, n: int)
    requires
        0 <= n < modes.len(),
    ensures
        ({
            let b = choice_after(modes, n);
            let c = choice_after(modes, n + 1);
            let m = modes[n];
            let p = m.res_h as int * m.res_v as int;
            if p <= 24_000_000 && p > b.res_h as int * b.res_v as int && (m.res_h as int * 128)
                / (m.res_v as int) >= (b.res_h as int * 128) / (b.res_v as int) {
                &&& c.mode == n as u32
                &&& c.res_h == m.res_h
                &&& c.res_v == m.res_v
                &&& c.format == m.format
            } else {
                c == b
            }
        }),
{
    lemma_choice_bounds(modes, n);
    let m = modes[n];
    if m.res_v == 0 {
        assert(m.res_h as int * m.res_v as int == 0) by (nonlinear_arith)
            requires m.res_v == 0;
    }
}

/// Along the modes, the choice never loses pixels and never gets narrower: its pixel
/// count and its aspect `h * 128 / v` after `n` modes are at least those after any
/// `m <= n` modes.
pub proof fn lemma_choice_monotone(modes: Seq<ModeInfo>, m: int, n: int)
    requires
        0 <= m <= n <= modes.len(),
    ensures
        ({
            let a = choice_after(modes, m);
            let b = choice_after(modes, n);
            &&& (b.res_h as int * 128) / (b.res_v as int) >= (a.res_h as int * 128) / (
            a.res_v as int)
            &&& b.res_h as int * b.res_v as int >= a.res_h as int * a.res_v as int
        }),
    decreases n - m,
{
    if m < n {
        lemma_choice_monotone(modes, m, n - 1);
        lemma_choice_step(modes, n - 1);
        lemma_choice_bounds(modes, n - 1);
    }
}

/// The chosen mode never has more pixels than the limit, and a mode other than the
/// initial one is a mode of the list, at the index the choice records.
pub proof fn lemma_choice_within_limit(modes: Seq<ModeInfo>)
    ensures
        ({
            let c = choice_after(modes, modes.len() as int);
            &&& area(c.res_h, c.res_v) <= MAX_RESOLUTION
            &&& c == initial_choice() || exists|i: int|
                0 <= i < modes.len() && c.mode == i as u32 && c.res_h == modes[i].res_h && c.res_v
                    == modes[i].res_v && c.format == modes[i].format
        }),
{
    lemma_choice_bounds(modes, modes.len() as int);
    lemma_choice_from_list(modes, modes.len() as int);
}

proof fn lemma_choice_from_list(modes: Seq<ModeInfo>, n: int)
    requires
        0 <= n <= modes.len(),
    ensures
        ({
            let c = choice_after(modes, n);
            c == initial_choice() || exists|i: int|
                0 <= i < n && c.mode == i as u32 && c.res_h == modes[i].res_h && c.res_v
                    == modes[i].res_v && c.format == modes[i].format
        }),
    decreases n,
{
    if n > 0 {
        lemma_choice_from_list(modes, n - 1);
        let c = choice_after(modes, n);
        let prev = choice_after(modes, n - 1);
        if c != prev {
            assert(c.mode == (n - 1) as u32 && c.res_h == modes[n - 1].res_h);
        } else if prev != initial_choice() {
            let i = choose|i: int|
                0 <= i < n - 1 && prev.mode == i as u32 && prev.res_h == modes[i].res_h
                    && prev.res_v == modes[i].res_v && prev.format == modes[i].format;
            assert(0 <= i < n);
        }
    }
}

/// What the kernel is told about the framebuffer.
#[derive(Clone, Copy, Debug)]
pub struct GraphicsInfo {
    pub mode: u32,
    pub res_h: usize,
    pub res_v: usize,
    /// Address of the framebuffer.
    pub base: usize,
    pub size: usize,
    pub format: PixelFormat,
    pub bitmask: PixelBitmask,
}

impl GraphicsInfo {
    /// The chosen mode with the framebuffer the firmware maps for it.
    pub fn from_choice(choice: &ModeChoice, base: usize, size: usize) -> (r: Self)
        ensures
            r.mode == choice.mode,
            r.res_h == choice.res_h,
            r.res_v == choice.res_v,
            r.base == base,
            r.size == size,
            r.format == choice.format,
            r.bitmask == choice.bitmask,
    {
        GraphicsInfo {
            mode: choice.mode,
            res_h: choice.res_h as usize,
            res_v: choice.res_v as usize,
            base,
            size,
            format: choice.format,
            bitmask: choice.bitmask,
        }
    }
}

/// The most memory map entries handed to the kernel.
pub const MMAP_CAPACITY: usize = 256;

/// What the bootloader hands the kernel: the framebuffer, the memory map (at most
/// `MMAP_CAPACITY` entries) and the address of the runtime system table.
#[derive(Debug)]
pub struct BootInfo {
    pub graphics_info: GraphicsInfo,
    pub mmap: Vec<MemoryDescriptor>,
    pub runtime_systable: usize,
}

impl BootInfo {
    /// `None` when the memory map has more entries than the hand-off holds.
    pub fn new(graphics_info: GraphicsInfo, mmap: Vec<MemoryDescriptor>, runtime_systable: usize) -> (r: Option<Self>)
        ensures
            mmap@.len() <= MMAP_CAPACITY <==> r is Some,
            r matches Some(b) ==> b.graphics_info == graphics_info && b.mmap@ == mmap@
                && b.runtime_systable == runtime_systable,
    {
        if mmap.len() <= MMAP_CAPACITY {
            Some(BootInfo { graphics_info, mmap, runtime_systable })
        } else {
            None
        }
    }
}

} // verus!
