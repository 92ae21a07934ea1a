//! The picture-processing unit: a scanline state machine driven in 4-cycle
//! steps, composing background, window and sprites into a 160x144
//! framebuffer of 2-bit colors, one line at each 456-cycle scanline
//! boundary.
use vstd::prelude::*;

use crate::ram::Ram;

verus! {

/// Machine cycles in one scanline.
pub const CYCLES_PER_LINE: u32 = 456;

/// Scanlines in one frame, vertical blank included.
pub const LINES_PER_FRAME: u8 = 154;

/// Visible pixels per scanline.
pub const SCREEN_WIDTH: usize = 160;

/// Visible scanlines per frame.
pub const SCREEN_HEIGHT: usize = 144;

/// Bytes of framebuffer: one per visible pixel.
pub const FRAMEBUFFER_SIZE: usize = 23040;

/// Number of memory-mapped PPU registers (0xFF40-0xFF4B).
pub const GPU_REG_COUNT: usize = 0x0C;

/// Mathematical model of the PPU: named registers, the backing store for the
/// remaining register offsets, scanline position, and the framebuffer.
pub ghost struct GpuView {
    pub lcdc: u8,
    pub scy: u8,
    pub scx: u8,
    pub ly: u8,
    pub bgp: u8,
    pub cycles: u32,
    pub aux: Seq<u8>,
    pub fb: Seq<u8>,
}

/// Well-formed PPU state: register store and framebuffer fully backed, the
/// scanline position inside the frame, the cycle count inside the line.
pub open spec fn gpu_view_wf(g: GpuView) -> bool {
    &&& g.aux.len() == GPU_REG_COUNT
    &&& g.fb.len() == FRAMEBUFFER_SIZE
    &&& g.ly < LINES_PER_FRAME
    &&& g.cycles < CYCLES_PER_LINE
}

/// The PPU mode for the current clock position: OAM scan for the first 80
/// cycles of a visible line, drawing for the next 172, then horizontal
/// blank; vertical blank through lines 144-153. With the LCD disabled the
/// mode reads as horizontal blank.
pub open spec fn spec_gpu_mode(g: GpuView) -> u8 {
    if g.lcdc & 0x80 != 0x80 {
        0u8
    } else if g.ly >= 144 {
        1u8
    } else if g.cycles < 80 {
        2u8
    } else if g.cycles < 252 {
        3u8
    } else {
        0u8
    }
}

/// Whether the CPU is locked out of video RAM: only while drawing.
pub open spec fn spec_vram_blocked(g: GpuView) -> bool {
    spec_gpu_mode(g) == 3
}

/// Whether the CPU is locked out of object attribute memory: during OAM
/// scan and drawing.
pub open spec fn spec_oam_blocked(g: GpuView) -> bool {
    spec_gpu_mode(g) == 2 || spec_gpu_mode(g) == 3
}

/// The level of the STAT interrupt line: the logical OR of the enabled
/// sources — HBlank, VBlank and OAM-scan mode, and the LYC=LY
/// coincidence. The STAT interrupt fires on this line's rising edge.
pub open spec fn spec_stat_line(g: GpuView) -> bool {
    let stat = g.aux[1];
    let mode = spec_gpu_mode(g);
    ||| stat & 0x08 != 0 && mode == 0
    ||| stat & 0x10 != 0 && mode == 1
    ||| stat & 0x20 != 0 && mode == 2
    ||| stat & 0x40 != 0 && g.ly == g.aux[5]
}

/// The byte read from PPU register `offset` (relative to 0xFF40). STAT
/// assembles its stored interrupt-enable bits with the live LYC=LY
/// coincidence bit and the current mode.
pub open spec fn spec_gpu_reg_read(g: GpuView, offset: u16) -> u8 {
    if offset == 0x00 {
        g.lcdc
    } else if offset == 0x01 {
        0x80u8 | (g.aux[1] & 0x78) | (if g.ly == g.aux[5] {
            4u8
        } else {
            0u8
        }) | spec_gpu_mode(g)
    } else if offset == 0x02 {
        g.scy
    } else if offset == 0x03 {
        g.scx
    } else if offset == 0x04 {
        g.ly
    } else if offset == 0x07 {
        g.bgp
    } else if offset < 0x0C {
        g.aux[offset as int]
    } else {
        0xFF
    }
}

/// The PPU after a byte is written to register `offset`. LY is read-only,
/// only STAT's four interrupt-enable bits are writable, and disabling the
/// LCD resets the scanline clock to the top of the frame.
pub open spec fn spec_gpu_reg_write(g: GpuView, offset: u16, byte: u8) -> GpuView {
    if offset == 0x00 {
        if byte & 0x80 != 0x80 {
            GpuView { lcdc: byte, ly: 0u8, cycles: 0u32, ..g }
        } else {
            GpuView { lcdc: byte, ..g }
        }
    } else if offset == 0x01 {
        GpuView { aux: g.aux.update(1, byte & 0x78), ..g }
    } else if offset == 0x02 {
        GpuView { scy: byte, ..g }
    } else if offset == 0x03 {
        GpuView { scx: byte, ..g }
    } else if offset == 0x04 {
        g
    } else if offset == 0x07 {
        GpuView { bgp: byte, ..g }
    } else if offset < 0x0C {
        GpuView { aux: g.aux.update(offset as int, byte), ..g }
    } else {
        g
    }
}

/// Video-RAM offset of the first byte of the tile with index `tile_id`,
/// under the LCDC bit-4 addressing mode: unsigned from 0x8000, or signed
/// around an effective base of 0x9000.
pub open spec fn spec_tile_data_addr(lcdc: u8, tile_id: u8) -> int {
    if lcdc & 0x10 == 0x10 {
        tile_id * 16
    } else if tile_id < 128 {
        0x1000 + tile_id * 16
    } else {
        0x800 + (tile_id - 128) * 16
    }
}

/// The 2-bit color index of pixel (`x`, `y`) inside tile `tile_id`: the two
/// bytes of row `y` contribute one bit each, bit 7 being the leftmost pixel.
pub open spec fn spec_tile_pixel(vram: Seq<u8>, lcdc: u8, tile_id: u8, x: int, y: int) -> u8 {
    let ta = spec_tile_data_addr(lcdc, tile_id);
    let lo = vram[ta + y * 2];
    let hi = vram[ta + y * 2 + 1];
    let sh = (7 - x) as u8;
    (((lo >> sh) & 1) + 2 * ((hi >> sh) & 1)) as u8
}

/// The 2-bit color index (before the palette) of background pixel `x` on
/// line `ly`: scrolled tilemap lookup, then tile row decode.
pub open spec fn spec_bg_color_index(
    vram: Seq<u8>,
    lcdc: u8,
    scx: u8,
    scy: u8,
    ly: int,
    x: int,
) -> u8 {
    let px = (x + scx) % 256;
    let py = (ly + scy) % 256;
    let map_base: int = if lcdc & 0x08 == 0x08 { 0x1C00 } else { 0x1800 };
    let tile_id = vram[map_base + (py / 8) * 32 + px / 8];
    spec_tile_pixel(vram, lcdc, tile_id, px % 8, py % 8)
}

/// Whether the window covers pixel `x` of line `ly`: the window must be
/// enabled, the line at or below WY, and the pixel at or right of WX-7.
pub open spec fn spec_window_at(lcdc: u8, wx: u8, wy: u8, ly: int, x: int) -> bool {
    lcdc & 0x20 == 0x20 && ly >= wy && x + 7 >= wx
}

/// The 2-bit color index (before the palette) of window pixel `x` on line
/// `ly`: like the background, but from the window tilemap, unscrolled,
/// anchored at (WX-7, WY).
pub open spec fn spec_win_color_index(
    vram: Seq<u8>,
    lcdc: u8,
    wx: u8,
    wy: u8,
    ly: int,
    x: int,
) -> u8 {
    let wcol = x + 7 - wx;
    let wrow = ly - wy;
    let map_base: int = if lcdc & 0x40 == 0x40 { 0x1C00 } else { 0x1800 };
    let tile_id = vram[map_base + (wrow / 8) * 32 + wcol / 8];
    spec_tile_pixel(vram, lcdc, tile_id, wcol % 8, wrow % 8)
}

/// The 2-bit color index of the background or window plane at pixel `x`
/// of line `ly`: zero when LCDC bit 0 disables the plane, the window
/// where it covers the pixel, the scrolled background elsewhere.
pub open spec fn spec_bgwin_index(
    vram: Seq<u8>,
    lcdc: u8,
    scx: u8,
    scy: u8,
    wx: u8,
    wy: u8,
    ly: int,
    x: int,
) -> u8 {
    if lcdc & 0x01 != 0x01 {
        0u8
    } else if spec_window_at(lcdc, wx, wy, ly, x) {
        spec_win_color_index(vram, lcdc, wx, wy, ly, x)
    } else {
        spec_bg_color_index(vram, lcdc, scx, scy, ly, x)
    }
}

/// Sprite height under LCDC bit 2: 8, or 16 for stacked tiles.
pub open spec fn spec_sprite_height(lcdc: u8) -> int {
    if lcdc & 0x04 == 0x04 {
        16int
    } else {
        8int
    }
}

/// Whether OAM entry `i` intersects line `ly`: the stored Y is the sprite
/// top plus 16.
pub open spec fn spec_sprite_on_line(oam: Seq<u8>, lcdc: u8, ly: int, i: int) -> bool {
    let sy = oam[4 * i];
    sy <= ly + 16 < sy + spec_sprite_height(lcdc)
}

/// How many of the OAM entries before `n` intersect line `ly`: the OAM
/// scan picks the first ten of them.
pub open spec fn spec_sprite_hits(oam: Seq<u8>, lcdc: u8, ly: int, n: int) -> int
    decreases n,
{
    if n <= 0 {
        0
    } else {
        spec_sprite_hits(oam, lcdc, ly, n - 1) + if spec_sprite_on_line(oam, lcdc, ly, n - 1) {
            1int
        } else {
            0int
        }
    }
}

/// Whether OAM entry `i` is among the up-to-ten sprites the OAM scan
/// selects for line `ly`.
pub open spec fn spec_sprite_selected(oam: Seq<u8>, lcdc: u8, ly: int, i: int) -> bool {
    spec_sprite_on_line(oam, lcdc, ly, i) && spec_sprite_hits(oam, lcdc, ly, i) < 10
}

/// Whether selected sprite `i` covers pixel column `x`: the stored X is
/// the sprite's left edge plus 8.
pub open spec fn spec_sprite_covers(oam: Seq<u8>, i: int, x: int) -> bool {
    let sx = oam[4 * i + 1];
    x < sx <= x + 8
}

/// The 2-bit color index of sprite `i` at pixel `x` of line `ly`, with X
/// and Y flips applied; sprites always use the unsigned tile area, and a
/// tall sprite's index ignores its low bit. Index 0 is transparent.
pub open spec fn spec_sprite_color(
    vram: Seq<u8>,
    oam: Seq<u8>,
    lcdc: u8,
    ly: int,
    x: int,
    i: int,
) -> u8 {
    let sy = oam[4 * i];
    let sx = oam[4 * i + 1];
    let tile = oam[4 * i + 2];
    let attr = oam[4 * i + 3];
    let h = spec_sprite_height(lcdc);
    let cx0 = x + 8 - sx;
    let cx = if attr & 0x20 == 0x20 {
        7 - cx0
    } else {
        cx0
    };
    let ry0 = ly + 16 - sy;
    let ry = if attr & 0x40 == 0x40 {
        h - 1 - ry0
    } else {
        ry0
    };
    let ti: int = if h == 16 {
        (tile & 0xFE) + ry / 8
    } else {
        tile as int
    };
    let lo = vram[ti * 16 + (ry % 8) * 2];
    let hi = vram[ti * 16 + (ry % 8) * 2 + 1];
    let sh = (7 - cx) as u8;
    (((lo >> sh) & 1) + 2 * ((hi >> sh) & 1)) as u8
}

/// Whether sprite `i` contributes a visible pixel at (`x`, `ly`): it was
/// selected by the OAM scan, covers the column, and is not transparent
/// there.
pub open spec fn spec_sprite_candidate(
    vram: Seq<u8>,
    oam: Seq<u8>,
    lcdc: u8,
    ly: int,
    x: int,
    i: int,
) -> bool {
    &&& spec_sprite_selected(oam, lcdc, ly, i)
    &&& spec_sprite_covers(oam, i, x)
    &&& spec_sprite_color(vram, oam, lcdc, ly, x, i) != 0
}

/// The winning sprite at (`x`, `ly`) among OAM entries before `n`: the
/// candidate with the smallest stored X, earlier OAM order breaking ties.
pub open spec fn spec_sprite_winner(
    vram: Seq<u8>,
    oam: Seq<u8>,
    lcdc: u8,
    ly: int,
    x: int,
    n: int,
) -> Option<u8>
    decreases n,
{
    if n <= 0 {
        None
    } else {
        let prev = spec_sprite_winner(vram, oam, lcdc, ly, x, n - 1);
        if !spec_sprite_candidate(vram, oam, lcdc, ly, x, n - 1) {
            prev
        } else {
            match prev {
                None => Some((n - 1) as u8),
                Some(j) => if oam[4 * (n - 1) + 1] < oam[4 * j + 1] {
                    Some((n - 1) as u8)
                } else {
                    Some(j)
                },
            }
        }
    }
}

/// A winner is a candidate with an in-range OAM index.
pub proof fn lemma_winner_is_candidate(
    vram: Seq<u8>,
    oam: Seq<u8>,
    lcdc: u8,
    ly: int,
    x: int,
    n: int,
)
    requires
        n <= 40,
    ensures
        spec_sprite_winner(vram, oam, lcdc, ly, x, n) matches Some(j) ==> 0 <= j < n
            && spec_sprite_candidate(vram, oam, lcdc, ly, x, j as int),
    decreases n,
{
    if n > 0 {
        lemma_winner_is_candidate(vram, oam, lcdc, ly, x, n - 1);
    }
}

/// The final 2-bit color of pixel `x` on line `ly`: the background or
/// window pixel through BGP, overlaid by the winning sprite through its
/// object palette — unless sprites are disabled, none wins, or the
/// winner's background-priority attribute defers to a non-zero background.
pub open spec fn spec_pixel(
    vram: Seq<u8>,
    oam: Seq<u8>,
    lcdc: u8,
    scx: u8,
    scy: u8,
    bgp: u8,
    obp0: u8,
    obp1: u8,
    wx: u8,
    wy: u8,
    ly: int,
    x: int,
) -> u8 {
    let bg_idx = spec_bgwin_index(vram, lcdc, scx, scy, wx, wy, ly, x);
    let bg_px = (bgp >> ((2 * bg_idx) as u8)) & 3;
    if lcdc & 0x02 != 0x02 {
        bg_px
    } else {
        match spec_sprite_winner(vram, oam, lcdc, ly, x, 40) {
            None => bg_px,
            Some(i) => {
                let attr = oam[4 * i + 3];
                if attr & 0x80 == 0x80 && bg_idx != 0 {
                    bg_px
                } else {
                    let c = spec_sprite_color(vram, oam, lcdc, ly, x, i as int);
                    let pal = if attr & 0x10 == 0x10 {
                        obp1
                    } else {
                        obp0
                    };
                    (pal >> ((2 * c) as u8)) & 3
                }
            },
        }
    }
}

/// The framebuffer after line `g.ly` is composed from the background, the
/// window, and the selected sprites.
pub open spec fn spec_render_line(g: GpuView, vram: Seq<u8>, oam: Seq<u8>) -> Seq<u8> {
    g.fb.map(
        |i: int, v: u8|
            if g.ly * 160 <= i < g.ly * 160 + 160 {
                spec_pixel(
                    vram,
                    oam,
                    g.lcdc,
                    g.scx,
                    g.scy,
                    g.bgp,
                    g.aux[0x08],
                    g.aux[0x09],
                    g.aux[0x0B],
                    g.aux[0x0A],
                    g.ly as int,
                    i - g.ly * 160,
                )
            } else {
                v
            },
    )
}

/// Scanline clock: one 4-cycle step. Crossing 456 cycles starts the next
/// line; LY wraps from 153 back to 0.
pub open spec fn spec_tick(cycles: nat, ly: nat) -> (nat, nat) {
    if cycles + 4 < 456 {
        ((cycles + 4) as nat, ly)
    } else {
        ((cycles + 4 - 456) as nat, if ly + 1 < 154 { (ly + 1) as nat } else { 0nat })
    }
}

/// The scanline clock iterated `n` times.
pub open spec fn spec_ticks(cycles: nat, ly: nat, n: nat) -> (nat, nat)
    decreases n,
{
    if n == 0 {
        (cycles, ly)
    } else {
        let prev = spec_ticks(cycles, ly, (n - 1) as nat);
        spec_tick(prev.0, prev.1)
    }
}

/// The whole PPU after one 4-cycle step: the clock advances, and a visible
/// line is composed exactly when its 456 cycles complete. With the LCD
/// disabled all timing halts.
pub open spec fn spec_gpu_step(g: GpuView, vram: Seq<u8>, oam: Seq<u8>) -> GpuView {
    if g.lcdc & 0x80 != 0x80 {
        g
    } else {
        spec_gpu_step_enabled(g, vram, oam)
    }
}

/// One 4-cycle step of an enabled PPU.
pub open spec fn spec_gpu_step_enabled(g: GpuView, vram: Seq<u8>, oam: Seq<u8>) -> GpuView {
    let t = spec_tick(g.cycles as nat, g.ly as nat);
    GpuView {
        cycles: t.0 as u32,
        ly: t.1 as u8,
        fb: if g.cycles + 4 >= 456 && g.ly < 144 {
            spec_render_line(g, vram, oam)
        } else {
            g.fb
        },
        ..g
    }
}

/// While the clock stays inside one scanline, steps only accumulate cycles.
pub proof fn lemma_ticks_linear(cycles: nat, ly: nat, n: nat)
    requires
        cycles + 4 * n < 456,
    ensures
        spec_ticks(cycles, ly, n) == ((cycles + 4 * n) as nat, ly),
    decreases n,
{
    if n > 0 {
        lemma_ticks_linear(cycles, ly, (n - 1) as nat);
    }
}

/// Iterating the clock `a + b` times is iterating it `a` times, then `b`.
pub proof fn lemma_ticks_add(cycles: nat, ly: nat, a: nat, b: nat)
    ensures
        spec_ticks(cycles, ly, a + b) == spec_ticks(
            spec_ticks(cycles, ly, a).0,
            spec_ticks(cycles, ly, a).1,
            b,
        ),
    decreases b,
{
    if b > 0 {
        lemma_ticks_add(cycles, ly, a, (b - 1) as nat);
        assert((a + b - 1) as nat == a + (b - 1) as nat);
    }
}

/// Scanline timing: from the start of any line, exactly 114 four-cycle steps
/// (456 cycles) advance LY by one, wrapping from 153 to 0.
pub proof fn lemma_scanline_timing(ly: nat)
    requires
        ly < 154,
    ensures
        spec_ticks(0, ly, 114) == ((0nat, if ly + 1 < 154 { (ly + 1) as nat } else { 0nat })),
{
    lemma_ticks_linear(0, ly, 113);
}

/// From the start of line `ly`, `k` whole scanlines pass without wrapping.
proof fn lemma_lines_nowrap(ly: nat, k: nat)
    requires
        ly + k < 154,
    ensures
        spec_ticks(0, ly, 114 * k) == ((0nat, (ly + k) as nat)),
    decreases k,
{
    if k > 0 {
        lemma_lines_nowrap(ly, (k - 1) as nat);
        lemma_ticks_add(0, ly, 114 * (k - 1) as nat, 114);
        lemma_scanline_timing((ly + k - 1) as nat);
        assert(114 * k == 114 * (k - 1) as nat + 114) by (nonlinear_arith)
            requires
                k >= 1,
        ;
    }
}

/// Frame timing: a full frame is exactly 154 scanlines, 17556 four-cycle
/// steps (70224 cycles), and returns LY to where it started.
pub proof fn lemma_frame_timing(ly: nat)
    requires
        ly < 154,
    ensures
        spec_ticks(0, ly, 17556) == ((0nat, ly)),
{
    let head = (153 - ly) as nat;
    lemma_lines_nowrap(ly, head);
    lemma_ticks_add(0, ly, 114 * head, 114);
    lemma_scanline_timing(153);
    assert(spec_ticks(0, ly, 114 * head + 114) == ((0nat, 0nat)));
    lemma_ticks_add(0, ly, 114 * head + 114, 114 * ly);
    lemma_lines_nowrap(0, ly);
    assert(114 * head + 114 + 114 * ly == 17556) by (nonlinear_arith)
        requires head == 153 - ly && ly < 154;
}

/// Bit masking with 1 leaves at most 1.
proof fn lemma_and1_bound(v: u8)
    ensures
        v & 1 <= 1,
{
    assert(v & 1 <= 1) by (bit_vector);
}

/// Masking off the low bit leaves at most 0xFE.
proof fn lemma_and_fe_bound(v: u8)
    ensures
        v & 0xFE <= 0xFE,
{
    assert(v & 0xFE <= 0xFE) by (bit_vector);
}

/// The scanline renderer and register file of the PPU.
pub struct Gpu {
    lcdc: u8,
    scy: u8,
    scx: u8,
    ly: u8,
    bgp: u8,
    cycles: u32,
    data: Vec<u8>,
    framebuffer: Vec<u8>,
}

impl View for Gpu {
    type V = GpuView;

    closed spec fn view(&self) -> GpuView {
        GpuView {
            lcdc: self.lcdc,
            scy: self.scy,
            scx: self.scx,
            ly: self.ly,
            bgp: self.bgp,
            cycles: self.cycles,
            aux: self.data@,
            fb: self.framebuffer@,
        }
    }
}

impl Gpu {
    /// Well-formed PPU state.
    pub open spec fn wf(&self) -> bool {
        gpu_view_wf(self@)
    }

    /// A PPU in the post-boot state: LCD enabled, at the top of the frame,
    /// framebuffer cleared.
    pub fn new() -> (r: Gpu)
        ensures
            r.wf(),
            r@.lcdc == 0x91,
            r@.scy == 0 && r@.scx == 0 && r@.ly == 0 && r@.cycles == 0,
            r@.bgp == 0xFC,
            forall|i: int| 0 <= i < GPU_REG_COUNT ==> r@.aux[i] == 0u8,
            forall|i: int| 0 <= i < FRAMEBUFFER_SIZE ==> r@.fb[i] == 0u8,
    {
        let mut data: Vec<u8> = Vec::new();
        while data.len() < GPU_REG_COUNT
            invariant
                data@.len() <= GPU_REG_COUNT,
                forall|i: int| 0 <= i < data@.len() ==> data@[i] == 0u8,
            decreases GPU_REG_COUNT - data@.len(),
        {
            data.push(0);
        }
        let mut framebuffer: Vec<u8> = Vec::new();
        while framebuffer.len() < FRAMEBUFFER_SIZE
            invariant
                framebuffer@.len() <= FRAMEBUFFER_SIZE,
                forall|i: int| 0 <= i < framebuffer@.len() ==> framebuffer@[i] == 0u8,
            decreases FRAMEBUFFER_SIZE - framebuffer@.len(),
        {
            framebuffer.push(0);
        }
        Gpu { lcdc: 0x91, scy: 0, scx: 0, ly: 0, bgp: 0xFC, cycles: 0, data, framebuffer }
    }

    /// The byte at PPU register `address` (relative to 0xFF40).
    pub fn read(&self, address: u16) -> (r: u8)
        requires
            self.wf(),
            address < 0x0C,
        ensures
            r == spec_gpu_reg_read(self@, address),
    {
        if address == 0x00 {
            self.lcdc
        } else if address == 0x01 {
            0x80u8 | (self.data[1] & 0x78) | (if self.ly == self.data[5] {
                4u8
            } else {
                0u8
            }) | self.mode()
        } else if address == 0x02 {
            self.scy
        } else if address == 0x03 {
            self.scx
        } else if address == 0x04 {
            self.ly
        } else if address == 0x07 {
            self.bgp
        } else {
            self.data[address as usize]
        }
    }

    /// The current PPU mode, as STAT reports it.
    pub fn mode(&self) -> (r: u8)
        ensures
            r == spec_gpu_mode(self@),
    {
        if self.lcdc & 0x80 != 0x80 {
            0
        } else if self.ly >= 144 {
            1
        } else if self.cycles < 80 {
            2
        } else if self.cycles < 252 {
            3
        } else {
            0
        }
    }

    /// Whether the CPU is locked out of video RAM.
    pub fn vram_blocked(&self) -> (r: bool)
        ensures
            r == spec_vram_blocked(self@),
    {
        self.mode() == 3
    }

    /// Whether the CPU is locked out of object attribute memory.
    pub fn oam_blocked(&self) -> (r: bool)
        ensures
            r == spec_oam_blocked(self@),
    {
        let m = self.mode();
        m == 2 || m == 3
    }

    /// Writes a byte to PPU register `address` (relative to 0xFF40).
    pub fn write(&mut self, address: u16, byte: u8)
        requires
            old(self).wf(),
            address < 0x0C,
        ensures
            final(self)@ == spec_gpu_reg_write(old(self)@, address, byte),
            final(self).wf(),
    {
        if address == 0x00 {
            self.lcdc = byte;
            if byte & 0x80 != 0x80 {
                self.ly = 0;
                self.cycles = 0;
            }
        } else if address == 0x01 {
            self.data.set(1, byte & 0x78);
        } else if address == 0x02 {
            self.scy = byte;
        } else if address == 0x03 {
            self.scx = byte;
        } else if address == 0x04 {
            // LY is read-only from the bus.
        } else if address == 0x07 {
            self.bgp = byte;
        } else {
            self.data.set(address as usize, byte);
        }
    }

    /// The window tilemap base selected by LCDC bit 6, as a video-RAM offset
    /// (0x9800 or 0x9C00 in bus addresses).
    pub fn get_window_tilemap_addr(&self) -> (r: u16)
        ensures
            r == if self@.lcdc & 0x40 == 0x40 { 0x1C00int } else { 0x1800int },
    {
        if self.lcdc & 0x40 == 0x40 {
            0x1C00
        } else {
            0x1800
        }
    }

    /// The background tilemap base selected by LCDC bit 3, as a video-RAM
    /// offset (0x9800 or 0x9C00 in bus addresses).
    pub fn get_bg_tilemap_addr(&self) -> (r: u16)
        ensures
            r == if self@.lcdc & 0x08 == 0x08 { 0x1C00int } else { 0x1800int },
    {
        if self.lcdc & 0x08 == 0x08 {
            0x1C00
        } else {
            0x1800
        }
    }

    /// Video-RAM offset of tile `tile_id`'s data under the current LCDC
    /// addressing mode.
    pub fn get_tile_data_addr(&self, tile_id: u8) -> (r: u16)
        ensures
            r == spec_tile_data_addr(self@.lcdc, tile_id),
            r + 15 < 0x2000,
    {
        if self.lcdc & 0x10 == 0x10 {
            tile_id as u16 * 16
        } else if tile_id < 128 {
            0x1000 + tile_id as u16 * 16
        } else {
            0x800 + (tile_id as u16 - 128) * 16
        }
    }

    /// The tile index at row `tile_y`, column `tile_x` of the tilemap based
    /// at `map_base`.
    pub fn get_tile_id(&self, vram: &Ram, tile_y: u16, tile_x: u16, map_base: u16) -> (r: u8)
        requires
            vram@.len() == 0x2000,
            tile_y < 32,
            tile_x < 32,
            map_base == 0x1800 || map_base == 0x1C00,
        ensures
            r == vram@[map_base + tile_y * 32 + tile_x],
    {
        vram.read(map_base + tile_y * 32 + tile_x)
    }

    /// The 2-bit color index of pixel (`x`, `y`) inside tile `tile_id`.
    pub fn get_bg_palette_id(&self, vram: &Ram, tile_id: u8, x: u8, y: u8) -> (r: u8)
        requires
            vram@.len() == 0x2000,
            x < 8,
            y < 8,
        ensures
            r == spec_tile_pixel(vram@, self@.lcdc, tile_id, x as int, y as int),
            r <= 3,
    {
        let base = self.get_tile_data_addr(tile_id);
        let lo = vram.read(base + y as u16 * 2);
        let hi = vram.read(base + y as u16 * 2 + 1);
        let sh: u8 = 7 - x;
        proof {
            lemma_and1_bound(lo >> sh);
            lemma_and1_bound(hi >> sh);
        }
        ((lo >> sh) & 1) + 2 * ((hi >> sh) & 1)
    }

    /// The 2-bit color index of sprite `i` at pixel `x` of line `ly`,
    /// flips applied; 0 is transparent.
    fn obj_pixel(&self, vram: &Ram, oam: &Ram, i: u16, ly: u8, x: u16) -> (r: u8)
        requires
            vram@.len() == 0x2000,
            oam@.len() == 0xA0,
            i < 40,
            spec_sprite_on_line(oam@, self@.lcdc, ly as int, i as int),
            spec_sprite_covers(oam@, i as int, x as int),
        ensures
            r == spec_sprite_color(vram@, oam@, self@.lcdc, ly as int, x as int, i as int),
            r <= 3,
    {
        let sy = oam.read(4 * i);
        let sx = oam.read(4 * i + 1);
        let tile = oam.read(4 * i + 2);
        let attr = oam.read(4 * i + 3);
        let h: u16 = if self.lcdc & 0x04 == 0x04 {
            16
        } else {
            8
        };
        let cx0: u16 = x + 8 - sx as u16;
        let cx: u16 = if attr & 0x20 == 0x20 {
            7 - cx0
        } else {
            cx0
        };
        let ry0: u16 = ly as u16 + 16 - sy as u16;
        let ry: u16 = if attr & 0x40 == 0x40 {
            h - 1 - ry0
        } else {
            ry0
        };
        proof {
            lemma_and_fe_bound(tile);
        }
        let ti: u16 = if h == 16 {
            (tile & 0xFE) as u16 + ry / 8
        } else {
            tile as u16
        };
        let base: u16 = ti * 16 + (ry % 8) * 2;
        let lo = vram.read(base);
        let hi = vram.read(base + 1);
        let sh: u8 = (7 - cx) as u8;
        proof {
            lemma_and1_bound(lo >> sh);
            lemma_and1_bound(hi >> sh);
        }
        ((lo >> sh) & 1) + 2 * ((hi >> sh) & 1)
    }

    /// Composes the background, window and sprite pixels of line LY into
    /// the framebuffer.
    #[verifier::loop_isolation(false)]
    #[verifier::rlimit(60)]
    pub fn build_gb_tile(&mut self, vram: &Ram, oam: &Ram)
        requires
            old(self).wf(),
            old(self)@.ly < 144,
            vram@.len() == 0x2000,
            oam@.len() == 0xA0,
        ensures
            final(self)@ == (GpuView {
                fb: spec_render_line(old(self)@, vram@, oam@),
                ..old(self)@
            }),
            final(self).wf(),
    {
        let base: usize = self.ly as usize * 160;
        let wx = self.data[0x0B];
        let wy = self.data[0x0A];
        let obp0 = self.data[0x08];
        let obp1 = self.data[0x09];
        let ly = self.ly;
        let mut x: usize = 0;
        while x < 160
            invariant
                x <= 160,
                self@ == (GpuView { fb: self@.fb, ..old(self)@ }),
                self@.fb.len() == FRAMEBUFFER_SIZE,
                forall|i: int|
                    0 <= i < FRAMEBUFFER_SIZE ==> self@.fb[i] == (if base <= i < base + x {
                        spec_pixel(
                            vram@,
                            oam@,
                            old(self)@.lcdc,
                            old(self)@.scx,
                            old(self)@.scy,
                            old(self)@.bgp,
                            obp0,
                            obp1,
                            wx,
                            wy,
                            old(self)@.ly as int,
                            i - base,
                        )
                    } else {
                        old(self)@.fb[i]
                    }),
            decreases 160 - x,
        {
            let bg_idx: u8 = if self.lcdc & 0x01 != 0x01 {
                0
            } else if self.lcdc & 0x20 == 0x20 && ly >= wy && x as u16 + 7 >= wx as u16 {
                let wcol: u16 = x as u16 + 7 - wx as u16;
                let wrow: u16 = (ly - wy) as u16;
                let map_base = self.get_window_tilemap_addr();
                let tile_id = self.get_tile_id(vram, wrow / 8, wcol / 8, map_base);
                self.get_bg_palette_id(vram, tile_id, (wcol % 8) as u8, (wrow % 8) as u8)
            } else {
                let px: u16 = (x as u16 + self.scx as u16) % 256;
                let py: u16 = (ly as u16 + self.scy as u16) % 256;
                let map_base = self.get_bg_tilemap_addr();
                let tile_id = self.get_tile_id(vram, py / 8, px / 8, map_base);
                self.get_bg_palette_id(vram, tile_id, (px % 8) as u8, (py % 8) as u8)
            };
            let bg_px = (self.bgp >> (2 * bg_idx)) & 3;
            let pix: u8 = if self.lcdc & 0x02 != 0x02 {
                bg_px
            } else {
                let mut best: Option<u8> = None;
                let mut hits: u8 = 0;
                let mut si: u16 = 0;
                while si < 40
                    invariant
                        si <= 40,
                        hits <= si,
                        hits == spec_sprite_hits(oam@, old(self)@.lcdc, ly as int, si as int),
                        best == spec_sprite_winner(
                            vram@,
                            oam@,
                            old(self)@.lcdc,
                            ly as int,
                            x as int,
                            si as int,
                        ),
                    decreases 40 - si,
                {
                    let sy = oam.read(4 * si);
                    let h: u16 = if self.lcdc & 0x04 == 0x04 {
                        16
                    } else {
                        8
                    };
                    let on_line = sy as u16 <= ly as u16 + 16 && ly as u16 + 16 < sy as u16 + h;
                    if on_line && hits < 10 {
                        let sx = oam.read(4 * si + 1);
                        if (x as u16) < sx as u16 && sx as u16 <= x as u16 + 8 {
                            let c = self.obj_pixel(vram, oam, si, ly, x as u16);
                            if c != 0 {
                                proof {
                                    lemma_winner_is_candidate(
                                        vram@,
                                        oam@,
                                        old(self)@.lcdc,
                                        ly as int,
                                        x as int,
                                        si as int,
                                    );
                                }
                                best = match best {
                                    None => Some(si as u8),
                                    Some(j) => {
                                        let sxj = oam.read(4 * j as u16 + 1);
                                        if sx < sxj {
                                            Some(si as u8)
                                        } else {
                                            Some(j)
                                        }
                                    },
                                };
                            }
                        }
                    }
                    if on_line {
                        hits = hits + 1;
                    }
                    si = si + 1;
                }
                match best {
                    None => bg_px,
                    Some(j) => {
                        proof {
                            lemma_winner_is_candidate(
                                vram@,
                                oam@,
                                old(self)@.lcdc,
                                ly as int,
                                x as int,
                                40,
                            );
                        }
                        let attr = oam.read(4 * j as u16 + 3);
                        if attr & 0x80 == 0x80 && bg_idx != 0 {
                            bg_px
                        } else {
                            let c = self.obj_pixel(vram, oam, j as u16, ly, x as u16);
                            let pal = if attr & 0x10 == 0x10 {
                                obp1
                            } else {
                                obp0
                            };
                            (pal >> (2 * c)) & 3
                        }
                    },
                }
            };
            self.framebuffer.set(base + x, pix);
            x = x + 1;
        }
        proof {
            assert(self@.fb =~= spec_render_line(old(self)@, vram@, oam@));
        }
    }

    /// One 4-cycle step of the scanline state machine; at a 456-cycle
    /// boundary the finished visible line is composed and LY advances.
    /// With the LCD disabled nothing moves.
    pub fn step(&mut self, vram: &Ram, oam: &Ram)
        requires
            old(self).wf(),
            vram@.len() == 0x2000,
            oam@.len() == 0xA0,
        ensures
            final(self)@ == spec_gpu_step(old(self)@, vram@, oam@),
            final(self).wf(),
    {
        if self.lcdc & 0x80 != 0x80 {
            return ;
        }
        let c2 = self.cycles + 4;
        if c2 < CYCLES_PER_LINE {
            self.cycles = c2;
            return ;
        }
        if self.ly < 144 {
            self.build_gb_tile(vram, oam);
        }
        self.cycles = c2 - CYCLES_PER_LINE;
        self.ly = if self.ly + 1 < LINES_PER_FRAME {
            self.ly + 1
        } else {
            0
        };
    }

    /// The current scanline.
    pub fn ly(&self) -> (r: u8)
        ensures
            r == self@.ly,
    {
        self.ly
    }

    /// The level of the STAT interrupt line: the OR of the enabled mode
    /// and coincidence sources.
    pub fn stat_line(&self) -> (r: bool)
        requires
            self.wf(),
        ensures
            r == spec_stat_line(self@),
    {
        let stat = self.data[1];
        let mode = self.mode();
        (stat & 0x08 != 0 && mode == 0) || (stat & 0x10 != 0 && mode == 1) || (stat & 0x20 != 0
            && mode == 2) || (stat & 0x40 != 0 && self.ly == self.data[5])
    }

    /// The framebuffer: 160x144 2-bit colors in row-major order.
    pub fn framebuffer(&self) -> (r: &Vec<u8>)
        ensures
            r@ == self@.fb,
    {
        &self.framebuffer
    }
}

} // verus!
