use vstd::prelude::*;
use crate::fifo::PixelFIFO;
use crate::util::{bit8, lemma_addr_masks, lemma_bit_masks, lemma_index_masks};

verus! {

/// Width of the LCD in pixels.
pub const LCD_WIDTH: usize = 160;

/// Bytes in a frame: one 2-bit shade per pixel, row-major.
pub const FRAME_BYTES: usize = 23040;

/// Dots in a scanline.
pub const LINE_DOTS: u16 = 456;

/// Scanlines in a frame, the last ten in vertical blank.
pub const FRAME_LINES: u8 = 154;

/// Dots in a frame.
pub const FRAME_DOTS: u32 = 70224;

/// Bytes of object attribute memory: 40 objects of y, x, tile, flags.
pub const OAM_BYTES: usize = 160;

/// Most objects shown on one scanline.
pub const LINE_OBJECTS: usize = 10;

#[derive(Clone, Copy, PartialEq, Eq, Structural)]
pub enum DrawMode {
    HBlank,
    VBlank,
    OAMScan,
    Drawing,
}

/// The mode number that STAT reports.
pub open spec fn mode_number(m: DrawMode) -> u8 {
    match m {
        DrawMode::HBlank => 0,
        DrawMode::VBlank => 1,
        DrawMode::OAMScan => 2,
        DrawMode::Drawing => 3,
    }
}

#[derive(Clone, Copy, PartialEq, Eq, Structural)]
pub struct OAMObject {
    pub y: u8,
    pub x: u8,
    pub tile: u8,
    pub flags: u8,
}

#[derive(Clone, Copy, PartialEq, Eq, Structural)]
pub enum FetcherState {
    GetTile,
    GetTileDataLow,
    GetTileDataHigh,
    Push,
}

/// The background/window fetcher and the object fetcher, with their FIFOs.
pub struct PixelFetcher {
    pub sprite_state: FetcherState,
    /// Set on the first M-cycle of a two-cycle fetcher stage.
    pub sprite_wait: bool,
    pub sprite_fifo: PixelFIFO,
    pub sprite_next_idx: usize,
    pub sprite_obj: OAMObject,
    pub sprite_tile: u8,
    pub sprite_low: u8,
    pub sprite_high: u8,
    pub bg_state: FetcherState,
    pub bg_wait: bool,
    pub bg_fifo: PixelFIFO,
    pub bg_tile: u8,
    pub bg_low: u8,
    pub bg_high: u8,
    /// Pixels still to drop at the start of the line (SCX & 7).
    pub bg_excess: u8,
    pub bg_window: bool,
    /// Tile column of the next background or window fetch.
    pub x: u8,
    pub fetching_sprite: bool,
}

impl PixelFetcher {
    pub open spec fn wf(&self) -> bool {
        self.bg_fifo.wf() && self.sprite_fifo.wf()
    }

    pub fn new() -> (r: PixelFetcher)
        ensures
            r.wf(),
            r.bg_fifo.view().len() == 0,
            r.sprite_fifo.view().len() == 0,
            r.sprite_next_idx == 0,
            !r.fetching_sprite,
            !r.bg_window,
            r.x == 0,
            r.bg_excess == 0,
    {
        PixelFetcher {
            sprite_state: FetcherState::GetTile,
            sprite_wait: false,
            sprite_fifo: PixelFIFO::new(),
            sprite_next_idx: 0,
            sprite_obj: OAMObject { y: 0, x: 0, tile: 0, flags: 0 },
            sprite_tile: 0,
            sprite_low: 0,
            sprite_high: 0,
            bg_state: FetcherState::GetTile,
            bg_wait: false,
            bg_fifo: PixelFIFO::new(),
            bg_tile: 0,
            bg_low: 0,
            bg_high: 0,
            bg_excess: 0,
            bg_window: false,
            x: 0,
            fetching_sprite: false,
        }
    }
}

/// The pixel processing unit: VRAM, OAM, the LCD registers, the mode state
/// machine, the pixel pipeline and the framebuffer.
pub struct PPU {
    pub vram: Vec<u8>,
    pub oam: Vec<u8>,
    pub viewport_y: u8,
    pub viewport_x: u8,
    pub window_y: u8,
    pub window_x: u8,
    pub lcd_control: u8,
    /// The writable STAT bits 3-6.
    pub lcd_status: u8,
    pub lcd_y: u8,
    pub lcd_y_compare: u8,
    pub lcd_x: u8,
    pub bg_palette: u8,
    pub obp0: u8,
    pub obp1: u8,
    pub draw_mode: DrawMode,
    pub scanline_dot: u16,
    pub fetcher: PixelFetcher,
    /// Objects picked for the current line, by X, ties in OAM order.
    pub scanline_objs: Vec<OAMObject>,
    pub window_triggered: bool,
    pub window_lcd_y: u8,
    pub oam_dma_running: bool,
    pub oam_dma_src: u8,
    pub oam_dma_idx: u8,
    pub temp_framebuffer: Vec<u8>,
    pub framebuffer: Vec<u8>,
    /// Whether the last M-cycle requested the STAT interrupt.
    pub stat_request: bool,
}

/// The shade written for one pixel: the background pixel's colour through
/// BGP (0 when the background is off), unless an object pixel with a nonzero
/// colour index is present and does not yield to a nonzero background index
/// through its priority bit; then the object's colour goes through OBP0 or
/// OBP1 as its palette bit says.
pub open spec fn pixel_shade(bg: u8, sprite: Option<u8>, bgp: u8, obp0: u8, obp1: u8) -> u8 {
    let bg_idx: u8 = if bit8(bg, 2) { bg & 3 } else { 0 };
    let bg_col: u8 = if bit8(bg, 2) { (bgp >> ((bg & 3) * 2)) & 3 } else { 0 };
    match sprite {
        Some(s) => if s & 3 == 0 || (bit8(s, 4) && bg_idx != 0) {
            bg_col
        } else if bit8(s, 3) {
            (obp1 >> ((s & 3) * 2)) & 3
        } else {
            (obp0 >> ((s & 3) * 2)) & 3
        },
        None => bg_col,
    }
}

/// Background pixel `i` (0 = leftmost) of a tile row.
pub open spec fn bg_pixel(low: u8, high: u8, enabled: bool, i: u8) -> u8 {
    ((low >> (7 - i) as u8) & 1) | (((high >> (7 - i) as u8) & 1) << 1) | (if enabled { 4u8 } else { 0u8 })
}

/// Object pixel `i` (0 = leftmost on screen) of a tile row, with the
/// palette (flags bit 4) and priority (flags bit 7) marks; flags bit 5 flips
/// the row horizontally.
pub open spec fn sprite_pixel(low: u8, high: u8, flags: u8, i: u8) -> u8 {
    let b: u8 = if bit8(flags, 5) { i } else { (7 - i) as u8 };
    ((low >> b) & 1) | (((high >> b) & 1) << 1) | (if bit8(flags, 4) { 8u8 } else { 0u8 }) | (
    if bit8(flags, 7) { 16u8 } else { 0u8 })
}

/// VRAM offset of a byte of a background/window tile row: tiles from 0x0000
/// by unsigned index with LCDC bit 4, else from 0x1000 by signed index; two
/// bytes per row, low byte first.
pub open spec fn bg_row_offset(lcdc: u8, tile: u8, row: u8, high: bool) -> int {
    let base = if bit8(lcdc, 4) || tile >= 128 {
        tile as int * 16
    } else {
        0x1000 + tile as int * 16
    };
    (base + row as int * 2 + (if high { 1int } else { 0int })) % 0x2000
}

/// VRAM offset of a byte of an object tile row. `raw` is LY + 16 - Y mod
/// 256; tall (8x16) objects ignore bit 0 of the tile number, and flags
/// bit 6 flips the object vertically.
pub open spec fn sprite_row_offset(tall: bool, tile: u8, raw: u8, flags: u8, high: bool) -> int {
    let height: u8 = if tall { 16 } else { 8 };
    let row0 = raw & ((height - 1) as u8);
    let row = if bit8(flags, 6) { height - 1 - row0 } else { row0 as int };
    let t = if tall { tile & 0xFE } else { tile };
    (t as int * 16 + row * 2 + (if high { 1int } else { 0int })) % 0x2000
}

/// VRAM offset of the tile-map entry the background/window fetcher reads:
/// map 0x1800 or 0x1C00 (LCDC bit 3 for the background, bit 6 for the
/// window), row Y / 8, column X.
pub open spec fn map_offset(lcdc: u8, window: bool, x: u8, y: u8) -> int {
    let high_map = if window { bit8(lcdc, 6) } else { bit8(lcdc, 3) };
    (if high_map { 0x1C00int } else { 0x1800int }) + (((y / 8) as int * 32 + x as int) % 0x400)
}

/// The row of a background or window tile that the fetcher reads.
pub open spec fn bg_fine_row(p: &PPU) -> u8 {
    if p.fetcher.bg_window {
        p.window_lcd_y & 7
    } else {
        (((p.lcd_y as int + p.viewport_y as int) % 256) as u8) & 7
    }
}

/// LY + 16 - Y mod 256 for the object being fetched.
pub open spec fn sprite_raw_row(p: &PPU) -> u8 {
    ((p.lcd_y as int + 16 - p.fetcher.sprite_obj.y as int + 256) % 256) as u8
}

/// One M-cycle of the background/window fetcher. Each stage takes two
/// cycles: the first only waits. GetTile reads the tile number from the map,
/// the data stages read the row's low and high bytes, and Push moves the
/// row into the FIFO once it is empty, then goes on with the next column.
pub open spec fn bg_fetch_step(o: &PPU, n: &PPU) -> bool {
    let of = o.fetcher;
    let nf = n.fetcher;
    if !of.bg_wait {
        &&& nf.bg_wait
        &&& nf.bg_state == of.bg_state
        &&& nf.x == of.x
        &&& nf.bg_fifo.view() == of.bg_fifo.view()
    } else {
        &&& !nf.bg_wait
        &&& of.bg_state == FetcherState::GetTile ==> {
            let x: u8 = if of.bg_window {
                of.x
            } else {
                (((of.x as int + o.viewport_x as int / 8) % 256) as u8) & 0x1F
            };
            let y: u8 = if of.bg_window {
                o.window_lcd_y
            } else {
                ((o.lcd_y as int + o.viewport_y as int) % 256) as u8
            };
            &&& nf.bg_tile == o.vram@[map_offset(o.lcd_control, of.bg_window, x, y)]
            &&& nf.bg_state == FetcherState::GetTileDataLow
            &&& nf.x == of.x
            &&& nf.bg_fifo.view() == of.bg_fifo.view()
        }
        &&& of.bg_state == FetcherState::GetTileDataLow ==> {
            &&& nf.bg_low == o.vram@[bg_row_offset(o.lcd_control, of.bg_tile, bg_fine_row(o), false)]
            &&& nf.bg_state == FetcherState::GetTileDataHigh
            &&& nf.x == of.x
            &&& nf.bg_fifo.view() == of.bg_fifo.view()
        }
        &&& of.bg_state == FetcherState::GetTileDataHigh ==> {
            &&& nf.bg_high == o.vram@[bg_row_offset(o.lcd_control, of.bg_tile, bg_fine_row(o), true)]
            &&& nf.bg_state == FetcherState::Push
            &&& nf.x == of.x
            &&& nf.bg_fifo.view() == of.bg_fifo.view()
        }
        &&& (of.bg_state == FetcherState::Push && of.bg_fifo.view().len() != 0) ==> {
            &&& nf.bg_state == FetcherState::Push
            &&& nf.x == of.x
            &&& nf.bg_fifo.view() == of.bg_fifo.view()
        }
        &&& (of.bg_state == FetcherState::Push && of.bg_fifo.view().len() == 0) ==> {
            &&& nf.bg_state == FetcherState::GetTile
            &&& nf.x == ((of.x as int + 1) % 256) as u8
            &&& nf.bg_fifo.view().len() == 8
            &&& forall|i: int|
                0 <= i < 8 ==> #[trigger] nf.bg_fifo.view()[i] == bg_pixel(
                    of.bg_low,
                    of.bg_high,
                    bit8(o.lcd_control, 0),
                    i as u8,
                )
        }
    }
}

/// One M-cycle of the object fetcher: the same four stages, reading the
/// object's tile; Push mixes the row into the object FIFO and ends the
/// fetch.
pub open spec fn sprite_fetch_step(o: &PPU, n: &PPU) -> bool {
    let of = o.fetcher;
    let nf = n.fetcher;
    if !of.sprite_wait {
        &&& nf.sprite_wait
        &&& nf.sprite_state == of.sprite_state
        &&& nf.fetching_sprite == of.fetching_sprite
        &&& nf.sprite_fifo.view() == of.sprite_fifo.view()
    } else {
        &&& !nf.sprite_wait
        &&& of.sprite_state == FetcherState::GetTile ==> {
            &&& nf.sprite_tile == of.sprite_obj.tile
            &&& nf.sprite_state == FetcherState::GetTileDataLow
            &&& nf.fetching_sprite == of.fetching_sprite
            &&& nf.sprite_fifo.view() == of.sprite_fifo.view()
        }
        &&& of.sprite_state == FetcherState::GetTileDataLow ==> {
            &&& nf.sprite_low == o.vram@[sprite_row_offset(
                bit8(o.lcd_control, 2),
                of.sprite_tile,
                sprite_raw_row(o),
                of.sprite_obj.flags,
                false,
            )]
            &&& nf.sprite_state == FetcherState::GetTileDataHigh
            &&& nf.fetching_sprite == of.fetching_sprite
            &&& nf.sprite_fifo.view() == of.sprite_fifo.view()
        }
        &&& of.sprite_state == FetcherState::GetTileDataHigh ==> {
            &&& nf.sprite_high == o.vram@[sprite_row_offset(
                bit8(o.lcd_control, 2),
                of.sprite_tile,
                sprite_raw_row(o),
                of.sprite_obj.flags,
                true,
            )]
            &&& nf.sprite_state == FetcherState::Push
            &&& nf.fetching_sprite == of.fetching_sprite
            &&& nf.sprite_fifo.view() == of.sprite_fifo.view()
        }
        &&& of.sprite_state == FetcherState::Push ==> {
            let before = of.sprite_fifo.view();
            &&& nf.sprite_state == FetcherState::GetTile
            &&& !nf.fetching_sprite
            &&& nf.sprite_fifo.view().len() == if before.len() > 8 { before.len() as int } else { 8 }
            &&& forall|i: int|
                0 <= i < 8 ==> #[trigger] nf.sprite_fifo.view()[i] == if i < before.len()
                    && before[i] & 3 != 0 {
                    before[i]
                } else {
                    sprite_pixel(of.sprite_low, of.sprite_high, of.sprite_obj.flags, i as u8)
                }
        }
    }
}

/// Whether the next object on the line takes the fetcher over this cycle.
pub open spec fn sprite_due(p: &PPU) -> bool {
    &&& bit8(p.lcd_control, 1)
    &&& !p.fetcher.fetching_sprite
    &&& p.fetcher.sprite_next_idx < p.scanline_objs@.len()
    &&& p.scanline_objs@[p.fetcher.sprite_next_idx as int].x as int <= p.lcd_x as int + 8
}

/// Whether the window starts this cycle.
pub open spec fn window_due(p: &PPU) -> bool {
    &&& p.window_triggered
    &&& bit8(p.lcd_control, 5)
    &&& !p.fetcher.bg_window
    &&& p.lcd_x as int + 7 >= p.window_x as int
}

/// Whether starting line `ly` raises the STAT interrupt: LY=LYC (STAT bit
/// 6), vertical blank (bit 4, line 144) or OAM scan (bit 5, lines 0-143).
pub open spec fn line_source(p: &PPU, ly: u8) -> bool {
    ||| (ly == p.lcd_y_compare && bit8(p.lcd_status, 6))
    ||| (ly == 144 && bit8(p.lcd_status, 4))
    ||| (ly < 144 && bit8(p.lcd_status, 5))
}

/// Whether a pixel can be drawn within the next `n` dots.
pub open spec fn draws_within(p: &PPU, n: int) -> bool {
    p.draw_mode == DrawMode::Drawing || (p.draw_mode == DrawMode::OAMScan && p.scanline_dot + n
        > 80)
}

/// The line after `ly`, wrapping after the last.
pub open spec fn next_line(ly: u8) -> u8 {
    if ly == 153 {
        0
    } else {
        (ly + 1) as u8
    }
}

fn mix_pixel(bg: u8, sprite: Option<u8>, bgp: u8, obp0: u8, obp1: u8) -> (r: u8)
    ensures
        r == pixel_shade(bg, sprite, bgp, obp0, obp1),
        r < 4,
{
    proof {
        lemma_bit_masks(bg);
        assert(forall|p: u8, k: u8| (p >> k) & 3 < 4) by (bit_vector);
    }
    let bg_on = bg & 4 != 0;
    let bg_idx: u8 = if bg_on { bg & 3 } else { 0 };
    let bg_col: u8 = if bg_on { (bgp >> ((bg & 3) * 2)) & 3 } else { 0 };
    match sprite {
        Some(s) => {
            proof {
                lemma_bit_masks(s);
            }
            if s & 3 == 0 || (s & 0x10 != 0 && bg_idx != 0) {
                bg_col
            } else if s & 0x08 != 0 {
                (obp1 >> ((s & 3) * 2)) & 3
            } else {
                (obp0 >> ((s & 3) * 2)) & 3
            }
        },
        None => bg_col,
    }
}

/// Objects sorted by X, stable.
pub open spec fn sorted_by_x(s: Seq<OAMObject>) -> bool {
    forall|i: int, j: int| 0 <= i < j < s.len() ==> s[i].x <= s[j].x
}

impl PPU {
    pub open spec fn wf(&self) -> bool {
        &&& self.vram@.len() == 0x2000
        &&& self.oam@.len() == OAM_BYTES
        &&& self.temp_framebuffer@.len() == FRAME_BYTES
        &&& self.framebuffer@.len() == FRAME_BYTES
        &&& forall|i: int| 0 <= i < FRAME_BYTES ==> #[trigger] self.temp_framebuffer@[i] < 4
        &&& forall|i: int| 0 <= i < FRAME_BYTES ==> #[trigger] self.framebuffer@[i] < 4
        &&& self.scanline_dot < LINE_DOTS
        &&& self.lcd_y < FRAME_LINES
        &&& self.lcd_status & 0x87 == 0
        &&& self.scanline_objs@.len() <= LINE_OBJECTS
        &&& sorted_by_x(self.scanline_objs@)
        &&& self.fetcher.wf()
        &&& self.oam_dma_idx <= 160
        &&& self.oam_dma_running ==> self.oam_dma_idx < 160
        &&& (self.draw_mode == DrawMode::VBlank <==> self.lcd_y >= 144)
        &&& self.draw_mode == DrawMode::OAMScan ==> self.scanline_dot < 80
        &&& self.draw_mode == DrawMode::Drawing ==> self.lcd_x < 160
    }

    /// Whether the LCD and PPU are on (LCDC bit 7).
    pub open spec fn enabled(&self) -> bool {
        bit8(self.lcd_control, 7)
    }

    /// Whether the next M-cycle enters vertical blank.
    pub open spec fn vblank_due(&self) -> bool {
        self.enabled() && self.lcd_y == 143 && self.scanline_dot >= 452
    }

    /// Dots since the start of the frame.
    pub open spec fn frame_pos(&self) -> int {
        self.lcd_y as int * LINE_DOTS as int + self.scanline_dot as int
    }

    /// Every field that the CPU writes and the pixel pipeline only reads.
    pub open spec fn same_registers(&self, other: &PPU) -> bool {
        &&& self.vram@ == other.vram@
        &&& self.oam@ == other.oam@
        &&& self.viewport_y == other.viewport_y
        &&& self.viewport_x == other.viewport_x
        &&& self.window_y == other.window_y
        &&& self.window_x == other.window_x
        &&& self.lcd_control == other.lcd_control
        &&& self.lcd_status == other.lcd_status
        &&& self.lcd_y_compare == other.lcd_y_compare
        &&& self.bg_palette == other.bg_palette
        &&& self.obp0 == other.obp0
        &&& self.obp1 == other.obp1
        &&& self.oam_dma_running == other.oam_dma_running
        &&& self.oam_dma_src == other.oam_dma_src
        &&& self.oam_dma_idx == other.oam_dma_idx
        &&& self.framebuffer@.len() == other.framebuffer@.len()
    }

    /// The PPU after a CPU write to I/O register 0xFF00 + `reg`: LCDC, STAT
    /// (bits 3-6), SCY, SCX, LYC, DMA (starts a transfer), BGP, OBP0, OBP1,
    /// WY, WX. LY and every other offset are left alone.
    pub open spec fn io_written(self, reg: u16, val: u8) -> PPU {
        if reg == 0x40 {
            PPU { lcd_control: val, ..self }
        } else if reg == 0x41 {
            PPU { lcd_status: val & 0x78, ..self }
        } else if reg == 0x42 {
            PPU { viewport_y: val, ..self }
        } else if reg == 0x43 {
            PPU { viewport_x: val, ..self }
        } else if reg == 0x45 {
            PPU { lcd_y_compare: val, ..self }
        } else if reg == 0x46 {
            PPU { oam_dma_running: true, oam_dma_idx: 0, oam_dma_src: val, ..self }
        } else if reg == 0x47 {
            PPU { bg_palette: val, ..self }
        } else if reg == 0x48 {
            PPU { obp0: val, ..self }
        } else if reg == 0x49 {
            PPU { obp1: val, ..self }
        } else if reg == 0x4A {
            PPU { window_y: val, ..self }
        } else if reg == 0x4B {
            PPU { window_x: val, ..self }
        } else {
            self
        }
    }

    /// The same LCD registers.
    pub open spec fn same_lcd_registers(&self, other: &PPU) -> bool {
        &&& self.lcd_control == other.lcd_control
        &&& self.lcd_status == other.lcd_status
        &&& self.viewport_y == other.viewport_y
        &&& self.viewport_x == other.viewport_x
        &&& self.lcd_y_compare == other.lcd_y_compare
        &&& self.oam_dma_src == other.oam_dma_src
        &&& self.bg_palette == other.bg_palette
        &&& self.obp0 == other.obp0
        &&& self.obp1 == other.obp1
        &&& self.window_y == other.window_y
        &&& self.window_x == other.window_x
    }

    /// VRAM is open to the CPU unless the PPU is drawing.
    pub open spec fn vram_open(&self) -> bool {
        self.draw_mode != DrawMode::Drawing || !self.enabled()
    }

    /// OAM is open to the CPU in blanking periods or with the LCD off.
    pub open spec fn oam_open(&self) -> bool {
        self.draw_mode == DrawMode::HBlank || self.draw_mode == DrawMode::VBlank
            || !self.enabled()
    }

    /// What a CPU read of 0xFE00-0xFEFF returns.
    pub open spec fn oam_byte(&self, addr: u16) -> u8 {
        let index = addr & 0xFF;
        if !self.oam_open() {
            0xFF
        } else if index < 0xA0 {
            self.oam@[index as int]
        } else {
            0
        }
    }

    /// What a CPU read of STAT returns.
    /// With the LCD off the mode reads as 0.
    pub open spec fn stat_byte(&self) -> u8 {
        0x80 | self.lcd_status | (if self.lcd_y == self.lcd_y_compare { 4u8 } else { 0u8 }) | (
        if self.enabled() { mode_number(self.draw_mode) } else { 0u8 })
    }

    pub fn new() -> (r: PPU)
        ensures
            r.wf(),
            r.lcd_control == 0,
            r.lcd_y == 0,
            r.scanline_dot == 0,
            r.bg_palette == 0xFC,
            !r.oam_dma_running,
            r.viewport_y == 0 && r.viewport_x == 0 && r.window_y == 0 && r.window_x == 0,
            r.lcd_status == 0 && r.lcd_y_compare == 0 && r.lcd_x == 0,
            r.obp0 == 0xFF && r.obp1 == 0xFF,
            r.oam_dma_src == 0 && r.oam_dma_idx == 0,
            r.draw_mode == DrawMode::OAMScan,
            r.scanline_objs@.len() == 0,
            !r.window_triggered && r.window_lcd_y == 0,
            !r.stat_request,
            r.stat_byte() == 0x84,
            forall|i: int| 0 <= i < 0x2000 ==> r.vram@[i] == 0,
            forall|i: int| 0 <= i < OAM_BYTES ==> r.oam@[i] == 0,
            forall|i: int| 0 <= i < FRAME_BYTES ==> r.framebuffer@[i] == 0,
    {
        let r = PPU {
            vram: vec![0u8; 0x2000],
            oam: vec![0u8; OAM_BYTES],
            viewport_y: 0,
            viewport_x: 0,
            window_y: 0,
            window_x: 0,
            lcd_control: 0,
            lcd_status: 0,
            lcd_y: 0,
            lcd_y_compare: 0,
            lcd_x: 0,
            bg_palette: 0xFC,
            obp0: 0xFF,
            obp1: 0xFF,
            draw_mode: DrawMode::OAMScan,
            scanline_dot: 0,
            fetcher: PixelFetcher::new(),
            scanline_objs: Vec::new(),
            window_triggered: false,
            window_lcd_y: 0,
            oam_dma_running: false,
            oam_dma_src: 0,
            oam_dma_idx: 0,
            temp_framebuffer: vec![0u8; FRAME_BYTES],
            framebuffer: vec![0u8; FRAME_BYTES],
            stat_request: false,
        };
        assert(0u8 & 0x87 == 0 && 0x80u8 | 0u8 | 4u8 | 0u8 == 0x84 && !bit8(0u8, 7)) by (bit_vector);
        r
    }

    pub fn read_vram(&self, addr: u16) -> (r: u8)
        requires
            self.wf(),
        ensures
            r == if self.vram_open() { self.vram@[(addr & 0x1FFF) as int] } else { 0xFF },
    {
        if self.draw_mode != DrawMode::Drawing || self.lcd_control & 0x80 == 0 {
            proof { lemma_addr_masks(addr); }
            proof { lemma_bit_masks(self.lcd_control); }
            self.vram[(addr & 0x1FFF) as usize]
        } else {
            proof { lemma_bit_masks(self.lcd_control); }
            0xFF
        }
    }

    pub fn write_vram(&mut self, addr: u16, val: u8)
        requires
            old(self).wf(),
        ensures
            final(self).wf(),
            final(self).vram@ == if old(self).vram_open() {
                old(self).vram@.update((addr & 0x1FFF) as int, val)
            } else {
                old(self).vram@
            },
            *final(self) == (PPU { vram: final(self).vram, ..*old(self) }),
    {
        proof { lemma_bit_masks(self.lcd_control); }
        if self.draw_mode != DrawMode::Drawing || self.lcd_control & 0x80 == 0 {
            proof { lemma_addr_masks(addr); }
            self.vram.set((addr & 0x1FFF) as usize, val);
        }
    }

    /// Reads 0xFE00-0xFEFF; the unusable 0xFEA0-0xFEFF reads as 0.
    pub fn read_oam(&self, addr: u16) -> (r: u8)
        requires
            self.wf(),
        ensures
            r == self.oam_byte(addr),
    {
        let index = addr & 0xFF;
        proof { lemma_bit_masks(self.lcd_control); }
        let open = self.draw_mode == DrawMode::HBlank || self.draw_mode == DrawMode::VBlank
            || self.lcd_control & 0x80 == 0;
        if !open {
            0xFF
        } else if index < 0xA0 {
            self.oam[index as usize]
        } else {
            0
        }
    }

    /// Writes 0xFE00-0xFE9F; writes to the unusable range are dropped.
    pub fn write_oam(&mut self, addr: u16, val: u8)
        requires
            old(self).wf(),
        ensures
            final(self).wf(),
            final(self).oam@ == if old(self).oam_open() && addr & 0xFF < 0xA0 {
                old(self).oam@.update((addr & 0xFF) as int, val)
            } else {
                old(self).oam@
            },
            *final(self) == (PPU { oam: final(self).oam, ..*old(self) }),
    {
        let index = addr & 0xFF;
        proof { lemma_bit_masks(self.lcd_control); }
        let open = self.draw_mode == DrawMode::HBlank || self.draw_mode == DrawMode::VBlank
            || self.lcd_control & 0x80 == 0;
        if open && index < 0xA0 {
            self.oam.set(index as usize, val);
        }
    }
}

impl PPU {
    /// Fields that only the line and frame timing change.
    pub open spec fn same_timing(&self, other: &PPU) -> bool {
        &&& self.lcd_y == other.lcd_y
        &&& self.scanline_dot == other.scanline_dot
        &&& self.scanline_objs@ == other.scanline_objs@
        &&& self.window_triggered == other.window_triggered
        &&& self.window_lcd_y == other.window_lcd_y
    }

    /// Runs the fetchers for one dot: an object whose left edge has been
    /// reached takes the fetcher over; otherwise the window starts when
    /// its column is reached, and the background/window fetch goes on.
    #[verifier::rlimit(40)]
    pub fn tick_fetcher(&mut self)
        requires
            old(self).wf(),
            old(self).draw_mode == DrawMode::Drawing,
        ensures
            final(self).wf(),
            final(self).same_registers(&*old(self)),
            final(self).same_timing(&*old(self)),
            final(self).framebuffer@ == old(self).framebuffer@,
            final(self).draw_mode == old(self).draw_mode,
            final(self).lcd_x == old(self).lcd_x,
            final(self).temp_framebuffer@ == old(self).temp_framebuffer@,
            final(self).fetcher.bg_excess == old(self).fetcher.bg_excess,
            // The next object on the line preempts the background fetch.
            sprite_due(&*old(self)) ==> {
                &&& final(self).fetcher.fetching_sprite
                &&& final(self).fetcher.sprite_obj == old(self).scanline_objs@[old(
                    self,
                ).fetcher.sprite_next_idx as int]
                &&& final(self).fetcher.sprite_next_idx == old(self).fetcher.sprite_next_idx + 1
                &&& final(self).fetcher.sprite_state == FetcherState::GetTile
                &&& final(self).fetcher.bg_fifo.view() == old(self).fetcher.bg_fifo.view()
            },
            !sprite_due(&*old(self)) ==> final(self).fetcher.sprite_next_idx == old(
                self,
            ).fetcher.sprite_next_idx,
            // An object fetch under way goes on; the background waits.
            (!sprite_due(&*old(self)) && old(self).fetcher.fetching_sprite) ==> sprite_fetch_step(
                &*old(self),
                &*final(self),
            ) && final(self).fetcher.bg_fifo.view() == old(self).fetcher.bg_fifo.view(),
            // The window starts: its fetch begins at column 0 on an empty FIFO.
            (!old(self).fetcher.fetching_sprite && !sprite_due(&*old(self)) && window_due(
                &*old(self),
            )) ==> final(self).fetcher.bg_window && final(self).fetcher.x == 0
                && final(self).fetcher.bg_fifo.view().len() == 0,
            // Otherwise the background/window fetcher runs.
            (!old(self).fetcher.fetching_sprite && !sprite_due(&*old(self)) && !window_due(
                &*old(self),
            )) ==> bg_fetch_step(&*old(self), &*final(self)),
    {
        proof {
            lemma_bit_masks(self.lcd_control);
        }
        if self.lcd_control & 0x02 != 0 && !self.fetcher.fetching_sprite
            && self.fetcher.sprite_next_idx < self.scanline_objs.len()
            && self.scanline_objs[self.fetcher.sprite_next_idx].x as u16 <= self.lcd_x as u16 + 8 {
            self.fetcher.fetching_sprite = true;
            self.fetcher.sprite_wait = false;
            self.fetcher.sprite_state = FetcherState::GetTile;
            self.fetcher.sprite_obj = self.scanline_objs[self.fetcher.sprite_next_idx];
            self.fetcher.sprite_next_idx = self.fetcher.sprite_next_idx + 1;
        }
        if self.fetcher.fetching_sprite {
            self.tick_fetcher_sprite();
            return ;
        }
        if self.window_triggered && self.lcd_control & 0x20 != 0 && !self.fetcher.bg_window
            && self.lcd_x as u16 + 7 >= self.window_x as u16 {
            self.fetcher.bg_window = true;
            self.fetcher.bg_fifo = PixelFIFO::new();
            self.fetcher.x = 0;
            self.fetcher.bg_state = FetcherState::GetTile;
        }
        self.tick_fetcher_bg();
    }

    /// VRAM offset of the low or high byte of the current object's row.
    fn sprite_row_addr(&self, high: bool) -> (r: usize)
        requires
            self.wf(),
        ensures
            r < 0x2000,
            r == sprite_row_offset(
                bit8(self.lcd_control, 2),
                self.fetcher.sprite_tile,
                ((self.lcd_y as int + 16 - self.fetcher.sprite_obj.y as int + 256) % 256) as u8,
                self.fetcher.sprite_obj.flags,
                high,
            ),
    {
        proof {
            lemma_bit_masks(self.lcd_control);
            lemma_bit_masks(self.fetcher.sprite_obj.flags);
        }
        let tall = self.lcd_control & 0x04 != 0;
        let height: u8 = if tall { 16 } else { 8 };
        let mask: u8 = height - 1;
        let raw: u8 = ((self.lcd_y as u16 + 272 - self.fetcher.sprite_obj.y as u16) % 256) as u8;
        let mut row: u8 = raw & mask;
        assert(raw & mask < height) by (bit_vector)
            requires
                mask == height - 1,
                height == 8 || height == 16,
        ;
        assert(row < height);
        if self.fetcher.sprite_obj.flags & 0x40 != 0 {
            row = height - 1 - row;
        }
        let tile: u8 = if tall { self.fetcher.sprite_tile & 0xFE } else { self.fetcher.sprite_tile };
        let base = tile as usize * 16 + row as usize * 2 + if high { 1 } else { 0 };
        proof {
            lemma_index_masks(base);
        }
        base & 0x1FFF
    }

    #[verifier::rlimit(40)]
    fn tick_fetcher_sprite(&mut self)
        requires
            old(self).wf(),
        ensures
            final(self).wf(),
            final(self).same_registers(&*old(self)),
            final(self).same_timing(&*old(self)),
            final(self).framebuffer@ == old(self).framebuffer@,
            final(self).draw_mode == old(self).draw_mode,
            final(self).lcd_x == old(self).lcd_x,
            final(self).temp_framebuffer@ == old(self).temp_framebuffer@,
            final(self).fetcher.bg_excess == old(self).fetcher.bg_excess,
            final(self).fetcher.bg_fifo.view() == old(self).fetcher.bg_fifo.view(),
            final(self).fetcher.sprite_next_idx == old(self).fetcher.sprite_next_idx,
            final(self).fetcher.sprite_obj == old(self).fetcher.sprite_obj,
            sprite_fetch_step(&*old(self), &*final(self)),
    {
        // Each stage takes two M-cycles.
        if !self.fetcher.sprite_wait {
            self.fetcher.sprite_wait = true;
            return ;
        }
        self.fetcher.sprite_wait = false;
        match self.fetcher.sprite_state {
            FetcherState::GetTile => {
                self.fetcher.sprite_tile = self.fetcher.sprite_obj.tile;
                self.fetcher.sprite_state = FetcherState::GetTileDataLow;
            },
            FetcherState::GetTileDataLow => {
                let a = self.sprite_row_addr(false);
                self.fetcher.sprite_low = self.vram[a];
                self.fetcher.sprite_state = FetcherState::GetTileDataHigh;
            },
            FetcherState::GetTileDataHigh => {
                let a = self.sprite_row_addr(true);
                self.fetcher.sprite_high = self.vram[a];
                self.fetcher.sprite_state = FetcherState::Push;
            },
            FetcherState::Push => {
                self.mix_sprite_row();
                self.fetcher.fetching_sprite = false;
                self.fetcher.sprite_state = FetcherState::GetTile;
            },
        }
    }

    /// Mixes the fetched object row into the object FIFO: a slot that
    /// already holds a visible pixel keeps it, the others take the new one.
    #[verifier::rlimit(40)]
    fn mix_sprite_row(&mut self)
        requires
            old(self).wf(),
        ensures
            final(self).wf(),
            final(self).same_registers(&*old(self)),
            final(self).same_timing(&*old(self)),
            final(self).framebuffer@ == old(self).framebuffer@,
            final(self).draw_mode == old(self).draw_mode,
            final(self).lcd_x == old(self).lcd_x,
            final(self).temp_framebuffer@ == old(self).temp_framebuffer@,
            final(self).fetcher.bg_excess == old(self).fetcher.bg_excess,
            final(self).fetcher.bg_fifo.view() == old(self).fetcher.bg_fifo.view(),
            final(self).fetcher.fetching_sprite == old(self).fetcher.fetching_sprite,
            final(self).fetcher == (PixelFetcher {
                sprite_fifo: final(self).fetcher.sprite_fifo,
                ..old(self).fetcher
            }),
            final(self).fetcher.sprite_fifo.view().len() == if old(
                self,
            ).fetcher.sprite_fifo.view().len() > 8 {
                old(self).fetcher.sprite_fifo.view().len()
            } else {
                8
            },
            forall|i: int|
                0 <= i < 8 ==> #[trigger] final(self).fetcher.sprite_fifo.view()[i] == if i < old(
                    self,
                ).fetcher.sprite_fifo.view().len() && old(self).fetcher.sprite_fifo.view()[i] & 3
                    != 0 {
                    old(self).fetcher.sprite_fifo.view()[i]
                } else {
                    sprite_pixel(
                        old(self).fetcher.sprite_low,
                        old(self).fetcher.sprite_high,
                        old(self).fetcher.sprite_obj.flags,
                        i as u8,
                    )
                },
    {
        let low = self.fetcher.sprite_low;
        let high = self.fetcher.sprite_high;
        let flags = self.fetcher.sprite_obj.flags;
        proof {
            lemma_bit_masks(flags);
        }
        let ghost before = self.fetcher.sprite_fifo.view();
        let mut i: u8 = 0;
        while i < 8
            invariant
                i <= 8,
                self.fetcher.sprite_fifo.wf(),
                self.fetcher.bg_fifo.view() == old(self).fetcher.bg_fifo.view(),
                self.fetcher.bg_fifo.wf(),
                self.fetcher.sprite_fifo.view().len() == if before.len() > i as int {
                    before.len() as int
                } else {
                    i as int
                },
                before.len() <= 16,
                forall|j: int|
                    i <= j < before.len() ==> #[trigger] self.fetcher.sprite_fifo.view()[j]
                        == before[j],
                forall|j: int|
                    0 <= j < i ==> #[trigger] self.fetcher.sprite_fifo.view()[j] == if j
                        < before.len() && before[j] & 3 != 0 {
                        before[j]
                    } else {
                        sprite_pixel(low, high, flags, j as u8)
                    },
                *self == (PPU { fetcher: self.fetcher, ..*old(self) }),
                self.fetcher == (PixelFetcher {
                    sprite_fifo: self.fetcher.sprite_fifo,
                    ..old(self).fetcher
                }),
                low == old(self).fetcher.sprite_low,
                high == old(self).fetcher.sprite_high,
                flags == old(self).fetcher.sprite_obj.flags,
            decreases 8 - i,
        {
            proof {
                lemma_bit_masks(flags);
            }
            let b: u8 = if flags & 0x20 != 0 { i } else { 7 - i };
            let pal: u8 = if flags & 0x10 != 0 { 8 } else { 0 };
            let prio: u8 = if flags & 0x80 != 0 { 16 } else { 0 };
            let px: u8 = ((low >> b) & 1) | (((high >> b) & 1) << 1) | pal | prio;
            assert(b == if bit8(flags, 5) { i } else { (7 - i) as u8 });
            assert(px == sprite_pixel(low, high, flags, i));
            if i < self.fetcher.sprite_fifo.len() {
                if self.fetcher.sprite_fifo.get(i) & 3 == 0 {
                    self.fetcher.sprite_fifo.replace(i, px);
                }
            } else {
                self.fetcher.sprite_fifo.push(px);
            }
            i = i + 1;
        }
    }

    #[verifier::rlimit(40)]
    fn tick_fetcher_bg(&mut self)
        requires
            old(self).wf(),
        ensures
            final(self).wf(),
            final(self).same_registers(&*old(self)),
            final(self).same_timing(&*old(self)),
            final(self).framebuffer@ == old(self).framebuffer@,
            final(self).draw_mode == old(self).draw_mode,
            final(self).lcd_x == old(self).lcd_x,
            final(self).temp_framebuffer@ == old(self).temp_framebuffer@,
            final(self).fetcher.bg_excess == old(self).fetcher.bg_excess,
            final(self).fetcher.sprite_fifo.view() == old(self).fetcher.sprite_fifo.view(),
            final(self).fetcher.fetching_sprite == old(self).fetcher.fetching_sprite,
            final(self).fetcher.bg_window == old(self).fetcher.bg_window,
            final(self).fetcher.sprite_next_idx == old(self).fetcher.sprite_next_idx,
            bg_fetch_step(&*old(self), &*final(self)),
    {
        proof {
            lemma_bit_masks(self.lcd_control);
        }
        // Each stage takes two M-cycles.
        if !self.fetcher.bg_wait {
            self.fetcher.bg_wait = true;
            return ;
        }
        self.fetcher.bg_wait = false;
        match self.fetcher.bg_state {
            FetcherState::GetTile => {
                let window = self.fetcher.bg_window;
                let map_bit: u8 = if window { 0x40 } else { 0x08 };
                let map_addr: usize = if self.lcd_control & map_bit != 0 { 0x1C00 } else { 0x1800 };
                let (x, y) = if window {
                    (self.fetcher.x, self.window_lcd_y)
                } else {
                    (
                        ((self.fetcher.x as u16 + (self.viewport_x / 8) as u16) % 256) as u8 & 0x1F,
                        ((self.lcd_y as u16 + self.viewport_y as u16) % 256) as u8,
                    )
                };
                let raw = (y / 8) as usize * 32 + x as usize;
                proof {
                    lemma_index_masks(raw);
                }
                let cell = raw & 0x3FF;
                self.fetcher.bg_tile = self.vram[map_addr + cell];
                self.fetcher.bg_state = FetcherState::GetTileDataLow;
            },
            FetcherState::GetTileDataLow => {
                let a = self.bg_row_addr(false);
                self.fetcher.bg_low = self.vram[a];
                self.fetcher.bg_state = FetcherState::GetTileDataHigh;
            },
            FetcherState::GetTileDataHigh => {
                let a = self.bg_row_addr(true);
                self.fetcher.bg_high = self.vram[a];
                self.fetcher.bg_state = FetcherState::Push;
            },
            FetcherState::Push => {
                if self.fetcher.bg_fifo.len() == 0 {
                    self.push_bg_row();
                    self.fetcher.x = self.fetcher.x.wrapping_add(1);
                    self.fetcher.bg_state = FetcherState::GetTile;
                }
            },
        }
    }

    /// VRAM offset of the current background/window tile row.
    fn bg_row_addr(&self, high: bool) -> (r: usize)
        requires
            self.wf(),
        ensures
            r < 0x2000,
            r == bg_row_offset(
                self.lcd_control,
                self.fetcher.bg_tile,
                if self.fetcher.bg_window {
                    self.window_lcd_y & 7
                } else {
                    (((self.lcd_y as int + self.viewport_y as int) % 256) as u8) & 7
                },
                high,
            ),
    {
        proof {
            lemma_bit_masks(self.lcd_control);
        }
        let tile = self.fetcher.bg_tile;
        let base: usize = if self.lcd_control & 0x10 != 0 || tile >= 128 {
            tile as usize * 16
        } else {
            0x1000 + tile as usize * 16
        };
        let row: u8 = if self.fetcher.bg_window {
            self.window_lcd_y & 7
        } else {
            ((self.lcd_y as u16 + self.viewport_y as u16) % 256) as u8 & 7
        };
        let a = base + row as usize * 2 + if high { 1 } else { 0 };
        proof {
            lemma_index_masks(a);
        }
        a & 0x1FFF
    }

    fn push_bg_row(&mut self)
        requires
            old(self).wf(),
            old(self).fetcher.bg_fifo.view().len() == 0,
        ensures
            final(self).wf(),
            final(self).same_registers(&*old(self)),
            final(self).same_timing(&*old(self)),
            final(self).framebuffer@ == old(self).framebuffer@,
            final(self).draw_mode == old(self).draw_mode,
            final(self).lcd_x == old(self).lcd_x,
            final(self).temp_framebuffer@ == old(self).temp_framebuffer@,
            final(self).fetcher.bg_excess == old(self).fetcher.bg_excess,
            final(self).fetcher.sprite_fifo.view() == old(self).fetcher.sprite_fifo.view(),
            final(self).fetcher.fetching_sprite == old(self).fetcher.fetching_sprite,
            final(self).fetcher.bg_state == old(self).fetcher.bg_state,
            final(self).fetcher.x == old(self).fetcher.x,
            final(self).fetcher == (PixelFetcher { bg_fifo: final(self).fetcher.bg_fifo, ..old(self).fetcher }),
            final(self).fetcher.bg_fifo.view().len() == 8,
            forall|i: int|
                0 <= i < 8 ==> #[trigger] final(self).fetcher.bg_fifo.view()[i] == bg_pixel(
                    old(self).fetcher.bg_low,
                    old(self).fetcher.bg_high,
                    bit8(old(self).lcd_control, 0),
                    i as u8,
                ),
    {
        proof {
            lemma_bit_masks(self.lcd_control);
        }
        let low = self.fetcher.bg_low;
        let high = self.fetcher.bg_high;
        let en: u8 = if self.lcd_control & 0x01 != 0 { 4 } else { 0 };
        let mut i: u8 = 0;
        while i < 8
            invariant
                i <= 8,
                self.fetcher.bg_fifo.wf(),
                self.fetcher.bg_fifo.view().len() == i,
                forall|j: int|
                    0 <= j < i ==> #[trigger] self.fetcher.bg_fifo.view()[j] == bg_pixel(
                        low,
                        high,
                        bit8(old(self).lcd_control, 0),
                        j as u8,
                    ),
                en == (if bit8(old(self).lcd_control, 0) { 4u8 } else { 0u8 }),
                self.fetcher.sprite_fifo == old(self).fetcher.sprite_fifo,
                *self == (PPU { fetcher: self.fetcher, ..*old(self) }),
                self.fetcher == (PixelFetcher { bg_fifo: self.fetcher.bg_fifo, ..old(self).fetcher }),
                low == old(self).fetcher.bg_low,
                high == old(self).fetcher.bg_high,
            decreases 8 - i,
        {
            let b: u8 = 7 - i;
            let px: u8 = ((low >> b) & 1) | (((high >> b) & 1) << 1) | en;
            self.fetcher.bg_fifo.push(px);
            i = i + 1;
        }
    }
}

/// Object `i` of OAM, from its four bytes.
pub open spec fn oam_object(p: &PPU, i: int) -> OAMObject {
    OAMObject { y: p.oam@[4 * i], x: p.oam@[4 * i + 1], tile: p.oam@[4 * i + 2], flags: p.oam@[4 * i + 3] }
}

/// Whether an object shows on line `ly`: X is nonzero and its rows (8, or
/// 16 with LCDC bit 2) starting at Y - 16 cover the line.
pub open spec fn on_line(obj: OAMObject, ly: u8, lcdc: u8) -> bool {
    let height: int = if bit8(lcdc, 2) { 16 } else { 8 };
    &&& obj.x != 0
    &&& ly as int + 16 >= obj.y as int
    &&& (ly as int + 16) < obj.y as int + height
}

/// `after` is `before` with `obj` inserted after every entry whose X is not
/// greater and before every entry whose X is.
pub open spec fn inserted_by_x(before: Seq<OAMObject>, obj: OAMObject, after: Seq<OAMObject>) -> bool {
    exists|k: int|
        0 <= k <= before.len() && after == #[trigger] before.insert(k, obj) && (forall|j: int|
            0 <= j < k ==> before[j].x <= obj.x) && (forall|j: int|
            k <= j < before.len() ==> before[j].x > obj.x)
}

/// Object `i` of an OAM image.
pub open spec fn oam_entry(oam: Seq<u8>, i: int) -> OAMObject {
    OAMObject { y: oam[4 * i], x: oam[4 * i + 1], tile: oam[4 * i + 2], flags: oam[4 * i + 3] }
}

/// `s` (sorted by X) with `o` put after every entry whose X is not greater.
pub open spec fn insert_sorted(s: Seq<OAMObject>, o: OAMObject) -> Seq<OAMObject>
    decreases s.len(),
{
    if s.len() == 0 {
        seq![o]
    } else if s.last().x <= o.x {
        s.push(o)
    } else {
        insert_sorted(s.drop_last(), o).push(s.last())
    }
}

/// The objects OAM scan keeps after looking at the first `n` objects: those
/// on line `ly` in OAM order, at most ten, sorted by X with ties in OAM
/// order.
pub open spec fn selected(oam: Seq<u8>, ly: u8, lcdc: u8, n: int) -> Seq<OAMObject>
    decreases n,
{
    if n <= 0 {
        Seq::empty()
    } else {
        let prev = selected(oam, ly, lcdc, n - 1);
        let o = oam_entry(oam, n - 1);
        if on_line(o, ly, lcdc) && prev.len() < LINE_OBJECTS {
            insert_sorted(prev, o)
        } else {
            prev
        }
    }
}

proof fn lemma_insert_sorted(s: Seq<OAMObject>, o: OAMObject, k: int)
    requires
        0 <= k <= s.len(),
        forall|j: int| 0 <= j < k ==> s[j].x <= o.x,
        forall|j: int| k <= j < s.len() ==> s[j].x > o.x,
    ensures
        insert_sorted(s, o) == s.insert(k, o),
    decreases s.len(),
{
    if s.len() == 0 {
        assert(s.insert(k, o) =~= seq![o]);
    } else if s.last().x <= o.x {
        assert(k == s.len());
        assert(s.insert(k, o) =~= s.push(o));
    } else {
        let t = s.drop_last();
        lemma_insert_sorted(t, o, k);
        assert(s.insert(k, o) =~= t.insert(k, o).push(s.last()));
    }
}

/// Whether the object list agrees with the scan so far.
pub open spec fn scan_ok(p: &PPU) -> bool {
    &&& p.draw_mode == DrawMode::OAMScan
    &&& p.scanline_dot != 0 ==> p.scanline_objs@ == selected(
        p.oam@,
        p.lcd_y,
        p.lcd_control,
        (p.scanline_dot as int + 1) / 2,
    )
}

/// The list a complete scan of all forty objects gives.
pub open spec fn full_scan(p: &PPU) -> Seq<OAMObject> {
    selected(p.oam@, p.lcd_y, p.lcd_control, 40)
}

/// Inserts an object after every entry whose X is not greater, keeping the
/// list sorted by X with ties in insertion order.
fn insert_by_x(objs: &mut Vec<OAMObject>, obj: OAMObject)
    requires
        sorted_by_x(old(objs)@),
    ensures
        sorted_by_x(final(objs)@),
        inserted_by_x(old(objs)@, obj, final(objs)@),
{
    let mut i = objs.len();
    while i > 0 && objs[i - 1].x > obj.x
        invariant
            i <= objs@.len(),
            objs@ == old(objs)@,
            sorted_by_x(objs@),
            forall|j: int| i <= j < objs@.len() ==> objs@[j].x > obj.x,
        decreases i,
    {
        i = i - 1;
    }
    let ghost before = objs@;
    objs.insert(i, obj);
    assert(forall|j: int| 0 <= j < i ==> before[j].x <= obj.x) by {
        if i > 0 {
            assert(before[i - 1].x <= obj.x);
        }
    }
    assert(objs@ == before.insert(i as int, obj));
    assert forall|a: int, b: int| 0 <= a < b < objs@.len() implies objs@[a].x <= objs@[b].x by {
        if i > 0 {
            assert(before[i - 1].x <= obj.x);
        }
    }
}

impl PPU {
    /// OAM scan for one dot: every other dot looks at one object and keeps
    /// it when its rows cover the current line, its X is nonzero and fewer
    /// than ten are kept. The last scan dot starts the drawing of the line.
    #[verifier::rlimit(40)]
    fn scan_dot(&mut self)
        requires
            old(self).wf(),
            old(self).draw_mode == DrawMode::OAMScan,
        ensures
            final(self).wf(),
            final(self).same_registers(&*old(self)),
            final(self).lcd_y == old(self).lcd_y,
            final(self).scanline_dot == old(self).scanline_dot,
            final(self).window_lcd_y == old(self).window_lcd_y,
            final(self).temp_framebuffer@ == old(self).temp_framebuffer@,
            final(self).framebuffer@ == old(self).framebuffer@,
            final(self).draw_mode == if old(self).scanline_dot == 79 {
                DrawMode::Drawing
            } else {
                DrawMode::OAMScan
            },
            // Odd dots look at nothing; even dots look at object dot / 2, the
            // first of them clearing the list.
            old(self).scanline_dot % 2 == 1 ==> final(self).scanline_objs@ == old(
                self,
            ).scanline_objs@,
            // So the list follows the scan of the objects looked at so far.
            (old(self).scanline_dot == 0 || old(self).scanline_objs@ == selected(
                old(self).oam@,
                old(self).lcd_y,
                old(self).lcd_control,
                (old(self).scanline_dot as int + 1) / 2,
            )) ==> final(self).scanline_objs@ == selected(
                old(self).oam@,
                old(self).lcd_y,
                old(self).lcd_control,
                (old(self).scanline_dot as int + 2) / 2,
            ),
            old(self).scanline_dot % 2 == 0 ==> ({
                let base = if old(self).scanline_dot == 0 {
                    Seq::<OAMObject>::empty()
                } else {
                    old(self).scanline_objs@
                };
                let obj = oam_object(&*old(self), (old(self).scanline_dot / 2) as int);
                if on_line(obj, old(self).lcd_y, old(self).lcd_control) && base.len() < LINE_OBJECTS {
                    inserted_by_x(base, obj, final(self).scanline_objs@)
                } else {
                    final(self).scanline_objs@ == base
                }
            }),
    {
        proof {
            lemma_bit_masks(self.lcd_control);
        }
        if self.scanline_dot % 2 == 0 {
            if self.scanline_dot == 0 {
                self.scanline_objs.clear();
                if self.lcd_y == self.window_y {
                    self.window_triggered = true;
                }
            }
            let i = (self.scanline_dot / 2) as usize * 4;
            let obj = OAMObject {
                y: self.oam[i],
                x: self.oam[i + 1],
                tile: self.oam[i + 2],
                flags: self.oam[i + 3],
            };
            let height: u16 = if self.lcd_control & 0x04 != 0 { 16 } else { 8 };
            let line = self.lcd_y as u16 + 16;
            let ghost base = self.scanline_objs@;
            if obj.x != 0 && line >= obj.y as u16 && line < obj.y as u16 + height
                && self.scanline_objs.len() < LINE_OBJECTS {
                insert_by_x(&mut self.scanline_objs, obj);
                proof {
                    let k = choose|k: int|
                        0 <= k <= base.len() && self.scanline_objs@ == #[trigger] base.insert(k, obj)
                            && (forall|j: int| 0 <= j < k ==> base[j].x <= obj.x) && (forall|j: int|
                            k <= j < base.len() ==> base[j].x > obj.x);
                    lemma_insert_sorted(base, obj, k);
                }
            }
            proof {
                let d = old(self).scanline_dot as int;
                let o = old(self);
                assert(obj == oam_entry(o.oam@, d / 2));
                assert((d + 2) / 2 == d / 2 + 1);
                if d != 0 {
                    assert((d + 1) / 2 == d / 2);
                } else {
                    assert(selected(o.oam@, o.lcd_y, o.lcd_control, 0) =~= Seq::<OAMObject>::empty());
                }
                assert(on_line(obj, o.lcd_y, o.lcd_control) == (obj.x != 0 && line >= obj.y as u16
                    && line < obj.y as u16 + height));
            }
        }
        if self.scanline_dot == 79 {
            let mut fetcher = PixelFetcher::new();
            fetcher.bg_excess = self.viewport_x & 7;
            self.fetcher = fetcher;
            self.lcd_x = 0;
            self.draw_mode = DrawMode::Drawing;
        }
    }

    /// Drawing for one dot: runs the fetchers and, unless an object is being
    /// fetched, shifts one pixel out to the line. Returns whether the end
    /// of drawing raised the mode-0 STAT interrupt.
    #[verifier::rlimit(40)]
    fn draw_dot(&mut self) -> (stat: bool)
        requires
            old(self).wf(),
            old(self).draw_mode == DrawMode::Drawing,
        ensures
            final(self).wf(),
            final(self).same_registers(&*old(self)),
            final(self).same_timing(&*old(self)),
            final(self).framebuffer@ == old(self).framebuffer@,
            final(self).draw_mode == DrawMode::Drawing || final(self).draw_mode == DrawMode::HBlank,
            stat ==> final(self).draw_mode == DrawMode::HBlank && bit8(old(self).lcd_status, 3),
            final(self).draw_mode == DrawMode::HBlank ==> final(self).lcd_x == 160,
            // At most one pixel is shifted out, at the current position.
            final(self).lcd_x == old(self).lcd_x ==> final(self).temp_framebuffer@ == old(
                self,
            ).temp_framebuffer@,
            final(self).lcd_x != old(self).lcd_x ==> final(self).lcd_x == old(self).lcd_x + 1 && {
                let idx = old(self).lcd_y as int * LCD_WIDTH as int + old(self).lcd_x as int;
                &&& final(self).temp_framebuffer@[idx] < 4
                &&& final(self).temp_framebuffer@ == old(self).temp_framebuffer@.update(
                    idx,
                    final(self).temp_framebuffer@[idx],
                )
            },
    {
        self.tick_fetcher();
        self.shift_pixel()
    }

    /// Shifts one pixel out, unless an object is being fetched or the
    /// background FIFO is empty: while SCX & 7 pixels remain to drop, the
    /// background pixel is dropped; otherwise the background pixel and the
    /// object pixel (if any) are mixed and the shade written at (LY, X).
    /// The 160th pixel ends drawing and requests the mode-0 STAT interrupt
    /// when STAT bit 3 is set.
    #[verifier::rlimit(40)]
    fn shift_pixel(&mut self) -> (stat: bool)
        requires
            old(self).wf(),
            old(self).draw_mode == DrawMode::Drawing,
        ensures
            final(self).wf(),
            final(self).same_registers(&*old(self)),
            final(self).same_timing(&*old(self)),
            final(self).framebuffer@ == old(self).framebuffer@,
            final(self).draw_mode == DrawMode::Drawing || final(self).draw_mode == DrawMode::HBlank,
            stat ==> final(self).draw_mode == DrawMode::HBlank && bit8(old(self).lcd_status, 3),
            final(self).draw_mode == DrawMode::HBlank ==> final(self).lcd_x == 160,
            ({
                let f = old(self).fetcher;
                let waiting = f.fetching_sprite || f.bg_fifo.view().len() == 0;
                let idx = old(self).lcd_y as int * LCD_WIDTH as int + old(self).lcd_x as int;
                let sprite = if f.sprite_fifo.view().len() > 0 {
                    Some(f.sprite_fifo.view()[0])
                } else {
                    None::<u8>
                };
                &&& waiting ==> final(self).fetcher.bg_fifo.view() == f.bg_fifo.view()
                    && final(self).lcd_x == old(self).lcd_x
                    && final(self).temp_framebuffer@ == old(self).temp_framebuffer@ && !stat
                &&& (!waiting && f.bg_excess > 0) ==> final(self).fetcher.bg_fifo.view()
                    == f.bg_fifo.view().drop_first() && final(self).fetcher.bg_excess == f.bg_excess
                    - 1 && final(self).lcd_x == old(self).lcd_x && final(self).temp_framebuffer@
                    == old(self).temp_framebuffer@ && !stat
                &&& (!waiting && f.bg_excess == 0) ==> {
                    &&& final(self).temp_framebuffer@ == old(self).temp_framebuffer@.update(
                        idx,
                        pixel_shade(
                            f.bg_fifo.view()[0],
                            sprite,
                            old(self).bg_palette,
                            old(self).obp0,
                            old(self).obp1,
                        ),
                    )
                    &&& final(self).temp_framebuffer@[idx] < 4
                    &&& final(self).lcd_x == old(self).lcd_x + 1
                    &&& final(self).fetcher.bg_fifo.view() == f.bg_fifo.view().drop_first()
                    &&& f.sprite_fifo.view().len() > 0 ==> final(self).fetcher.sprite_fifo.view()
                        == f.sprite_fifo.view().drop_first()
                    &&& stat == (final(self).lcd_x == 160 && bit8(old(self).lcd_status, 3))
                }
            }),
    {
        if self.fetcher.fetching_sprite || self.fetcher.bg_fifo.len() == 0 {
            return false;
        }
        if self.fetcher.bg_excess > 0 {
            self.fetcher.bg_fifo.pop();
            self.fetcher.bg_excess = self.fetcher.bg_excess - 1;
            return false;
        }
        let bg = self.fetcher.bg_fifo.pop();
        let sprite = if self.fetcher.sprite_fifo.len() > 0 {
            Some(self.fetcher.sprite_fifo.pop())
        } else {
            None
        };
        let col = mix_pixel(bg, sprite, self.bg_palette, self.obp0, self.obp1);
        let idx = self.lcd_y as usize * LCD_WIDTH + self.lcd_x as usize;
        self.temp_framebuffer.set(idx, col);
        self.lcd_x = self.lcd_x + 1;
        proof {
            lemma_bit_masks(self.lcd_status);
        }
        if self.lcd_x == 160 {
            self.draw_mode = DrawMode::HBlank;
            return self.lcd_status & 0x08 != 0;
        }
        false
    }

    /// Copies the working frame to the output frame.
    fn commit_frame(&mut self)
        requires
            old(self).wf(),
        ensures
            final(self).wf(),
            final(self).framebuffer@ == old(self).temp_framebuffer@,
            final(self).same_registers(&*old(self)),
            final(self).same_timing(&*old(self)),
            final(self).temp_framebuffer@ == old(self).temp_framebuffer@,
            final(self).draw_mode == old(self).draw_mode,
            final(self).fetcher.bg_window == old(self).fetcher.bg_window,
    {
        let mut i: usize = 0;
        while i < FRAME_BYTES
            invariant
                i <= FRAME_BYTES,
                self.framebuffer@.len() == FRAME_BYTES,
                self.temp_framebuffer@ == old(self).temp_framebuffer@,
                forall|j: int| 0 <= j < i ==> self.framebuffer@[j] == self.temp_framebuffer@[j],
                old(self).wf(),
                *self == (PPU { framebuffer: self.framebuffer, ..*old(self) }),
            decreases FRAME_BYTES - i,
        {
            let v = self.temp_framebuffer[i];
            self.framebuffer.set(i, v);
            i = i + 1;
        }
        assert(self.framebuffer@ =~= self.temp_framebuffer@);
    }

    /// The end of a scanline: LY moves on, the LY=LYC, mode-1 and mode-2
    /// STAT sources are checked, and line 144 starts vertical blank, raises
    /// the VBlank interrupt and publishes the frame.
    #[verifier::rlimit(40)]
    fn end_line(&mut self) -> (r: (bool, bool))
        requires
            old(self).wf(),
            old(self).scanline_dot == 455,
        ensures
            final(self).wf(),
            final(self).same_registers(&*old(self)),
            final(self).scanline_dot == 0,
            final(self).lcd_y == next_line(old(self).lcd_y),
            r.0 == (final(self).lcd_y == 144),
            r.1 == line_source(&*old(self), final(self).lcd_y),
            final(self).temp_framebuffer@ == old(self).temp_framebuffer@,
            final(self).framebuffer@ == if final(self).lcd_y == 144 {
                old(self).temp_framebuffer@
            } else {
                old(self).framebuffer@
            },
            final(self).draw_mode != DrawMode::Drawing,
    {
        proof {
            lemma_bit_masks(self.lcd_status);
        }
        let was_vblank = self.draw_mode == DrawMode::VBlank;
        if !was_vblank && self.fetcher.bg_window {
            self.window_lcd_y = self.window_lcd_y.wrapping_add(1);
        }
        self.scanline_dot = 0;
        self.lcd_y = if self.lcd_y == 153 { 0 } else { self.lcd_y + 1 };
        let mut stat = self.lcd_y == self.lcd_y_compare && self.lcd_status & 0x40 != 0;
        let mut vblank = false;
        if self.lcd_y == 144 {
            vblank = true;
            if self.lcd_status & 0x10 != 0 {
                stat = true;
            }
            self.window_triggered = false;
            self.draw_mode = DrawMode::VBlank;
            self.commit_frame();
        } else if self.lcd_y < 144 {
            if self.lcd_y == 0 {
                self.window_lcd_y = 0;
            }
            if self.lcd_status & 0x20 != 0 {
                stat = true;
            }
            self.draw_mode = DrawMode::OAMScan;
        }
        (vblank, stat)
    }

    /// One dot.
    #[verifier::rlimit(40)]
    fn dot(&mut self) -> (r: (bool, bool))
        requires
            old(self).wf(),
        ensures
            final(self).wf(),
            final(self).same_registers(&*old(self)),
            old(self).scanline_dot < 455 ==> final(self).scanline_dot == old(self).scanline_dot + 1
                && final(self).lcd_y == old(self).lcd_y,
            old(self).scanline_dot == 455 ==> final(self).scanline_dot == 0 && final(self).lcd_y
                == next_line(old(self).lcd_y),
            r.0 == (old(self).scanline_dot == 455 && old(self).lcd_y == 143),
            (old(self).scanline_dot == 455 && line_source(&*old(self), next_line(old(self).lcd_y)))
                ==> r.1,
            r.1 ==> (old(self).scanline_dot == 455 && line_source(
                &*old(self),
                next_line(old(self).lcd_y),
            )) || (bit8(old(self).lcd_status, 3) && draws_within(&*old(self), 1)),
            r.0 ==> final(self).framebuffer@ == final(self).temp_framebuffer@,
            !r.0 ==> final(self).framebuffer@ == old(self).framebuffer@,
            !draws_within(&*old(self), 1) ==> final(self).temp_framebuffer@ == old(
                self,
            ).temp_framebuffer@,
            final(self).draw_mode == DrawMode::Drawing ==> old(self).draw_mode == DrawMode::Drawing
                || (old(self).draw_mode == DrawMode::OAMScan && old(self).scanline_dot == 79),
            final(self).draw_mode == DrawMode::OAMScan ==> old(self).draw_mode == DrawMode::OAMScan
                || final(self).scanline_dot == 0,
            scan_ok(&*old(self)) ==> scan_ok(&*final(self)) || (final(self).draw_mode
                == DrawMode::Drawing && final(self).scanline_objs@ == full_scan(&*old(self))
                && final(self).scanline_dot <= 80),
            (old(self).draw_mode != DrawMode::OAMScan && old(self).scanline_dot < 455) ==> final(self).scanline_objs@
                == old(self).scanline_objs@,
    {
        let mut stat = false;
        match self.draw_mode {
            DrawMode::OAMScan => self.scan_dot(),
            DrawMode::Drawing => {
                stat = self.draw_dot();
            },
            _ => {},
        }
        if self.scanline_dot == 455 {
            let (v, s) = self.end_line();
            (v, stat || s)
        } else {
            self.scanline_dot = self.scanline_dot + 1;
            (false, stat)
        }
    }

    #[verifier::rlimit(40)]
    fn two_dots(&mut self) -> (r: (bool, bool))
        requires
            old(self).wf(),
        ensures
            final(self).wf(),
            final(self).same_registers(&*old(self)),
            old(self).scanline_dot < 454 ==> final(self).scanline_dot == old(self).scanline_dot + 2
                && final(self).lcd_y == old(self).lcd_y,
            old(self).scanline_dot >= 454 ==> final(self).scanline_dot == old(self).scanline_dot
                - 454 && final(self).lcd_y == next_line(old(self).lcd_y),
            r.0 == (old(self).scanline_dot >= 454 && old(self).lcd_y == 143),
            (old(self).scanline_dot >= 454 && line_source(&*old(self), next_line(old(self).lcd_y)))
                ==> r.1,
            r.1 ==> (old(self).scanline_dot >= 454 && line_source(
                &*old(self),
                next_line(old(self).lcd_y),
            )) || (bit8(old(self).lcd_status, 3) && draws_within(&*old(self), 2)),
            r.0 ==> final(self).framebuffer@ == final(self).temp_framebuffer@,
            !r.0 ==> final(self).framebuffer@ == old(self).framebuffer@,
            !draws_within(&*old(self), 2) ==> final(self).temp_framebuffer@ == old(
                self,
            ).temp_framebuffer@,
            final(self).draw_mode == DrawMode::Drawing ==> old(self).draw_mode == DrawMode::Drawing
                || (old(self).draw_mode == DrawMode::OAMScan && old(self).scanline_dot >= 78),
            final(self).draw_mode == DrawMode::OAMScan ==> old(self).draw_mode == DrawMode::OAMScan
                || final(self).scanline_dot <= 1,
            scan_ok(&*old(self)) ==> scan_ok(&*final(self)) || (final(self).draw_mode
                != DrawMode::OAMScan && final(self).scanline_objs@ == full_scan(&*old(self))
                && final(self).scanline_dot <= 81),
            (old(self).draw_mode != DrawMode::OAMScan && old(self).scanline_dot < 454) ==> final(self).scanline_objs@
                == old(self).scanline_objs@,
    {
        let (v0, s0) = self.dot();
        let (v1, s1) = self.dot();
        (v0 || v1, s0 || s1)
    }

    /// Advances one M-cycle (four dots); returns the VBlank and STAT
    /// interrupt requests. With the LCD off nothing changes.
    #[verifier::rlimit(40)]
    pub fn tick(&mut self) -> (r: (bool, bool))
        requires
            old(self).wf(),
        ensures
            final(self).wf(),
            final(self).scanline_dot < LINE_DOTS,
            final(self).lcd_y < FRAME_LINES,
            final(self).scanline_objs@.len() <= LINE_OBJECTS,
            final(self).same_registers(&*old(self)),
            !old(self).enabled() ==> *final(self) == (PPU { stat_request: false, ..*old(self) })
                && r == (false, false),
            old(self).enabled() ==> final(self).frame_pos() == (old(self).frame_pos() + 4)
                % FRAME_DOTS as int,
            r.0 == (old(self).enabled() && old(self).lcd_y == 143 && old(self).scanline_dot >= 452),
            // STAT: a new line's sources always request it; otherwise only the
            // end of drawing (mode 0, STAT bit 3) can.
            (old(self).enabled() && old(self).scanline_dot >= 452 && line_source(
                &*old(self),
                next_line(old(self).lcd_y),
            )) ==> r.1,
            r.1 ==> old(self).enabled() && ((old(self).scanline_dot >= 452 && line_source(
                &*old(self),
                next_line(old(self).lcd_y),
            )) || (bit8(old(self).lcd_status, 3) && draws_within(&*old(self), 4))),
            final(self).stat_request == r.1,
            // OAM scan keeps the first ten objects on the line, sorted by X.
            (old(self).enabled() && scan_ok(&*old(self))) ==> scan_ok(&*final(self))
                || final(self).scanline_objs@ == full_scan(&*old(self)),
            forall|i: int| 0 <= i < FRAME_BYTES ==> #[trigger] final(self).framebuffer@[i] < 4,
            // Entering line 144 publishes the frame; otherwise it stays.
            r.0 ==> final(self).framebuffer@ == final(self).temp_framebuffer@,
            !r.0 ==> final(self).framebuffer@ == old(self).framebuffer@,
    {
        proof {
            lemma_bit_masks(self.lcd_control);
        }
        if self.lcd_control & 0x80 == 0 {
            self.stat_request = false;
            return (false, false);
        }
        let (v0, s0) = self.two_dots();
        let (v1, s1) = self.two_dots();
        self.stat_request = s0 || s1;
        (v0 || v1, s0 || s1)
    }
}

impl PPU {
    /// SCY: background scroll Y.
    pub fn read_scy(&self) -> (r: u8)
        ensures
            r == self.viewport_y,
    {
        self.viewport_y
    }

    pub fn write_scy(&mut self, val: u8)
        requires
            old(self).wf(),
        ensures
            final(self).wf(),
            *final(self) == (PPU { viewport_y: val, ..*old(self) }),
    {
        self.viewport_y = val;
    }

    /// SCX: background scroll X.
    pub fn read_scx(&self) -> (r: u8)
        ensures
            r == self.viewport_x,
    {
        self.viewport_x
    }

    pub fn write_scx(&mut self, val: u8)
        requires
            old(self).wf(),
        ensures
            final(self).wf(),
            *final(self) == (PPU { viewport_x: val, ..*old(self) }),
    {
        self.viewport_x = val;
    }

    /// LCDC: LCD control.
    pub fn read_lcdc(&self) -> (r: u8)
        ensures
            r == self.lcd_control,
    {
        self.lcd_control
    }

    pub fn write_lcdc(&mut self, val: u8)
        requires
            old(self).wf(),
        ensures
            final(self).wf(),
            *final(self) == (PPU { lcd_control: val, ..*old(self) }),
    {
        self.lcd_control = val;
    }

    /// LYC: the line compared with LY.
    pub fn read_lyc(&self) -> (r: u8)
        ensures
            r == self.lcd_y_compare,
    {
        self.lcd_y_compare
    }

    pub fn write_lyc(&mut self, val: u8)
        requires
            old(self).wf(),
        ensures
            final(self).wf(),
            *final(self) == (PPU { lcd_y_compare: val, ..*old(self) }),
    {
        self.lcd_y_compare = val;
    }

    /// BGP: background palette.
    pub fn read_bgp(&self) -> (r: u8)
        ensures
            r == self.bg_palette,
    {
        self.bg_palette
    }

    pub fn write_bgp(&mut self, val: u8)
        requires
            old(self).wf(),
        ensures
            final(self).wf(),
            *final(self) == (PPU { bg_palette: val, ..*old(self) }),
    {
        self.bg_palette = val;
    }

    /// OBP0: object palette 0.
    pub fn read_obp0(&self) -> (r: u8)
        ensures
            r == self.obp0,
    {
        self.obp0
    }

    pub fn write_obp0(&mut self, val: u8)
        requires
            old(self).wf(),
        ensures
            final(self).wf(),
            *final(self) == (PPU { obp0: val, ..*old(self) }),
    {
        self.obp0 = val;
    }

    /// OBP1: object palette 1.
    pub fn read_obp1(&self) -> (r: u8)
        ensures
            r == self.obp1,
    {
        self.obp1
    }

    pub fn write_obp1(&mut self, val: u8)
        requires
            old(self).wf(),
        ensures
            final(self).wf(),
            *final(self) == (PPU { obp1: val, ..*old(self) }),
    {
        self.obp1 = val;
    }

    /// WY: window top line.
    pub fn read_wy(&self) -> (r: u8)
        ensures
            r == self.window_y,
    {
        self.window_y
    }

    pub fn write_wy(&mut self, val: u8)
        requires
            old(self).wf(),
        ensures
            final(self).wf(),
            *final(self) == (PPU { window_y: val, ..*old(self) }),
    {
        self.window_y = val;
    }

    /// WX: window left column plus 7.
    pub fn read_wx(&self) -> (r: u8)
        ensures
            r == self.window_x,
    {
        self.window_x
    }

    pub fn write_wx(&mut self, val: u8)
        requires
            old(self).wf(),
        ensures
            final(self).wf(),
            *final(self) == (PPU { window_x: val, ..*old(self) }),
    {
        self.window_x = val;
    }

    /// STAT: bit 7 reads as 1, bit 2 is the LY=LYC flag, bits 1-0 the mode.
    pub fn read_stat(&self) -> (r: u8)
        ensures
            r == self.stat_byte(),
    {
        let coincidence: u8 = if self.lcd_y == self.lcd_y_compare { 4 } else { 0 };
        proof {
            lemma_bit_masks(self.lcd_control);
        }
        let mode: u8 = if self.lcd_control & 0x80 == 0 {
            0
        } else {
            match self.draw_mode {
                DrawMode::HBlank => 0,
                DrawMode::VBlank => 1,
                DrawMode::OAMScan => 2,
                DrawMode::Drawing => 3,
            }
        };
        0x80 | self.lcd_status | coincidence | mode
    }

    /// Only the interrupt-source bits 3-6 are writable.
    pub fn write_stat(&mut self, val: u8)
        requires
            old(self).wf(),
        ensures
            final(self).wf(),
            *final(self) == (PPU { lcd_status: val & 0x78, ..*old(self) }),
    {
        assert((val & 0x78) & 0x87 == 0) by (bit_vector);
        self.lcd_status = val & 0x78;
    }

    /// LY is read-only.
    pub fn read_ly(&self) -> (r: u8)
        ensures
            r == self.lcd_y,
    {
        self.lcd_y
    }

    pub fn read_dma(&self) -> (r: u8)
        ensures
            r == self.oam_dma_src,
    {
        self.oam_dma_src
    }

    /// Starts an OAM DMA transfer from `val` * 0x100.
    pub fn write_dma(&mut self, val: u8)
        requires
            old(self).wf(),
        ensures
            final(self).wf(),
            *final(self) == (PPU {
                oam_dma_running: true,
                oam_dma_idx: 0,
                oam_dma_src: val,
                ..*old(self)
            }),
    {
        self.oam_dma_running = true;
        self.oam_dma_idx = 0;
        self.oam_dma_src = val;
    }
}

} // verus!
