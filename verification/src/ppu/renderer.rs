//! Drawing the background and the sprites into an RGB frame buffer.

use super::nametable::{
    palette_index_in, Nametable, NametableAddr, TILES_PER_COLUMN, TILES_PER_ROW, VIDEO_RAM_SIZE,
};
use super::object_attribute::{Object, ObjectAttributeMemory, MEMORY_SIZE};
use super::palette::{entry_index, palette_color, system_color, Color, Palette, PaletteEntry};
use crate::cartridge::mapper::{Mapper, MapperInstance};
use crate::cartridge::Mirroring;
use crate::util::{bit_of, combine_bools, nth_bit, two_bit_value};
use vstd::prelude::*;

verus! {

/// Width of the picture in pixels.
pub const WIDTH: usize = 256;

/// Height of the picture in pixels.
pub const HEIGHT: usize = 240;

/// Bytes per pixel: red, green, blue.
pub const RGB_LEN: usize = 3;

/// Size of the frame buffer.
pub const PIXEL_BUFFER_LEN: usize = 184320;

/// Bytes of a tile in the pattern table: eight bytes of the low plane, then eight of the
/// high plane.
pub const TILE_LEN: usize = 16;

/// Size of a tile side in pixels.
pub const PIXELS_PER_TILE: usize = 8;

/// Distance between the two planes of a tile.
pub const BETWEEN_PLANES: usize = 8;

/// The frame buffer and the palette RAM.
pub struct Renderer {
    pub pixels: Vec<u8>,
    pub palette: Palette,
}

/// The offset of the first byte of pixel (`x`, `y`) in the frame buffer.
pub open spec fn pixel_base(x: int, y: int) -> int {
    (y * WIDTH + x) * RGB_LEN
}

/// The frame buffer after pixel (`x`, `y`) is set to `color`; pixels outside the picture
/// are not drawn.
pub open spec fn with_pixel(pixels: Seq<u8>, x: int, y: int, color: Color) -> Seq<u8> {
    if 0 <= x < WIDTH && 0 <= y < HEIGHT {
        let base = pixel_base(x, y);
        pixels.update(base, color.0).update(base + 1, color.1).update(base + 2, color.2)
    } else {
        pixels
    }
}

/// The colour index (0 to 3) of pixel `x` (0 at the left) of a tile row, from its two
/// plane bytes: the leftmost pixel is bit 7.
pub open spec fn row_pixel(upper_plane: u8, lower_plane: u8, x: int) -> u8 {
    two_bit_value(bit_of(upper_plane, (7 - x) as u8), bit_of(lower_plane, (7 - x) as u8))
}

/// The colour of pixel `x` of a tile row drawn with `entry`.
pub open spec fn row_color(upper_plane: u8, lower_plane: u8, entry: PaletteEntry, x: int) -> Color {
    system_color(entry_index(entry, row_pixel(upper_plane, lower_plane, x) as int))
}

impl Renderer {
    /// The frame buffer has the size of the picture.
    pub open spec fn wf(&self) -> bool {
        self.pixels@.len() == PIXEL_BUFFER_LEN
    }

    /// A black picture and a cleared palette.
    pub fn new() -> (r: Renderer)
        ensures
            r.wf(),
            forall|i: int| 0 <= i < PIXEL_BUFFER_LEN ==> r.pixels@[i] == 0,
            forall|i: int| 0 <= i < 32 ==> r.palette.data@[i] == 0,
    {
        Renderer { pixels: vec![0; PIXEL_BUFFER_LEN], palette: Palette::default() }
    }

    /// Clear the picture and the palette.
    pub fn reset(&mut self)
        ensures
            final(self).wf(),
            forall|i: int| 0 <= i < PIXEL_BUFFER_LEN ==> final(self).pixels@[i] == 0,
            forall|i: int| 0 <= i < 32 ==> final(self).palette.data@[i] == 0,
    {
        self.pixels = vec![0; PIXEL_BUFFER_LEN];
        self.palette = Palette::default();
    }

    /// Forget the picture of the cartridge that was unloaded.
    pub fn unload_mapper(&mut self)
        ensures
            final(self).wf(),
            forall|i: int| 0 <= i < PIXEL_BUFFER_LEN ==> final(self).pixels@[i] == 0,
            forall|i: int| 0 <= i < 32 ==> final(self).palette.data@[i] == 0,
    {
        self.reset();
    }

    /// The picture to show: a copy of the frame buffer, for the host to display.
    pub fn update(&self) -> (r: Vec<u8>)
        ensures
            r@ == self.pixels@,
    {
        crate::util::copy_bytes(&self.pixels)
    }

    /// Draw one pixel; positions outside the picture are ignored.
    pub fn set_pixel(&mut self, x: usize, y: usize, color: Color)
        requires
            old(self).wf(),
        ensures
            final(self).wf(),
            final(self).pixels@ == with_pixel(old(self).pixels@, x as int, y as int, color),
            final(self).palette == old(self).palette,
    {
        if x >= WIDTH || y >= HEIGHT {
            return;
        }
        let base = ((y * WIDTH) + x) * RGB_LEN;
        self.pixels.set(base, color.0);
        self.pixels.set(base + 1, color.1);
        self.pixels.set(base + 2, color.2);
    }
}


/// A rectangle of the picture: `top_left` included, `bottom_right` excluded.
#[derive(Clone, Copy, Debug, PartialEq, Eq, Structural)]
pub struct Rectangle {
    pub top_left_x: usize,
    pub top_left_y: usize,
    pub bottom_right_x: usize,
    pub bottom_right_y: usize,
}

impl Rectangle {
    /// The rectangle holds (`x`, `y`).
    pub open spec fn holds(self, x: int, y: int) -> bool {
        self.top_left_x <= x < self.bottom_right_x && self.top_left_y <= y < self.bottom_right_y
    }

    pub fn new(top_left: (usize, usize), bottom_right: (usize, usize)) -> (r: Rectangle)
        ensures
            r == (Rectangle {
                top_left_x: top_left.0,
                top_left_y: top_left.1,
                bottom_right_x: bottom_right.0,
                bottom_right_y: bottom_right.1,
            }),
    {
        Rectangle {
            top_left_x: top_left.0,
            top_left_y: top_left.1,
            bottom_right_x: bottom_right.0,
            bottom_right_y: bottom_right.1,
        }
    }

    pub fn contains(&self, x: usize, y: usize) -> (r: bool)
        ensures
            r == self.holds(x as int, y as int),
    {
        x >= self.top_left_x && x < self.bottom_right_x && y >= self.top_left_y && y
            < self.bottom_right_y
    }
}

/// Byte `i` of tile `tile` of the pattern table at `bank`, as the mapper reads it.
pub open spec fn tile_byte(mapper: MapperInstance, bank: int, tile: int, i: int) -> u8 {
    mapper.ppu_read((bank + tile * TILE_LEN + i) as u16)
}

/// Every tile of the pattern table at `bank` can be read.
pub open spec fn bank_readable(mapper: MapperInstance, bank: int) -> bool {
    &&& 0 <= bank
    &&& bank + 256 * TILE_LEN <= 0x10000
    &&& forall|a: u16| bank <= a < bank + 256 * TILE_LEN ==> #[trigger] mapper.ppu_readable(a)
}

/// The colour a background pixel gets: pixel `px` of `scanline` of a nametable.
pub open spec fn background_color(
    mapper: MapperInstance,
    palette: Palette,
    bank: int,
    nametable: Seq<u8>,
    scanline: int,
    px: int,
) -> Color {
    let tile_x = px / 8;
    let tile_y = scanline / 8;
    let y_offset = scanline % 8;
    let index = nametable[tile_y * 32 + tile_x];
    let upper = tile_byte(mapper, bank, index as int, y_offset + BETWEEN_PLANES);
    let lower = tile_byte(mapper, bank, index as int, y_offset);
    let p = palette_index_in(nametable, tile_x, tile_y) as int;
    let entry = PaletteEntry(
        palette.data@[0],
        palette.data@[p * 4 + 1],
        palette.data@[p * 4 + 2],
        palette.data@[p * 4 + 3],
    );
    row_color(upper, lower, entry, px % 8)
}

/// The order in which the pixels of a scanline are drawn: tile by tile, each tile from
/// its right edge to its left.
pub open spec fn scan_order(k: int) -> int {
    (k / 8) * 8 + 7 - k % 8
}

/// The frame buffer after the first `n` pixels of a background scanline are drawn: each
/// pixel inside `viewport` is drawn moved by the scroll offset.
pub open spec fn background_line(
    pixels: Seq<u8>,
    mapper: MapperInstance,
    palette: Palette,
    bank: int,
    nametable: Seq<u8>,
    scanline: int,
    viewport: Rectangle,
    scroll_x: int,
    scroll_y: int,
    n: nat,
) -> Seq<u8>
    decreases n,
{
    if n == 0 {
        pixels
    } else {
        let prev = background_line(
            pixels,
            mapper,
            palette,
            bank,
            nametable,
            scanline,
            viewport,
            scroll_x,
            scroll_y,
            (n - 1) as nat,
        );
        let px = scan_order(n - 1);
        if viewport.holds(px, scanline) {
            with_pixel(
                prev,
                px + scroll_x,
                scanline + scroll_y,
                background_color(mapper, palette, bank, nametable, scanline, px),
            )
        } else {
            prev
        }
    }
}

impl Renderer {
    /// The sixteen bytes of tile `tile_index` of the pattern table at `bank`.
    pub fn get_tile(mapper: &mut MapperInstance, bank: usize, tile_index: usize) -> (r: Vec<u8>)
        requires
            bank_readable(*old(mapper), bank as int),
            tile_index < 256,
        ensures
            *final(mapper) == *old(mapper),
            r@.len() == TILE_LEN,
            forall|i: int| 0 <= i < TILE_LEN ==> r@[i] == tile_byte(*old(mapper), bank as int, tile_index as int, i),
    {
        let start = bank + (tile_index * TILE_LEN);
        mapper.read_ppu_range(start, start + TILE_LEN)
    }

    /// The colours of pixels 0 to 7 of a tile row come from bits 7 to 0 of its planes.
    pub fn pixel_color(upper_plane: u8, lower_plane: u8, entry: PaletteEntry, x: usize) -> (r: Color)
        requires
            x < 8,
        ensures
            r == row_color(upper_plane, lower_plane, entry, x as int),
    {
        let bit = (7 - x) as u8;
        let index = combine_bools(nth_bit(upper_plane, bit), nth_bit(lower_plane, bit));
        Palette::get(entry, index as usize)
    }

    /// Draw one scanline of a nametable: each pixel inside `viewport` is drawn moved by
    /// `scroll`.
    pub fn draw_background_scanline(
        &mut self,
        mapper: &mut MapperInstance,
        scanline: usize,
        bank: usize,
        nametable: &Nametable,
        viewport: Rectangle,
        scroll: (isize, isize),
    )
        requires
            old(self).wf(),
            bank_readable(*old(mapper), bank as int),
            nametable.data@.len() == 0x400,
            scanline < 256,
            -512 <= scroll.0 <= 512,
            -512 <= scroll.1 <= 512,
        ensures
            final(self).wf(),
            *final(mapper) == *old(mapper),
            final(self).palette == old(self).palette,
            final(self).pixels@ == background_line(
                old(self).pixels@,
                *old(mapper),
                old(self).palette,
                bank as int,
                nametable.data@,
                scanline as int,
                viewport,
                scroll.0 as int,
                scroll.1 as int,
                256,
            ),
    {
        let ghost start = self.pixels@;
        let ghost m = *mapper;
        let (scroll_x, scroll_y) = scroll;
        // Position within the tile
        let y_offset = scanline % PIXELS_PER_TILE;
        // Loop over each tile in the scanline
        let tile_y = scanline / PIXELS_PER_TILE;
        let mut tile_x: usize = 0;
        while tile_x < TILES_PER_ROW
            invariant
                tile_x <= TILES_PER_ROW,
                self.wf(),
                *mapper == m,
                self.palette == old(self).palette,
                bank_readable(m, bank as int),
                nametable.data@.len() == 0x400,
                scanline < 256,
                y_offset == scanline % 8,
                tile_y == scanline / 8,
                -512 <= scroll_x <= 512,
                -512 <= scroll_y <= 512,
                self.pixels@ == background_line(
                    start,
                    m,
                    old(self).palette,
                    bank as int,
                    nametable.data@,
                    scanline as int,
                    viewport,
                    scroll_x as int,
                    scroll_y as int,
                    (tile_x * 8) as nat,
                ),
            decreases TILES_PER_ROW - tile_x,
        {
            let index = nametable.get_tile_index(tile_x, tile_y);
            let tile = Self::get_tile(mapper, bank, index as usize);
            let palette_index = nametable.get_palette_index(tile_x, tile_y);
            let entry = self.palette.background_entry(palette_index as usize);
            let upper_plane = tile[y_offset + BETWEEN_PLANES];
            let lower_plane = tile[y_offset];
            let mut j: usize = 0;
            while j < PIXELS_PER_TILE
                invariant
                    j <= 8,
                    tile_x < TILES_PER_ROW,
                    self.wf(),
                    self.palette == old(self).palette,
                    scanline < 256,
                    y_offset == scanline % 8,
                    tile_y == scanline / 8,
                    -512 <= scroll_x <= 512,
                    -512 <= scroll_y <= 512,
                    index == nametable.data@[tile_y * 32 + tile_x],
                    upper_plane == tile_byte(m, bank as int, index as int, y_offset + BETWEEN_PLANES),
                    lower_plane == tile_byte(m, bank as int, index as int, y_offset as int),
                    entry == PaletteEntry(
                        old(self).palette.data@[0],
                        old(self).palette.data@[palette_index * 4 + 1],
                        old(self).palette.data@[palette_index * 4 + 2],
                        old(self).palette.data@[palette_index * 4 + 3],
                    ),
                    palette_index == nametable.palette_index_of(tile_x as int, tile_y as int),
                    self.pixels@ == background_line(
                        start,
                        m,
                        old(self).palette,
                        bank as int,
                        nametable.data@,
                        scanline as int,
                        viewport,
                        scroll_x as int,
                        scroll_y as int,
                        (tile_x * 8 + j) as nat,
                    ),
                decreases 8 - j,
            {
                let x = PIXELS_PER_TILE - 1 - j;
                let color = Self::pixel_color(upper_plane, lower_plane, entry, x);
                let pixel_x = (tile_x * PIXELS_PER_TILE) + x;
                let pixel_y = (tile_y * PIXELS_PER_TILE) + y_offset;
                proof {
                    let k = tile_x * 8 + j;
                    assert(scan_order(k as int) == pixel_x) by {
                        assert((k as int) / 8 == tile_x as int);
                        assert((k as int) % 8 == j as int);
                    }
                    assert(pixel_y == scanline);
                    assert((pixel_x as int) / 8 == tile_x as int);
                    assert((pixel_x as int) % 8 == x as int);
                }
                if viewport.contains(pixel_x, pixel_y) {
                    let target_x = pixel_x as isize + scroll_x;
                    let target_y = pixel_y as isize + scroll_y;
                    if target_x >= 0 && target_y >= 0 {
                        self.set_pixel(target_x as usize, target_y as usize, color);
                    }
                }
                j += 1;
            }
            tile_x += 1;
        }
    }
}

/// The frame buffer after a whole scanline of the background is drawn from the two
/// nametables side by side, scrolled by (`scroll_x`, `scroll_y`). With no vertical
/// scroll, the first nametable shows from column `scroll_x` on and the second fills the
/// right edge; with a vertical scroll only the second nametable is drawn, at the scrolled
/// line.
pub open spec fn scanline_drawn(
    pixels: Seq<u8>,
    mapper: MapperInstance,
    palette: Palette,
    scanline: int,
    bank: int,
    first: Seq<u8>,
    second: Seq<u8>,
    scroll_x: u8,
    scroll_y: u8,
) -> Seq<u8> {
    let full = Rectangle { top_left_x: 0, top_left_y: 0, bottom_right_x: WIDTH, bottom_right_y: HEIGHT };
    if scroll_y == 0 {
        let left = background_line(
            pixels,
            mapper,
            palette,
            bank,
            first,
            scanline,
            Rectangle { top_left_x: scroll_x as usize, top_left_y: 0, bottom_right_x: WIDTH, bottom_right_y: HEIGHT },
            -(scroll_x as int),
            0,
            256,
        );
        background_line(
            left,
            mapper,
            palette,
            bank,
            second,
            scanline,
            Rectangle { top_left_x: 0, top_left_y: 0, bottom_right_x: scroll_x as usize, bottom_right_y: HEIGHT },
            WIDTH - scroll_x,
            0,
            256,
        )
    } else if scanline + scroll_y > HEIGHT {
        background_line(
            pixels,
            mapper,
            palette,
            bank,
            second,
            scanline + scroll_y - HEIGHT,
            full,
            0,
            HEIGHT - scroll_y,
            256,
        )
    } else {
        background_line(
            pixels,
            mapper,
            palette,
            bank,
            second,
            scanline + scroll_y,
            full,
            0,
            -(scroll_y as int),
            256,
        )
    }
}

/// The frame buffer after the first `n` scanlines of the background are drawn.
pub open spec fn background_drawn(
    pixels: Seq<u8>,
    mapper: MapperInstance,
    palette: Palette,
    bank: int,
    first: Seq<u8>,
    second: Seq<u8>,
    scroll_x: u8,
    scroll_y: u8,
    n: nat,
) -> Seq<u8>
    decreases n,
{
    if n == 0 {
        pixels
    } else {
        scanline_drawn(
            background_drawn(pixels, mapper, palette, bank, first, second, scroll_x, scroll_y, (n - 1) as nat),
            mapper,
            palette,
            n - 1,
            bank,
            first,
            second,
            scroll_x,
            scroll_y,
        )
    }
}

/// The colour of pixel (`x`, `y`) of a tile drawn with a sprite palette.
pub open spec fn sprite_color(
    mapper: MapperInstance,
    palette: Palette,
    bank: int,
    tile: int,
    palette_index: int,
    x: int,
    y: int,
) -> Color {
    let entry = PaletteEntry(
        palette.data@[0],
        palette.data@[16 + palette_index * 4 + 1],
        palette.data@[16 + palette_index * 4 + 2],
        palette.data@[16 + palette_index * 4 + 3],
    );
    row_color(
        tile_byte(mapper, bank, tile, y + BETWEEN_PLANES),
        tile_byte(mapper, bank, tile, y),
        entry,
        x,
    )
}

/// Where pixel (`x`, `y`) of a sprite lands, flipped as its attributes say.
pub open spec fn sprite_position(object: Object, x: int, y: int) -> (int, int) {
    (
        if bit_of(object.attrs.0, 6) {
            object.x + 7 - x
        } else {
            object.x + x
        },
        if bit_of(object.attrs.0, 7) {
            object.y + 7 - y
        } else {
            object.y + y
        },
    )
}

/// The frame buffer after the first `n` pixels of a sprite tile are drawn, row by row,
/// each row from its right edge; pixels of the backdrop colour are transparent. `dy`
/// moves the rows down (the lower tile of an 8x16 sprite).
pub open spec fn sprite_tile_drawn(
    pixels: Seq<u8>,
    mapper: MapperInstance,
    palette: Palette,
    object: Object,
    bank: int,
    tile: int,
    dy: int,
    n: nat,
) -> Seq<u8>
    decreases n,
{
    if n == 0 {
        pixels
    } else {
        let prev = sprite_tile_drawn(pixels, mapper, palette, object, bank, tile, dy, (n - 1) as nat);
        let y = (n - 1) / 8;
        let x = 7 - (n - 1) % 8;
        let color = sprite_color(mapper, palette, bank, tile, (object.attrs.0 & 3) as int, x, y);
        if color == system_color(0) {
            prev
        } else {
            let (px, py) = sprite_position(object, x, y + dy);
            with_pixel(prev, px, py, color)
        }
    }
}

/// The sprite held by entry `i` of the object attribute memory.
pub open spec fn object_at(oam: ObjectAttributeMemory, i: int) -> Object {
    Object {
        y: oam.memory@[4 * i] as usize,
        tile_index: oam.memory@[4 * i + 1] as usize,
        attrs: super::object_attribute::ObjectAttributes(oam.memory@[4 * i + 2]),
        x: oam.memory@[4 * i + 3] as usize,
    }
}

/// The frame buffer after a sprite is drawn: 8x8 sprites from the pattern table
/// `maybe_bank`; 8x16 sprites (no bank) as two tiles stacked, from the table that bit 0
/// of their tile index names.
pub open spec fn sprite_drawn(
    pixels: Seq<u8>,
    mapper: MapperInstance,
    palette: Palette,
    maybe_bank: Option<usize>,
    object: Object,
) -> Seq<u8> {
    match maybe_bank {
        Some(bank) => sprite_tile_drawn(pixels, mapper, palette, object, bank as int, object.tile_index as int, 0, 64),
        None => {
            let bank: int = if object.tile_index % 2 == 1 {
                0x1000
            } else {
                0
            };
            let tile = object.tile_index % 256 - object.tile_index % 2;
            let top = sprite_tile_drawn(pixels, mapper, palette, object, bank, tile, 0, 64);
            sprite_tile_drawn(top, mapper, palette, object, bank, tile + 1, 8, 64)
        },
    }
}

/// The frame buffer after the first `n` sprites are drawn, in memory order.
pub open spec fn sprites_drawn(
    pixels: Seq<u8>,
    mapper: MapperInstance,
    palette: Palette,
    maybe_bank: Option<usize>,
    oam: ObjectAttributeMemory,
    n: nat,
) -> Seq<u8>
    decreases n,
{
    if n == 0 {
        pixels
    } else {
        sprite_drawn(
            sprites_drawn(pixels, mapper, palette, maybe_bank, oam, (n - 1) as nat),
            mapper,
            palette,
            maybe_bank,
            object_at(oam, n - 1),
        )
    }
}

/// The pattern tables that sprites are drawn from can be read, and no 8x16 sprite is
/// flipped vertically above row 8 (its lower tile would land above the picture).
pub open spec fn sprites_drawable(mapper: MapperInstance, maybe_bank: Option<usize>, oam: ObjectAttributeMemory) -> bool {
    match maybe_bank {
        Some(bank) => bank_readable(mapper, bank as int),
        None => {
            &&& bank_readable(mapper, 0)
            &&& bank_readable(mapper, 0x1000)
            &&& forall|i: int| 0 <= i < 64 && #[trigger] bit_of(oam.memory@[4 * i + 2], 7) ==> oam.memory@[4 * i] >= 8
        },
    }
}

impl Renderer {
    /// Draw one scanline of the background from two nametables, scrolled.
    pub fn draw_scanline(
        &mut self,
        mapper: &mut MapperInstance,
        scanline: usize,
        bank: usize,
        nametables: (&Nametable, &Nametable),
        scroll: (u8, u8),
    )
        requires
            old(self).wf(),
            bank_readable(*old(mapper), bank as int),
            nametables.0.data@.len() == 0x400,
            nametables.1.data@.len() == 0x400,
            scanline < HEIGHT,
            scroll.1 <= HEIGHT,
        ensures
            final(self).wf(),
            *final(mapper) == *old(mapper),
            final(self).palette == old(self).palette,
            final(self).pixels@ == scanline_drawn(
                old(self).pixels@,
                *old(mapper),
                old(self).palette,
                scanline as int,
                bank as int,
                nametables.0.data@,
                nametables.1.data@,
                scroll.0,
                scroll.1,
            ),
    {
        let (first_nametable, second_nametable) = nametables;
        let (scroll_x, scroll_y) = scroll;
        if scroll_y == 0 {
            self.draw_background_scanline(
                mapper,
                scanline,
                bank,
                first_nametable,
                Rectangle::new((scroll_x as usize, scroll_y as usize), (WIDTH, HEIGHT)),
                (-(scroll_x as isize), -(scroll_y as isize)),
            );
            self.draw_background_scanline(
                mapper,
                scanline,
                bank,
                second_nametable,
                Rectangle::new((0, 0), (scroll_x as usize, HEIGHT)),
                ((WIDTH as isize) - (scroll_x as isize), 0),
            );
        } else if (scanline + scroll_y as usize) > HEIGHT {
            self.draw_background_scanline(
                mapper,
                (scanline + scroll_y as usize) - HEIGHT,
                bank,
                second_nametable,
                Rectangle::new((0, 0), (WIDTH, HEIGHT)),
                (0, (240u8 - scroll_y) as isize),
            );
        } else {
            self.draw_background_scanline(
                mapper,
                scanline + scroll_y as usize,
                bank,
                second_nametable,
                Rectangle::new((0, 0), (WIDTH, HEIGHT)),
                (0, -(scroll_y as isize)),
            );
        }
    }

    /// Draw the background: the nametable that `nametable_start` names (under
    /// `mirroring`) and the other one of VRAM beside it, scanline by scanline.
    pub fn draw_background(
        &mut self,
        mapper: &mut MapperInstance,
        bank: usize,
        scroll_x: u8,
        scroll_y: u8,
        nametable_start: u16,
        mirroring: Mirroring,
        vram: &[u8; VIDEO_RAM_SIZE],
    )
        requires
            old(self).wf(),
            bank_readable(*old(mapper), bank as int),
            NametableAddr::supported(mirroring),
            0x2000 <= nametable_start < 0x3000,
            scroll_y <= HEIGHT,
        ensures
            final(self).wf(),
            *final(mapper) == *old(mapper),
            final(self).palette == old(self).palette,
            ({
                let mirrored = NametableAddr::nth(((nametable_start - 0x2000) / 0x400) as u16).mirrored(
                    mirroring,
                );
                let (first, second) = if mirrored == NametableAddr::TopLeft {
                    (vram@.subrange(0, 0x400), vram@.subrange(0x400, 0x800))
                } else {
                    (vram@.subrange(0x400, 0x800), vram@.subrange(0, 0x400))
                };
                final(self).pixels@ == background_drawn(
                    old(self).pixels@,
                    *old(mapper),
                    old(self).palette,
                    bank as int,
                    first,
                    second,
                    scroll_x,
                    scroll_y,
                    HEIGHT as nat,
                )
            }),
    {
        let start = NametableAddr::from((nametable_start - 0x2000) / 0x400);
        let (first, second) = Nametable::from(vram, start, mirroring);
        let ghost origin = self.pixels@;
        let ghost m = *mapper;
        let mut scanline: usize = 0;
        while scanline < HEIGHT
            invariant
                scanline <= HEIGHT,
                self.wf(),
                *mapper == m,
                self.palette == old(self).palette,
                bank_readable(m, bank as int),
                first.data@.len() == 0x400,
                second.data@.len() == 0x400,
                scroll_y <= HEIGHT,
                self.pixels@ == background_drawn(
                    origin,
                    m,
                    old(self).palette,
                    bank as int,
                    first.data@,
                    second.data@,
                    scroll_x,
                    scroll_y,
                    scanline as nat,
                ),
            decreases HEIGHT - scanline,
        {
            self.draw_scanline(mapper, scanline, bank, (&first, &second), (scroll_x, scroll_y));
            scanline += 1;
        }
    }

    /// Draw one tile of a sprite, skipping transparent pixels; `dy` moves it down.
    fn draw_sprite_tile(
        &mut self,
        mapper: &mut MapperInstance,
        object: Object,
        bank: usize,
        tile_index: usize,
        dy: usize,
    )
        requires
            old(self).wf(),
            bank_readable(*old(mapper), bank as int),
            tile_index < 256,
            dy == 0 || dy == 8,
            object.x < 256,
            object.y < 256,
            bit_of(object.attrs.0, 7) ==> dy + 7 <= object.y + 7,
        ensures
            final(self).wf(),
            *final(mapper) == *old(mapper),
            final(self).palette == old(self).palette,
            final(self).pixels@ == sprite_tile_drawn(
                old(self).pixels@,
                *old(mapper),
                old(self).palette,
                object,
                bank as int,
                tile_index as int,
                dy as int,
                64,
            ),
    {
        let ghost origin = self.pixels@;
        let ghost m = *mapper;
        let tile = Self::get_tile(mapper, bank, tile_index);
        let palette_index = object.attrs.palette();
        let entry = self.palette.sprite_entry(palette_index as usize);
        let transparent = super::palette::palette_color(0);
        let mut y: usize = 0;
        while y < PIXELS_PER_TILE
            invariant
                y <= 8,
                self.wf(),
                *mapper == m,
                self.palette == old(self).palette,
                tile@.len() == TILE_LEN,
                forall|i: int| 0 <= i < TILE_LEN ==> tile@[i] == tile_byte(m, bank as int, tile_index as int, i),
                palette_index == object.attrs.0 & 3,
                palette_index <= 3,
                entry == PaletteEntry(
                    old(self).palette.data@[0],
                    old(self).palette.data@[16 + palette_index * 4 + 1],
                    old(self).palette.data@[16 + palette_index * 4 + 2],
                    old(self).palette.data@[16 + palette_index * 4 + 3],
                ),
                transparent == system_color(0),
                dy == 0 || dy == 8,
                object.x < 256,
                object.y < 256,
                bit_of(object.attrs.0, 7) ==> dy + 7 <= object.y + 7,
                self.pixels@ == sprite_tile_drawn(origin, m, old(self).palette, object, bank as int, tile_index as int, dy as int, (y * 8) as nat),
            decreases 8 - y,
        {
            let upper_plane = tile[y + BETWEEN_PLANES];
            let lower_plane = tile[y];
            let mut j: usize = 0;
            while j < PIXELS_PER_TILE
                invariant
                    j <= 8,
                    y < 8,
                    self.wf(),
                    self.palette == old(self).palette,
                    upper_plane == tile_byte(m, bank as int, tile_index as int, y + BETWEEN_PLANES),
                    lower_plane == tile_byte(m, bank as int, tile_index as int, y as int),
                    palette_index == object.attrs.0 & 3,
                    palette_index <= 3,
                    entry == PaletteEntry(
                        old(self).palette.data@[0],
                        old(self).palette.data@[16 + palette_index * 4 + 1],
                        old(self).palette.data@[16 + palette_index * 4 + 2],
                        old(self).palette.data@[16 + palette_index * 4 + 3],
                    ),
                    transparent == system_color(0),
                    dy == 0 || dy == 8,
                    object.x < 256,
                    object.y < 256,
                    bit_of(object.attrs.0, 7) ==> dy + 7 <= object.y + 7,
                    self.pixels@ == sprite_tile_drawn(origin, m, old(self).palette, object, bank as int, tile_index as int, dy as int, (y * 8 + j) as nat),
                decreases 8 - j,
            {
                let x = PIXELS_PER_TILE - 1 - j;
                let color = Self::pixel_color(upper_plane, lower_plane, entry, x);
                proof {
                    let k = y * 8 + j;
                    assert((k as int) / 8 == y as int);
                    assert((k as int) % 8 == j as int);
                }
                if color != transparent {
                    let (px, py) = object.pixel_position(x, y + dy);
                    self.set_pixel(px, py, color);
                }
                j += 1;
            }
            y += 1;
        }
    }

    /// Draw the sprites in memory order: 8x8 sprites from the pattern table `maybe_bank`,
    /// 8x16 sprites (no bank) as two stacked tiles.
    pub fn draw_sprites(
        &mut self,
        mapper: &mut MapperInstance,
        maybe_bank: Option<usize>,
        oam: &ObjectAttributeMemory,
    )
        requires
            old(self).wf(),
            sprites_drawable(*old(mapper), maybe_bank, *oam),
        ensures
            final(self).wf(),
            *final(mapper) == *old(mapper),
            final(self).palette == old(self).palette,
            final(self).pixels@ == sprites_drawn(
                old(self).pixels@,
                *old(mapper),
                old(self).palette,
                maybe_bank,
                *oam,
                64,
            ),
    {
        let ghost origin = self.pixels@;
        let ghost m = *mapper;
        let mut objects = oam.iter();
        let mut n: usize = 0;
        while n < 64
            invariant
                n <= 64,
                objects.oam == oam,
                objects.index == 4 * n,
                self.wf(),
                *mapper == m,
                self.palette == old(self).palette,
                sprites_drawable(m, maybe_bank, *oam),
                self.pixels@ == sprites_drawn(origin, m, old(self).palette, maybe_bank, *oam, n as nat),
            decreases 64 - n,
        {
            let next = objects.next();
            assert(next is Some);
            if let Some(object) = next {
                assert(object == object_at(*oam, n as int));
                match maybe_bank {
                    Some(bank) => {
                        self.draw_sprite_tile(mapper, object, bank, object.tile_index, 0);
                    },
                    None => {
                        proof {
                            assert(bit_of(oam.memory@[4 * (n as int) + 2], 7) ==> oam.memory@[4 * (n as int)] >= 8);
                        }
                        let bank = object.bank_8x16();
                        let tile_index = object.tile_index_8x16();
                        self.draw_sprite_tile(mapper, object, bank, tile_index, 0);
                        // 8x16 sprites are drawn effectively in two tiles, stacked on top
                        self.draw_sprite_tile(mapper, object, bank, tile_index + 1, BETWEEN_PLANES);
                    },
                }
            }
            n += 1;
        }
    }
}

} // verus!
