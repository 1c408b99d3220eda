//! The video unit of the fantasy console: its registers, and the colour of
//! each pixel it shows.
//!
//! The unit shows 256 by 256 pixels. Behind everything lies the background
//! colour. Over it lies a map of tiles of 8 or 16 pixels, taken from one of
//! four blocks of 32 by 32 cells and scrolled by two registers: scrolling
//! past an edge goes on in the neighbouring block. Over that lie up to 64
//! sprites. Tiles and sprites take their pixels from a sheet of 256 by 256
//! bytes, where zero means transparent. The unit is a device of 0x1108
//! cells: four background blocks, one page of sprites of four bytes each,
//! and eight registers.
use crate::lemma_history_head;
use crate::{Access, AddressBusIO};
use vstd::prelude::*;

verus! {

/// Where on the sheet the pixel `(x, y)` of tile `tile` lies, for tiles of
/// `size` pixels: the sheet holds its tiles row by row, 256 pixels to the
/// row.
pub open spec fn sheet_place(size: int, tile: u8, x: int, y: int) -> int {
    ((tile as int / (256int / size)) * size + y) * 256 + (tile as int % (256int / size)) * size
        + x
}

/// The cell of a background block under the pixel `(x, y)` of the block,
/// for tiles of `size` pixels.
pub open spec fn map_cell(size: int, x: int, y: int) -> int {
    (y / size) * (256int / size) + x / size
}

/// Where on the sheet the pixel `(x, y)` of tile `tile` lies; `wide` tiles
/// have 16 pixels, the others 8.
pub fn place(wide: bool, tile: u8, x: usize, y: usize) -> (offset: usize)
    requires
        x < (if wide { 16int } else { 8int }),
        y < (if wide { 16int } else { 8int }),
    ensures
        offset == sheet_place(if wide { 16int } else { 8int }, tile, x as int, y as int),
        offset < 0x1_0000,
{
    let tile = tile as usize;
    if wide {
        assert(256int / 16 == 16);
        ((tile / 16) * 16 + y) * 256 + (tile % 16) * 16 + x
    } else {
        assert(256int / 8 == 32);
        ((tile / 32) * 8 + y) * 256 + (tile % 32) * 8 + x
    }
}

/// The cell of a background block under the pixel `(x, y)` of the block.
pub fn cell(wide: bool, x: u8, y: u8) -> (cell: usize)
    ensures
        cell == map_cell(if wide { 16int } else { 8int }, x as int, y as int),
        cell < 0x400,
{
    let x = x as usize;
    let y = y as usize;
    if wide {
        assert(256int / 16 == 16);
        (y / 16) * 16 + x / 16
    } else {
        assert(256int / 8 == 32);
        (y / 8) * 32 + x / 8
    }
}

/// One sprite: a tile of the sheet, a position, and flags. Bit 0 of the
/// flags shows the sprite, bits 1 and 2 flip it sideways and upside down,
/// bit 3 makes its tile 16 pixels wide, and the top four bits are its scale
/// less one.
#[derive(Clone, Copy, Debug, PartialEq, Eq, Structural)]
pub struct Sprite {
    pub tile: u8,
    pub x: u8,
    pub y: u8,
    pub flags: u8,
}

impl Sprite {
    /// A sprite that is not shown.
    pub fn new() -> (sprite: Sprite)
        ensures
            sprite == (Sprite { tile: 0, x: 0, y: 0, flags: 0 }),
    {
        Sprite { tile: 0, x: 0, y: 0, flags: 0 }
    }

    pub open spec fn is_shown(self) -> bool {
        self.flags % 2 == 1
    }

    pub open spec fn flips_x(self) -> bool {
        (self.flags / 2) % 2 == 1
    }

    pub open spec fn flips_y(self) -> bool {
        (self.flags / 4) % 2 == 1
    }

    /// The width of the tile of the sprite.
    pub open spec fn tile_size(self) -> int {
        if (self.flags / 8) % 2 == 1 {
            16
        } else {
            8
        }
    }

    pub open spec fn scale(self) -> int {
        self.flags / 16 + 1
    }

    /// The width and height of the sprite on the screen.
    pub open spec fn extent(self) -> int {
        self.tile_size() * self.scale()
    }

    /// Where on the sheet the pixel `(x, y)` of the sprite comes from.
    pub open spec fn source(self, x: int, y: int) -> int {
        let size = self.tile_size();
        let flipped_x = if self.flips_x() {
            self.extent() - 1 - x
        } else {
            x
        };
        let flipped_y = if self.flips_y() {
            self.extent() - 1 - y
        } else {
            y
        };
        sheet_place(size, self.tile, flipped_x / self.scale(), flipped_y / self.scale())
    }

    /// Whether the sprite is shown.
    pub fn shown(&self) -> (shown: bool)
        ensures
            shown == self.is_shown(),
    {
        self.flags % 2 == 1
    }

    /// The width and height of the sprite on the screen.
    pub fn size(&self) -> (extent: usize)
        ensures
            extent == self.extent(),
            8 <= extent <= 256,
    {
        let tile_size: usize = if (self.flags / 8) % 2 == 1 {
            16
        } else {
            8
        };
        let scale = (self.flags / 16) as usize + 1;
        assert(tile_size * scale <= 256) by (nonlinear_arith)
            requires
                tile_size <= 16,
                scale <= 16,
        ;
        assert(tile_size * scale >= 8) by (nonlinear_arith)
            requires
                tile_size >= 8,
                scale >= 1,
        ;
        tile_size * scale
    }

    /// Where on the sheet the pixel `(x, y)` of the sprite comes from.
    pub fn sheet_offset(&self, x: usize, y: usize) -> (offset: usize)
        requires
            x < self.extent(),
            y < self.extent(),
        ensures
            offset == self.source(x as int, y as int),
            offset < 0x1_0000,
    {
        let tile_size: usize = if (self.flags / 8) % 2 == 1 {
            16
        } else {
            8
        };
        let scale = (self.flags / 16) as usize + 1;
        assert(tile_size * scale <= 256) by (nonlinear_arith)
            requires
                tile_size <= 16,
                scale <= 16,
        ;
        let extent = tile_size * scale;
        let flipped_x = if (self.flags / 2) % 2 == 1 {
            extent - 1 - x
        } else {
            x
        };
        let flipped_y = if (self.flags / 4) % 2 == 1 {
            extent - 1 - y
        } else {
            y
        };
        let pixel_x = flipped_x / scale;
        let pixel_y = flipped_y / scale;
        assert(pixel_x < tile_size && pixel_y < tile_size) by (nonlinear_arith)
            requires
                flipped_x < tile_size * scale,
                flipped_y < tile_size * scale,
                pixel_x == flipped_x / scale,
                pixel_y == flipped_y / scale,
                scale >= 1,
        ;
        place(tile_size == 16, self.tile, pixel_x, pixel_y)
    }
}

/// The state of the unit.
pub ghost struct VideoState {
    pub background_color: u8,
    pub current_row: u8,
    pub current_col: u8,
    pub scroll_x: u8,
    pub scroll_y: u8,
    pub input: u8,
    /// The four blocks of the tile map, one behind the other.
    pub background: Seq<u8>,
    pub background_mode: u8,
    pub sprites: Seq<Sprite>,
    pub chr_ram: Seq<u8>,
}

/// The sprite `sprite` with byte `item` replaced by `value`.
pub open spec fn with_item(sprite: Sprite, item: int, value: u8) -> Sprite {
    if item == 0 {
        Sprite { tile: value, ..sprite }
    } else if item == 1 {
        Sprite { x: value, ..sprite }
    } else if item == 2 {
        Sprite { y: value, ..sprite }
    } else {
        Sprite { flags: value, ..sprite }
    }
}

/// Byte `item` of `sprite`.
pub open spec fn item_of(sprite: Sprite, item: int) -> u8 {
    if item == 0 {
        sprite.tile
    } else if item == 1 {
        sprite.x
    } else if item == 2 {
        sprite.y
    } else {
        sprite.flags
    }
}

impl VideoState {
    pub open spec fn wf(self) -> bool {
        self.background.len() == 0x1000 && self.sprites.len() == 64 && self.chr_ram.len()
            == 0x1_0000
    }

    /// The cell of the sheet that the two cursor registers point at.
    pub open spec fn cursor(self) -> int {
        self.current_row as int * 256 + self.current_col as int
    }

    /// The state after a write of `value` at `address`.
    pub open spec fn written(self, address: u16, value: u8) -> VideoState {
        if address < 0x1000 {
            VideoState { background: self.background.update(address as int, value), ..self }
        } else if address < 0x1100 {
            let index = (address - 0x1000) / 4;
            VideoState {
                sprites: self.sprites.update(
                    index,
                    with_item(self.sprites[index], (address - 0x1000) % 4, value),
                ),
                ..self
            }
        } else if address == 0x1100 {
            VideoState { background_color: value, ..self }
        } else if address == 0x1101 {
            VideoState { scroll_x: value, ..self }
        } else if address == 0x1102 {
            VideoState { scroll_y: value, ..self }
        } else if address == 0x1103 {
            VideoState { current_col: value, ..self }
        } else if address == 0x1104 {
            VideoState { current_row: value, ..self }
        } else if address == 0x1105 {
            VideoState { chr_ram: self.chr_ram.update(self.cursor(), value), ..self }
        } else if address == 0x1107 {
            VideoState { background_mode: value, ..self }
        } else {
            self
        }
    }

    /// What a read at `address` returns.
    pub open spec fn answer(self, address: u16) -> u8 {
        if address < 0x1000 {
            self.background[address as int]
        } else if address < 0x1100 {
            item_of(self.sprites[(address - 0x1000) / 4], (address - 0x1000) % 4)
        } else if address == 0x1100 {
            self.background_color
        } else if address == 0x1101 {
            self.scroll_x
        } else if address == 0x1102 {
            self.scroll_y
        } else if address == 0x1103 {
            self.current_col
        } else if address == 0x1104 {
            self.current_row
        } else if address == 0x1105 {
            self.chr_ram[self.cursor()]
        } else if address == 0x1106 {
            self.input
        } else if address == 0x1107 {
            self.background_mode
        } else {
            0
        }
    }

    /// The state after `access`.
    pub open spec fn accessed(self, access: Access<u16, u8>) -> VideoState {
        match access {
            Access::Read { .. } => self,
            Access::Write { address, value } => self.written(address, value),
        }
    }

    /// The state after every access of `history`, in order.
    pub open spec fn replayed(self, history: Seq<Access<u16, u8>>) -> VideoState
        decreases history.len(),
    {
        if history.len() == 0 {
            self
        } else {
            self.accessed(history[0]).replayed(history.skip(1))
        }
    }

    /// The width of a background tile.
    pub open spec fn tile_size(self) -> int {
        if self.background_mode % 2 == 1 {
            16
        } else {
            8
        }
    }

    /// The background block that the pixel `(x, y)` of the screen falls
    /// in: the block that the mode selects, or its neighbour to the side
    /// where scrolling carries the pixel past the right edge, or its
    /// neighbour below where it carries it past the bottom edge.
    pub open spec fn block_at(self, x: u8, y: u8) -> int {
        let selected: int = (self.background_mode as int / 2) % 4;
        let sideways = if x + self.scroll_x > 255 {
            if selected % 2 == 0 {
                selected + 1
            } else {
                selected - 1
            }
        } else {
            selected
        };
        if y + self.scroll_y > 255 {
            if sideways < 2 {
                sideways + 2
            } else {
                sideways - 2
            }
        } else {
            sideways
        }
    }

    /// The tile under the pixel `(x, y)` of the screen.
    pub open spec fn tile_at(self, x: u8, y: u8) -> u8 {
        let size = self.tile_size();
        let absolute_x = (x + self.scroll_x) % 256;
        let absolute_y = (y + self.scroll_y) % 256;
        self.background[self.block_at(x, y) * 0x400 + map_cell(size, absolute_x, absolute_y)]
    }

    /// The colour that the tile map gives the pixel `(x, y)` of the screen.
    /// Zero is transparent.
    pub open spec fn tile_color(self, x: u8, y: u8) -> u8 {
        let size = self.tile_size();
        let absolute_x = (x + self.scroll_x) % 256;
        let absolute_y = (y + self.scroll_y) % 256;
        self.chr_ram[sheet_place(size, self.tile_at(x, y), absolute_x % size, absolute_y % size)]
    }

    /// The colour of the pixel `(x, y)` of the screen before the sprites:
    /// that of the tile map, or the background colour where the tile map is
    /// transparent.
    pub open spec fn background_at(self, x: u8, y: u8) -> u8 {
        if self.tile_color(x, y) != 0 {
            self.tile_color(x, y)
        } else {
            self.background_color
        }
    }

    /// The colour that sprite `index` gives the pixel `(x, y)` of the
    /// screen: zero where the sprite is not shown or does not reach.
    pub open spec fn sprite_at(self, index: int, x: u8, y: u8) -> u8 {
        let sprite = self.sprites[index];
        if sprite.is_shown() && sprite.x <= x && x - sprite.x < sprite.extent() && sprite.y <= y
            && y - sprite.y < sprite.extent() {
            self.chr_ram[sprite.source(x - sprite.x, y - sprite.y)]
        } else {
            0
        }
    }

    /// The colour of the pixel `(x, y)` of the screen under the first
    /// `count` sprites: a later sprite covers an earlier one, and each
    /// covers the background.
    pub open spec fn layered(self, count: nat, x: u8, y: u8) -> u8
        decreases count,
    {
        if count == 0 {
            self.background_at(x, y)
        } else if self.sprite_at(count - 1, x, y) != 0 {
            self.sprite_at(count - 1, x, y)
        } else {
            self.layered((count - 1) as nat, x, y)
        }
    }

    /// The colour of the pixel `(x, y)` of the screen.
    pub open spec fn shown_at(self, x: u8, y: u8) -> u8 {
        self.layered(64, x, y)
    }
}

/// The unit.
pub struct VideoUnit {
    pub background_color: u8,
    pub current_row: u8,
    pub current_col: u8,
    pub scroll_x: u8,
    pub scroll_y: u8,
    /// The keys that are down, one bit each.
    pub input: u8,
    pub background0: [u8; 1024],
    pub background1: [u8; 1024],
    pub background2: [u8; 1024],
    pub background3: [u8; 1024],
    pub background_mode: u8,
    pub sprites: [Sprite; 64],
    pub chr_ram: Vec<u8>,
}

impl View for VideoUnit {
    type V = VideoState;

    open spec fn view(&self) -> VideoState {
        VideoState {
            background_color: self.background_color,
            current_row: self.current_row,
            current_col: self.current_col,
            scroll_x: self.scroll_x,
            scroll_y: self.scroll_y,
            input: self.input,
            background: self.background0@ + self.background1@ + self.background2@
                + self.background3@,
            background_mode: self.background_mode,
            sprites: self.sprites@,
            chr_ram: self.chr_ram@,
        }
    }
}

/// The keys that the unit reports in its input register.
#[derive(Clone, Copy, Debug, PartialEq, Eq, Structural)]
pub enum Key {
    Up,
    Down,
    Right,
    Left,
    Space,
    LeftShift,
    RightShift,
    LeftAlt,
}

impl Key {
    /// The bit of the input register that stands for the key.
    pub open spec fn mask(self) -> u8 {
        match self {
            Key::Up => 0x01,
            Key::Down => 0x02,
            Key::Right => 0x04,
            Key::Left => 0x08,
            Key::Space => 0x10,
            Key::LeftShift => 0x20,
            Key::RightShift => 0x40,
            Key::LeftAlt => 0x80,
        }
    }

    /// The bit of the input register that stands for the key.
    pub fn bit(self) -> (bit: u8)
        ensures
            bit == self.mask(),
    {
        match self {
            Key::Up => 0x01,
            Key::Down => 0x02,
            Key::Right => 0x04,
            Key::Left => 0x08,
            Key::Space => 0x10,
            Key::LeftShift => 0x20,
            Key::RightShift => 0x40,
            Key::LeftAlt => 0x80,
        }
    }
}

/// The input register `input` after `key` went down or up.
pub open spec fn keyed(input: u8, key: Key, pressed: bool) -> u8 {
    if pressed {
        input | key.mask()
    } else {
        input & !key.mask()
    }
}

impl VideoUnit {
    /// Whether the sheet has its full size.
    pub open spec fn wf(&self) -> bool {
        self.chr_ram@.len() == 0x1_0000
    }

    /// A unit with everything zero: no sprite shown, an empty sheet.
    pub fn new() -> (unit: VideoUnit)
        ensures
            unit.wf(),
            unit@.wf(),
            unit@.background == Seq::new(0x1000, |i: int| 0u8),
            unit@.sprites == Seq::new(64, |i: int| Sprite { tile: 0, x: 0, y: 0, flags: 0 }),
            unit@.chr_ram == Seq::new(0x1_0000, |i: int| 0u8),
            unit.background_color == 0,
            unit.current_row == 0,
            unit.current_col == 0,
            unit.scroll_x == 0,
            unit.scroll_y == 0,
            unit.input == 0,
            unit.background_mode == 0,
    {
        let mut chr_ram: Vec<u8> = Vec::new();
        let mut count: usize = 0;
        while count < 0x1_0000
            invariant
                count <= 0x1_0000,
                chr_ram@.len() == count,
                forall|i: int| 0 <= i < count ==> chr_ram@[i] == 0,
            decreases 0x1_0000 - count,
        {
            chr_ram.push(0);
            count = count + 1;
        }
        let sprite = Sprite::new();
        let unit = VideoUnit {
            background_color: 0,
            current_row: 0,
            current_col: 0,
            scroll_x: 0,
            scroll_y: 0,
            input: 0,
            background0: [0; 1024],
            background1: [0; 1024],
            background2: [0; 1024],
            background3: [0; 1024],
            background_mode: 0,
            sprites: [sprite; 64],
            chr_ram,
        };
        assert(unit@.background =~= Seq::new(0x1000, |i: int| 0u8));
        assert(unit@.sprites =~= Seq::new(
            64,
            |i: int| Sprite { tile: 0, x: 0, y: 0, flags: 0 },
        ));
        assert(unit@.chr_ram =~= Seq::new(0x1_0000, |i: int| 0u8));
        unit
    }

    /// The background block that the pixel `(x, y)` of the screen falls in.
    pub fn block(&self, x: u8, y: u8) -> (block: u8)
        ensures
            block == self@.block_at(x, y),
            block < 4,
    {
        let selected = (self.background_mode / 2) % 4;
        let sideways = if x as u16 + self.scroll_x as u16 > 255 {
            if selected % 2 == 0 {
                selected + 1
            } else {
                selected - 1
            }
        } else {
            selected
        };
        if y as u16 + self.scroll_y as u16 > 255 {
            if sideways < 2 {
                sideways + 2
            } else {
                sideways - 2
            }
        } else {
            sideways
        }
    }

    /// The tile in cell `cell` of background block `block`.
    pub fn tile(&self, block: u8, cell: usize) -> (tile: u8)
        requires
            block < 4,
            cell < 0x400,
        ensures
            tile == self@.background[block * 0x400 + cell],
    {
        match block {
            0 => self.background0[cell],
            1 => self.background1[cell],
            2 => self.background2[cell],
            _ => self.background3[cell],
        }
    }

    /// Notes that `key` went down or up. Nothing else changes.
    pub fn key(&mut self, key: Key, pressed: bool)
        ensures
            *final(self) == (VideoUnit {
                input: keyed(old(self).input, key, pressed),
                ..*old(self)
            }),
    {
        if pressed {
            self.input = self.input | key.bit();
        } else {
            self.input = self.input & !key.bit();
        }
    }

    /// Copies `data` to the start of the sheet. What lies behind it stays.
    pub fn load_sheet(&mut self, data: &Vec<u8>)
        requires
            old(self).wf(),
            data@.len() <= 0x1_0000,
        ensures
            final(self).wf(),
            final(self)@ == (VideoState {
                chr_ram: data@ + old(self)@.chr_ram.skip(data@.len() as int),
                ..old(self)@
            }),
    {
        let mut index: usize = 0;
        while index < data.len()
            invariant
                index <= data@.len() <= 0x1_0000,
                self.wf(),
                *self == (VideoUnit { chr_ram: self.chr_ram, ..*old(self) }),
                forall|i: int| 0 <= i < index ==> self.chr_ram@[i] == data@[i],
                forall|i: int| index <= i < 0x1_0000 ==> self.chr_ram@[i] == old(self).chr_ram@[i],
            decreases data@.len() - index,
        {
            self.chr_ram.set(index, data[index]);
            index = index + 1;
        }
        assert(self.chr_ram@ =~= data@ + old(self)@.chr_ram.skip(data@.len() as int));
    }

    /// The colour of the pixel `(x, y)` of the screen before the sprites.
    #[verifier::rlimit(50)]
    pub fn background_pixel(&self, x: u8, y: u8) -> (color: u8)
        requires
            self.wf(),
        ensures
            color == self@.background_at(x, y),
    {
        let wide = self.background_mode % 2 == 1;
        let absolute_x = x.wrapping_add(self.scroll_x);
        let absolute_y = y.wrapping_add(self.scroll_y);
        let tile = self.tile(self.block(x, y), cell(wide, absolute_x, absolute_y));
        assert(absolute_x == (x + self.scroll_x) % 256);
        assert(absolute_y == (y + self.scroll_y) % 256);
        assert(tile == self@.tile_at(x, y));
        let offset = if wide {
            assert(self@.tile_size() == 16);
            place(wide, tile, (absolute_x % 16) as usize, (absolute_y % 16) as usize)
        } else {
            assert(self@.tile_size() == 8);
            place(wide, tile, (absolute_x % 8) as usize, (absolute_y % 8) as usize)
        };
        assert(self.chr_ram@[offset as int] == self@.tile_color(x, y));
        let color = self.chr_ram[offset];
        if color != 0 {
            color
        } else {
            self.background_color
        }
    }

    /// The colour that sprite `index` gives the pixel `(x, y)` of the
    /// screen. Zero is transparent.
    pub fn sprite_pixel(&self, index: usize, x: u8, y: u8) -> (color: u8)
        requires
            self.wf(),
            index < 64,
        ensures
            color == self@.sprite_at(index as int, x, y),
    {
        let sprite = self.sprites[index];
        if !sprite.shown() || x < sprite.x || y < sprite.y {
            return 0;
        }
        let extent = sprite.size();
        let across = (x - sprite.x) as usize;
        let down = (y - sprite.y) as usize;
        if across < extent && down < extent {
            self.chr_ram[sprite.sheet_offset(across, down)]
        } else {
            0
        }
    }

    /// The colour of the pixel `(x, y)` of the screen.
    pub fn pixel(&self, x: u8, y: u8) -> (color: u8)
        requires
            self.wf(),
        ensures
            color == self@.shown_at(x, y),
    {
        let mut color = self.background_pixel(x, y);
        let mut index: usize = 0;
        while index < 64
            invariant
                self.wf(),
                index <= 64,
                color == self@.layered(index as nat, x, y),
            decreases 64 - index,
        {
            let over = self.sprite_pixel(index, x, y);
            if over != 0 {
                color = over;
            }
            index = index + 1;
        }
        color
    }

    /// The whole screen, row by row: one colour for each pixel.
    pub fn frame(&self) -> (frame: Vec<u8>)
        requires
            self.wf(),
        ensures
            frame@.len() == 0x1_0000,
            forall|x: u8, y: u8| #[trigger] frame@[y * 256 + x] == self@.shown_at(x, y),
    {
        let mut frame: Vec<u8> = Vec::new();
        let mut y: u8 = 0;
        loop
            invariant_except_break
                self.wf(),
                frame@.len() == y * 256,
                forall|i: u8, j: u8|
                    j < y ==> #[trigger] frame@[j * 256 + i] == self@.shown_at(i, j),
            ensures
                frame@.len() == 0x1_0000,
                forall|i: u8, j: u8| #[trigger] frame@[j * 256 + i] == self@.shown_at(i, j),
            decreases 256 - y,
        {
            let mut x: u8 = 0;
            loop
                invariant_except_break
                    self.wf(),
                    frame@.len() == y * 256 + x,
                    forall|i: u8, j: u8|
                        j < y ==> #[trigger] frame@[j * 256 + i] == self@.shown_at(i, j),
                    forall|i: u8| i < x ==> #[trigger] frame@[y * 256 + i] == self@.shown_at(i, y),
                ensures
                    frame@.len() == y * 256 + 256,
                    forall|i: u8, j: u8|
                        j <= y ==> #[trigger] frame@[j * 256 + i] == self@.shown_at(i, j),
                decreases 256 - x,
            {
                let color = self.pixel(x, y);
                frame.push(color);
                if x == 255 {
                    break;
                }
                x = x + 1;
            }
            if y == 255 {
                break;
            }
            y = y + 1;
        }
        frame
    }
}

/// One access and then `rest` is `rest` on the state that the access
/// leaves.
pub proof fn lemma_replayed_step(
    state: VideoState,
    first: Access<u16, u8>,
    rest: Seq<Access<u16, u8>>,
)
    ensures
        state.replayed(seq![first] + rest) == state.accessed(first).replayed(rest),
{
    lemma_history_head(first, rest);
}

impl AddressBusIO<u16, u8> for VideoUnit {
    /// Every address is answered, while the sheet has its full size.
    open spec fn readable(&self, history: Seq<Access<u16, u8>>, address: u16) -> bool {
        self.wf()
    }

    open spec fn writable(&self, history: Seq<Access<u16, u8>>, address: u16) -> bool {
        self.wf()
    }

    open spec fn value(&self, history: Seq<Access<u16, u8>>, address: u16) -> u8 {
        self@.replayed(history).answer(address)
    }

    fn read(&mut self, address: u16) -> (value: u8)
        ensures
            final(self)@ == old(self)@,
            final(self).wf(),
    {
        proof {
            assert forall|history: Seq<Access<u16, u8>>, at: u16| #[trigger]
                self.value(history, at) == old(self).value(
                    seq![Access::Read { address }] + history,
                    at,
                ) by {
                lemma_replayed_step(self@, Access::Read { address }, history);
            }
        }
        let value = if address < 0x1000 {
            self.tile((address / 0x400) as u8, (address % 0x400) as usize)
        } else if address < 0x1100 {
            let sprite = self.sprites[((address - 0x1000) / 4) as usize];
            match (address - 0x1000) % 4 {
                0 => sprite.tile,
                1 => sprite.x,
                2 => sprite.y,
                _ => sprite.flags,
            }
        } else {
            match address {
                0x1100 => self.background_color,
                0x1101 => self.scroll_x,
                0x1102 => self.scroll_y,
                0x1103 => self.current_col,
                0x1104 => self.current_row,
                0x1105 => self.chr_ram[self.current_row as usize * 256
                    + self.current_col as usize],
                0x1106 => self.input,
                0x1107 => self.background_mode,
                _ => 0,
            }
        };
        assert(value == self@.answer(address));
        assert(self@.replayed(Seq::empty()) == self@);
        value
    }

    fn write(&mut self, address: u16, value: u8)
        ensures
            final(self)@ == old(self)@.written(address, value),
            final(self).wf(),
    {
        if address < 0x0400 {
            self.background0[address as usize] = value;
        } else if address < 0x0800 {
            self.background1[address as usize - 0x0400] = value;
        } else if address < 0x0c00 {
            self.background2[address as usize - 0x0800] = value;
        } else if address < 0x1000 {
            self.background3[address as usize - 0x0c00] = value;
        } else if address < 0x1100 {
            let index = ((address - 0x1000) / 4) as usize;
            let mut sprite = self.sprites[index];
            match (address - 0x1000) % 4 {
                0 => {
                    sprite.tile = value;
                },
                1 => {
                    sprite.x = value;
                },
                2 => {
                    sprite.y = value;
                },
                _ => {
                    sprite.flags = value;
                },
            }
            self.sprites[index] = sprite;
        } else {
            match address {
                0x1100 => {
                    self.background_color = value;
                },
                0x1101 => {
                    self.scroll_x = value;
                },
                0x1102 => {
                    self.scroll_y = value;
                },
                0x1103 => {
                    self.current_col = value;
                },
                0x1104 => {
                    self.current_row = value;
                },
                0x1105 => {
                    let cell = self.current_row as usize * 256 + self.current_col as usize;
                    self.chr_ram.set(cell, value);
                },
                0x1107 => {
                    self.background_mode = value;
                },
                _ => {},
            }
        }
        proof {
            assert(self@.background =~= old(self)@.written(address, value).background);
            assert(self@.sprites =~= old(self)@.written(address, value).sprites);
            assert(self@.chr_ram =~= old(self)@.written(address, value).chr_ram);
            assert forall|history: Seq<Access<u16, u8>>, at: u16| #[trigger]
                self.value(history, at) == old(self).value(
                    seq![Access::Write { address, value }] + history,
                    at,
                ) by {
                lemma_replayed_step(old(self)@, Access::Write { address, value }, history);
            }
        }
    }
}

} // verus!
