//! A single sprite entry of the PPU's Object Attribute Memory.
use vstd::prelude::*;

verus! {

/// The four bytes of a sprite: Y position, tile index, attributes
/// (palette, flipping, priority) and X position.
#[derive(Debug, Clone, Copy)]
pub struct Oam {
    y_position: u16,
    index_number: u8,
    attribute: u8,
    x_position: u8,
}

/// Byte `address % 4` of a sprite whose fields are `v`
/// (Y position, tile index, attributes, X position).
pub open spec fn oam_byte(v: (u16, u8, u8, u8), address: u8) -> u8 {
    if address % 4 == 0 {
        v.0 as u8
    } else if address % 4 == 1 {
        v.1
    } else if address % 4 == 2 {
        v.2
    } else {
        v.3
    }
}

/// The sprite `v` with byte `address % 4` replaced by `data`.
pub open spec fn oam_with_byte(v: (u16, u8, u8, u8), address: u8, data: u8) -> (u16, u8, u8, u8) {
    if address % 4 == 0 {
        (data as u16, v.1, v.2, v.3)
    } else if address % 4 == 1 {
        (v.0, data, v.2, v.3)
    } else if address % 4 == 2 {
        (v.0, v.1, data, v.3)
    } else {
        (v.0, v.1, v.2, data)
    }
}

impl View for Oam {
    type V = (u16, u8, u8, u8);

    closed spec fn view(&self) -> (u16, u8, u8, u8) {
        (self.y_position, self.index_number, self.attribute, self.x_position)
    }
}

impl Oam {
    /// A sprite with every field zero.
    pub fn new() -> (r: Self)
        ensures
            r@ == (0u16, 0u8, 0u8, 0u8),
    {
        Self { y_position: 0, index_number: 0, attribute: 0, x_position: 0 }
    }

    /// The Y position.
    pub fn get_y_position(&self) -> (r: u16)
        ensures
            r == self@.0,
    {
        self.y_position
    }

    /// The X position.
    pub fn get_x_position(&self) -> (r: u8)
        ensures
            r == self@.3,
    {
        self.x_position
    }

    /// The attribute byte.
    pub fn get_attribute(&self) -> (r: u8)
        ensures
            r == self@.2,
    {
        self.attribute
    }

    /// The tile index.
    pub fn get_index_number(&self) -> (r: u8)
        ensures
            r == self@.1,
    {
        self.index_number
    }

    /// Writes byte `address % 4` of the entry: 0 the Y position, 1 the tile
    /// index, 2 the attributes, 3 the X position.
    pub fn set_byte(&mut self, address: u8, data: u8)
        ensures
            final(self)@ == oam_with_byte(old(self)@, address, data),
    {
        let sel = address % 4;
        if sel == 0 {
            self.y_position = data as u16;
        } else if sel == 1 {
            self.index_number = data;
        } else if sel == 2 {
            self.attribute = data;
        } else {
            self.x_position = data;
        }
    }

    /// Reads byte `address % 4` of the entry (the Y position truncated to a byte).
    pub fn get_byte(&mut self, address: u8) -> (r: u8)
        ensures
            r == oam_byte(old(self)@, address),
            final(self)@ == old(self)@,
    {
        let sel = address % 4;
        if sel == 0 {
            self.y_position as u8
        } else if sel == 1 {
            self.index_number
        } else if sel == 2 {
            self.attribute
        } else {
            self.x_position
        }
    }
}

/// Reading a byte of a sprite back after writing it gives the byte written,
/// and the other three bytes are left as they were.
pub proof fn law_oam_read_back(v: (u16, u8, u8, u8), address: u8, data: u8, other: u8)
    requires
        other % 4 != address % 4,
    ensures
        oam_byte(oam_with_byte(v, address, data), address) == data,
        oam_byte(oam_with_byte(v, address, data), other) == oam_byte(v, other),
{
}

} // verus!
