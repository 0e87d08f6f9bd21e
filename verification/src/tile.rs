use vstd::prelude::*;

verus! {

/// The bit of weight `1 << (7 - p)`: bit position `p` counts from the most
/// significant bit down, matching the pixel order of a tile row.
pub open spec fn spec_bit_mask(p: int) -> u8 {
    if p == 0 {
        0x80
    } else if p == 1 {
        0x40
    } else if p == 2 {
        0x20
    } else if p == 3 {
        0x10
    } else if p == 4 {
        0x08
    } else if p == 5 {
        0x04
    } else if p == 6 {
        0x02
    } else {
        0x01
    }
}

/// The 2-bit pixel value at bit position `p` of a tile row packed into
/// `byte0` and `byte1`: `byte1` contributes the high bit and `byte0` the low
/// bit, so both set gives 3, only `byte1` gives 2, only `byte0` gives 1 and
/// neither gives 0.
pub open spec fn spec_pixel(byte0: u8, byte1: u8, p: int) -> u8 {
    (((if byte1 & spec_bit_mask(p) != 0 {
        2int
    } else {
        0int
    }) + (if byte0 & spec_bit_mask(p) != 0 {
        1int
    } else {
        0int
    })) as u8)
}

/// A tile in its fixed packed representation: 8 rows of 2 bytes each, row
/// `r` packed into bytes `2 * r` and `2 * r + 1`.
pub struct Tile {
    pub data: [u8; 16],
}

impl Tile {
    /// The first packed byte of row `r`, contributing the low pixel bits.
    pub open spec fn spec_byte0(self, r: int) -> u8 {
        self.data@[2 * r]
    }

    /// The second packed byte of row `r`, contributing the high pixel bits.
    pub open spec fn spec_byte1(self, r: int) -> u8 {
        self.data@[2 * r + 1]
    }

    pub fn new() -> (r: Tile)
        ensures
            forall|i: int| 0 <= i < 16 ==> r.data@[i] == 0,
    {
        Tile { data: [0u8; 16] }
    }

    /// Build a tile from the first 16 bytes of a packed byte sequence.
    pub fn from_vec(external_data: Vec<u8>) -> (r: Tile)
        requires
            external_data@.len() >= 16,
        ensures
            forall|i: int| 0 <= i < 16 ==> r.data@[i] == external_data@[i],
    {
        let mut tile = Tile::new();
        let mut idx: usize = 0;
        while idx < 16
            invariant
                idx <= 16,
                external_data@.len() >= 16,
                forall|i: int| 0 <= i < idx ==> tile.data@[i] == external_data@[i],
            decreases 16 - idx,
        {
            tile.data[idx] = external_data[idx];
            idx = idx + 1;
        }
        tile
    }

    fn bit_mask_at(p: usize) -> (r: u8)
        requires
            p < 8,
        ensures
            r == spec_bit_mask(p as int),
    {
        if p == 0 {
            0x80
        } else if p == 1 {
            0x40
        } else if p == 2 {
            0x20
        } else if p == 3 {
            0x10
        } else if p == 4 {
            0x08
        } else if p == 5 {
            0x04
        } else if p == 6 {
            0x02
        } else {
            0x01
        }
    }

    /// Decode one row position into its 2-bit pixel value.
    fn pixel_at(first_byte: u8, second_byte: u8, p: usize) -> (r: u8)
        requires
            p < 8,
        ensures
            r == spec_pixel(first_byte, second_byte, p as int),
    {
        let flag = Self::bit_mask_at(p);
        if first_byte & flag != 0 && second_byte & flag != 0 {
            0b11
        } else if first_byte & flag == 0 && second_byte & flag == 0 {
            0b00
        } else if first_byte & flag == 0 && second_byte & flag != 0 {
            0b10
        } else {
            0b01
        }
    }

    /// Decode the packed tile into an 8 by 8 grid of 2-bit pixel values.
    /// This is the only place pixel color indices are produced from raw
    /// bytes.
    pub fn to_array(&self) -> (r: [[u8; 8]; 8])
        ensures
            forall|row: int, p: int|
                0 <= row < 8 && 0 <= p < 8 ==> r@[row]@[p] == spec_pixel(
                    self.spec_byte0(row),
                    self.spec_byte1(row),
                    p,
                ),
    {
        let mut array: [[u8; 8]; 8] = [[0u8; 8]; 8];
        let mut row_idx: usize = 0;
        while row_idx < 8
            invariant
                row_idx <= 8,
                forall|row: int, p: int|
                    0 <= row < row_idx && 0 <= p < 8 ==> array@[row]@[p] == spec_pixel(
                        self.spec_byte0(row),
                        self.spec_byte1(row),
                        p,
                    ),
            decreases 8 - row_idx,
        {
            let first_byte = self.data[2 * row_idx];
            let second_byte = self.data[2 * row_idx + 1];
            let mut row: [u8; 8] = [0u8; 8];
            let mut bit_pos: usize = 0;
            while bit_pos < 8
                invariant
                    bit_pos <= 8,
                    row_idx < 8,
                    first_byte == self.spec_byte0(row_idx as int),
                    second_byte == self.spec_byte1(row_idx as int),
                    forall|p: int|
                        0 <= p < bit_pos ==> row@[p] == spec_pixel(
                            self.spec_byte0(row_idx as int),
                            self.spec_byte1(row_idx as int),
                            p,
                        ),
                decreases 8 - bit_pos,
            {
                row[bit_pos] = Self::pixel_at(first_byte, second_byte, bit_pos);
                bit_pos = bit_pos + 1;
            }
            array[row_idx] = row;
            row_idx = row_idx + 1;
        }
        array
    }
}

} // verus!
