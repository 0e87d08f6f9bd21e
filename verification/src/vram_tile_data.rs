use vstd::prelude::*;

use crate::tile::Tile;

verus! {

/// One 0x800-byte tile-data block of video RAM: 128 packed tiles of 16
/// bytes each, addressed by a block-relative offset.
pub struct VramTileData {
    pub tiles: Vec<Tile>,
}

impl VramTileData {
    /// A block always holds exactly 128 tiles.
    pub open spec fn well_formed(self) -> bool {
        self.tiles@.len() == 128
    }

    /// The byte a block-relative offset reaches: byte `offset % 16` of tile
    /// `offset / 16`.
    pub open spec fn spec_byte(self, offset: int) -> u8 {
        self.tiles@[offset / 16].data@[offset % 16]
    }

    pub fn new() -> (r: VramTileData)
        ensures
            r.well_formed(),
            forall|offset: int| 0 <= offset < 0x800 ==> r.spec_byte(offset) == 0,
    {
        let mut tiles: Vec<Tile> = Vec::new();
        let mut i: usize = 0;
        while i < 128
            invariant
                i <= 128,
                tiles@.len() == i,
                forall|t: int, b: int| 0 <= t < i && 0 <= b < 16 ==> tiles@[t].data@[b] == 0,
            decreases 128 - i,
        {
            tiles.push(Tile::new());
            i = i + 1;
        }
        VramTileData { tiles }
    }

    pub fn read(&self, address: u16) -> (r: u8)
        requires
            self.well_formed(),
            address < 0x800,
        ensures
            r == self.spec_byte(address as int),
    {
        let tile = (address / 16) as usize;
        let byte = (address % 16) as usize;
        self.tiles[tile].data[byte]
    }

    pub fn write(&mut self, address: u16, value: u8)
        requires
            old(self).well_formed(),
            address < 0x800,
        ensures
            final(self).well_formed(),
            final(self).spec_byte(address as int) == value,
            forall|offset: int|
                0 <= offset < 0x800 && offset != address ==> final(self).spec_byte(offset) == old(
                    self,
                ).spec_byte(offset),
    {
        let tile = (address / 16) as usize;
        let byte = (address % 16) as usize;
        let t = &mut self.tiles[tile];
        t.data[byte] = value;
        proof {
            assert forall|offset: int|
                0 <= offset < 0x800 && offset != address implies self.spec_byte(offset) == old(
                self,
            ).spec_byte(offset) by {
                if offset / 16 == address as int / 16 {
                    assert(offset % 16 != address as int % 16) by {
                        vstd::arithmetic::div_mod::lemma_fundamental_div_mod(offset, 16);
                        vstd::arithmetic::div_mod::lemma_fundamental_div_mod(address as int, 16);
                    }
                }
            }
        }
    }
}

} // verus!
