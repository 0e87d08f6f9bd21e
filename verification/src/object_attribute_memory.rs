use vstd::prelude::*;

verus! {

/// Whether the background may be drawn over this object.
pub enum Priority {
    No,
    DrawOver,
}

/// Whether the object is mirrored along an axis.
pub enum Flip {
    Normal,
    Mirror,
}

/// Which of the two monochrome object palettes colours the object.
pub enum DmgPalette {
    Obp0,
    Obp1,
}

/// The value every sprite slot holds at power-on.
pub open spec fn spec_initial_object() -> ObjectAttributes {
    ObjectAttributes {
        y_position: 0,
        x_position: 0,
        tile_index: 0,
        priority: Priority::No,
        y_flip: Flip::Normal,
        x_flip: Flip::Normal,
        dmg_palette: DmgPalette::Obp0,
    }
}

/// One sprite's metadata slot in object attribute memory.
pub struct ObjectAttributes {
    pub y_position: u8,
    pub x_position: u8,
    pub tile_index: u8,
    pub priority: Priority,
    pub y_flip: Flip,
    pub x_flip: Flip,
    pub dmg_palette: DmgPalette,
}

impl ObjectAttributes {
    pub fn new() -> (r: ObjectAttributes)
        ensures
            r == spec_initial_object(),
    {
        ObjectAttributes {
            y_position: 0,
            x_position: 0,
            tile_index: 0,
            priority: Priority::No,
            y_flip: Flip::Normal,
            x_flip: Flip::Normal,
            dmg_palette: DmgPalette::Obp0,
        }
    }
}

/// The 40 fixed-size sprite entries of object attribute memory.
pub struct ObjectAttributeMemory {
    pub objects: Vec<ObjectAttributes>,
}

impl ObjectAttributeMemory {
    pub fn new() -> (r: ObjectAttributeMemory)
        ensures
            r.objects@.len() == 40,
            forall|i: int| 0 <= i < 40 ==> r.objects@[i] == spec_initial_object(),
    {
        let mut objects: Vec<ObjectAttributes> = Vec::new();
        let mut i: usize = 0;
        while i < 40
            invariant
                i <= 40,
                objects@.len() == i,
                forall|j: int| 0 <= j < i ==> objects@[j] == spec_initial_object(),
            decreases 40 - i,
        {
            objects.push(ObjectAttributes::new());
            i = i + 1;
        }
        ObjectAttributeMemory { objects }
    }
}

} // verus!
