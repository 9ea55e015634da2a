use vstd::prelude::*;

verus! {

/// The value every slider rests at: a slider at this value leaves the photo unchanged.
pub const NEUTRAL: i32 = 50;

/// The state of the "Basic Edits" panel. Every slider runs from 0 to 100,
/// with 50 as the neutral position.
#[derive(Clone, Copy, Debug, PartialEq, Eq, Structural)]
pub struct PhotoAdjustments {
    // White balance
    pub temperature: i32,
    pub tint: i32,
    // Light
    pub exposure: i32,
    pub contrast: i32,
    pub highlights: i32,
    pub shadows: i32,
    pub whites: i32,
    pub blacks: i32,
    // Detail
    pub texture: i32,
    pub clarity: i32,
    pub dehaze: i32,
    // Color
    pub hue: i32,
    pub saturation: i32,
}

impl PhotoAdjustments {
    /// Every slider sits at the neutral position.
    pub open spec fn is_neutral(self) -> bool {
        &&& self.temperature == NEUTRAL
        &&& self.tint == NEUTRAL
        &&& self.exposure == NEUTRAL
        &&& self.contrast == NEUTRAL
        &&& self.highlights == NEUTRAL
        &&& self.shadows == NEUTRAL
        &&& self.whites == NEUTRAL
        &&& self.blacks == NEUTRAL
        &&& self.texture == NEUTRAL
        &&& self.clarity == NEUTRAL
        &&& self.dehaze == NEUTRAL
        &&& self.hue == NEUTRAL
        &&& self.saturation == NEUTRAL
    }
}

impl Default for PhotoAdjustments {
    fn default() -> (r: Self)
        ensures
            r.is_neutral(),
    {
        PhotoAdjustments {
            temperature: NEUTRAL,
            tint: NEUTRAL,
            exposure: NEUTRAL,
            contrast: NEUTRAL,
            highlights: NEUTRAL,
            shadows: NEUTRAL,
            whites: NEUTRAL,
            blacks: NEUTRAL,
            texture: NEUTRAL,
            clarity: NEUTRAL,
            dehaze: NEUTRAL,
            hue: NEUTRAL,
            saturation: NEUTRAL,
        }
    }
}

} // verus!
