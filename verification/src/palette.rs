//! The sprite's colours, as `0xAARRGGBB`.
use vstd::prelude::*;

verus! {

pub const TRANSPARENT: u32 = 0x00000000;

pub const OUTLINE: u32 = 0xFF2B2D42;

pub const BODY_LIGHT: u32 = 0xFF8ECAE6;

pub const BODY_CORE: u32 = 0xFF219EBC;

pub const BODY_SHADOW: u32 = 0xFF126782;

pub const EYE_WHITE: u32 = 0xFFFFFFFF;

pub const EYE_PUPIL: u32 = 0xFF023047;

pub const BLUSH: u32 = 0xFFFFAFCC;

pub const MOUTH: u32 = 0xFFFB8500;

pub const SWEAT: u32 = 0xFFE0FBFC;

pub const ZZZ: u32 = 0xFF8D99AE;

pub const ANGER: u32 = 0xFFD62828;

pub const ANGER_VEIN: u32 = 0xFF9B2226;

pub const SUNGLASSES: u32 = 0xFF000000;

pub const RAIN: u32 = 0xFF4A4E69;

pub const SPARKLE: u32 = 0xFFFFB703;

} // verus!
