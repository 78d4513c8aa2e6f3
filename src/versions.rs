//! The format versions at which fields appeared, in one place. A decoder
//! asks `codec::present(version, SINCE)` and reads the field only where it
//! holds.
use vstd::prelude::*;

verus! {

/// The oldest model format version whose address-table layout is known.
pub const ODOL_MIN_VERSION: u32 = 28;

/// The newest model format version whose address-table layout is known.
pub const ODOL_MAX_VERSION: u32 = 75;

/// The application id in the model header.
pub const APP_ID_SINCE: u32 = 59;

/// The name prefix in the model header.
pub const PREFIX_SINCE: u32 = 58;

/// The level-of-detail density coefficient in the model information.
pub const LOD_DENSITY_SINCE: u32 = 70;

/// The draw importance in the model information.
pub const DRAW_IMPORTANCE_SINCE: u32 = 71;

/// The skeleton flag of a default face-data block.
pub const FACE_SKELETON_SINCE: u32 = 51;

/// The section index of a proxy.
pub const PROXY_SECTION_SINCE: u32 = 40;

/// The per-vertex clip-flags array that follows the rest size of a level of
/// detail. It supersedes the legacy array after the vertex count, which is
/// read only below this version.
pub const CLIP_FLAGS_SINCE: u32 = 51;

/// Texture coordinate pairs of a level of detail.
pub const ST_COORDS_SINCE: u32 = 45;

/// Face vertex indices of 32 bits; before this version they have 16.
pub const WIDE_INDICES_SINCE: u32 = 69;

/// The main light of a material, by the material's own version.
pub const MATERIAL_MAIN_LIGHT_SINCE: u32 = 3;

/// The fog mode of a material, by the material's own version.
pub const MATERIAL_FOG_SINCE: u32 = 4;

/// The world-environment flag of a texture stage, by the material's version.
pub const MATERIAL_WORLD_ENV_SINCE: u32 = 10;

/// The muzzle-flash selection name in the model header.
pub const MUZZLE_FLASH_SINCE: u32 = 74;

/// The visual bounding box in the model information.
pub const VISUAL_BOUNDS_SINCE: u32 = 52;

/// The four heat-simulation values in the model information.
pub const THERMAL_SINCE: u32 = 56;

/// The mass factor and body temperature in the model information.
pub const THERMAL_BODY_SINCE: u32 = 57;

/// The AI-covers flag in the model information.
pub const AI_COVERS_SINCE: u32 = 73;

/// The force-not-alpha flag in the model information.
pub const FORCE_NOT_ALPHA_SINCE: u32 = 48;

/// The shadow-buffer source in the model information.
pub const SB_SOURCE_SINCE: u32 = 68;

/// The per-point mass array in the model information.
pub const MASS_ARRAY_SINCE: u32 = 41;

/// The explosion-shielding property in the model information.
pub const EXPLOSION_SHIELDING_SINCE: u32 = 72;

/// The frequent-property flag in the model information.
pub const PROPERTY_FREQUENT_SINCE: u32 = 54;

/// The unnamed 32-bit value at the end of the model information.
pub const UNKNOWN_INT_SINCE: u32 = 59;

/// The three preferred shadow level-of-detail lists in the model information.
pub const SHADOW_LODS_SINCE: u32 = 73;

/// The texture-stage values of a section.
pub const SECTION_STAGES_SINCE: u32 = 36;

/// The optional extra matrix of a section.
pub const SECTION_MATRIX_SINCE: u32 = 67;

/// The trailing stage texture of a material, by the material's version.
pub const MATERIAL_DUMMY_STAGE_SINCE: u32 = 11;

/// The period and initial phase of an animation class.
pub const ANIM_PERIOD_SINCE: u32 = 56;

/// The second value of a hiding animation class.
pub const ANIM_HIDE_EXTRA_SINCE: u32 = 55;

} // verus!
