//! Resolution of the integer codes read from the stream into named
//! variants. Every resolver is total: a code it does not know resolves to a
//! catch-all variant that keeps the code, so newer files stay decodable.
use vstd::prelude::*;

verus! {

/// The bit pattern of 1000.0: resolutions from zero below it are graphical levels.
pub const GRAPHICAL_LIMIT: u32 = 0x447a0000;
/// The bit pattern of 10000.0, where the shadow-volume band starts.
pub const SHADOW_VOLUME_FIRST: u32 = 0x461c4000;
/// The bit pattern of 20000.0, where the shadow-volume band ends.
pub const SHADOW_VOLUME_LIMIT: u32 = 0x469c4000;

/// The tier of a level of detail. Its numeric resolution is kept beside it
/// (see `ResolutionCxx`), so `Unknown` loses nothing.
#[derive(Debug, Clone, Copy, PartialEq, Eq, Structural)]
pub enum ResolutionEnumCxx {
    GraphicalLod,
    ViewGunner,
    ViewPilot,
    ViewCargo,
    ViewUnknown,
    ShadowVolume,
    ShadowVolume2,
    StencilShadow,
    StencilShadow2,
    StencilShadowUnknown,
    Geometry,
    Unknown4E13,
    Memory,
    LandContact,
    Roadway,
    Paths,
    HitPoints,
    ViewGeometry,
    FireGeometry,
    ViewCargoGeometry,
    ViewCargoFireGeometry,
    ViewCommander,
    ViewCommanderGeometry,
    ViewCommanderFireGeometry,
    ViewPilotGeometry,
    ViewPilotFireGeometry,
    ViewGunnerGeometry,
    ViewGunnerFireGeometry,
    SubParts,
    ShadowVolumeViewCargo,
    ShadowVolumeViewPilot,
    ShadowVolumeViewGunner,
    Wreck,
    Unknown,
}

impl ResolutionEnumCxx {
    /// The tier of a resolution given by the bit pattern of its single-precision
    /// value. For non-negative values the order of bit patterns is the order of
    /// values, so the bands are stated on the bits.
    pub open spec fn spec_from_bits(b: u32) -> Self {
        if b < GRAPHICAL_LIMIT {
            ResolutionEnumCxx::GraphicalLod
        } else if b == 0x447a0000 {
            ResolutionEnumCxx::ViewGunner
        } else if b == 0x44898000 {
            ResolutionEnumCxx::ViewPilot
        } else if b == 0x44960000 {
            ResolutionEnumCxx::ViewCargo
        } else if b < SHADOW_VOLUME_FIRST {
            ResolutionEnumCxx::ViewUnknown
        } else if b == 0x461c4000 {
            ResolutionEnumCxx::ShadowVolume
        } else if b == 0x461c6800 {
            ResolutionEnumCxx::ShadowVolume2
        } else if b == 0x462be000 {
            ResolutionEnumCxx::StencilShadow
        } else if b == 0x462c0800 {
            ResolutionEnumCxx::StencilShadow2
        } else if b < SHADOW_VOLUME_LIMIT {
            ResolutionEnumCxx::StencilShadowUnknown
        } else if b == 0x551184e7 {
            ResolutionEnumCxx::Geometry
        } else if b == 0x561184e7 {
            ResolutionEnumCxx::Unknown4E13
        } else if b == 0x58635fa9 {
            ResolutionEnumCxx::Memory
        } else if b == 0x58e35fa9 {
            ResolutionEnumCxx::LandContact
        } else if b == 0x592a87bf {
            ResolutionEnumCxx::Roadway
        } else if b == 0x59635fa9 {
            ResolutionEnumCxx::Paths
        } else if b == 0x598e1bca {
            ResolutionEnumCxx::HitPoints
        } else if b == 0x59aa87bf {
            ResolutionEnumCxx::ViewGeometry
        } else if b == 0x59c6f3b4 {
            ResolutionEnumCxx::FireGeometry
        } else if b == 0x59e35fa9 {
            ResolutionEnumCxx::ViewCargoGeometry
        } else if b == 0x59ffcb9e {
            ResolutionEnumCxx::ViewCargoFireGeometry
        } else if b == 0x5a0e1bca {
            ResolutionEnumCxx::ViewCommander
        } else if b == 0x5a1c51c4 {
            ResolutionEnumCxx::ViewCommanderGeometry
        } else if b == 0x5a2a87bf {
            ResolutionEnumCxx::ViewCommanderFireGeometry
        } else if b == 0x5a38bdb9 {
            ResolutionEnumCxx::ViewPilotGeometry
        } else if b == 0x5a46f3b4 {
            ResolutionEnumCxx::ViewPilotFireGeometry
        } else if b == 0x5a5529af {
            ResolutionEnumCxx::ViewGunnerGeometry
        } else if b == 0x5a635fa9 {
            ResolutionEnumCxx::ViewGunnerFireGeometry
        } else if b == 0x5a7195a4 {
            ResolutionEnumCxx::SubParts
        } else if b == 0x5a7fcb9e {
            ResolutionEnumCxx::ShadowVolumeViewCargo
        } else if b == 0x5a8700cc {
            ResolutionEnumCxx::ShadowVolumeViewPilot
        } else if b == 0x5a8e1bca {
            ResolutionEnumCxx::ShadowVolumeViewGunner
        } else if b == 0x5a9536c7 {
            ResolutionEnumCxx::Wreck
        } else {
            ResolutionEnumCxx::Unknown
        }
    }

    pub fn from_bits(b: u32) -> (r: Self)
        ensures
            r == Self::spec_from_bits(b),
    {
        if b < GRAPHICAL_LIMIT {
            ResolutionEnumCxx::GraphicalLod
        } else if b == 0x447a0000 {
            ResolutionEnumCxx::ViewGunner
        } else if b == 0x44898000 {
            ResolutionEnumCxx::ViewPilot
        } else if b == 0x44960000 {
            ResolutionEnumCxx::ViewCargo
        } else if b < SHADOW_VOLUME_FIRST {
            ResolutionEnumCxx::ViewUnknown
        } else if b == 0x461c4000 {
            ResolutionEnumCxx::ShadowVolume
        } else if b == 0x461c6800 {
            ResolutionEnumCxx::ShadowVolume2
        } else if b == 0x462be000 {
            ResolutionEnumCxx::StencilShadow
        } else if b == 0x462c0800 {
            ResolutionEnumCxx::StencilShadow2
        } else if b < SHADOW_VOLUME_LIMIT {
            ResolutionEnumCxx::StencilShadowUnknown
        } else if b == 0x551184e7 {
            ResolutionEnumCxx::Geometry
        } else if b == 0x561184e7 {
            ResolutionEnumCxx::Unknown4E13
        } else if b == 0x58635fa9 {
            ResolutionEnumCxx::Memory
        } else if b == 0x58e35fa9 {
            ResolutionEnumCxx::LandContact
        } else if b == 0x592a87bf {
            ResolutionEnumCxx::Roadway
        } else if b == 0x59635fa9 {
            ResolutionEnumCxx::Paths
        } else if b == 0x598e1bca {
            ResolutionEnumCxx::HitPoints
        } else if b == 0x59aa87bf {
            ResolutionEnumCxx::ViewGeometry
        } else if b == 0x59c6f3b4 {
            ResolutionEnumCxx::FireGeometry
        } else if b == 0x59e35fa9 {
            ResolutionEnumCxx::ViewCargoGeometry
        } else if b == 0x59ffcb9e {
            ResolutionEnumCxx::ViewCargoFireGeometry
        } else if b == 0x5a0e1bca {
            ResolutionEnumCxx::ViewCommander
        } else if b == 0x5a1c51c4 {
            ResolutionEnumCxx::ViewCommanderGeometry
        } else if b == 0x5a2a87bf {
            ResolutionEnumCxx::ViewCommanderFireGeometry
        } else if b == 0x5a38bdb9 {
            ResolutionEnumCxx::ViewPilotGeometry
        } else if b == 0x5a46f3b4 {
            ResolutionEnumCxx::ViewPilotFireGeometry
        } else if b == 0x5a5529af {
            ResolutionEnumCxx::ViewGunnerGeometry
        } else if b == 0x5a635fa9 {
            ResolutionEnumCxx::ViewGunnerFireGeometry
        } else if b == 0x5a7195a4 {
            ResolutionEnumCxx::SubParts
        } else if b == 0x5a7fcb9e {
            ResolutionEnumCxx::ShadowVolumeViewCargo
        } else if b == 0x5a8700cc {
            ResolutionEnumCxx::ShadowVolumeViewPilot
        } else if b == 0x5a8e1bca {
            ResolutionEnumCxx::ShadowVolumeViewGunner
        } else if b == 0x5a9536c7 {
            ResolutionEnumCxx::Wreck
        } else {
            ResolutionEnumCxx::Unknown
        }
    }
}

/// The named values of a clip-flags word. A word that is not exactly one of
/// them, a combination of several bits for one, resolves to `Unknown`; the
/// word itself is kept in `ClipFlagsCxx`.
#[derive(Debug, Clone, Copy, PartialEq, Eq, Structural)]
pub enum ClipFlagsEnumCxx {
    ClipNoneNormal,
    ClipFront,
    ClipBack,
    ClipLeft,
    ClipRight,
    ClipBottom,
    ClipTop,
    ClipUser0,
    ClipAll,
    ClipLandMask,
    ClipLandStep,
    ClipLandUnder,
    ClipLandAbove,
    ClipLandKeep,
    ClipDecalMask,
    ClipDecalStep,
    ClipDecalVertical,
    ClipFogMask,
    ClipFogStep,
    ClipFogSky,
    ClipLightMask,
    ClipLightStep,
    ClipLightLine,
    ClipUserMask,
    ClipUserStep,
    MaxUserValue,
    ClipHints,
    Unknown,
}

impl ClipFlagsEnumCxx {
    pub open spec fn spec_from_code(c: u32) -> Self {
        match c {
            0 => ClipFlagsEnumCxx::ClipNoneNormal,
            1 => ClipFlagsEnumCxx::ClipFront,
            2 => ClipFlagsEnumCxx::ClipBack,
            4 => ClipFlagsEnumCxx::ClipLeft,
            8 => ClipFlagsEnumCxx::ClipRight,
            16 => ClipFlagsEnumCxx::ClipBottom,
            32 => ClipFlagsEnumCxx::ClipTop,
            64 => ClipFlagsEnumCxx::ClipUser0,
            63 => ClipFlagsEnumCxx::ClipAll,
            3840 => ClipFlagsEnumCxx::ClipLandMask,
            256 => ClipFlagsEnumCxx::ClipLandStep,
            512 => ClipFlagsEnumCxx::ClipLandUnder,
            1024 => ClipFlagsEnumCxx::ClipLandAbove,
            2048 => ClipFlagsEnumCxx::ClipLandKeep,
            12288 => ClipFlagsEnumCxx::ClipDecalMask,
            4096 => ClipFlagsEnumCxx::ClipDecalStep,
            8192 => ClipFlagsEnumCxx::ClipDecalVertical,
            49152 => ClipFlagsEnumCxx::ClipFogMask,
            16384 => ClipFlagsEnumCxx::ClipFogStep,
            32768 => ClipFlagsEnumCxx::ClipFogSky,
            983040 => ClipFlagsEnumCxx::ClipLightMask,
            65536 => ClipFlagsEnumCxx::ClipLightStep,
            524288 => ClipFlagsEnumCxx::ClipLightLine,
            267386880 => ClipFlagsEnumCxx::ClipUserMask,
            1048576 => ClipFlagsEnumCxx::ClipUserStep,
            255 => ClipFlagsEnumCxx::MaxUserValue,
            268435200 => ClipFlagsEnumCxx::ClipHints,
            _ => ClipFlagsEnumCxx::Unknown,
        }
    }

    /// The bits that a named value stands for; `Unknown` stands for none.
    pub open spec fn spec_mask(self) -> u32 {
        match self {
            ClipFlagsEnumCxx::ClipNoneNormal => 0,
            ClipFlagsEnumCxx::ClipFront => 1,
            ClipFlagsEnumCxx::ClipBack => 2,
            ClipFlagsEnumCxx::ClipLeft => 4,
            ClipFlagsEnumCxx::ClipRight => 8,
            ClipFlagsEnumCxx::ClipBottom => 16,
            ClipFlagsEnumCxx::ClipTop => 32,
            ClipFlagsEnumCxx::ClipUser0 => 64,
            ClipFlagsEnumCxx::ClipAll => 63,
            ClipFlagsEnumCxx::ClipLandMask => 3840,
            ClipFlagsEnumCxx::ClipLandStep => 256,
            ClipFlagsEnumCxx::ClipLandUnder => 512,
            ClipFlagsEnumCxx::ClipLandAbove => 1024,
            ClipFlagsEnumCxx::ClipLandKeep => 2048,
            ClipFlagsEnumCxx::ClipDecalMask => 12288,
            ClipFlagsEnumCxx::ClipDecalStep => 4096,
            ClipFlagsEnumCxx::ClipDecalVertical => 8192,
            ClipFlagsEnumCxx::ClipFogMask => 49152,
            ClipFlagsEnumCxx::ClipFogStep => 16384,
            ClipFlagsEnumCxx::ClipFogSky => 32768,
            ClipFlagsEnumCxx::ClipLightMask => 983040,
            ClipFlagsEnumCxx::ClipLightStep => 65536,
            ClipFlagsEnumCxx::ClipLightLine => 524288,
            ClipFlagsEnumCxx::ClipUserMask => 267386880,
            ClipFlagsEnumCxx::ClipUserStep => 1048576,
            ClipFlagsEnumCxx::MaxUserValue => 255,
            ClipFlagsEnumCxx::ClipHints => 268435200,
            ClipFlagsEnumCxx::Unknown => 0,
        }
    }

    pub fn from_code(c: u32) -> (r: Self)
        ensures
            r == Self::spec_from_code(c),
    {
        match c {
            0 => ClipFlagsEnumCxx::ClipNoneNormal,
            1 => ClipFlagsEnumCxx::ClipFront,
            2 => ClipFlagsEnumCxx::ClipBack,
            4 => ClipFlagsEnumCxx::ClipLeft,
            8 => ClipFlagsEnumCxx::ClipRight,
            16 => ClipFlagsEnumCxx::ClipBottom,
            32 => ClipFlagsEnumCxx::ClipTop,
            64 => ClipFlagsEnumCxx::ClipUser0,
            63 => ClipFlagsEnumCxx::ClipAll,
            3840 => ClipFlagsEnumCxx::ClipLandMask,
            256 => ClipFlagsEnumCxx::ClipLandStep,
            512 => ClipFlagsEnumCxx::ClipLandUnder,
            1024 => ClipFlagsEnumCxx::ClipLandAbove,
            2048 => ClipFlagsEnumCxx::ClipLandKeep,
            12288 => ClipFlagsEnumCxx::ClipDecalMask,
            4096 => ClipFlagsEnumCxx::ClipDecalStep,
            8192 => ClipFlagsEnumCxx::ClipDecalVertical,
            49152 => ClipFlagsEnumCxx::ClipFogMask,
            16384 => ClipFlagsEnumCxx::ClipFogStep,
            32768 => ClipFlagsEnumCxx::ClipFogSky,
            983040 => ClipFlagsEnumCxx::ClipLightMask,
            65536 => ClipFlagsEnumCxx::ClipLightStep,
            524288 => ClipFlagsEnumCxx::ClipLightLine,
            267386880 => ClipFlagsEnumCxx::ClipUserMask,
            1048576 => ClipFlagsEnumCxx::ClipUserStep,
            255 => ClipFlagsEnumCxx::MaxUserValue,
            268435200 => ClipFlagsEnumCxx::ClipHints,
            _ => ClipFlagsEnumCxx::Unknown,
        }
    }

    pub fn mask(&self) -> (r: u32)
        ensures
            r == self.spec_mask(),
    {
        match *self {
            ClipFlagsEnumCxx::ClipNoneNormal => 0,
            ClipFlagsEnumCxx::ClipFront => 1,
            ClipFlagsEnumCxx::ClipBack => 2,
            ClipFlagsEnumCxx::ClipLeft => 4,
            ClipFlagsEnumCxx::ClipRight => 8,
            ClipFlagsEnumCxx::ClipBottom => 16,
            ClipFlagsEnumCxx::ClipTop => 32,
            ClipFlagsEnumCxx::ClipUser0 => 64,
            ClipFlagsEnumCxx::ClipAll => 63,
            ClipFlagsEnumCxx::ClipLandMask => 3840,
            ClipFlagsEnumCxx::ClipLandStep => 256,
            ClipFlagsEnumCxx::ClipLandUnder => 512,
            ClipFlagsEnumCxx::ClipLandAbove => 1024,
            ClipFlagsEnumCxx::ClipLandKeep => 2048,
            ClipFlagsEnumCxx::ClipDecalMask => 12288,
            ClipFlagsEnumCxx::ClipDecalStep => 4096,
            ClipFlagsEnumCxx::ClipDecalVertical => 8192,
            ClipFlagsEnumCxx::ClipFogMask => 49152,
            ClipFlagsEnumCxx::ClipFogStep => 16384,
            ClipFlagsEnumCxx::ClipFogSky => 32768,
            ClipFlagsEnumCxx::ClipLightMask => 983040,
            ClipFlagsEnumCxx::ClipLightStep => 65536,
            ClipFlagsEnumCxx::ClipLightLine => 524288,
            ClipFlagsEnumCxx::ClipUserMask => 267386880,
            ClipFlagsEnumCxx::ClipUserStep => 1048576,
            ClipFlagsEnumCxx::MaxUserValue => 255,
            ClipFlagsEnumCxx::ClipHints => 268435200,
            ClipFlagsEnumCxx::Unknown => 0,
        }
    }
}

/// A clip-flags word as stored, with its symbolic reading.
#[derive(Debug, Clone, Copy, PartialEq, Eq, Structural)]
pub struct ClipFlagsCxx {
    pub value: i32,
    pub res: ClipFlagsEnumCxx,
}

impl View for ClipFlagsCxx {
    type V = ClipFlagsCxx;

    open spec fn view(&self) -> ClipFlagsCxx {
        *self
    }
}

impl ClipFlagsCxx {
    pub open spec fn spec_from_value(value: i32) -> Self {
        ClipFlagsCxx { value, res: ClipFlagsEnumCxx::spec_from_code(value as u32) }
    }

    pub fn from_value(value: i32) -> (r: Self)
        ensures
            r == Self::spec_from_value(value),
    {
        ClipFlagsCxx { value, res: ClipFlagsEnumCxx::from_code(value as u32) }
    }

    /// Whether every bit of the named value `flag` is set in the stored word;
    /// `ClipNoneNormal` holds of the word zero alone.
    pub open spec fn spec_has_flag(self, flag: ClipFlagsEnumCxx) -> bool {
        if flag.spec_mask() == 0 {
            self.value == 0
        } else {
            (self.value as u32) & flag.spec_mask() == flag.spec_mask()
        }
    }

    pub fn has_flag(&self, flag: ClipFlagsEnumCxx) -> (r: bool)
        requires
            !(flag is Unknown),
        ensures
            r == self.spec_has_flag(flag),
    {
        let m = flag.mask();
        if m == 0 {
            self.value == 0
        } else {
            (self.value as u32) & m == m
        }
    }
}

/// A vertex shader code as stored, with its symbolic reading.
#[derive(Debug, Clone, Copy, PartialEq, Eq, Structural)]
pub struct VertextShaderIDCxx {
    pub v: i32,
    pub e: VertexShaderIDEnumCxx,
}

impl VertextShaderIDCxx {
    pub open spec fn spec_from_value(v: i32) -> Self {
        VertextShaderIDCxx { v, e: VertexShaderIDEnumCxx::spec_from_code(v as u32) }
    }

    pub fn from_value(v: i32) -> (r: Self)
        ensures
            r == Self::spec_from_value(v),
    {
        VertextShaderIDCxx { v, e: VertexShaderIDEnumCxx::from_code(v as u32) }
    }
}

/// Fog mode of a material. A code outside the known set is kept in `Unknown`.
#[allow(non_camel_case_types)]
#[derive(Debug, Clone, Copy, PartialEq, Eq, Structural)]
pub enum EFogModeCxx {
    FM_None,
    FM_Fog,
    FM_Alpha,
    FM_FogAlpha,
    Unknown(u32),
}

impl EFogModeCxx {
    /// Whether `c` is one of the codes that this enum names.
    pub open spec fn in_domain(c: u32) -> bool {
        c < 4
    }

    pub open spec fn spec_from_code(c: u32) -> Self {
        match c {
            0 => EFogModeCxx::FM_None,
            1 => EFogModeCxx::FM_Fog,
            2 => EFogModeCxx::FM_Alpha,
            3 => EFogModeCxx::FM_FogAlpha,
            _ => EFogModeCxx::Unknown(c),
        }
    }

    pub open spec fn spec_code(self) -> u32 {
        match self {
            EFogModeCxx::FM_None => 0,
            EFogModeCxx::FM_Fog => 1,
            EFogModeCxx::FM_Alpha => 2,
            EFogModeCxx::FM_FogAlpha => 3,
            EFogModeCxx::Unknown(c) => c,
        }
    }

    /// Resolves a code read from the stream; never fails.
    pub fn from_code(c: u32) -> (r: Self)
        ensures
            r == Self::spec_from_code(c),
    {
        match c {
            0 => EFogModeCxx::FM_None,
            1 => EFogModeCxx::FM_Fog,
            2 => EFogModeCxx::FM_Alpha,
            3 => EFogModeCxx::FM_FogAlpha,
            _ => EFogModeCxx::Unknown(c),
        }
    }

    /// The code that this value stands for.
    pub fn code(&self) -> (r: u32)
        ensures
            r == self.spec_code(),
    {
        match *self {
            EFogModeCxx::FM_None => 0,
            EFogModeCxx::FM_Fog => 1,
            EFogModeCxx::FM_Alpha => 2,
            EFogModeCxx::FM_FogAlpha => 3,
            EFogModeCxx::Unknown(c) => c,
        }
    }

    /// A known code resolves to its named variant and back to itself; any
    /// other code resolves to `Unknown`, which keeps it.
    pub proof fn lemma_resolve(c: u32)
        ensures
            Self::in_domain(c) ==> !(Self::spec_from_code(c) is Unknown),
            !Self::in_domain(c) ==> Self::spec_from_code(c) == EFogModeCxx::Unknown(c),
            Self::spec_from_code(c).spec_code() == c,
    {
    }
}

/// Main light source of a material. A code outside the known set is kept in `Unknown`.
#[allow(non_camel_case_types)]
#[derive(Debug, Clone, Copy, PartialEq, Eq, Structural)]
pub enum EMainLightCxx {
    ML_None,
    ML_Sun,
    ML_Sky,
    ML_Horizon,
    ML_Stars,
    ML_SunObject,
    ML_SunHaloObject,
    ML_MoonObject,
    ML_MoonHaloObject,
    Unknown(u32),
}

impl EMainLightCxx {
    /// Whether `c` is one of the codes that this enum names.
    pub open spec fn in_domain(c: u32) -> bool {
        c < 9
    }

    pub open spec fn spec_from_code(c: u32) -> Self {
        match c {
            0 => EMainLightCxx::ML_None,
            1 => EMainLightCxx::ML_Sun,
            2 => EMainLightCxx::ML_Sky,
            3 => EMainLightCxx::ML_Horizon,
            4 => EMainLightCxx::ML_Stars,
            5 => EMainLightCxx::ML_SunObject,
            6 => EMainLightCxx::ML_SunHaloObject,
            7 => EMainLightCxx::ML_MoonObject,
            8 => EMainLightCxx::ML_MoonHaloObject,
            _ => EMainLightCxx::Unknown(c),
        }
    }

    pub open spec fn spec_code(self) -> u32 {
        match self {
            EMainLightCxx::ML_None => 0,
            EMainLightCxx::ML_Sun => 1,
            EMainLightCxx::ML_Sky => 2,
            EMainLightCxx::ML_Horizon => 3,
            EMainLightCxx::ML_Stars => 4,
            EMainLightCxx::ML_SunObject => 5,
            EMainLightCxx::ML_SunHaloObject => 6,
            EMainLightCxx::ML_MoonObject => 7,
            EMainLightCxx::ML_MoonHaloObject => 8,
            EMainLightCxx::Unknown(c) => c,
        }
    }

    /// Resolves a code read from the stream; never fails.
    pub fn from_code(c: u32) -> (r: Self)
        ensures
            r == Self::spec_from_code(c),
    {
        match c {
            0 => EMainLightCxx::ML_None,
            1 => EMainLightCxx::ML_Sun,
            2 => EMainLightCxx::ML_Sky,
            3 => EMainLightCxx::ML_Horizon,
            4 => EMainLightCxx::ML_Stars,
            5 => EMainLightCxx::ML_SunObject,
            6 => EMainLightCxx::ML_SunHaloObject,
            7 => EMainLightCxx::ML_MoonObject,
            8 => EMainLightCxx::ML_MoonHaloObject,
            _ => EMainLightCxx::Unknown(c),
        }
    }

    /// The code that this value stands for.
    pub fn code(&self) -> (r: u32)
        ensures
            r == self.spec_code(),
    {
        match *self {
            EMainLightCxx::ML_None => 0,
            EMainLightCxx::ML_Sun => 1,
            EMainLightCxx::ML_Sky => 2,
            EMainLightCxx::ML_Horizon => 3,
            EMainLightCxx::ML_Stars => 4,
            EMainLightCxx::ML_SunObject => 5,
            EMainLightCxx::ML_SunHaloObject => 6,
            EMainLightCxx::ML_MoonObject => 7,
            EMainLightCxx::ML_MoonHaloObject => 8,
            EMainLightCxx::Unknown(c) => c,
        }
    }

    /// A known code resolves to its named variant and back to itself; any
    /// other code resolves to `Unknown`, which keeps it.
    pub proof fn lemma_resolve(c: u32)
        ensures
            Self::in_domain(c) ==> !(Self::spec_from_code(c) is Unknown),
            !Self::in_domain(c) ==> Self::spec_from_code(c) == EMainLightCxx::Unknown(c),
            Self::spec_from_code(c).spec_code() == c,
    {
    }
}

/// Pixel shader of a material. A code outside the known set is kept in `Unknown`.
#[allow(non_camel_case_types)]
#[derive(Debug, Clone, Copy, PartialEq, Eq, Structural)]
pub enum PixelShaderIDCxx {
    PSNormal,
    PSNormalDXTA,
    PSNormalMap,
    PSNormalMapThrough,
    PSNormalMapGrass,
    PSNormalMapDiffuse,
    PSDetail,
    PSInterpolation,
    PSWater,
    PSWaterSimple,
    PSWhite,
    PSWhiteAlpha,
    PSAlphaShadow,
    PSAlphaNoShadow,
    PSDummy0,
    PSDetailMacroAS,
    PSNormalMapMacroAS,
    PSNormalMapDiffuseMacroAS,
    PSNormalMapSpecularMap,
    PSNormalMapDetailSpecularMap,
    PSNormalMapMacroASSpecularMap,
    PSNormalMapDetailMacroASSpecularMap,
    PSNormalMapSpecularDIMap,
    PSNormalMapDetailSpecularDIMap,
    PSNormalMapMacroASSpecularDIMap,
    PSNormalMapDetailMacroASSpecularDIMap,
    PSTerrain1,
    PSTerrain2,
    PSTerrain3,
    PSTerrain4,
    PSTerrain5,
    PSTerrain6,
    PSTerrain7,
    PSTerrain8,
    PSTerrain9,
    PSTerrain10,
    PSTerrain11,
    PSTerrain12,
    PSTerrain13,
    PSTerrain14,
    PSTerrain15,
    PSTerrainSimple1,
    PSTerrainSimple2,
    PSTerrainSimple3,
    PSTerrainSimple4,
    PSTerrainSimple5,
    PSTerrainSimple6,
    PSTerrainSimple7,
    PSTerrainSimple8,
    PSTerrainSimple9,
    PSTerrainSimple10,
    PSTerrainSimple11,
    PSTerrainSimple12,
    PSTerrainSimple13,
    PSTerrainSimple14,
    PSTerrainSimple15,
    PSGlass,
    PSNonTL,
    PSNormalMapSpecularThrough,
    PSGrass,
    PSNormalMapThroughSimple,
    PSNormalMapSpecularThroughSimple,
    PSRoad,
    PSShore,
    PSShoreWet,
    PSRoad2Pass,
    PSShoreFoam,
    PSNonTLFlare,
    PSNormalMapThroughLowEnd,
    PSTerrainGrass1,
    PSTerrainGrass2,
    PSTerrainGrass3,
    PSTerrainGrass4,
    PSTerrainGrass5,
    PSTerrainGrass6,
    PSTerrainGrass7,
    PSTerrainGrass8,
    PSTerrainGrass9,
    PSTerrainGrass10,
    PSTerrainGrass11,
    PSTerrainGrass12,
    PSTerrainGrass13,
    PSTerrainGrass14,
    PSTerrainGrass15,
    PSCrater1,
    PSCrater2,
    PSCrater3,
    PSCrater4,
    PSCrater5,
    PSCrater6,
    PSCrater7,
    PSCrater8,
    PSCrater9,
    PSCrater10,
    PSCrater11,
    PSCrater12,
    PSCrater13,
    PSCrater14,
    PSSprite,
    PSSpriteSimple,
    PSCloud,
    PSHorizon,
    PSSuper,
    PSMulti,
    PSTerrainX,
    PSTerrainSimpleX,
    PSTerrainGrassX,
    PSTree,
    PSTreePRT,
    PSTreeSimple,
    PSSkin,
    PSCalmWater,
    PSTreeAToC,
    PSGrassAToC,
    PSTreeAdv,
    PSTreeAdvSimple,
    PSTreeAdvTrunk,
    PSTreeAdvTrunkSimple,
    PSTreeAdvAToC,
    PSTreeAdvSimpleAToC,
    PSTreeSN,
    PSSpriteExtTi,
    PSTerrainSNX,
    PSSimulWeatherClouds,
    PSSimulWeatherCloudsWithLightning,
    PSSimulWeatherCloudsCPU,
    PSSimulWeatherCloudsWithLightningCPU,
    PSSuperExt,
    PSSuperAToC,
    NPixelShaderID,
    PSUninitialized,
    Unknown(u32),
}

impl PixelShaderIDCxx {
    /// Whether `c` is one of the codes that this enum names.
    pub open spec fn in_domain(c: u32) -> bool {
        c < 130 || c == 0xffff_ffff
    }

    pub open spec fn spec_from_code(c: u32) -> Self {
        match c {
            0 => PixelShaderIDCxx::PSNormal,
            1 => PixelShaderIDCxx::PSNormalDXTA,
            2 => PixelShaderIDCxx::PSNormalMap,
            3 => PixelShaderIDCxx::PSNormalMapThrough,
            4 => PixelShaderIDCxx::PSNormalMapGrass,
            5 => PixelShaderIDCxx::PSNormalMapDiffuse,
            6 => PixelShaderIDCxx::PSDetail,
            7 => PixelShaderIDCxx::PSInterpolation,
            8 => PixelShaderIDCxx::PSWater,
            9 => PixelShaderIDCxx::PSWaterSimple,
            10 => PixelShaderIDCxx::PSWhite,
            11 => PixelShaderIDCxx::PSWhiteAlpha,
            12 => PixelShaderIDCxx::PSAlphaShadow,
            13 => PixelShaderIDCxx::PSAlphaNoShadow,
            14 => PixelShaderIDCxx::PSDummy0,
            15 => PixelShaderIDCxx::PSDetailMacroAS,
            16 => PixelShaderIDCxx::PSNormalMapMacroAS,
            17 => PixelShaderIDCxx::PSNormalMapDiffuseMacroAS,
            18 => PixelShaderIDCxx::PSNormalMapSpecularMap,
            19 => PixelShaderIDCxx::PSNormalMapDetailSpecularMap,
            20 => PixelShaderIDCxx::PSNormalMapMacroASSpecularMap,
            21 => PixelShaderIDCxx::PSNormalMapDetailMacroASSpecularMap,
            22 => PixelShaderIDCxx::PSNormalMapSpecularDIMap,
            23 => PixelShaderIDCxx::PSNormalMapDetailSpecularDIMap,
            24 => PixelShaderIDCxx::PSNormalMapMacroASSpecularDIMap,
            25 => PixelShaderIDCxx::PSNormalMapDetailMacroASSpecularDIMap,
            26 => PixelShaderIDCxx::PSTerrain1,
            27 => PixelShaderIDCxx::PSTerrain2,
            28 => PixelShaderIDCxx::PSTerrain3,
            29 => PixelShaderIDCxx::PSTerrain4,
            30 => PixelShaderIDCxx::PSTerrain5,
            31 => PixelShaderIDCxx::PSTerrain6,
            32 => PixelShaderIDCxx::PSTerrain7,
            33 => PixelShaderIDCxx::PSTerrain8,
            34 => PixelShaderIDCxx::PSTerrain9,
            35 => PixelShaderIDCxx::PSTerrain10,
            36 => PixelShaderIDCxx::PSTerrain11,
            37 => PixelShaderIDCxx::PSTerrain12,
            38 => PixelShaderIDCxx::PSTerrain13,
            39 => PixelShaderIDCxx::PSTerrain14,
            40 => PixelShaderIDCxx::PSTerrain15,
            41 => PixelShaderIDCxx::PSTerrainSimple1,
            42 => PixelShaderIDCxx::PSTerrainSimple2,
            43 => PixelShaderIDCxx::PSTerrainSimple3,
            44 => PixelShaderIDCxx::PSTerrainSimple4,
            45 => PixelShaderIDCxx::PSTerrainSimple5,
            46 => PixelShaderIDCxx::PSTerrainSimple6,
            47 => PixelShaderIDCxx::PSTerrainSimple7,
            48 => PixelShaderIDCxx::PSTerrainSimple8,
            49 => PixelShaderIDCxx::PSTerrainSimple9,
            50 => PixelShaderIDCxx::PSTerrainSimple10,
            51 => PixelShaderIDCxx::PSTerrainSimple11,
            52 => PixelShaderIDCxx::PSTerrainSimple12,
            53 => PixelShaderIDCxx::PSTerrainSimple13,
            54 => PixelShaderIDCxx::PSTerrainSimple14,
            55 => PixelShaderIDCxx::PSTerrainSimple15,
            56 => PixelShaderIDCxx::PSGlass,
            57 => PixelShaderIDCxx::PSNonTL,
            58 => PixelShaderIDCxx::PSNormalMapSpecularThrough,
            59 => PixelShaderIDCxx::PSGrass,
            60 => PixelShaderIDCxx::PSNormalMapThroughSimple,
            61 => PixelShaderIDCxx::PSNormalMapSpecularThroughSimple,
            62 => PixelShaderIDCxx::PSRoad,
            63 => PixelShaderIDCxx::PSShore,
            64 => PixelShaderIDCxx::PSShoreWet,
            65 => PixelShaderIDCxx::PSRoad2Pass,
            66 => PixelShaderIDCxx::PSShoreFoam,
            67 => PixelShaderIDCxx::PSNonTLFlare,
            68 => PixelShaderIDCxx::PSNormalMapThroughLowEnd,
            69 => PixelShaderIDCxx::PSTerrainGrass1,
            70 => PixelShaderIDCxx::PSTerrainGrass2,
            71 => PixelShaderIDCxx::PSTerrainGrass3,
            72 => PixelShaderIDCxx::PSTerrainGrass4,
            73 => PixelShaderIDCxx::PSTerrainGrass5,
            74 => PixelShaderIDCxx::PSTerrainGrass6,
            75 => PixelShaderIDCxx::PSTerrainGrass7,
            76 => PixelShaderIDCxx::PSTerrainGrass8,
            77 => PixelShaderIDCxx::PSTerrainGrass9,
            78 => PixelShaderIDCxx::PSTerrainGrass10,
            79 => PixelShaderIDCxx::PSTerrainGrass11,
            80 => PixelShaderIDCxx::PSTerrainGrass12,
            81 => PixelShaderIDCxx::PSTerrainGrass13,
            82 => PixelShaderIDCxx::PSTerrainGrass14,
            83 => PixelShaderIDCxx::PSTerrainGrass15,
            84 => PixelShaderIDCxx::PSCrater1,
            85 => PixelShaderIDCxx::PSCrater2,
            86 => PixelShaderIDCxx::PSCrater3,
            87 => PixelShaderIDCxx::PSCrater4,
            88 => PixelShaderIDCxx::PSCrater5,
            89 => PixelShaderIDCxx::PSCrater6,
            90 => PixelShaderIDCxx::PSCrater7,
            91 => PixelShaderIDCxx::PSCrater8,
            92 => PixelShaderIDCxx::PSCrater9,
            93 => PixelShaderIDCxx::PSCrater10,
            94 => PixelShaderIDCxx::PSCrater11,
            95 => PixelShaderIDCxx::PSCrater12,
            96 => PixelShaderIDCxx::PSCrater13,
            97 => PixelShaderIDCxx::PSCrater14,
            98 => PixelShaderIDCxx::PSSprite,
            99 => PixelShaderIDCxx::PSSpriteSimple,
            100 => PixelShaderIDCxx::PSCloud,
            101 => PixelShaderIDCxx::PSHorizon,
            102 => PixelShaderIDCxx::PSSuper,
            103 => PixelShaderIDCxx::PSMulti,
            104 => PixelShaderIDCxx::PSTerrainX,
            105 => PixelShaderIDCxx::PSTerrainSimpleX,
            106 => PixelShaderIDCxx::PSTerrainGrassX,
            107 => PixelShaderIDCxx::PSTree,
            108 => PixelShaderIDCxx::PSTreePRT,
            109 => PixelShaderIDCxx::PSTreeSimple,
            110 => PixelShaderIDCxx::PSSkin,
            111 => PixelShaderIDCxx::PSCalmWater,
            112 => PixelShaderIDCxx::PSTreeAToC,
            113 => PixelShaderIDCxx::PSGrassAToC,
            114 => PixelShaderIDCxx::PSTreeAdv,
            115 => PixelShaderIDCxx::PSTreeAdvSimple,
            116 => PixelShaderIDCxx::PSTreeAdvTrunk,
            117 => PixelShaderIDCxx::PSTreeAdvTrunkSimple,
            118 => PixelShaderIDCxx::PSTreeAdvAToC,
            119 => PixelShaderIDCxx::PSTreeAdvSimpleAToC,
            120 => PixelShaderIDCxx::PSTreeSN,
            121 => PixelShaderIDCxx::PSSpriteExtTi,
            122 => PixelShaderIDCxx::PSTerrainSNX,
            123 => PixelShaderIDCxx::PSSimulWeatherClouds,
            124 => PixelShaderIDCxx::PSSimulWeatherCloudsWithLightning,
            125 => PixelShaderIDCxx::PSSimulWeatherCloudsCPU,
            126 => PixelShaderIDCxx::PSSimulWeatherCloudsWithLightningCPU,
            127 => PixelShaderIDCxx::PSSuperExt,
            128 => PixelShaderIDCxx::PSSuperAToC,
            129 => PixelShaderIDCxx::NPixelShaderID,
            0xffff_ffff => PixelShaderIDCxx::PSUninitialized,
            _ => PixelShaderIDCxx::Unknown(c),
        }
    }

    pub open spec fn spec_code(self) -> u32 {
        match self {
            PixelShaderIDCxx::PSNormal => 0,
            PixelShaderIDCxx::PSNormalDXTA => 1,
            PixelShaderIDCxx::PSNormalMap => 2,
            PixelShaderIDCxx::PSNormalMapThrough => 3,
            PixelShaderIDCxx::PSNormalMapGrass => 4,
            PixelShaderIDCxx::PSNormalMapDiffuse => 5,
            PixelShaderIDCxx::PSDetail => 6,
            PixelShaderIDCxx::PSInterpolation => 7,
            PixelShaderIDCxx::PSWater => 8,
            PixelShaderIDCxx::PSWaterSimple => 9,
            PixelShaderIDCxx::PSWhite => 10,
            PixelShaderIDCxx::PSWhiteAlpha => 11,
            PixelShaderIDCxx::PSAlphaShadow => 12,
            PixelShaderIDCxx::PSAlphaNoShadow => 13,
            PixelShaderIDCxx::PSDummy0 => 14,
            PixelShaderIDCxx::PSDetailMacroAS => 15,
            PixelShaderIDCxx::PSNormalMapMacroAS => 16,
            PixelShaderIDCxx::PSNormalMapDiffuseMacroAS => 17,
            PixelShaderIDCxx::PSNormalMapSpecularMap => 18,
            PixelShaderIDCxx::PSNormalMapDetailSpecularMap => 19,
            PixelShaderIDCxx::PSNormalMapMacroASSpecularMap => 20,
            PixelShaderIDCxx::PSNormalMapDetailMacroASSpecularMap => 21,
            PixelShaderIDCxx::PSNormalMapSpecularDIMap => 22,
            PixelShaderIDCxx::PSNormalMapDetailSpecularDIMap => 23,
            PixelShaderIDCxx::PSNormalMapMacroASSpecularDIMap => 24,
            PixelShaderIDCxx::PSNormalMapDetailMacroASSpecularDIMap => 25,
            PixelShaderIDCxx::PSTerrain1 => 26,
            PixelShaderIDCxx::PSTerrain2 => 27,
            PixelShaderIDCxx::PSTerrain3 => 28,
            PixelShaderIDCxx::PSTerrain4 => 29,
            PixelShaderIDCxx::PSTerrain5 => 30,
            PixelShaderIDCxx::PSTerrain6 => 31,
            PixelShaderIDCxx::PSTerrain7 => 32,
            PixelShaderIDCxx::PSTerrain8 => 33,
            PixelShaderIDCxx::PSTerrain9 => 34,
            PixelShaderIDCxx::PSTerrain10 => 35,
            PixelShaderIDCxx::PSTerrain11 => 36,
            PixelShaderIDCxx::PSTerrain12 => 37,
            PixelShaderIDCxx::PSTerrain13 => 38,
            PixelShaderIDCxx::PSTerrain14 => 39,
            PixelShaderIDCxx::PSTerrain15 => 40,
            PixelShaderIDCxx::PSTerrainSimple1 => 41,
            PixelShaderIDCxx::PSTerrainSimple2 => 42,
            PixelShaderIDCxx::PSTerrainSimple3 => 43,
            PixelShaderIDCxx::PSTerrainSimple4 => 44,
            PixelShaderIDCxx::PSTerrainSimple5 => 45,
            PixelShaderIDCxx::PSTerrainSimple6 => 46,
            PixelShaderIDCxx::PSTerrainSimple7 => 47,
            PixelShaderIDCxx::PSTerrainSimple8 => 48,
            PixelShaderIDCxx::PSTerrainSimple9 => 49,
            PixelShaderIDCxx::PSTerrainSimple10 => 50,
            PixelShaderIDCxx::PSTerrainSimple11 => 51,
            PixelShaderIDCxx::PSTerrainSimple12 => 52,
            PixelShaderIDCxx::PSTerrainSimple13 => 53,
            PixelShaderIDCxx::PSTerrainSimple14 => 54,
            PixelShaderIDCxx::PSTerrainSimple15 => 55,
            PixelShaderIDCxx::PSGlass => 56,
            PixelShaderIDCxx::PSNonTL => 57,
            PixelShaderIDCxx::PSNormalMapSpecularThrough => 58,
            PixelShaderIDCxx::PSGrass => 59,
            PixelShaderIDCxx::PSNormalMapThroughSimple => 60,
            PixelShaderIDCxx::PSNormalMapSpecularThroughSimple => 61,
            PixelShaderIDCxx::PSRoad => 62,
            PixelShaderIDCxx::PSShore => 63,
            PixelShaderIDCxx::PSShoreWet => 64,
            PixelShaderIDCxx::PSRoad2Pass => 65,
            PixelShaderIDCxx::PSShoreFoam => 66,
            PixelShaderIDCxx::PSNonTLFlare => 67,
            PixelShaderIDCxx::PSNormalMapThroughLowEnd => 68,
            PixelShaderIDCxx::PSTerrainGrass1 => 69,
            PixelShaderIDCxx::PSTerrainGrass2 => 70,
            PixelShaderIDCxx::PSTerrainGrass3 => 71,
            PixelShaderIDCxx::PSTerrainGrass4 => 72,
            PixelShaderIDCxx::PSTerrainGrass5 => 73,
            PixelShaderIDCxx::PSTerrainGrass6 => 74,
            PixelShaderIDCxx::PSTerrainGrass7 => 75,
            PixelShaderIDCxx::PSTerrainGrass8 => 76,
            PixelShaderIDCxx::PSTerrainGrass9 => 77,
            PixelShaderIDCxx::PSTerrainGrass10 => 78,
            PixelShaderIDCxx::PSTerrainGrass11 => 79,
            PixelShaderIDCxx::PSTerrainGrass12 => 80,
            PixelShaderIDCxx::PSTerrainGrass13 => 81,
            PixelShaderIDCxx::PSTerrainGrass14 => 82,
            PixelShaderIDCxx::PSTerrainGrass15 => 83,
            PixelShaderIDCxx::PSCrater1 => 84,
            PixelShaderIDCxx::PSCrater2 => 85,
            PixelShaderIDCxx::PSCrater3 => 86,
            PixelShaderIDCxx::PSCrater4 => 87,
            PixelShaderIDCxx::PSCrater5 => 88,
            PixelShaderIDCxx::PSCrater6 => 89,
            PixelShaderIDCxx::PSCrater7 => 90,
            PixelShaderIDCxx::PSCrater8 => 91,
            PixelShaderIDCxx::PSCrater9 => 92,
            PixelShaderIDCxx::PSCrater10 => 93,
            PixelShaderIDCxx::PSCrater11 => 94,
            PixelShaderIDCxx::PSCrater12 => 95,
            PixelShaderIDCxx::PSCrater13 => 96,
            PixelShaderIDCxx::PSCrater14 => 97,
            PixelShaderIDCxx::PSSprite => 98,
            PixelShaderIDCxx::PSSpriteSimple => 99,
            PixelShaderIDCxx::PSCloud => 100,
            PixelShaderIDCxx::PSHorizon => 101,
            PixelShaderIDCxx::PSSuper => 102,
            PixelShaderIDCxx::PSMulti => 103,
            PixelShaderIDCxx::PSTerrainX => 104,
            PixelShaderIDCxx::PSTerrainSimpleX => 105,
            PixelShaderIDCxx::PSTerrainGrassX => 106,
            PixelShaderIDCxx::PSTree => 107,
            PixelShaderIDCxx::PSTreePRT => 108,
            PixelShaderIDCxx::PSTreeSimple => 109,
            PixelShaderIDCxx::PSSkin => 110,
            PixelShaderIDCxx::PSCalmWater => 111,
            PixelShaderIDCxx::PSTreeAToC => 112,
            PixelShaderIDCxx::PSGrassAToC => 113,
            PixelShaderIDCxx::PSTreeAdv => 114,
            PixelShaderIDCxx::PSTreeAdvSimple => 115,
            PixelShaderIDCxx::PSTreeAdvTrunk => 116,
            PixelShaderIDCxx::PSTreeAdvTrunkSimple => 117,
            PixelShaderIDCxx::PSTreeAdvAToC => 118,
            PixelShaderIDCxx::PSTreeAdvSimpleAToC => 119,
            PixelShaderIDCxx::PSTreeSN => 120,
            PixelShaderIDCxx::PSSpriteExtTi => 121,
            PixelShaderIDCxx::PSTerrainSNX => 122,
            PixelShaderIDCxx::PSSimulWeatherClouds => 123,
            PixelShaderIDCxx::PSSimulWeatherCloudsWithLightning => 124,
            PixelShaderIDCxx::PSSimulWeatherCloudsCPU => 125,
            PixelShaderIDCxx::PSSimulWeatherCloudsWithLightningCPU => 126,
            PixelShaderIDCxx::PSSuperExt => 127,
            PixelShaderIDCxx::PSSuperAToC => 128,
            PixelShaderIDCxx::NPixelShaderID => 129,
            PixelShaderIDCxx::PSUninitialized => 0xffff_ffff,
            PixelShaderIDCxx::Unknown(c) => c,
        }
    }

    /// Resolves a code read from the stream; never fails.
    pub fn from_code(c: u32) -> (r: Self)
        ensures
            r == Self::spec_from_code(c),
    {
        match c {
            0 => PixelShaderIDCxx::PSNormal,
            1 => PixelShaderIDCxx::PSNormalDXTA,
            2 => PixelShaderIDCxx::PSNormalMap,
            3 => PixelShaderIDCxx::PSNormalMapThrough,
            4 => PixelShaderIDCxx::PSNormalMapGrass,
            5 => PixelShaderIDCxx::PSNormalMapDiffuse,
            6 => PixelShaderIDCxx::PSDetail,
            7 => PixelShaderIDCxx::PSInterpolation,
            8 => PixelShaderIDCxx::PSWater,
            9 => PixelShaderIDCxx::PSWaterSimple,
            10 => PixelShaderIDCxx::PSWhite,
            11 => PixelShaderIDCxx::PSWhiteAlpha,
            12 => PixelShaderIDCxx::PSAlphaShadow,
            13 => PixelShaderIDCxx::PSAlphaNoShadow,
            14 => PixelShaderIDCxx::PSDummy0,
            15 => PixelShaderIDCxx::PSDetailMacroAS,
            16 => PixelShaderIDCxx::PSNormalMapMacroAS,
            17 => PixelShaderIDCxx::PSNormalMapDiffuseMacroAS,
            18 => PixelShaderIDCxx::PSNormalMapSpecularMap,
            19 => PixelShaderIDCxx::PSNormalMapDetailSpecularMap,
            20 => PixelShaderIDCxx::PSNormalMapMacroASSpecularMap,
            21 => PixelShaderIDCxx::PSNormalMapDetailMacroASSpecularMap,
            22 => PixelShaderIDCxx::PSNormalMapSpecularDIMap,
            23 => PixelShaderIDCxx::PSNormalMapDetailSpecularDIMap,
            24 => PixelShaderIDCxx::PSNormalMapMacroASSpecularDIMap,
            25 => PixelShaderIDCxx::PSNormalMapDetailMacroASSpecularDIMap,
            26 => PixelShaderIDCxx::PSTerrain1,
            27 => PixelShaderIDCxx::PSTerrain2,
            28 => PixelShaderIDCxx::PSTerrain3,
            29 => PixelShaderIDCxx::PSTerrain4,
            30 => PixelShaderIDCxx::PSTerrain5,
            31 => PixelShaderIDCxx::PSTerrain6,
            32 => PixelShaderIDCxx::PSTerrain7,
            33 => PixelShaderIDCxx::PSTerrain8,
            34 => PixelShaderIDCxx::PSTerrain9,
            35 => PixelShaderIDCxx::PSTerrain10,
            36 => PixelShaderIDCxx::PSTerrain11,
            37 => PixelShaderIDCxx::PSTerrain12,
            38 => PixelShaderIDCxx::PSTerrain13,
            39 => PixelShaderIDCxx::PSTerrain14,
            40 => PixelShaderIDCxx::PSTerrain15,
            41 => PixelShaderIDCxx::PSTerrainSimple1,
            42 => PixelShaderIDCxx::PSTerrainSimple2,
            43 => PixelShaderIDCxx::PSTerrainSimple3,
            44 => PixelShaderIDCxx::PSTerrainSimple4,
            45 => PixelShaderIDCxx::PSTerrainSimple5,
            46 => PixelShaderIDCxx::PSTerrainSimple6,
            47 => PixelShaderIDCxx::PSTerrainSimple7,
            48 => PixelShaderIDCxx::PSTerrainSimple8,
            49 => PixelShaderIDCxx::PSTerrainSimple9,
            50 => PixelShaderIDCxx::PSTerrainSimple10,
            51 => PixelShaderIDCxx::PSTerrainSimple11,
            52 => PixelShaderIDCxx::PSTerrainSimple12,
            53 => PixelShaderIDCxx::PSTerrainSimple13,
            54 => PixelShaderIDCxx::PSTerrainSimple14,
            55 => PixelShaderIDCxx::PSTerrainSimple15,
            56 => PixelShaderIDCxx::PSGlass,
            57 => PixelShaderIDCxx::PSNonTL,
            58 => PixelShaderIDCxx::PSNormalMapSpecularThrough,
            59 => PixelShaderIDCxx::PSGrass,
            60 => PixelShaderIDCxx::PSNormalMapThroughSimple,
            61 => PixelShaderIDCxx::PSNormalMapSpecularThroughSimple,
            62 => PixelShaderIDCxx::PSRoad,
            63 => PixelShaderIDCxx::PSShore,
            64 => PixelShaderIDCxx::PSShoreWet,
            65 => PixelShaderIDCxx::PSRoad2Pass,
            66 => PixelShaderIDCxx::PSShoreFoam,
            67 => PixelShaderIDCxx::PSNonTLFlare,
            68 => PixelShaderIDCxx::PSNormalMapThroughLowEnd,
            69 => PixelShaderIDCxx::PSTerrainGrass1,
            70 => PixelShaderIDCxx::PSTerrainGrass2,
            71 => PixelShaderIDCxx::PSTerrainGrass3,
            72 => PixelShaderIDCxx::PSTerrainGrass4,
            73 => PixelShaderIDCxx::PSTerrainGrass5,
            74 => PixelShaderIDCxx::PSTerrainGrass6,
            75 => PixelShaderIDCxx::PSTerrainGrass7,
            76 => PixelShaderIDCxx::PSTerrainGrass8,
            77 => PixelShaderIDCxx::PSTerrainGrass9,
            78 => PixelShaderIDCxx::PSTerrainGrass10,
            79 => PixelShaderIDCxx::PSTerrainGrass11,
            80 => PixelShaderIDCxx::PSTerrainGrass12,
            81 => PixelShaderIDCxx::PSTerrainGrass13,
            82 => PixelShaderIDCxx::PSTerrainGrass14,
            83 => PixelShaderIDCxx::PSTerrainGrass15,
            84 => PixelShaderIDCxx::PSCrater1,
            85 => PixelShaderIDCxx::PSCrater2,
            86 => PixelShaderIDCxx::PSCrater3,
            87 => PixelShaderIDCxx::PSCrater4,
            88 => PixelShaderIDCxx::PSCrater5,
            89 => PixelShaderIDCxx::PSCrater6,
            90 => PixelShaderIDCxx::PSCrater7,
            91 => PixelShaderIDCxx::PSCrater8,
            92 => PixelShaderIDCxx::PSCrater9,
            93 => PixelShaderIDCxx::PSCrater10,
            94 => PixelShaderIDCxx::PSCrater11,
            95 => PixelShaderIDCxx::PSCrater12,
            96 => PixelShaderIDCxx::PSCrater13,
            97 => PixelShaderIDCxx::PSCrater14,
            98 => PixelShaderIDCxx::PSSprite,
            99 => PixelShaderIDCxx::PSSpriteSimple,
            100 => PixelShaderIDCxx::PSCloud,
            101 => PixelShaderIDCxx::PSHorizon,
            102 => PixelShaderIDCxx::PSSuper,
            103 => PixelShaderIDCxx::PSMulti,
            104 => PixelShaderIDCxx::PSTerrainX,
            105 => PixelShaderIDCxx::PSTerrainSimpleX,
            106 => PixelShaderIDCxx::PSTerrainGrassX,
            107 => PixelShaderIDCxx::PSTree,
            108 => PixelShaderIDCxx::PSTreePRT,
            109 => PixelShaderIDCxx::PSTreeSimple,
            110 => PixelShaderIDCxx::PSSkin,
            111 => PixelShaderIDCxx::PSCalmWater,
            112 => PixelShaderIDCxx::PSTreeAToC,
            113 => PixelShaderIDCxx::PSGrassAToC,
            114 => PixelShaderIDCxx::PSTreeAdv,
            115 => PixelShaderIDCxx::PSTreeAdvSimple,
            116 => PixelShaderIDCxx::PSTreeAdvTrunk,
            117 => PixelShaderIDCxx::PSTreeAdvTrunkSimple,
            118 => PixelShaderIDCxx::PSTreeAdvAToC,
            119 => PixelShaderIDCxx::PSTreeAdvSimpleAToC,
            120 => PixelShaderIDCxx::PSTreeSN,
            121 => PixelShaderIDCxx::PSSpriteExtTi,
            122 => PixelShaderIDCxx::PSTerrainSNX,
            123 => PixelShaderIDCxx::PSSimulWeatherClouds,
            124 => PixelShaderIDCxx::PSSimulWeatherCloudsWithLightning,
            125 => PixelShaderIDCxx::PSSimulWeatherCloudsCPU,
            126 => PixelShaderIDCxx::PSSimulWeatherCloudsWithLightningCPU,
            127 => PixelShaderIDCxx::PSSuperExt,
            128 => PixelShaderIDCxx::PSSuperAToC,
            129 => PixelShaderIDCxx::NPixelShaderID,
            0xffff_ffff => PixelShaderIDCxx::PSUninitialized,
            _ => PixelShaderIDCxx::Unknown(c),
        }
    }

    /// The code that this value stands for.
    pub fn code(&self) -> (r: u32)
        ensures
            r == self.spec_code(),
    {
        match *self {
            PixelShaderIDCxx::PSNormal => 0,
            PixelShaderIDCxx::PSNormalDXTA => 1,
            PixelShaderIDCxx::PSNormalMap => 2,
            PixelShaderIDCxx::PSNormalMapThrough => 3,
            PixelShaderIDCxx::PSNormalMapGrass => 4,
            PixelShaderIDCxx::PSNormalMapDiffuse => 5,
            PixelShaderIDCxx::PSDetail => 6,
            PixelShaderIDCxx::PSInterpolation => 7,
            PixelShaderIDCxx::PSWater => 8,
            PixelShaderIDCxx::PSWaterSimple => 9,
            PixelShaderIDCxx::PSWhite => 10,
            PixelShaderIDCxx::PSWhiteAlpha => 11,
            PixelShaderIDCxx::PSAlphaShadow => 12,
            PixelShaderIDCxx::PSAlphaNoShadow => 13,
            PixelShaderIDCxx::PSDummy0 => 14,
            PixelShaderIDCxx::PSDetailMacroAS => 15,
            PixelShaderIDCxx::PSNormalMapMacroAS => 16,
            PixelShaderIDCxx::PSNormalMapDiffuseMacroAS => 17,
            PixelShaderIDCxx::PSNormalMapSpecularMap => 18,
            PixelShaderIDCxx::PSNormalMapDetailSpecularMap => 19,
            PixelShaderIDCxx::PSNormalMapMacroASSpecularMap => 20,
            PixelShaderIDCxx::PSNormalMapDetailMacroASSpecularMap => 21,
            PixelShaderIDCxx::PSNormalMapSpecularDIMap => 22,
            PixelShaderIDCxx::PSNormalMapDetailSpecularDIMap => 23,
            PixelShaderIDCxx::PSNormalMapMacroASSpecularDIMap => 24,
            PixelShaderIDCxx::PSNormalMapDetailMacroASSpecularDIMap => 25,
            PixelShaderIDCxx::PSTerrain1 => 26,
            PixelShaderIDCxx::PSTerrain2 => 27,
            PixelShaderIDCxx::PSTerrain3 => 28,
            PixelShaderIDCxx::PSTerrain4 => 29,
            PixelShaderIDCxx::PSTerrain5 => 30,
            PixelShaderIDCxx::PSTerrain6 => 31,
            PixelShaderIDCxx::PSTerrain7 => 32,
            PixelShaderIDCxx::PSTerrain8 => 33,
            PixelShaderIDCxx::PSTerrain9 => 34,
            PixelShaderIDCxx::PSTerrain10 => 35,
            PixelShaderIDCxx::PSTerrain11 => 36,
            PixelShaderIDCxx::PSTerrain12 => 37,
            PixelShaderIDCxx::PSTerrain13 => 38,
            PixelShaderIDCxx::PSTerrain14 => 39,
            PixelShaderIDCxx::PSTerrain15 => 40,
            PixelShaderIDCxx::PSTerrainSimple1 => 41,
            PixelShaderIDCxx::PSTerrainSimple2 => 42,
            PixelShaderIDCxx::PSTerrainSimple3 => 43,
            PixelShaderIDCxx::PSTerrainSimple4 => 44,
            PixelShaderIDCxx::PSTerrainSimple5 => 45,
            PixelShaderIDCxx::PSTerrainSimple6 => 46,
            PixelShaderIDCxx::PSTerrainSimple7 => 47,
            PixelShaderIDCxx::PSTerrainSimple8 => 48,
            PixelShaderIDCxx::PSTerrainSimple9 => 49,
            PixelShaderIDCxx::PSTerrainSimple10 => 50,
            PixelShaderIDCxx::PSTerrainSimple11 => 51,
            PixelShaderIDCxx::PSTerrainSimple12 => 52,
            PixelShaderIDCxx::PSTerrainSimple13 => 53,
            PixelShaderIDCxx::PSTerrainSimple14 => 54,
            PixelShaderIDCxx::PSTerrainSimple15 => 55,
            PixelShaderIDCxx::PSGlass => 56,
            PixelShaderIDCxx::PSNonTL => 57,
            PixelShaderIDCxx::PSNormalMapSpecularThrough => 58,
            PixelShaderIDCxx::PSGrass => 59,
            PixelShaderIDCxx::PSNormalMapThroughSimple => 60,
            PixelShaderIDCxx::PSNormalMapSpecularThroughSimple => 61,
            PixelShaderIDCxx::PSRoad => 62,
            PixelShaderIDCxx::PSShore => 63,
            PixelShaderIDCxx::PSShoreWet => 64,
            PixelShaderIDCxx::PSRoad2Pass => 65,
            PixelShaderIDCxx::PSShoreFoam => 66,
            PixelShaderIDCxx::PSNonTLFlare => 67,
            PixelShaderIDCxx::PSNormalMapThroughLowEnd => 68,
            PixelShaderIDCxx::PSTerrainGrass1 => 69,
            PixelShaderIDCxx::PSTerrainGrass2 => 70,
            PixelShaderIDCxx::PSTerrainGrass3 => 71,
            PixelShaderIDCxx::PSTerrainGrass4 => 72,
            PixelShaderIDCxx::PSTerrainGrass5 => 73,
            PixelShaderIDCxx::PSTerrainGrass6 => 74,
            PixelShaderIDCxx::PSTerrainGrass7 => 75,
            PixelShaderIDCxx::PSTerrainGrass8 => 76,
            PixelShaderIDCxx::PSTerrainGrass9 => 77,
            PixelShaderIDCxx::PSTerrainGrass10 => 78,
            PixelShaderIDCxx::PSTerrainGrass11 => 79,
            PixelShaderIDCxx::PSTerrainGrass12 => 80,
            PixelShaderIDCxx::PSTerrainGrass13 => 81,
            PixelShaderIDCxx::PSTerrainGrass14 => 82,
            PixelShaderIDCxx::PSTerrainGrass15 => 83,
            PixelShaderIDCxx::PSCrater1 => 84,
            PixelShaderIDCxx::PSCrater2 => 85,
            PixelShaderIDCxx::PSCrater3 => 86,
            PixelShaderIDCxx::PSCrater4 => 87,
            PixelShaderIDCxx::PSCrater5 => 88,
            PixelShaderIDCxx::PSCrater6 => 89,
            PixelShaderIDCxx::PSCrater7 => 90,
            PixelShaderIDCxx::PSCrater8 => 91,
            PixelShaderIDCxx::PSCrater9 => 92,
            PixelShaderIDCxx::PSCrater10 => 93,
            PixelShaderIDCxx::PSCrater11 => 94,
            PixelShaderIDCxx::PSCrater12 => 95,
            PixelShaderIDCxx::PSCrater13 => 96,
            PixelShaderIDCxx::PSCrater14 => 97,
            PixelShaderIDCxx::PSSprite => 98,
            PixelShaderIDCxx::PSSpriteSimple => 99,
            PixelShaderIDCxx::PSCloud => 100,
            PixelShaderIDCxx::PSHorizon => 101,
            PixelShaderIDCxx::PSSuper => 102,
            PixelShaderIDCxx::PSMulti => 103,
            PixelShaderIDCxx::PSTerrainX => 104,
            PixelShaderIDCxx::PSTerrainSimpleX => 105,
            PixelShaderIDCxx::PSTerrainGrassX => 106,
            PixelShaderIDCxx::PSTree => 107,
            PixelShaderIDCxx::PSTreePRT => 108,
            PixelShaderIDCxx::PSTreeSimple => 109,
            PixelShaderIDCxx::PSSkin => 110,
            PixelShaderIDCxx::PSCalmWater => 111,
            PixelShaderIDCxx::PSTreeAToC => 112,
            PixelShaderIDCxx::PSGrassAToC => 113,
            PixelShaderIDCxx::PSTreeAdv => 114,
            PixelShaderIDCxx::PSTreeAdvSimple => 115,
            PixelShaderIDCxx::PSTreeAdvTrunk => 116,
            PixelShaderIDCxx::PSTreeAdvTrunkSimple => 117,
            PixelShaderIDCxx::PSTreeAdvAToC => 118,
            PixelShaderIDCxx::PSTreeAdvSimpleAToC => 119,
            PixelShaderIDCxx::PSTreeSN => 120,
            PixelShaderIDCxx::PSSpriteExtTi => 121,
            PixelShaderIDCxx::PSTerrainSNX => 122,
            PixelShaderIDCxx::PSSimulWeatherClouds => 123,
            PixelShaderIDCxx::PSSimulWeatherCloudsWithLightning => 124,
            PixelShaderIDCxx::PSSimulWeatherCloudsCPU => 125,
            PixelShaderIDCxx::PSSimulWeatherCloudsWithLightningCPU => 126,
            PixelShaderIDCxx::PSSuperExt => 127,
            PixelShaderIDCxx::PSSuperAToC => 128,
            PixelShaderIDCxx::NPixelShaderID => 129,
            PixelShaderIDCxx::PSUninitialized => 0xffff_ffff,
            PixelShaderIDCxx::Unknown(c) => c,
        }
    }

    /// A known code resolves to its named variant and back to itself; any
    /// other code resolves to `Unknown`, which keeps it.
    pub proof fn lemma_resolve(c: u32)
        ensures
            Self::in_domain(c) ==> !(Self::spec_from_code(c) is Unknown),
            !Self::in_domain(c) ==> Self::spec_from_code(c) == PixelShaderIDCxx::Unknown(c),
            Self::spec_from_code(c).spec_code() == c,
    {
    }
}

/// Vertex shader of a material. A code outside the known set is kept in `Unknown`.
#[allow(non_camel_case_types)]
#[derive(Debug, Clone, Copy, PartialEq, Eq, Structural)]
pub enum VertexShaderIDEnumCxx {
    VSBasic,
    VSNormalMap,
    VSNormalMapDiffuse,
    VSGrass,
    VSDummy1,
    VSDummy2,
    VSShadowVolume,
    VSWater,
    VSWaterSimple,
    VSSprite,
    VSPoint,
    VSNormalMapThrough,
    VSDummy3,
    VSTerrain,
    VSBasicAS,
    VSNormalMapAS,
    VSNormalMapDiffuseAS,
    VSGlass,
    VSNormalMapSpecularThrough,
    VSNormalMapThroughNoFade,
    VSNormalMapSpecularThroughNoFade,
    VSShore,
    VSTerrainGrass,
    VSSuper,
    VSMulti,
    VSTree,
    VSTreeNoFade,
    VSTreePRT,
    VSTreePRTNoFade,
    VSSkin,
    VSCalmWater,
    VSTreeAdv,
    VSTreeAdvTrunk,
    VSSimulWeatherClouds,
    VSSimulWeatherCloudsCPU,
    NVertexShaderID,
    Unknown(u32),
}

impl VertexShaderIDEnumCxx {
    /// Whether `c` is one of the codes that this enum names.
    pub open spec fn in_domain(c: u32) -> bool {
        c < 36
    }

    pub open spec fn spec_from_code(c: u32) -> Self {
        match c {
            0 => VertexShaderIDEnumCxx::VSBasic,
            1 => VertexShaderIDEnumCxx::VSNormalMap,
            2 => VertexShaderIDEnumCxx::VSNormalMapDiffuse,
            3 => VertexShaderIDEnumCxx::VSGrass,
            4 => VertexShaderIDEnumCxx::VSDummy1,
            5 => VertexShaderIDEnumCxx::VSDummy2,
            6 => VertexShaderIDEnumCxx::VSShadowVolume,
            7 => VertexShaderIDEnumCxx::VSWater,
            8 => VertexShaderIDEnumCxx::VSWaterSimple,
            9 => VertexShaderIDEnumCxx::VSSprite,
            10 => VertexShaderIDEnumCxx::VSPoint,
            11 => VertexShaderIDEnumCxx::VSNormalMapThrough,
            12 => VertexShaderIDEnumCxx::VSDummy3,
            13 => VertexShaderIDEnumCxx::VSTerrain,
            14 => VertexShaderIDEnumCxx::VSBasicAS,
            15 => VertexShaderIDEnumCxx::VSNormalMapAS,
            16 => VertexShaderIDEnumCxx::VSNormalMapDiffuseAS,
            17 => VertexShaderIDEnumCxx::VSGlass,
            18 => VertexShaderIDEnumCxx::VSNormalMapSpecularThrough,
            19 => VertexShaderIDEnumCxx::VSNormalMapThroughNoFade,
            20 => VertexShaderIDEnumCxx::VSNormalMapSpecularThroughNoFade,
            21 => VertexShaderIDEnumCxx::VSShore,
            22 => VertexShaderIDEnumCxx::VSTerrainGrass,
            23 => VertexShaderIDEnumCxx::VSSuper,
            24 => VertexShaderIDEnumCxx::VSMulti,
            25 => VertexShaderIDEnumCxx::VSTree,
            26 => VertexShaderIDEnumCxx::VSTreeNoFade,
            27 => VertexShaderIDEnumCxx::VSTreePRT,
            28 => VertexShaderIDEnumCxx::VSTreePRTNoFade,
            29 => VertexShaderIDEnumCxx::VSSkin,
            30 => VertexShaderIDEnumCxx::VSCalmWater,
            31 => VertexShaderIDEnumCxx::VSTreeAdv,
            32 => VertexShaderIDEnumCxx::VSTreeAdvTrunk,
            33 => VertexShaderIDEnumCxx::VSSimulWeatherClouds,
            34 => VertexShaderIDEnumCxx::VSSimulWeatherCloudsCPU,
            35 => VertexShaderIDEnumCxx::NVertexShaderID,
            _ => VertexShaderIDEnumCxx::Unknown(c),
        }
    }

    pub open spec fn spec_code(self) -> u32 {
        match self {
            VertexShaderIDEnumCxx::VSBasic => 0,
            VertexShaderIDEnumCxx::VSNormalMap => 1,
            VertexShaderIDEnumCxx::VSNormalMapDiffuse => 2,
            VertexShaderIDEnumCxx::VSGrass => 3,
            VertexShaderIDEnumCxx::VSDummy1 => 4,
            VertexShaderIDEnumCxx::VSDummy2 => 5,
            VertexShaderIDEnumCxx::VSShadowVolume => 6,
            VertexShaderIDEnumCxx::VSWater => 7,
            VertexShaderIDEnumCxx::VSWaterSimple => 8,
            VertexShaderIDEnumCxx::VSSprite => 9,
            VertexShaderIDEnumCxx::VSPoint => 10,
            VertexShaderIDEnumCxx::VSNormalMapThrough => 11,
            VertexShaderIDEnumCxx::VSDummy3 => 12,
            VertexShaderIDEnumCxx::VSTerrain => 13,
            VertexShaderIDEnumCxx::VSBasicAS => 14,
            VertexShaderIDEnumCxx::VSNormalMapAS => 15,
            VertexShaderIDEnumCxx::VSNormalMapDiffuseAS => 16,
            VertexShaderIDEnumCxx::VSGlass => 17,
            VertexShaderIDEnumCxx::VSNormalMapSpecularThrough => 18,
            VertexShaderIDEnumCxx::VSNormalMapThroughNoFade => 19,
            VertexShaderIDEnumCxx::VSNormalMapSpecularThroughNoFade => 20,
            VertexShaderIDEnumCxx::VSShore => 21,
            VertexShaderIDEnumCxx::VSTerrainGrass => 22,
            VertexShaderIDEnumCxx::VSSuper => 23,
            VertexShaderIDEnumCxx::VSMulti => 24,
            VertexShaderIDEnumCxx::VSTree => 25,
            VertexShaderIDEnumCxx::VSTreeNoFade => 26,
            VertexShaderIDEnumCxx::VSTreePRT => 27,
            VertexShaderIDEnumCxx::VSTreePRTNoFade => 28,
            VertexShaderIDEnumCxx::VSSkin => 29,
            VertexShaderIDEnumCxx::VSCalmWater => 30,
            VertexShaderIDEnumCxx::VSTreeAdv => 31,
            VertexShaderIDEnumCxx::VSTreeAdvTrunk => 32,
            VertexShaderIDEnumCxx::VSSimulWeatherClouds => 33,
            VertexShaderIDEnumCxx::VSSimulWeatherCloudsCPU => 34,
            VertexShaderIDEnumCxx::NVertexShaderID => 35,
            VertexShaderIDEnumCxx::Unknown(c) => c,
        }
    }

    /// Resolves a code read from the stream; never fails.
    pub fn from_code(c: u32) -> (r: Self)
        ensures
            r == Self::spec_from_code(c),
    {
        match c {
            0 => VertexShaderIDEnumCxx::VSBasic,
            1 => VertexShaderIDEnumCxx::VSNormalMap,
            2 => VertexShaderIDEnumCxx::VSNormalMapDiffuse,
            3 => VertexShaderIDEnumCxx::VSGrass,
            4 => VertexShaderIDEnumCxx::VSDummy1,
            5 => VertexShaderIDEnumCxx::VSDummy2,
            6 => VertexShaderIDEnumCxx::VSShadowVolume,
            7 => VertexShaderIDEnumCxx::VSWater,
            8 => VertexShaderIDEnumCxx::VSWaterSimple,
            9 => VertexShaderIDEnumCxx::VSSprite,
            10 => VertexShaderIDEnumCxx::VSPoint,
            11 => VertexShaderIDEnumCxx::VSNormalMapThrough,
            12 => VertexShaderIDEnumCxx::VSDummy3,
            13 => VertexShaderIDEnumCxx::VSTerrain,
            14 => VertexShaderIDEnumCxx::VSBasicAS,
            15 => VertexShaderIDEnumCxx::VSNormalMapAS,
            16 => VertexShaderIDEnumCxx::VSNormalMapDiffuseAS,
            17 => VertexShaderIDEnumCxx::VSGlass,
            18 => VertexShaderIDEnumCxx::VSNormalMapSpecularThrough,
            19 => VertexShaderIDEnumCxx::VSNormalMapThroughNoFade,
            20 => VertexShaderIDEnumCxx::VSNormalMapSpecularThroughNoFade,
            21 => VertexShaderIDEnumCxx::VSShore,
            22 => VertexShaderIDEnumCxx::VSTerrainGrass,
            23 => VertexShaderIDEnumCxx::VSSuper,
            24 => VertexShaderIDEnumCxx::VSMulti,
            25 => VertexShaderIDEnumCxx::VSTree,
            26 => VertexShaderIDEnumCxx::VSTreeNoFade,
            27 => VertexShaderIDEnumCxx::VSTreePRT,
            28 => VertexShaderIDEnumCxx::VSTreePRTNoFade,
            29 => VertexShaderIDEnumCxx::VSSkin,
            30 => VertexShaderIDEnumCxx::VSCalmWater,
            31 => VertexShaderIDEnumCxx::VSTreeAdv,
            32 => VertexShaderIDEnumCxx::VSTreeAdvTrunk,
            33 => VertexShaderIDEnumCxx::VSSimulWeatherClouds,
            34 => VertexShaderIDEnumCxx::VSSimulWeatherCloudsCPU,
            35 => VertexShaderIDEnumCxx::NVertexShaderID,
            _ => VertexShaderIDEnumCxx::Unknown(c),
        }
    }

    /// The code that this value stands for.
    pub fn code(&self) -> (r: u32)
        ensures
            r == self.spec_code(),
    {
        match *self {
            VertexShaderIDEnumCxx::VSBasic => 0,
            VertexShaderIDEnumCxx::VSNormalMap => 1,
            VertexShaderIDEnumCxx::VSNormalMapDiffuse => 2,
            VertexShaderIDEnumCxx::VSGrass => 3,
            VertexShaderIDEnumCxx::VSDummy1 => 4,
            VertexShaderIDEnumCxx::VSDummy2 => 5,
            VertexShaderIDEnumCxx::VSShadowVolume => 6,
            VertexShaderIDEnumCxx::VSWater => 7,
            VertexShaderIDEnumCxx::VSWaterSimple => 8,
            VertexShaderIDEnumCxx::VSSprite => 9,
            VertexShaderIDEnumCxx::VSPoint => 10,
            VertexShaderIDEnumCxx::VSNormalMapThrough => 11,
            VertexShaderIDEnumCxx::VSDummy3 => 12,
            VertexShaderIDEnumCxx::VSTerrain => 13,
            VertexShaderIDEnumCxx::VSBasicAS => 14,
            VertexShaderIDEnumCxx::VSNormalMapAS => 15,
            VertexShaderIDEnumCxx::VSNormalMapDiffuseAS => 16,
            VertexShaderIDEnumCxx::VSGlass => 17,
            VertexShaderIDEnumCxx::VSNormalMapSpecularThrough => 18,
            VertexShaderIDEnumCxx::VSNormalMapThroughNoFade => 19,
            VertexShaderIDEnumCxx::VSNormalMapSpecularThroughNoFade => 20,
            VertexShaderIDEnumCxx::VSShore => 21,
            VertexShaderIDEnumCxx::VSTerrainGrass => 22,
            VertexShaderIDEnumCxx::VSSuper => 23,
            VertexShaderIDEnumCxx::VSMulti => 24,
            VertexShaderIDEnumCxx::VSTree => 25,
            VertexShaderIDEnumCxx::VSTreeNoFade => 26,
            VertexShaderIDEnumCxx::VSTreePRT => 27,
            VertexShaderIDEnumCxx::VSTreePRTNoFade => 28,
            VertexShaderIDEnumCxx::VSSkin => 29,
            VertexShaderIDEnumCxx::VSCalmWater => 30,
            VertexShaderIDEnumCxx::VSTreeAdv => 31,
            VertexShaderIDEnumCxx::VSTreeAdvTrunk => 32,
            VertexShaderIDEnumCxx::VSSimulWeatherClouds => 33,
            VertexShaderIDEnumCxx::VSSimulWeatherCloudsCPU => 34,
            VertexShaderIDEnumCxx::NVertexShaderID => 35,
            VertexShaderIDEnumCxx::Unknown(c) => c,
        }
    }

    /// A known code resolves to its named variant and back to itself; any
    /// other code resolves to `Unknown`, which keeps it.
    pub proof fn lemma_resolve(c: u32)
        ensures
            Self::in_domain(c) ==> !(Self::spec_from_code(c) is Unknown),
            !Self::in_domain(c) ==> Self::spec_from_code(c) == VertexShaderIDEnumCxx::Unknown(c),
            Self::spec_from_code(c).spec_code() == c,
    {
    }
}

/// Source of the texture coordinates of a stage. A code outside the known set is kept in `Unknown`.
#[allow(non_camel_case_types)]
#[derive(Debug, Clone, Copy, PartialEq, Eq, Structural)]
pub enum UVSourceCxx {
    UVNone,
    UVTex,
    UVTexWaterAnim,
    UVPos,
    UVNorm,
    UVTex1,
    UVWorldPos,
    UVWorldNorm,
    UVTexShoreAnim,
    NUVSource,
    Unknown(u32),
}

impl UVSourceCxx {
    /// Whether `c` is one of the codes that this enum names.
    pub open spec fn in_domain(c: u32) -> bool {
        c < 10
    }

    pub open spec fn spec_from_code(c: u32) -> Self {
        match c {
            0 => UVSourceCxx::UVNone,
            1 => UVSourceCxx::UVTex,
            2 => UVSourceCxx::UVTexWaterAnim,
            3 => UVSourceCxx::UVPos,
            4 => UVSourceCxx::UVNorm,
            5 => UVSourceCxx::UVTex1,
            6 => UVSourceCxx::UVWorldPos,
            7 => UVSourceCxx::UVWorldNorm,
            8 => UVSourceCxx::UVTexShoreAnim,
            9 => UVSourceCxx::NUVSource,
            _ => UVSourceCxx::Unknown(c),
        }
    }

    pub open spec fn spec_code(self) -> u32 {
        match self {
            UVSourceCxx::UVNone => 0,
            UVSourceCxx::UVTex => 1,
            UVSourceCxx::UVTexWaterAnim => 2,
            UVSourceCxx::UVPos => 3,
            UVSourceCxx::UVNorm => 4,
            UVSourceCxx::UVTex1 => 5,
            UVSourceCxx::UVWorldPos => 6,
            UVSourceCxx::UVWorldNorm => 7,
            UVSourceCxx::UVTexShoreAnim => 8,
            UVSourceCxx::NUVSource => 9,
            UVSourceCxx::Unknown(c) => c,
        }
    }

    /// Resolves a code read from the stream; never fails.
    pub fn from_code(c: u32) -> (r: Self)
        ensures
            r == Self::spec_from_code(c),
    {
        match c {
            0 => UVSourceCxx::UVNone,
            1 => UVSourceCxx::UVTex,
            2 => UVSourceCxx::UVTexWaterAnim,
            3 => UVSourceCxx::UVPos,
            4 => UVSourceCxx::UVNorm,
            5 => UVSourceCxx::UVTex1,
            6 => UVSourceCxx::UVWorldPos,
            7 => UVSourceCxx::UVWorldNorm,
            8 => UVSourceCxx::UVTexShoreAnim,
            9 => UVSourceCxx::NUVSource,
            _ => UVSourceCxx::Unknown(c),
        }
    }

    /// The code that this value stands for.
    pub fn code(&self) -> (r: u32)
        ensures
            r == self.spec_code(),
    {
        match *self {
            UVSourceCxx::UVNone => 0,
            UVSourceCxx::UVTex => 1,
            UVSourceCxx::UVTexWaterAnim => 2,
            UVSourceCxx::UVPos => 3,
            UVSourceCxx::UVNorm => 4,
            UVSourceCxx::UVTex1 => 5,
            UVSourceCxx::UVWorldPos => 6,
            UVSourceCxx::UVWorldNorm => 7,
            UVSourceCxx::UVTexShoreAnim => 8,
            UVSourceCxx::NUVSource => 9,
            UVSourceCxx::Unknown(c) => c,
        }
    }

    /// A known code resolves to its named variant and back to itself; any
    /// other code resolves to `Unknown`, which keeps it.
    pub proof fn lemma_resolve(c: u32)
        ensures
            Self::in_domain(c) ==> !(Self::spec_from_code(c) is Unknown),
            !Self::in_domain(c) ==> Self::spec_from_code(c) == UVSourceCxx::Unknown(c),
            Self::spec_from_code(c).spec_code() == c,
    {
    }
}

/// Texture filter of a stage. A code outside the known set is kept in `Unknown`.
#[allow(non_camel_case_types)]
#[derive(Debug, Clone, Copy, PartialEq, Eq, Structural)]
pub enum TextureFilterTypeCxx {
    Point,
    Linear,
    Triliniear,
    Anisotropic,
    Unknown(u32),
}

impl TextureFilterTypeCxx {
    /// Whether `c` is one of the codes that this enum names.
    pub open spec fn in_domain(c: u32) -> bool {
        c < 4
    }

    pub open spec fn spec_from_code(c: u32) -> Self {
        match c {
            0 => TextureFilterTypeCxx::Point,
            1 => TextureFilterTypeCxx::Linear,
            2 => TextureFilterTypeCxx::Triliniear,
            3 => TextureFilterTypeCxx::Anisotropic,
            _ => TextureFilterTypeCxx::Unknown(c),
        }
    }

    pub open spec fn spec_code(self) -> u32 {
        match self {
            TextureFilterTypeCxx::Point => 0,
            TextureFilterTypeCxx::Linear => 1,
            TextureFilterTypeCxx::Triliniear => 2,
            TextureFilterTypeCxx::Anisotropic => 3,
            TextureFilterTypeCxx::Unknown(c) => c,
        }
    }

    /// Resolves a code read from the stream; never fails.
    pub fn from_code(c: u32) -> (r: Self)
        ensures
            r == Self::spec_from_code(c),
    {
        match c {
            0 => TextureFilterTypeCxx::Point,
            1 => TextureFilterTypeCxx::Linear,
            2 => TextureFilterTypeCxx::Triliniear,
            3 => TextureFilterTypeCxx::Anisotropic,
            _ => TextureFilterTypeCxx::Unknown(c),
        }
    }

    /// The code that this value stands for.
    pub fn code(&self) -> (r: u32)
        ensures
            r == self.spec_code(),
    {
        match *self {
            TextureFilterTypeCxx::Point => 0,
            TextureFilterTypeCxx::Linear => 1,
            TextureFilterTypeCxx::Triliniear => 2,
            TextureFilterTypeCxx::Anisotropic => 3,
            TextureFilterTypeCxx::Unknown(c) => c,
        }
    }

    /// A known code resolves to its named variant and back to itself; any
    /// other code resolves to `Unknown`, which keeps it.
    pub proof fn lemma_resolve(c: u32)
        ensures
            Self::in_domain(c) ==> !(Self::spec_from_code(c) is Unknown),
            !Self::in_domain(c) ==> Self::spec_from_code(c) == TextureFilterTypeCxx::Unknown(c),
            Self::spec_from_code(c).spec_code() == c,
    {
    }
}

/// Source of a shadow buffer. A code outside the known set is kept in `Unknown`.
#[allow(non_camel_case_types)]
#[derive(Debug, Clone, Copy, PartialEq, Eq, Structural)]
pub enum SBSourceCxx {
    SBS_Visual,
    SBS_ShadowVolume,
    SBS_Explicit,
    SBS_None,
    SBS_VisualEx,
    Unknown(u32),
}

impl SBSourceCxx {
    /// Whether `c` is one of the codes that this enum names.
    pub open spec fn in_domain(c: u32) -> bool {
        c < 5
    }

    pub open spec fn spec_from_code(c: u32) -> Self {
        match c {
            0 => SBSourceCxx::SBS_Visual,
            1 => SBSourceCxx::SBS_ShadowVolume,
            2 => SBSourceCxx::SBS_Explicit,
            3 => SBSourceCxx::SBS_None,
            4 => SBSourceCxx::SBS_VisualEx,
            _ => SBSourceCxx::Unknown(c),
        }
    }

    pub open spec fn spec_code(self) -> u32 {
        match self {
            SBSourceCxx::SBS_Visual => 0,
            SBSourceCxx::SBS_ShadowVolume => 1,
            SBSourceCxx::SBS_Explicit => 2,
            SBSourceCxx::SBS_None => 3,
            SBSourceCxx::SBS_VisualEx => 4,
            SBSourceCxx::Unknown(c) => c,
        }
    }

    /// Resolves a code read from the stream; never fails.
    pub fn from_code(c: u32) -> (r: Self)
        ensures
            r == Self::spec_from_code(c),
    {
        match c {
            0 => SBSourceCxx::SBS_Visual,
            1 => SBSourceCxx::SBS_ShadowVolume,
            2 => SBSourceCxx::SBS_Explicit,
            3 => SBSourceCxx::SBS_None,
            4 => SBSourceCxx::SBS_VisualEx,
            _ => SBSourceCxx::Unknown(c),
        }
    }

    /// The code that this value stands for.
    pub fn code(&self) -> (r: u32)
        ensures
            r == self.spec_code(),
    {
        match *self {
            SBSourceCxx::SBS_Visual => 0,
            SBSourceCxx::SBS_ShadowVolume => 1,
            SBSourceCxx::SBS_Explicit => 2,
            SBSourceCxx::SBS_None => 3,
            SBSourceCxx::SBS_VisualEx => 4,
            SBSourceCxx::Unknown(c) => c,
        }
    }

    /// A known code resolves to its named variant and back to itself; any
    /// other code resolves to `Unknown`, which keeps it.
    pub proof fn lemma_resolve(c: u32)
        ensures
            Self::in_domain(c) ==> !(Self::spec_from_code(c) is Unknown),
            !Self::in_domain(c) ==> Self::spec_from_code(c) == SBSourceCxx::Unknown(c),
            Self::spec_from_code(c).spec_code() == c,
    {
    }
}

/// Map icon of a model. A code outside the known set is kept in `Unknown`.
#[allow(non_camel_case_types)]
#[derive(Debug, Clone, Copy, PartialEq, Eq, Structural)]
pub enum MapTypeCxx {
    MapTree,
    MapSmallTree,
    MapBush,
    MapBuilding,
    MapHouse,
    MapForestBorder,
    MapForestTriangle,
    MapForestSquare,
    MapChurch,
    MapChapel,
    MapCross,
    MapRock,
    MapBunker,
    MapFortress,
    MapFountain,
    MapViewTower,
    MapLighthouse,
    MapQuay,
    MapFuelstation,
    MapHospital,
    MapFence,
    MapWall,
    MapHide,
    MapBusStop,
    MapRoad,
    MapForest,
    MapTransmitter,
    MapStack,
    MapRuin,
    MapTourism,
    MapWatertower,
    MapTrack,
    MapMainRoad,
    MapRocks,
    MapPowerLines,
    MapRailWay,
    NMapTypes,
    Unknown(u32),
}

impl MapTypeCxx {
    /// Whether `c` is one of the codes that this enum names.
    pub open spec fn in_domain(c: u32) -> bool {
        c < 37
    }

    pub open spec fn spec_from_code(c: u32) -> Self {
        match c {
            0 => MapTypeCxx::MapTree,
            1 => MapTypeCxx::MapSmallTree,
            2 => MapTypeCxx::MapBush,
            3 => MapTypeCxx::MapBuilding,
            4 => MapTypeCxx::MapHouse,
            5 => MapTypeCxx::MapForestBorder,
            6 => MapTypeCxx::MapForestTriangle,
            7 => MapTypeCxx::MapForestSquare,
            8 => MapTypeCxx::MapChurch,
            9 => MapTypeCxx::MapChapel,
            10 => MapTypeCxx::MapCross,
            11 => MapTypeCxx::MapRock,
            12 => MapTypeCxx::MapBunker,
            13 => MapTypeCxx::MapFortress,
            14 => MapTypeCxx::MapFountain,
            15 => MapTypeCxx::MapViewTower,
            16 => MapTypeCxx::MapLighthouse,
            17 => MapTypeCxx::MapQuay,
            18 => MapTypeCxx::MapFuelstation,
            19 => MapTypeCxx::MapHospital,
            20 => MapTypeCxx::MapFence,
            21 => MapTypeCxx::MapWall,
            22 => MapTypeCxx::MapHide,
            23 => MapTypeCxx::MapBusStop,
            24 => MapTypeCxx::MapRoad,
            25 => MapTypeCxx::MapForest,
            26 => MapTypeCxx::MapTransmitter,
            27 => MapTypeCxx::MapStack,
            28 => MapTypeCxx::MapRuin,
            29 => MapTypeCxx::MapTourism,
            30 => MapTypeCxx::MapWatertower,
            31 => MapTypeCxx::MapTrack,
            32 => MapTypeCxx::MapMainRoad,
            33 => MapTypeCxx::MapRocks,
            34 => MapTypeCxx::MapPowerLines,
            35 => MapTypeCxx::MapRailWay,
            36 => MapTypeCxx::NMapTypes,
            _ => MapTypeCxx::Unknown(c),
        }
    }

    pub open spec fn spec_code(self) -> u32 {
        match self {
            MapTypeCxx::MapTree => 0,
            MapTypeCxx::MapSmallTree => 1,
            MapTypeCxx::MapBush => 2,
            MapTypeCxx::MapBuilding => 3,
            MapTypeCxx::MapHouse => 4,
            MapTypeCxx::MapForestBorder => 5,
            MapTypeCxx::MapForestTriangle => 6,
            MapTypeCxx::MapForestSquare => 7,
            MapTypeCxx::MapChurch => 8,
            MapTypeCxx::MapChapel => 9,
            MapTypeCxx::MapCross => 10,
            MapTypeCxx::MapRock => 11,
            MapTypeCxx::MapBunker => 12,
            MapTypeCxx::MapFortress => 13,
            MapTypeCxx::MapFountain => 14,
            MapTypeCxx::MapViewTower => 15,
            MapTypeCxx::MapLighthouse => 16,
            MapTypeCxx::MapQuay => 17,
            MapTypeCxx::MapFuelstation => 18,
            MapTypeCxx::MapHospital => 19,
            MapTypeCxx::MapFence => 20,
            MapTypeCxx::MapWall => 21,
            MapTypeCxx::MapHide => 22,
            MapTypeCxx::MapBusStop => 23,
            MapTypeCxx::MapRoad => 24,
            MapTypeCxx::MapForest => 25,
            MapTypeCxx::MapTransmitter => 26,
            MapTypeCxx::MapStack => 27,
            MapTypeCxx::MapRuin => 28,
            MapTypeCxx::MapTourism => 29,
            MapTypeCxx::MapWatertower => 30,
            MapTypeCxx::MapTrack => 31,
            MapTypeCxx::MapMainRoad => 32,
            MapTypeCxx::MapRocks => 33,
            MapTypeCxx::MapPowerLines => 34,
            MapTypeCxx::MapRailWay => 35,
            MapTypeCxx::NMapTypes => 36,
            MapTypeCxx::Unknown(c) => c,
        }
    }

    /// Resolves a code read from the stream; never fails.
    pub fn from_code(c: u32) -> (r: Self)
        ensures
            r == Self::spec_from_code(c),
    {
        match c {
            0 => MapTypeCxx::MapTree,
            1 => MapTypeCxx::MapSmallTree,
            2 => MapTypeCxx::MapBush,
            3 => MapTypeCxx::MapBuilding,
            4 => MapTypeCxx::MapHouse,
            5 => MapTypeCxx::MapForestBorder,
            6 => MapTypeCxx::MapForestTriangle,
            7 => MapTypeCxx::MapForestSquare,
            8 => MapTypeCxx::MapChurch,
            9 => MapTypeCxx::MapChapel,
            10 => MapTypeCxx::MapCross,
            11 => MapTypeCxx::MapRock,
            12 => MapTypeCxx::MapBunker,
            13 => MapTypeCxx::MapFortress,
            14 => MapTypeCxx::MapFountain,
            15 => MapTypeCxx::MapViewTower,
            16 => MapTypeCxx::MapLighthouse,
            17 => MapTypeCxx::MapQuay,
            18 => MapTypeCxx::MapFuelstation,
            19 => MapTypeCxx::MapHospital,
            20 => MapTypeCxx::MapFence,
            21 => MapTypeCxx::MapWall,
            22 => MapTypeCxx::MapHide,
            23 => MapTypeCxx::MapBusStop,
            24 => MapTypeCxx::MapRoad,
            25 => MapTypeCxx::MapForest,
            26 => MapTypeCxx::MapTransmitter,
            27 => MapTypeCxx::MapStack,
            28 => MapTypeCxx::MapRuin,
            29 => MapTypeCxx::MapTourism,
            30 => MapTypeCxx::MapWatertower,
            31 => MapTypeCxx::MapTrack,
            32 => MapTypeCxx::MapMainRoad,
            33 => MapTypeCxx::MapRocks,
            34 => MapTypeCxx::MapPowerLines,
            35 => MapTypeCxx::MapRailWay,
            36 => MapTypeCxx::NMapTypes,
            _ => MapTypeCxx::Unknown(c),
        }
    }

    /// The code that this value stands for.
    pub fn code(&self) -> (r: u32)
        ensures
            r == self.spec_code(),
    {
        match *self {
            MapTypeCxx::MapTree => 0,
            MapTypeCxx::MapSmallTree => 1,
            MapTypeCxx::MapBush => 2,
            MapTypeCxx::MapBuilding => 3,
            MapTypeCxx::MapHouse => 4,
            MapTypeCxx::MapForestBorder => 5,
            MapTypeCxx::MapForestTriangle => 6,
            MapTypeCxx::MapForestSquare => 7,
            MapTypeCxx::MapChurch => 8,
            MapTypeCxx::MapChapel => 9,
            MapTypeCxx::MapCross => 10,
            MapTypeCxx::MapRock => 11,
            MapTypeCxx::MapBunker => 12,
            MapTypeCxx::MapFortress => 13,
            MapTypeCxx::MapFountain => 14,
            MapTypeCxx::MapViewTower => 15,
            MapTypeCxx::MapLighthouse => 16,
            MapTypeCxx::MapQuay => 17,
            MapTypeCxx::MapFuelstation => 18,
            MapTypeCxx::MapHospital => 19,
            MapTypeCxx::MapFence => 20,
            MapTypeCxx::MapWall => 21,
            MapTypeCxx::MapHide => 22,
            MapTypeCxx::MapBusStop => 23,
            MapTypeCxx::MapRoad => 24,
            MapTypeCxx::MapForest => 25,
            MapTypeCxx::MapTransmitter => 26,
            MapTypeCxx::MapStack => 27,
            MapTypeCxx::MapRuin => 28,
            MapTypeCxx::MapTourism => 29,
            MapTypeCxx::MapWatertower => 30,
            MapTypeCxx::MapTrack => 31,
            MapTypeCxx::MapMainRoad => 32,
            MapTypeCxx::MapRocks => 33,
            MapTypeCxx::MapPowerLines => 34,
            MapTypeCxx::MapRailWay => 35,
            MapTypeCxx::NMapTypes => 36,
            MapTypeCxx::Unknown(c) => c,
        }
    }

    /// A known code resolves to its named variant and back to itself; any
    /// other code resolves to `Unknown`, which keeps it.
    pub proof fn lemma_resolve(c: u32)
        ensures
            Self::in_domain(c) ==> !(Self::spec_from_code(c) is Unknown),
            !Self::in_domain(c) ==> Self::spec_from_code(c) == MapTypeCxx::Unknown(c),
            Self::spec_from_code(c).spec_code() == c,
    {
    }
}

/// Transform kind of an animation class. A code outside the known set is kept in `Unknown`.
#[allow(non_camel_case_types)]
#[derive(Debug, Clone, Copy, PartialEq, Eq, Structural)]
pub enum AnimTypeCxx {
    Rotation,
    RotationX,
    RotationY,
    RotationZ,
    Translation,
    TranslationX,
    TranslationY,
    TranslationZ,
    Direct,
    Hide,
    Unknown(u32),
}

impl AnimTypeCxx {
    /// Whether `c` is one of the codes that this enum names.
    pub open spec fn in_domain(c: u32) -> bool {
        c < 10
    }

    pub open spec fn spec_from_code(c: u32) -> Self {
        match c {
            0 => AnimTypeCxx::Rotation,
            1 => AnimTypeCxx::RotationX,
            2 => AnimTypeCxx::RotationY,
            3 => AnimTypeCxx::RotationZ,
            4 => AnimTypeCxx::Translation,
            5 => AnimTypeCxx::TranslationX,
            6 => AnimTypeCxx::TranslationY,
            7 => AnimTypeCxx::TranslationZ,
            8 => AnimTypeCxx::Direct,
            9 => AnimTypeCxx::Hide,
            _ => AnimTypeCxx::Unknown(c),
        }
    }

    pub open spec fn spec_code(self) -> u32 {
        match self {
            AnimTypeCxx::Rotation => 0,
            AnimTypeCxx::RotationX => 1,
            AnimTypeCxx::RotationY => 2,
            AnimTypeCxx::RotationZ => 3,
            AnimTypeCxx::Translation => 4,
            AnimTypeCxx::TranslationX => 5,
            AnimTypeCxx::TranslationY => 6,
            AnimTypeCxx::TranslationZ => 7,
            AnimTypeCxx::Direct => 8,
            AnimTypeCxx::Hide => 9,
            AnimTypeCxx::Unknown(c) => c,
        }
    }

    /// Resolves a code read from the stream; never fails.
    pub fn from_code(c: u32) -> (r: Self)
        ensures
            r == Self::spec_from_code(c),
    {
        match c {
            0 => AnimTypeCxx::Rotation,
            1 => AnimTypeCxx::RotationX,
            2 => AnimTypeCxx::RotationY,
            3 => AnimTypeCxx::RotationZ,
            4 => AnimTypeCxx::Translation,
            5 => AnimTypeCxx::TranslationX,
            6 => AnimTypeCxx::TranslationY,
            7 => AnimTypeCxx::TranslationZ,
            8 => AnimTypeCxx::Direct,
            9 => AnimTypeCxx::Hide,
            _ => AnimTypeCxx::Unknown(c),
        }
    }

    /// The code that this value stands for.
    pub fn code(&self) -> (r: u32)
        ensures
            r == self.spec_code(),
    {
        match *self {
            AnimTypeCxx::Rotation => 0,
            AnimTypeCxx::RotationX => 1,
            AnimTypeCxx::RotationY => 2,
            AnimTypeCxx::RotationZ => 3,
            AnimTypeCxx::Translation => 4,
            AnimTypeCxx::TranslationX => 5,
            AnimTypeCxx::TranslationY => 6,
            AnimTypeCxx::TranslationZ => 7,
            AnimTypeCxx::Direct => 8,
            AnimTypeCxx::Hide => 9,
            AnimTypeCxx::Unknown(c) => c,
        }
    }

    /// A known code resolves to its named variant and back to itself; any
    /// other code resolves to `Unknown`, which keeps it.
    pub proof fn lemma_resolve(c: u32)
        ensures
            Self::in_domain(c) ==> !(Self::spec_from_code(c) is Unknown),
            !Self::in_domain(c) ==> Self::spec_from_code(c) == AnimTypeCxx::Unknown(c),
            Self::spec_from_code(c).spec_code() == c,
    {
    }
}

/// Phase addressing of an animation class. A code outside the known set is kept in `Unknown`.
#[allow(non_camel_case_types)]
#[derive(Debug, Clone, Copy, PartialEq, Eq, Structural)]
pub enum AnimAddressCxx {
    AnimClamp,
    AnimLoop,
    AnimMirror,
    NAnimAddress,
    Unknown(u32),
}

impl AnimAddressCxx {
    /// Whether `c` is one of the codes that this enum names.
    pub open spec fn in_domain(c: u32) -> bool {
        c < 4
    }

    pub open spec fn spec_from_code(c: u32) -> Self {
        match c {
            0 => AnimAddressCxx::AnimClamp,
            1 => AnimAddressCxx::AnimLoop,
            2 => AnimAddressCxx::AnimMirror,
            3 => AnimAddressCxx::NAnimAddress,
            _ => AnimAddressCxx::Unknown(c),
        }
    }

    pub open spec fn spec_code(self) -> u32 {
        match self {
            AnimAddressCxx::AnimClamp => 0,
            AnimAddressCxx::AnimLoop => 1,
            AnimAddressCxx::AnimMirror => 2,
            AnimAddressCxx::NAnimAddress => 3,
            AnimAddressCxx::Unknown(c) => c,
        }
    }

    /// Resolves a code read from the stream; never fails.
    pub fn from_code(c: u32) -> (r: Self)
        ensures
            r == Self::spec_from_code(c),
    {
        match c {
            0 => AnimAddressCxx::AnimClamp,
            1 => AnimAddressCxx::AnimLoop,
            2 => AnimAddressCxx::AnimMirror,
            3 => AnimAddressCxx::NAnimAddress,
            _ => AnimAddressCxx::Unknown(c),
        }
    }

    /// The code that this value stands for.
    pub fn code(&self) -> (r: u32)
        ensures
            r == self.spec_code(),
    {
        match *self {
            AnimAddressCxx::AnimClamp => 0,
            AnimAddressCxx::AnimLoop => 1,
            AnimAddressCxx::AnimMirror => 2,
            AnimAddressCxx::NAnimAddress => 3,
            AnimAddressCxx::Unknown(c) => c,
        }
    }

    /// A known code resolves to its named variant and back to itself; any
    /// other code resolves to `Unknown`, which keeps it.
    pub proof fn lemma_resolve(c: u32)
        ensures
            Self::in_domain(c) ==> !(Self::spec_from_code(c) is Unknown),
            !Self::in_domain(c) ==> Self::spec_from_code(c) == AnimAddressCxx::Unknown(c),
            Self::spec_from_code(c).spec_code() == c,
    {
    }
}

impl View for ResolutionEnumCxx {
    type V = ResolutionEnumCxx;

    open spec fn view(&self) -> ResolutionEnumCxx {
        *self
    }
}

impl View for ClipFlagsEnumCxx {
    type V = ClipFlagsEnumCxx;

    open spec fn view(&self) -> ClipFlagsEnumCxx {
        *self
    }
}

impl View for EFogModeCxx {
    type V = EFogModeCxx;

    open spec fn view(&self) -> EFogModeCxx {
        *self
    }
}

impl View for EMainLightCxx {
    type V = EMainLightCxx;

    open spec fn view(&self) -> EMainLightCxx {
        *self
    }
}

impl View for PixelShaderIDCxx {
    type V = PixelShaderIDCxx;

    open spec fn view(&self) -> PixelShaderIDCxx {
        *self
    }
}

impl View for VertexShaderIDEnumCxx {
    type V = VertexShaderIDEnumCxx;

    open spec fn view(&self) -> VertexShaderIDEnumCxx {
        *self
    }
}

impl View for UVSourceCxx {
    type V = UVSourceCxx;

    open spec fn view(&self) -> UVSourceCxx {
        *self
    }
}

impl View for TextureFilterTypeCxx {
    type V = TextureFilterTypeCxx;

    open spec fn view(&self) -> TextureFilterTypeCxx {
        *self
    }
}

impl View for SBSourceCxx {
    type V = SBSourceCxx;

    open spec fn view(&self) -> SBSourceCxx {
        *self
    }
}

impl View for MapTypeCxx {
    type V = MapTypeCxx;

    open spec fn view(&self) -> MapTypeCxx {
        *self
    }
}

impl View for AnimTypeCxx {
    type V = AnimTypeCxx;

    open spec fn view(&self) -> AnimTypeCxx {
        *self
    }
}

impl View for AnimAddressCxx {
    type V = AnimAddressCxx;

    open spec fn view(&self) -> AnimAddressCxx {
        *self
    }
}

impl View for VertextShaderIDCxx {
    type V = VertextShaderIDCxx;

    open spec fn view(&self) -> VertextShaderIDCxx {
        *self
    }
}

} // verus!
