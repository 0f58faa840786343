//! Named constants for the bit-flag and enumeration channels of a capture.
//! Bit-field channel values are opaque masks; callers AND them against the
//! flag values given here. Each enumeration lists its wire value beside it.

use vstd::prelude::*;

verus! {

/// Session flag bits carried by the session-flags channel.
#[derive(Clone, Copy, Debug)]
pub enum Flags {
    Checkered,
    White,
    Green,
    Yellow,
    Red,
    Blue,
    Debris,
    Crossed,
    YellowWaving,
    OneLapToGreen,
    GreenHeld,
    TenToGo,
    FiveToGo,
    RandomWaving,
    Caution,
    CautionWaving,
    Black,
    Disqualify,
    Servicible,
    Furled,
    Repair,
    StartHidden,
    StartReady,
    StartSet,
    StartGo,
}

impl Flags {
    /// The bit this flag occupies in the session-flags mask.
    pub open spec fn spec_value(self) -> u32 {
        match self {
            Flags::Checkered => 0x00000001,
            Flags::White => 0x00000002,
            Flags::Green => 0x00000004,
            Flags::Yellow => 0x00000008,
            Flags::Red => 0x00000010,
            Flags::Blue => 0x00000020,
            Flags::Debris => 0x00000040,
            Flags::Crossed => 0x00000080,
            Flags::YellowWaving => 0x00000100,
            Flags::OneLapToGreen => 0x00000200,
            Flags::GreenHeld => 0x00000400,
            Flags::TenToGo => 0x00000800,
            Flags::FiveToGo => 0x00001000,
            Flags::RandomWaving => 0x00002000,
            Flags::Caution => 0x00004000,
            Flags::CautionWaving => 0x00008000,
            Flags::Black => 0x00010000,
            Flags::Disqualify => 0x00020000,
            Flags::Servicible => 0x00040000,
            Flags::Furled => 0x00080000,
            Flags::Repair => 0x00100000,
            Flags::StartHidden => 0x10000000,
            Flags::StartReady => 0x20000000,
            Flags::StartSet => 0x40000000,
            Flags::StartGo => 0x80000000,
        }
    }

    pub fn value(self) -> (r: u32)
        ensures
            r == self.spec_value(),
    {
        match self {
            Flags::Checkered => 0x00000001,
            Flags::White => 0x00000002,
            Flags::Green => 0x00000004,
            Flags::Yellow => 0x00000008,
            Flags::Red => 0x00000010,
            Flags::Blue => 0x00000020,
            Flags::Debris => 0x00000040,
            Flags::Crossed => 0x00000080,
            Flags::YellowWaving => 0x00000100,
            Flags::OneLapToGreen => 0x00000200,
            Flags::GreenHeld => 0x00000400,
            Flags::TenToGo => 0x00000800,
            Flags::FiveToGo => 0x00001000,
            Flags::RandomWaving => 0x00002000,
            Flags::Caution => 0x00004000,
            Flags::CautionWaving => 0x00008000,
            Flags::Black => 0x00010000,
            Flags::Disqualify => 0x00020000,
            Flags::Servicible => 0x00040000,
            Flags::Furled => 0x00080000,
            Flags::Repair => 0x00100000,
            Flags::StartHidden => 0x10000000,
            Flags::StartReady => 0x20000000,
            Flags::StartSet => 0x40000000,
            Flags::StartGo => 0x80000000,
        }
    }
}

/// Engine warning bits carried by the engine-warnings channel.
#[derive(Clone, Copy, Debug)]
pub enum EngineWarnings {
    WaterTempWarning,
    FuelPressureWarning,
    OilPressureWarning,
    EngineStalled,
    PitSpeedLimiter,
    RevLimiterActive,
    OilTempWarning,
}

impl EngineWarnings {
    /// The bit this warning occupies in the engine-warnings mask.
    pub open spec fn spec_value(self) -> u32 {
        match self {
            EngineWarnings::WaterTempWarning => 0x01,
            EngineWarnings::FuelPressureWarning => 0x02,
            EngineWarnings::OilPressureWarning => 0x04,
            EngineWarnings::EngineStalled => 0x08,
            EngineWarnings::PitSpeedLimiter => 0x10,
            EngineWarnings::RevLimiterActive => 0x20,
            EngineWarnings::OilTempWarning => 0x40,
        }
    }

    pub fn value(self) -> (r: u32)
        ensures
            r == self.spec_value(),
    {
        match self {
            EngineWarnings::WaterTempWarning => 0x01,
            EngineWarnings::FuelPressureWarning => 0x02,
            EngineWarnings::OilPressureWarning => 0x04,
            EngineWarnings::EngineStalled => 0x08,
            EngineWarnings::PitSpeedLimiter => 0x10,
            EngineWarnings::RevLimiterActive => 0x20,
            EngineWarnings::OilTempWarning => 0x40,
        }
    }
}

/// Where the car currently is, as reported by the track-location channel.
#[derive(Clone, Copy, Debug)]
pub enum TrackLocation {
    NotInWorld,
    OffTrack,
    InPitStall,
    AproachingPits,
    OnTrack,
}

impl TrackLocation {
    /// The wire value of this location.
    pub open spec fn spec_value(self) -> i32 {
        match self {
            TrackLocation::NotInWorld => -1i32,
            TrackLocation::OffTrack => 0,
            TrackLocation::InPitStall => 1,
            TrackLocation::AproachingPits => 2,
            TrackLocation::OnTrack => 3,
        }
    }

    pub fn value(self) -> (r: i32)
        ensures
            r == self.spec_value(),
    {
        match self {
            TrackLocation::NotInWorld => -1,
            TrackLocation::OffTrack => 0,
            TrackLocation::InPitStall => 1,
            TrackLocation::AproachingPits => 2,
            TrackLocation::OnTrack => 3,
        }
    }
}

/// The surface material under a wheel, as reported by the surface channels.
#[derive(Clone, Copy, Debug)]
pub enum TrackSurface {
    SurfaceNotInWorld,
    UndefinedMaterial,
    Asphalt1Material,
    Asphalt2Material,
    Asphalt3Material,
    Asphalt4Material,
    Concrete1Material,
    Concrete2Material,
    RacingDirt1Material,
    RacingDirt2Material,
    Paint1Material,
    Paint2Material,
    Rumble1Material,
    Rumble2Material,
    Rumble3Material,
    Rumble4Material,
    Grass1Material,
    Grass2Material,
    Grass3Material,
    Grass4Material,
    Dirt1Material,
    Dirt2Material,
    Dirt3Material,
    Dirt4Material,
    SandMaterial,
    Gravel1Material,
    Gravel2Material,
    GrasscreteMaterial,
    AstroturfMaterial,
}

impl TrackSurface {
    /// The wire value of this surface material.
    pub open spec fn spec_value(self) -> i32 {
        match self {
            TrackSurface::SurfaceNotInWorld => -1i32,
            TrackSurface::UndefinedMaterial => 0,
            TrackSurface::Asphalt1Material => 1,
            TrackSurface::Asphalt2Material => 2,
            TrackSurface::Asphalt3Material => 3,
            TrackSurface::Asphalt4Material => 4,
            TrackSurface::Concrete1Material => 5,
            TrackSurface::Concrete2Material => 6,
            TrackSurface::RacingDirt1Material => 7,
            TrackSurface::RacingDirt2Material => 8,
            TrackSurface::Paint1Material => 9,
            TrackSurface::Paint2Material => 10,
            TrackSurface::Rumble1Material => 11,
            TrackSurface::Rumble2Material => 12,
            TrackSurface::Rumble3Material => 13,
            TrackSurface::Rumble4Material => 14,
            TrackSurface::Grass1Material => 15,
            TrackSurface::Grass2Material => 16,
            TrackSurface::Grass3Material => 17,
            TrackSurface::Grass4Material => 18,
            TrackSurface::Dirt1Material => 19,
            TrackSurface::Dirt2Material => 20,
            TrackSurface::Dirt3Material => 21,
            TrackSurface::Dirt4Material => 22,
            TrackSurface::SandMaterial => 23,
            TrackSurface::Gravel1Material => 24,
            TrackSurface::Gravel2Material => 25,
            TrackSurface::GrasscreteMaterial => 26,
            TrackSurface::AstroturfMaterial => 27,
        }
    }

    pub fn value(self) -> (r: i32)
        ensures
            r == self.spec_value(),
    {
        match self {
            TrackSurface::SurfaceNotInWorld => -1,
            TrackSurface::UndefinedMaterial => 0,
            TrackSurface::Asphalt1Material => 1,
            TrackSurface::Asphalt2Material => 2,
            TrackSurface::Asphalt3Material => 3,
            TrackSurface::Asphalt4Material => 4,
            TrackSurface::Concrete1Material => 5,
            TrackSurface::Concrete2Material => 6,
            TrackSurface::RacingDirt1Material => 7,
            TrackSurface::RacingDirt2Material => 8,
            TrackSurface::Paint1Material => 9,
            TrackSurface::Paint2Material => 10,
            TrackSurface::Rumble1Material => 11,
            TrackSurface::Rumble2Material => 12,
            TrackSurface::Rumble3Material => 13,
            TrackSurface::Rumble4Material => 14,
            TrackSurface::Grass1Material => 15,
            TrackSurface::Grass2Material => 16,
            TrackSurface::Grass3Material => 17,
            TrackSurface::Grass4Material => 18,
            TrackSurface::Dirt1Material => 19,
            TrackSurface::Dirt2Material => 20,
            TrackSurface::Dirt3Material => 21,
            TrackSurface::Dirt4Material => 22,
            TrackSurface::SandMaterial => 23,
            TrackSurface::Gravel1Material => 24,
            TrackSurface::Gravel2Material => 25,
            TrackSurface::GrasscreteMaterial => 26,
            TrackSurface::AstroturfMaterial => 27,
        }
    }
}

/// The state the session is in, as reported by the session-state channel.
#[derive(Clone, Copy, Debug)]
pub enum SessionState {
    StateInvalid,
    StateGetInCar,
    StateWarmup,
    StateParadeLaps,
    StateRacing,
    StateCheckered,
    StateCoolDown,
}

impl SessionState {
    /// The wire value of this state.
    pub open spec fn spec_value(self) -> i32 {
        match self {
            SessionState::StateInvalid => 0,
            SessionState::StateGetInCar => 1,
            SessionState::StateWarmup => 2,
            SessionState::StateParadeLaps => 3,
            SessionState::StateRacing => 4,
            SessionState::StateCheckered => 5,
            SessionState::StateCoolDown => 6,
        }
    }

    pub fn value(self) -> (r: i32)
        ensures
            r == self.spec_value(),
    {
        match self {
            SessionState::StateInvalid => 0,
            SessionState::StateGetInCar => 1,
            SessionState::StateWarmup => 2,
            SessionState::StateParadeLaps => 3,
            SessionState::StateRacing => 4,
            SessionState::StateCheckered => 5,
            SessionState::StateCoolDown => 6,
        }
    }
}

/// Nearby-car advice, as reported by the car-left-right channel.
#[derive(Clone, Copy, Debug)]
pub enum CarLeftRight {
    LROff,
    LRClear,
    LRCarLeft,
    LRCarRight,
    LRCarLeftRight,
    LR2CarsLeft,
    LR2CarsRight,
}

impl CarLeftRight {
    /// The wire value of this advice.
    pub open spec fn spec_value(self) -> i32 {
        match self {
            CarLeftRight::LROff => 0,
            CarLeftRight::LRClear => 1,
            CarLeftRight::LRCarLeft => 2,
            CarLeftRight::LRCarRight => 3,
            CarLeftRight::LRCarLeftRight => 4,
            CarLeftRight::LR2CarsLeft => 5,
            CarLeftRight::LR2CarsRight => 6,
        }
    }

    pub fn value(self) -> (r: i32)
        ensures
            r == self.spec_value(),
    {
        match self {
            CarLeftRight::LROff => 0,
            CarLeftRight::LRClear => 1,
            CarLeftRight::LRCarLeft => 2,
            CarLeftRight::LRCarRight => 3,
            CarLeftRight::LRCarLeftRight => 4,
            CarLeftRight::LR2CarsLeft => 5,
            CarLeftRight::LR2CarsRight => 6,
        }
    }
}

/// Camera tool state bits.
#[derive(Clone, Copy, Debug)]
pub enum CameraState {
    IsSessionScreen,
    IsScenicActive,
    CamToolActive,
    UIHidden,
    UseAutoShotSelection,
    UseTemporaryEdits,
    UseKeyAcceleration,
    UseKey10xAcceleration,
    UseMouseAimMode,
}

impl CameraState {
    /// The bit this state occupies in the camera-state mask.
    pub open spec fn spec_value(self) -> u32 {
        match self {
            CameraState::IsSessionScreen => 0x0001,
            CameraState::IsScenicActive => 0x0002,
            CameraState::CamToolActive => 0x0004,
            CameraState::UIHidden => 0x0008,
            CameraState::UseAutoShotSelection => 0x0010,
            CameraState::UseTemporaryEdits => 0x0020,
            CameraState::UseKeyAcceleration => 0x0040,
            CameraState::UseKey10xAcceleration => 0x0080,
            CameraState::UseMouseAimMode => 0x0100,
        }
    }

    pub fn value(self) -> (r: u32)
        ensures
            r == self.spec_value(),
    {
        match self {
            CameraState::IsSessionScreen => 0x0001,
            CameraState::IsScenicActive => 0x0002,
            CameraState::CamToolActive => 0x0004,
            CameraState::UIHidden => 0x0008,
            CameraState::UseAutoShotSelection => 0x0010,
            CameraState::UseTemporaryEdits => 0x0020,
            CameraState::UseKeyAcceleration => 0x0040,
            CameraState::UseKey10xAcceleration => 0x0080,
            CameraState::UseMouseAimMode => 0x0100,
        }
    }
}

/// Requested pit service bits.
#[derive(Clone, Copy, Debug)]
pub enum PitFlags {
    LFTireChange,
    RFTireChange,
    LRTireChange,
    RRTireChange,
    FuelFill,
    WindshieldTearoff,
    FastRepair,
}

impl PitFlags {
    /// The bit this service occupies in the pit-service mask.
    pub open spec fn spec_value(self) -> u32 {
        match self {
            PitFlags::LFTireChange => 0x0001,
            PitFlags::RFTireChange => 0x0002,
            PitFlags::LRTireChange => 0x0004,
            PitFlags::RRTireChange => 0x0008,
            PitFlags::FuelFill => 0x0010,
            PitFlags::WindshieldTearoff => 0x0020,
            PitFlags::FastRepair => 0x0040,
        }
    }

    pub fn value(self) -> (r: u32)
        ensures
            r == self.spec_value(),
    {
        match self {
            PitFlags::LFTireChange => 0x0001,
            PitFlags::RFTireChange => 0x0002,
            PitFlags::LRTireChange => 0x0004,
            PitFlags::RRTireChange => 0x0008,
            PitFlags::FuelFill => 0x0010,
            PitFlags::WindshieldTearoff => 0x0020,
            PitFlags::FastRepair => 0x0040,
        }
    }
}

/// Progress of the current pit service, as reported by the pit-status channel.
#[derive(Clone, Copy, Debug)]
pub enum PitStatus {
    PitSvNone,
    PitSvInProgress,
    PitSvComplete,
    PitSvTooFarLeft,
    PitSvTooFarRight,
    PitSvTooFarForward,
    PitSvTooFarBack,
    PitSvBadAngle,
    PitSvCantFixThat,
}

impl PitStatus {
    /// The wire value of this status.
    pub open spec fn spec_value(self) -> i32 {
        match self {
            PitStatus::PitSvNone => 0,
            PitStatus::PitSvInProgress => 1,
            PitStatus::PitSvComplete => 2,
            PitStatus::PitSvTooFarLeft => 100,
            PitStatus::PitSvTooFarRight => 101,
            PitStatus::PitSvTooFarForward => 102,
            PitStatus::PitSvTooFarBack => 103,
            PitStatus::PitSvBadAngle => 104,
            PitStatus::PitSvCantFixThat => 105,
        }
    }

    pub fn value(self) -> (r: i32)
        ensures
            r == self.spec_value(),
    {
        match self {
            PitStatus::PitSvNone => 0,
            PitStatus::PitSvInProgress => 1,
            PitStatus::PitSvComplete => 2,
            PitStatus::PitSvTooFarLeft => 100,
            PitStatus::PitSvTooFarRight => 101,
            PitStatus::PitSvTooFarForward => 102,
            PitStatus::PitSvTooFarBack => 103,
            PitStatus::PitSvBadAngle => 104,
            PitStatus::PitSvCantFixThat => 105,
        }
    }
}

/// How the field is being paced, as reported by the pace-mode channel.
#[derive(Clone, Copy, Debug)]
pub enum PaceMode {
    PaceModeSingleFileStart,
    PaceModeDoubleFileStart,
    PaceModeSingleFileRestart,
    PaceModeDoubleFileRestart,
    PaceModeNotPacing,
}

impl PaceMode {
    /// The wire value of this mode.
    pub open spec fn spec_value(self) -> i32 {
        match self {
            PaceMode::PaceModeSingleFileStart => 0,
            PaceMode::PaceModeDoubleFileStart => 1,
            PaceMode::PaceModeSingleFileRestart => 2,
            PaceMode::PaceModeDoubleFileRestart => 3,
            PaceMode::PaceModeNotPacing => 4,
        }
    }

    pub fn value(self) -> (r: i32)
        ensures
            r == self.spec_value(),
    {
        match self {
            PaceMode::PaceModeSingleFileStart => 0,
            PaceMode::PaceModeDoubleFileStart => 1,
            PaceMode::PaceModeSingleFileRestart => 2,
            PaceMode::PaceModeDoubleFileRestart => 3,
            PaceMode::PaceModeNotPacing => 4,
        }
    }
}

/// Per-car pacing bits.
#[derive(Clone, Copy, Debug)]
pub enum PaceFlags {
    PaceFlagsEndOfLine,
    PaceFlagsFreePass,
    PaceFlagsWavedAround,
}

impl PaceFlags {
    /// The bit this pacing note occupies in the pace-flags mask.
    pub open spec fn spec_value(self) -> u32 {
        match self {
            PaceFlags::PaceFlagsEndOfLine => 0x01,
            PaceFlags::PaceFlagsFreePass => 0x02,
            PaceFlags::PaceFlagsWavedAround => 0x04,
        }
    }

    pub fn value(self) -> (r: u32)
        ensures
            r == self.spec_value(),
    {
        match self {
            PaceFlags::PaceFlagsEndOfLine => 0x01,
            PaceFlags::PaceFlagsFreePass => 0x02,
            PaceFlags::PaceFlagsWavedAround => 0x04,
        }
    }
}

} // verus!
