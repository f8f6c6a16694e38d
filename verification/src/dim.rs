//! The dimension-identifier enumeration: the closed set of named point
//! attributes the native engine knows, with their names and short
//! descriptions.

use vstd::prelude::*;

verus! {

/// Identifier of a point dimension: a named physical or derived quantity
/// such as a coordinate, a color channel, or a neighborhood feature.
#[derive(Clone, Copy, PartialEq, Eq, Structural, Debug, Default, Hash)]
pub enum DimTypeId {
    #[default]
    Unknown,
    X,
    Y,
    Z,
    W,
    Intensity,
    Amplitude,
    Reflectance,
    ReturnNumber,
    NumberOfReturns,
    ScanDirectionFlag,
    EdgeOfFlightLine,
    Classification,
    ScanAngleRank,
    UserData,
    PointSourceId,
    Red,
    Green,
    Blue,
    GpsTime,
    InternalTime,
    OffsetTime,
    IsPpsLocked,
    StartPulse,
    ReflectedPulse,
    Pdop,
    Pitch,
    Roll,
    PulseWidth,
    Deviation,
    PassiveSignal,
    BackgroundRadiation,
    PassiveX,
    PassiveY,
    PassiveZ,
    XVelocity,
    YVelocity,
    ZVelocity,
    Azimuth,
    WanderAngle,
    XBodyAccel,
    YBodyAccel,
    ZBodyAccel,
    XBodyAngRate,
    YBodyAngRate,
    ZBodyAngRate,
    Flag,
    Mark,
    Alpha,
    EchoRange,
    ScanChannel,
    Infrared,
    HeightAboveGround,
    ClassFlags,
    Synthetic,
    KeyPoint,
    Withheld,
    Overlap,
    LvisLfid,
    ShotNumber,
    LongitudeCentroid,
    LatitudeCentroid,
    ElevationCentroid,
    LongitudeLow,
    LatitudeLow,
    ElevationLow,
    LongitudeHigh,
    LatitudeHigh,
    ElevationHigh,
    PointId,
    OriginId,
    NormalX,
    NormalY,
    NormalZ,
    Curvature,
    Density,
    Omit,
    ClusterID,
    NNDistance,
    TextureU,
    TextureV,
    TextureW,
    Linearity,
    Planarity,
    Scattering,
    Verticality,
    Omnivariance,
    Anisotropy,
    Eigenentropy,
    EigenvalueSum,
    SurfaceVariation,
    DemantkeVerticality,
    OptimalKNN,
    OptimalRadius,
    Coplanar,
    LocalReachabilityDistance,
    LocalOutlierFactor,
    Miniball,
    Reciprocity,
    Rank,
    Eigenvalue0,
    Eigenvalue1,
    Eigenvalue2,
    PlaneFit,
    RadialDensity,
    BeamOriginX,
    BeamOriginY,
    BeamOriginZ,
    BeamDirectionX,
    BeamDirectionY,
    BeamDirectionZ,
    NorthPositionRMS,
    EastPositionRMS,
    DownPositionRMS,
    NorthVelocityRMS,
    EastVelocityRMS,
    DownVelocityRMS,
    RollRMS,
    PitchRMS,
    HeadingRMS,
    Reliability,
    EchoPos,
    EchoNorm,
    ImgNbr,
    Image,
    Dimension,
    SphericalRange,
    SphericalAzimuth,
    SphericalElevation,
}

/// The name of each dimension identifier, spelled as the enumeration
/// spells it.
pub open spec fn spec_dim_name(id: DimTypeId) -> Seq<char> {
    match id {
        DimTypeId::Unknown => "Unknown"@,
        DimTypeId::X => "X"@,
        DimTypeId::Y => "Y"@,
        DimTypeId::Z => "Z"@,
        DimTypeId::W => "W"@,
        DimTypeId::Intensity => "Intensity"@,
        DimTypeId::Amplitude => "Amplitude"@,
        DimTypeId::Reflectance => "Reflectance"@,
        DimTypeId::ReturnNumber => "ReturnNumber"@,
        DimTypeId::NumberOfReturns => "NumberOfReturns"@,
        DimTypeId::ScanDirectionFlag => "ScanDirectionFlag"@,
        DimTypeId::EdgeOfFlightLine => "EdgeOfFlightLine"@,
        DimTypeId::Classification => "Classification"@,
        DimTypeId::ScanAngleRank => "ScanAngleRank"@,
        DimTypeId::UserData => "UserData"@,
        DimTypeId::PointSourceId => "PointSourceId"@,
        DimTypeId::Red => "Red"@,
        DimTypeId::Green => "Green"@,
        DimTypeId::Blue => "Blue"@,
        DimTypeId::GpsTime => "GpsTime"@,
        DimTypeId::InternalTime => "InternalTime"@,
        DimTypeId::OffsetTime => "OffsetTime"@,
        DimTypeId::IsPpsLocked => "IsPpsLocked"@,
        DimTypeId::StartPulse => "StartPulse"@,
        DimTypeId::ReflectedPulse => "ReflectedPulse"@,
        DimTypeId::Pdop => "Pdop"@,
        DimTypeId::Pitch => "Pitch"@,
        DimTypeId::Roll => "Roll"@,
        DimTypeId::PulseWidth => "PulseWidth"@,
        DimTypeId::Deviation => "Deviation"@,
        DimTypeId::PassiveSignal => "PassiveSignal"@,
        DimTypeId::BackgroundRadiation => "BackgroundRadiation"@,
        DimTypeId::PassiveX => "PassiveX"@,
        DimTypeId::PassiveY => "PassiveY"@,
        DimTypeId::PassiveZ => "PassiveZ"@,
        DimTypeId::XVelocity => "XVelocity"@,
        DimTypeId::YVelocity => "YVelocity"@,
        DimTypeId::ZVelocity => "ZVelocity"@,
        DimTypeId::Azimuth => "Azimuth"@,
        DimTypeId::WanderAngle => "WanderAngle"@,
        DimTypeId::XBodyAccel => "XBodyAccel"@,
        DimTypeId::YBodyAccel => "YBodyAccel"@,
        DimTypeId::ZBodyAccel => "ZBodyAccel"@,
        DimTypeId::XBodyAngRate => "XBodyAngRate"@,
        DimTypeId::YBodyAngRate => "YBodyAngRate"@,
        DimTypeId::ZBodyAngRate => "ZBodyAngRate"@,
        DimTypeId::Flag => "Flag"@,
        DimTypeId::Mark => "Mark"@,
        DimTypeId::Alpha => "Alpha"@,
        DimTypeId::EchoRange => "EchoRange"@,
        DimTypeId::ScanChannel => "ScanChannel"@,
        DimTypeId::Infrared => "Infrared"@,
        DimTypeId::HeightAboveGround => "HeightAboveGround"@,
        DimTypeId::ClassFlags => "ClassFlags"@,
        DimTypeId::Synthetic => "Synthetic"@,
        DimTypeId::KeyPoint => "KeyPoint"@,
        DimTypeId::Withheld => "Withheld"@,
        DimTypeId::Overlap => "Overlap"@,
        DimTypeId::LvisLfid => "LvisLfid"@,
        DimTypeId::ShotNumber => "ShotNumber"@,
        DimTypeId::LongitudeCentroid => "LongitudeCentroid"@,
        DimTypeId::LatitudeCentroid => "LatitudeCentroid"@,
        DimTypeId::ElevationCentroid => "ElevationCentroid"@,
        DimTypeId::LongitudeLow => "LongitudeLow"@,
        DimTypeId::LatitudeLow => "LatitudeLow"@,
        DimTypeId::ElevationLow => "ElevationLow"@,
        DimTypeId::LongitudeHigh => "LongitudeHigh"@,
        DimTypeId::LatitudeHigh => "LatitudeHigh"@,
        DimTypeId::ElevationHigh => "ElevationHigh"@,
        DimTypeId::PointId => "PointId"@,
        DimTypeId::OriginId => "OriginId"@,
        DimTypeId::NormalX => "NormalX"@,
        DimTypeId::NormalY => "NormalY"@,
        DimTypeId::NormalZ => "NormalZ"@,
        DimTypeId::Curvature => "Curvature"@,
        DimTypeId::Density => "Density"@,
        DimTypeId::Omit => "Omit"@,
        DimTypeId::ClusterID => "ClusterID"@,
        DimTypeId::NNDistance => "NNDistance"@,
        DimTypeId::TextureU => "TextureU"@,
        DimTypeId::TextureV => "TextureV"@,
        DimTypeId::TextureW => "TextureW"@,
        DimTypeId::Linearity => "Linearity"@,
        DimTypeId::Planarity => "Planarity"@,
        DimTypeId::Scattering => "Scattering"@,
        DimTypeId::Verticality => "Verticality"@,
        DimTypeId::Omnivariance => "Omnivariance"@,
        DimTypeId::Anisotropy => "Anisotropy"@,
        DimTypeId::Eigenentropy => "Eigenentropy"@,
        DimTypeId::EigenvalueSum => "EigenvalueSum"@,
        DimTypeId::SurfaceVariation => "SurfaceVariation"@,
        DimTypeId::DemantkeVerticality => "DemantkeVerticality"@,
        DimTypeId::OptimalKNN => "OptimalKNN"@,
        DimTypeId::OptimalRadius => "OptimalRadius"@,
        DimTypeId::Coplanar => "Coplanar"@,
        DimTypeId::LocalReachabilityDistance => "LocalReachabilityDistance"@,
        DimTypeId::LocalOutlierFactor => "LocalOutlierFactor"@,
        DimTypeId::Miniball => "Miniball"@,
        DimTypeId::Reciprocity => "Reciprocity"@,
        DimTypeId::Rank => "Rank"@,
        DimTypeId::Eigenvalue0 => "Eigenvalue0"@,
        DimTypeId::Eigenvalue1 => "Eigenvalue1"@,
        DimTypeId::Eigenvalue2 => "Eigenvalue2"@,
        DimTypeId::PlaneFit => "PlaneFit"@,
        DimTypeId::RadialDensity => "RadialDensity"@,
        DimTypeId::BeamOriginX => "BeamOriginX"@,
        DimTypeId::BeamOriginY => "BeamOriginY"@,
        DimTypeId::BeamOriginZ => "BeamOriginZ"@,
        DimTypeId::BeamDirectionX => "BeamDirectionX"@,
        DimTypeId::BeamDirectionY => "BeamDirectionY"@,
        DimTypeId::BeamDirectionZ => "BeamDirectionZ"@,
        DimTypeId::NorthPositionRMS => "NorthPositionRMS"@,
        DimTypeId::EastPositionRMS => "EastPositionRMS"@,
        DimTypeId::DownPositionRMS => "DownPositionRMS"@,
        DimTypeId::NorthVelocityRMS => "NorthVelocityRMS"@,
        DimTypeId::EastVelocityRMS => "EastVelocityRMS"@,
        DimTypeId::DownVelocityRMS => "DownVelocityRMS"@,
        DimTypeId::RollRMS => "RollRMS"@,
        DimTypeId::PitchRMS => "PitchRMS"@,
        DimTypeId::HeadingRMS => "HeadingRMS"@,
        DimTypeId::Reliability => "Reliability"@,
        DimTypeId::EchoPos => "EchoPos"@,
        DimTypeId::EchoNorm => "EchoNorm"@,
        DimTypeId::ImgNbr => "ImgNbr"@,
        DimTypeId::Image => "Image"@,
        DimTypeId::Dimension => "Dimension"@,
        DimTypeId::SphericalRange => "SphericalRange"@,
        DimTypeId::SphericalAzimuth => "SphericalAzimuth"@,
        DimTypeId::SphericalElevation => "SphericalElevation"@,
    }
}

/// The description of each dimension identifier.
pub open spec fn spec_dim_description(id: DimTypeId) -> Seq<char> {
    match id {
        DimTypeId::Unknown => "An unknown or unassigned dimension"@,
        DimTypeId::X => "X coordinate"@,
        DimTypeId::Y => "Y coordinate"@,
        DimTypeId::Z => "Z coordinate"@,
        DimTypeId::W => "W coordinate"@,
        DimTypeId::Intensity => "Representation of the pulse return magnitude"@,
        DimTypeId::Amplitude => "Echo amplitude of the return"@,
        DimTypeId::Reflectance => "Calibrated reflectance of the return"@,
        DimTypeId::ReturnNumber => "Pulse return number for a given output pulse"@,
        DimTypeId::NumberOfReturns => "Total number of returns for a given pulse"@,
        DimTypeId::ScanDirectionFlag => "Direction the scanner mirror was travelling at the time of the pulse"@,
        DimTypeId::EdgeOfFlightLine => "Whether the point is at the edge of the flight line"@,
        DimTypeId::Classification => "Classification code of the point"@,
        DimTypeId::ScanAngleRank => "Angle at which the laser pulse was output, relative to the vertical of the platform"@,
        DimTypeId::UserData => "Unspecified user data"@,
        DimTypeId::PointSourceId => "Identifier of the source from which the point was recorded"@,
        DimTypeId::Red => "Red image channel value"@,
        DimTypeId::Green => "Green image channel value"@,
        DimTypeId::Blue => "Blue image channel value"@,
        DimTypeId::GpsTime => "GPS time at which the point was acquired"@,
        DimTypeId::InternalTime => "Internal sensor time at which the point was acquired"@,
        DimTypeId::OffsetTime => "Time offset relative to the first recorded pulse"@,
        DimTypeId::IsPpsLocked => "Whether the pulse-per-second signal was locked when the point was acquired"@,
        DimTypeId::StartPulse => "Relative pulse signal strength at the start of the return"@,
        DimTypeId::ReflectedPulse => "Relative signal strength of the reflected pulse"@,
        DimTypeId::Pdop => "Positional dilution of precision at the time of acquisition"@,
        DimTypeId::Pitch => "Pitch of the sensor platform in degrees"@,
        DimTypeId::Roll => "Roll of the sensor platform in degrees"@,
        DimTypeId::PulseWidth => "Width of the return pulse"@,
        DimTypeId::Deviation => "Deviation of the return waveform from the emitted pulse shape"@,
        DimTypeId::PassiveSignal => "Relative passive signal strength"@,
        DimTypeId::BackgroundRadiation => "Background radiation measured by the sensor"@,
        DimTypeId::PassiveX => "X coordinate of the passive sensor measurement"@,
        DimTypeId::PassiveY => "Y coordinate of the passive sensor measurement"@,
        DimTypeId::PassiveZ => "Z coordinate of the passive sensor measurement"@,
        DimTypeId::XVelocity => "X component of the platform velocity"@,
        DimTypeId::YVelocity => "Y component of the platform velocity"@,
        DimTypeId::ZVelocity => "Z component of the platform velocity"@,
        DimTypeId::Azimuth => "Scanner azimuth in degrees"@,
        DimTypeId::WanderAngle => "Wander angle of the sensor platform"@,
        DimTypeId::XBodyAccel => "X component of the platform acceleration in the body frame"@,
        DimTypeId::YBodyAccel => "Y component of the platform acceleration in the body frame"@,
        DimTypeId::ZBodyAccel => "Z component of the platform acceleration in the body frame"@,
        DimTypeId::XBodyAngRate => "X component of the platform angular rate in the body frame"@,
        DimTypeId::YBodyAngRate => "Y component of the platform angular rate in the body frame"@,
        DimTypeId::ZBodyAngRate => "Z component of the platform angular rate in the body frame"@,
        DimTypeId::Flag => "Generic flag value"@,
        DimTypeId::Mark => "Generic marker value"@,
        DimTypeId::Alpha => "Alpha image channel value"@,
        DimTypeId::EchoRange => "Range of the echo from the sensor"@,
        DimTypeId::ScanChannel => "Scanner head channel that produced the point"@,
        DimTypeId::Infrared => "Near-infrared image channel value"@,
        DimTypeId::HeightAboveGround => "Height of the point above the ground surface"@,
        DimTypeId::ClassFlags => "Additional classification flags of the point"@,
        DimTypeId::Synthetic => "Whether the point was created by a technique other than direct observation"@,
        DimTypeId::KeyPoint => "Whether the point is considered a model key-point"@,
        DimTypeId::Withheld => "Whether the point should be excluded from processing"@,
        DimTypeId::Overlap => "Whether the point lies in the overlap region of two or more swaths"@,
        DimTypeId::LvisLfid => "LVIS footprint identifier"@,
        DimTypeId::ShotNumber => "Shot number of the pulse"@,
        DimTypeId::LongitudeCentroid => "Longitude of the waveform centroid"@,
        DimTypeId::LatitudeCentroid => "Latitude of the waveform centroid"@,
        DimTypeId::ElevationCentroid => "Elevation of the waveform centroid"@,
        DimTypeId::LongitudeLow => "Longitude of the lowest detected mode in the waveform"@,
        DimTypeId::LatitudeLow => "Latitude of the lowest detected mode in the waveform"@,
        DimTypeId::ElevationLow => "Elevation of the lowest detected mode in the waveform"@,
        DimTypeId::LongitudeHigh => "Longitude of the highest detected mode in the waveform"@,
        DimTypeId::LatitudeHigh => "Latitude of the highest detected mode in the waveform"@,
        DimTypeId::ElevationHigh => "Elevation of the highest detected mode in the waveform"@,
        DimTypeId::PointId => "Identifier of the point within its point view"@,
        DimTypeId::OriginId => "Identifier of the origin the point came from"@,
        DimTypeId::NormalX => "X component of the estimated surface normal at the point"@,
        DimTypeId::NormalY => "Y component of the estimated surface normal at the point"@,
        DimTypeId::NormalZ => "Z component of the estimated surface normal at the point"@,
        DimTypeId::Curvature => "Curvature of the surface fitted to the point neighborhood, derived from the eigenvalues of its covariance matrix"@,
        DimTypeId::Density => "Estimated local point density"@,
        DimTypeId::Omit => "Whether the point should be omitted from output"@,
        DimTypeId::ClusterID => "Identifier of the cluster the point was assigned to"@,
        DimTypeId::NNDistance => "Distance to the nearest neighboring point"@,
        DimTypeId::TextureU => "U texture coordinate of the point"@,
        DimTypeId::TextureV => "V texture coordinate of the point"@,
        DimTypeId::TextureW => "W texture coordinate of the point"@,
        DimTypeId::Linearity => "Linearity of the point neighborhood, derived from the eigenvalues of its covariance matrix"@,
        DimTypeId::Planarity => "Planarity of the point neighborhood, derived from the eigenvalues of its covariance matrix"@,
        DimTypeId::Scattering => "Scattering of the point neighborhood, derived from the eigenvalues of its covariance matrix"@,
        DimTypeId::Verticality => "Verticality of the point neighborhood, measured against the vertical axis"@,
        DimTypeId::Omnivariance => "Omnivariance of the point neighborhood: the cube root of the product of the eigenvalues of its covariance matrix"@,
        DimTypeId::Anisotropy => "Anisotropy of the point neighborhood, derived from the spread of the eigenvalues of its covariance matrix"@,
        DimTypeId::Eigenentropy => "Entropy of the normalized eigenvalues of the covariance matrix of the point neighborhood"@,
        DimTypeId::EigenvalueSum => "Sum of the eigenvalues of the covariance matrix of the point neighborhood"@,
        DimTypeId::SurfaceVariation => "Surface variation of the point neighborhood: the smallest eigenvalue over the sum of the eigenvalues of its covariance matrix"@,
        DimTypeId::DemantkeVerticality => "Verticality of the point neighborhood after Demantke"@,
        DimTypeId::OptimalKNN => "Optimal number of nearest neighbors for local feature computation"@,
        DimTypeId::OptimalRadius => "Optimal neighborhood radius for local feature computation"@,
        DimTypeId::Coplanar => "Whether the point neighborhood is coplanar"@,
        DimTypeId::LocalReachabilityDistance => "Local reachability distance used by the local outlier factor"@,
        DimTypeId::LocalOutlierFactor => "Local outlier factor of the point"@,
        DimTypeId::Miniball => "Outlier criterion based on the smallest enclosing ball of the point neighborhood"@,
        DimTypeId::Reciprocity => "Share of neighbors that also count the point among their own neighbors"@,
        DimTypeId::Rank => "Rank of the covariance matrix of the point neighborhood"@,
        DimTypeId::Eigenvalue0 => "Smallest eigenvalue of the covariance matrix of the point neighborhood"@,
        DimTypeId::Eigenvalue1 => "Middle eigenvalue of the covariance matrix of the point neighborhood"@,
        DimTypeId::Eigenvalue2 => "Largest eigenvalue of the covariance matrix of the point neighborhood"@,
        DimTypeId::PlaneFit => "Plane-fit criterion of the point neighborhood"@,
        DimTypeId::RadialDensity => "Number of neighbors within a fixed radius of the point"@,
        DimTypeId::BeamOriginX => "X coordinate of the beam origin"@,
        DimTypeId::BeamOriginY => "Y coordinate of the beam origin"@,
        DimTypeId::BeamOriginZ => "Z coordinate of the beam origin"@,
        DimTypeId::BeamDirectionX => "X component of the beam direction"@,
        DimTypeId::BeamDirectionY => "Y component of the beam direction"@,
        DimTypeId::BeamDirectionZ => "Z component of the beam direction"@,
        DimTypeId::NorthPositionRMS => "Root mean square error of the north position estimate"@,
        DimTypeId::EastPositionRMS => "Root mean square error of the east position estimate"@,
        DimTypeId::DownPositionRMS => "Root mean square error of the down position estimate"@,
        DimTypeId::NorthVelocityRMS => "Root mean square error of the north velocity estimate"@,
        DimTypeId::EastVelocityRMS => "Root mean square error of the east velocity estimate"@,
        DimTypeId::DownVelocityRMS => "Root mean square error of the down velocity estimate"@,
        DimTypeId::RollRMS => "Root mean square error of the roll estimate"@,
        DimTypeId::PitchRMS => "Root mean square error of the pitch estimate"@,
        DimTypeId::HeadingRMS => "Root mean square error of the heading estimate"@,
        DimTypeId::Reliability => "Reliability of the measurement"@,
        DimTypeId::EchoPos => "Position of the echo within the return pulse"@,
        DimTypeId::EchoNorm => "Normalized position of the echo within the return pulse"@,
        DimTypeId::ImgNbr => "Number of the image the point was taken from"@,
        DimTypeId::Image => "Image identifier associated with the point"@,
        DimTypeId::Dimension => "Dimension along which the point was measured"@,
        DimTypeId::SphericalRange => "Range of the point in spherical coordinates"@,
        DimTypeId::SphericalAzimuth => "Azimuth of the point in spherical coordinates"@,
        DimTypeId::SphericalElevation => "Elevation angle of the point in spherical coordinates"@,
    }
}

impl DimTypeId {
    /// The dimension's name.
    pub fn name(&self) -> (r: String)
        ensures
            r@ == spec_dim_name(*self),
    {
        let s: &str = match *self {
            DimTypeId::Unknown => "Unknown",
            DimTypeId::X => "X",
            DimTypeId::Y => "Y",
            DimTypeId::Z => "Z",
            DimTypeId::W => "W",
            DimTypeId::Intensity => "Intensity",
            DimTypeId::Amplitude => "Amplitude",
            DimTypeId::Reflectance => "Reflectance",
            DimTypeId::ReturnNumber => "ReturnNumber",
            DimTypeId::NumberOfReturns => "NumberOfReturns",
            DimTypeId::ScanDirectionFlag => "ScanDirectionFlag",
            DimTypeId::EdgeOfFlightLine => "EdgeOfFlightLine",
            DimTypeId::Classification => "Classification",
            DimTypeId::ScanAngleRank => "ScanAngleRank",
            DimTypeId::UserData => "UserData",
            DimTypeId::PointSourceId => "PointSourceId",
            DimTypeId::Red => "Red",
            DimTypeId::Green => "Green",
            DimTypeId::Blue => "Blue",
            DimTypeId::GpsTime => "GpsTime",
            DimTypeId::InternalTime => "InternalTime",
            DimTypeId::OffsetTime => "OffsetTime",
            DimTypeId::IsPpsLocked => "IsPpsLocked",
            DimTypeId::StartPulse => "StartPulse",
            DimTypeId::ReflectedPulse => "ReflectedPulse",
            DimTypeId::Pdop => "Pdop",
            DimTypeId::Pitch => "Pitch",
            DimTypeId::Roll => "Roll",
            DimTypeId::PulseWidth => "PulseWidth",
            DimTypeId::Deviation => "Deviation",
            DimTypeId::PassiveSignal => "PassiveSignal",
            DimTypeId::BackgroundRadiation => "BackgroundRadiation",
            DimTypeId::PassiveX => "PassiveX",
            DimTypeId::PassiveY => "PassiveY",
            DimTypeId::PassiveZ => "PassiveZ",
            DimTypeId::XVelocity => "XVelocity",
            DimTypeId::YVelocity => "YVelocity",
            DimTypeId::ZVelocity => "ZVelocity",
            DimTypeId::Azimuth => "Azimuth",
            DimTypeId::WanderAngle => "WanderAngle",
            DimTypeId::XBodyAccel => "XBodyAccel",
            DimTypeId::YBodyAccel => "YBodyAccel",
            DimTypeId::ZBodyAccel => "ZBodyAccel",
            DimTypeId::XBodyAngRate => "XBodyAngRate",
            DimTypeId::YBodyAngRate => "YBodyAngRate",
            DimTypeId::ZBodyAngRate => "ZBodyAngRate",
            DimTypeId::Flag => "Flag",
            DimTypeId::Mark => "Mark",
            DimTypeId::Alpha => "Alpha",
            DimTypeId::EchoRange => "EchoRange",
            DimTypeId::ScanChannel => "ScanChannel",
            DimTypeId::Infrared => "Infrared",
            DimTypeId::HeightAboveGround => "HeightAboveGround",
            DimTypeId::ClassFlags => "ClassFlags",
            DimTypeId::Synthetic => "Synthetic",
            DimTypeId::KeyPoint => "KeyPoint",
            DimTypeId::Withheld => "Withheld",
            DimTypeId::Overlap => "Overlap",
            DimTypeId::LvisLfid => "LvisLfid",
            DimTypeId::ShotNumber => "ShotNumber",
            DimTypeId::LongitudeCentroid => "LongitudeCentroid",
            DimTypeId::LatitudeCentroid => "LatitudeCentroid",
            DimTypeId::ElevationCentroid => "ElevationCentroid",
            DimTypeId::LongitudeLow => "LongitudeLow",
            DimTypeId::LatitudeLow => "LatitudeLow",
            DimTypeId::ElevationLow => "ElevationLow",
            DimTypeId::LongitudeHigh => "LongitudeHigh",
            DimTypeId::LatitudeHigh => "LatitudeHigh",
            DimTypeId::ElevationHigh => "ElevationHigh",
            DimTypeId::PointId => "PointId",
            DimTypeId::OriginId => "OriginId",
            DimTypeId::NormalX => "NormalX",
            DimTypeId::NormalY => "NormalY",
            DimTypeId::NormalZ => "NormalZ",
            DimTypeId::Curvature => "Curvature",
            DimTypeId::Density => "Density",
            DimTypeId::Omit => "Omit",
            DimTypeId::ClusterID => "ClusterID",
            DimTypeId::NNDistance => "NNDistance",
            DimTypeId::TextureU => "TextureU",
            DimTypeId::TextureV => "TextureV",
            DimTypeId::TextureW => "TextureW",
            DimTypeId::Linearity => "Linearity",
            DimTypeId::Planarity => "Planarity",
            DimTypeId::Scattering => "Scattering",
            DimTypeId::Verticality => "Verticality",
            DimTypeId::Omnivariance => "Omnivariance",
            DimTypeId::Anisotropy => "Anisotropy",
            DimTypeId::Eigenentropy => "Eigenentropy",
            DimTypeId::EigenvalueSum => "EigenvalueSum",
            DimTypeId::SurfaceVariation => "SurfaceVariation",
            DimTypeId::DemantkeVerticality => "DemantkeVerticality",
            DimTypeId::OptimalKNN => "OptimalKNN",
            DimTypeId::OptimalRadius => "OptimalRadius",
            DimTypeId::Coplanar => "Coplanar",
            DimTypeId::LocalReachabilityDistance => "LocalReachabilityDistance",
            DimTypeId::LocalOutlierFactor => "LocalOutlierFactor",
            DimTypeId::Miniball => "Miniball",
            DimTypeId::Reciprocity => "Reciprocity",
            DimTypeId::Rank => "Rank",
            DimTypeId::Eigenvalue0 => "Eigenvalue0",
            DimTypeId::Eigenvalue1 => "Eigenvalue1",
            DimTypeId::Eigenvalue2 => "Eigenvalue2",
            DimTypeId::PlaneFit => "PlaneFit",
            DimTypeId::RadialDensity => "RadialDensity",
            DimTypeId::BeamOriginX => "BeamOriginX",
            DimTypeId::BeamOriginY => "BeamOriginY",
            DimTypeId::BeamOriginZ => "BeamOriginZ",
            DimTypeId::BeamDirectionX => "BeamDirectionX",
            DimTypeId::BeamDirectionY => "BeamDirectionY",
            DimTypeId::BeamDirectionZ => "BeamDirectionZ",
            DimTypeId::NorthPositionRMS => "NorthPositionRMS",
            DimTypeId::EastPositionRMS => "EastPositionRMS",
            DimTypeId::DownPositionRMS => "DownPositionRMS",
            DimTypeId::NorthVelocityRMS => "NorthVelocityRMS",
            DimTypeId::EastVelocityRMS => "EastVelocityRMS",
            DimTypeId::DownVelocityRMS => "DownVelocityRMS",
            DimTypeId::RollRMS => "RollRMS",
            DimTypeId::PitchRMS => "PitchRMS",
            DimTypeId::HeadingRMS => "HeadingRMS",
            DimTypeId::Reliability => "Reliability",
            DimTypeId::EchoPos => "EchoPos",
            DimTypeId::EchoNorm => "EchoNorm",
            DimTypeId::ImgNbr => "ImgNbr",
            DimTypeId::Image => "Image",
            DimTypeId::Dimension => "Dimension",
            DimTypeId::SphericalRange => "SphericalRange",
            DimTypeId::SphericalAzimuth => "SphericalAzimuth",
            DimTypeId::SphericalElevation => "SphericalElevation",
        };
        s.to_owned()
    }

    /// A short description of the dimension.
    pub fn description(&self) -> (r: String)
        ensures
            r@ == spec_dim_description(*self),
    {
        let s: &str = match *self {
            DimTypeId::Unknown => "An unknown or unassigned dimension",
            DimTypeId::X => "X coordinate",
            DimTypeId::Y => "Y coordinate",
            DimTypeId::Z => "Z coordinate",
            DimTypeId::W => "W coordinate",
            DimTypeId::Intensity => "Representation of the pulse return magnitude",
            DimTypeId::Amplitude => "Echo amplitude of the return",
            DimTypeId::Reflectance => "Calibrated reflectance of the return",
            DimTypeId::ReturnNumber => "Pulse return number for a given output pulse",
            DimTypeId::NumberOfReturns => "Total number of returns for a given pulse",
            DimTypeId::ScanDirectionFlag => "Direction the scanner mirror was travelling at the time of the pulse",
            DimTypeId::EdgeOfFlightLine => "Whether the point is at the edge of the flight line",
            DimTypeId::Classification => "Classification code of the point",
            DimTypeId::ScanAngleRank => "Angle at which the laser pulse was output, relative to the vertical of the platform",
            DimTypeId::UserData => "Unspecified user data",
            DimTypeId::PointSourceId => "Identifier of the source from which the point was recorded",
            DimTypeId::Red => "Red image channel value",
            DimTypeId::Green => "Green image channel value",
            DimTypeId::Blue => "Blue image channel value",
            DimTypeId::GpsTime => "GPS time at which the point was acquired",
            DimTypeId::InternalTime => "Internal sensor time at which the point was acquired",
            DimTypeId::OffsetTime => "Time offset relative to the first recorded pulse",
            DimTypeId::IsPpsLocked => "Whether the pulse-per-second signal was locked when the point was acquired",
            DimTypeId::StartPulse => "Relative pulse signal strength at the start of the return",
            DimTypeId::ReflectedPulse => "Relative signal strength of the reflected pulse",
            DimTypeId::Pdop => "Positional dilution of precision at the time of acquisition",
            DimTypeId::Pitch => "Pitch of the sensor platform in degrees",
            DimTypeId::Roll => "Roll of the sensor platform in degrees",
            DimTypeId::PulseWidth => "Width of the return pulse",
            DimTypeId::Deviation => "Deviation of the return waveform from the emitted pulse shape",
            DimTypeId::PassiveSignal => "Relative passive signal strength",
            DimTypeId::BackgroundRadiation => "Background radiation measured by the sensor",
            DimTypeId::PassiveX => "X coordinate of the passive sensor measurement",
            DimTypeId::PassiveY => "Y coordinate of the passive sensor measurement",
            DimTypeId::PassiveZ => "Z coordinate of the passive sensor measurement",
            DimTypeId::XVelocity => "X component of the platform velocity",
            DimTypeId::YVelocity => "Y component of the platform velocity",
            DimTypeId::ZVelocity => "Z component of the platform velocity",
            DimTypeId::Azimuth => "Scanner azimuth in degrees",
            DimTypeId::WanderAngle => "Wander angle of the sensor platform",
            DimTypeId::XBodyAccel => "X component of the platform acceleration in the body frame",
            DimTypeId::YBodyAccel => "Y component of the platform acceleration in the body frame",
            DimTypeId::ZBodyAccel => "Z component of the platform acceleration in the body frame",
            DimTypeId::XBodyAngRate => "X component of the platform angular rate in the body frame",
            DimTypeId::YBodyAngRate => "Y component of the platform angular rate in the body frame",
            DimTypeId::ZBodyAngRate => "Z component of the platform angular rate in the body frame",
            DimTypeId::Flag => "Generic flag value",
            DimTypeId::Mark => "Generic marker value",
            DimTypeId::Alpha => "Alpha image channel value",
            DimTypeId::EchoRange => "Range of the echo from the sensor",
            DimTypeId::ScanChannel => "Scanner head channel that produced the point",
            DimTypeId::Infrared => "Near-infrared image channel value",
            DimTypeId::HeightAboveGround => "Height of the point above the ground surface",
            DimTypeId::ClassFlags => "Additional classification flags of the point",
            DimTypeId::Synthetic => "Whether the point was created by a technique other than direct observation",
            DimTypeId::KeyPoint => "Whether the point is considered a model key-point",
            DimTypeId::Withheld => "Whether the point should be excluded from processing",
            DimTypeId::Overlap => "Whether the point lies in the overlap region of two or more swaths",
            DimTypeId::LvisLfid => "LVIS footprint identifier",
            DimTypeId::ShotNumber => "Shot number of the pulse",
            DimTypeId::LongitudeCentroid => "Longitude of the waveform centroid",
            DimTypeId::LatitudeCentroid => "Latitude of the waveform centroid",
            DimTypeId::ElevationCentroid => "Elevation of the waveform centroid",
            DimTypeId::LongitudeLow => "Longitude of the lowest detected mode in the waveform",
            DimTypeId::LatitudeLow => "Latitude of the lowest detected mode in the waveform",
            DimTypeId::ElevationLow => "Elevation of the lowest detected mode in the waveform",
            DimTypeId::LongitudeHigh => "Longitude of the highest detected mode in the waveform",
            DimTypeId::LatitudeHigh => "Latitude of the highest detected mode in the waveform",
            DimTypeId::ElevationHigh => "Elevation of the highest detected mode in the waveform",
            DimTypeId::PointId => "Identifier of the point within its point view",
            DimTypeId::OriginId => "Identifier of the origin the point came from",
            DimTypeId::NormalX => "X component of the estimated surface normal at the point",
            DimTypeId::NormalY => "Y component of the estimated surface normal at the point",
            DimTypeId::NormalZ => "Z component of the estimated surface normal at the point",
            DimTypeId::Curvature => "Curvature of the surface fitted to the point neighborhood, derived from the eigenvalues of its covariance matrix",
            DimTypeId::Density => "Estimated local point density",
            DimTypeId::Omit => "Whether the point should be omitted from output",
            DimTypeId::ClusterID => "Identifier of the cluster the point was assigned to",
            DimTypeId::NNDistance => "Distance to the nearest neighboring point",
            DimTypeId::TextureU => "U texture coordinate of the point",
            DimTypeId::TextureV => "V texture coordinate of the point",
            DimTypeId::TextureW => "W texture coordinate of the point",
            DimTypeId::Linearity => "Linearity of the point neighborhood, derived from the eigenvalues of its covariance matrix",
            DimTypeId::Planarity => "Planarity of the point neighborhood, derived from the eigenvalues of its covariance matrix",
            DimTypeId::Scattering => "Scattering of the point neighborhood, derived from the eigenvalues of its covariance matrix",
            DimTypeId::Verticality => "Verticality of the point neighborhood, measured against the vertical axis",
            DimTypeId::Omnivariance => "Omnivariance of the point neighborhood: the cube root of the product of the eigenvalues of its covariance matrix",
            DimTypeId::Anisotropy => "Anisotropy of the point neighborhood, derived from the spread of the eigenvalues of its covariance matrix",
            DimTypeId::Eigenentropy => "Entropy of the normalized eigenvalues of the covariance matrix of the point neighborhood",
            DimTypeId::EigenvalueSum => "Sum of the eigenvalues of the covariance matrix of the point neighborhood",
            DimTypeId::SurfaceVariation => "Surface variation of the point neighborhood: the smallest eigenvalue over the sum of the eigenvalues of its covariance matrix",
            DimTypeId::DemantkeVerticality => "Verticality of the point neighborhood after Demantke",
            DimTypeId::OptimalKNN => "Optimal number of nearest neighbors for local feature computation",
            DimTypeId::OptimalRadius => "Optimal neighborhood radius for local feature computation",
            DimTypeId::Coplanar => "Whether the point neighborhood is coplanar",
            DimTypeId::LocalReachabilityDistance => "Local reachability distance used by the local outlier factor",
            DimTypeId::LocalOutlierFactor => "Local outlier factor of the point",
            DimTypeId::Miniball => "Outlier criterion based on the smallest enclosing ball of the point neighborhood",
            DimTypeId::Reciprocity => "Share of neighbors that also count the point among their own neighbors",
            DimTypeId::Rank => "Rank of the covariance matrix of the point neighborhood",
            DimTypeId::Eigenvalue0 => "Smallest eigenvalue of the covariance matrix of the point neighborhood",
            DimTypeId::Eigenvalue1 => "Middle eigenvalue of the covariance matrix of the point neighborhood",
            DimTypeId::Eigenvalue2 => "Largest eigenvalue of the covariance matrix of the point neighborhood",
            DimTypeId::PlaneFit => "Plane-fit criterion of the point neighborhood",
            DimTypeId::RadialDensity => "Number of neighbors within a fixed radius of the point",
            DimTypeId::BeamOriginX => "X coordinate of the beam origin",
            DimTypeId::BeamOriginY => "Y coordinate of the beam origin",
            DimTypeId::BeamOriginZ => "Z coordinate of the beam origin",
            DimTypeId::BeamDirectionX => "X component of the beam direction",
            DimTypeId::BeamDirectionY => "Y component of the beam direction",
            DimTypeId::BeamDirectionZ => "Z component of the beam direction",
            DimTypeId::NorthPositionRMS => "Root mean square error of the north position estimate",
            DimTypeId::EastPositionRMS => "Root mean square error of the east position estimate",
            DimTypeId::DownPositionRMS => "Root mean square error of the down position estimate",
            DimTypeId::NorthVelocityRMS => "Root mean square error of the north velocity estimate",
            DimTypeId::EastVelocityRMS => "Root mean square error of the east velocity estimate",
            DimTypeId::DownVelocityRMS => "Root mean square error of the down velocity estimate",
            DimTypeId::RollRMS => "Root mean square error of the roll estimate",
            DimTypeId::PitchRMS => "Root mean square error of the pitch estimate",
            DimTypeId::HeadingRMS => "Root mean square error of the heading estimate",
            DimTypeId::Reliability => "Reliability of the measurement",
            DimTypeId::EchoPos => "Position of the echo within the return pulse",
            DimTypeId::EchoNorm => "Normalized position of the echo within the return pulse",
            DimTypeId::ImgNbr => "Number of the image the point was taken from",
            DimTypeId::Image => "Image identifier associated with the point",
            DimTypeId::Dimension => "Dimension along which the point was measured",
            DimTypeId::SphericalRange => "Range of the point in spherical coordinates",
            DimTypeId::SphericalAzimuth => "Azimuth of the point in spherical coordinates",
            DimTypeId::SphericalElevation => "Elevation angle of the point in spherical coordinates",
        };
        s.to_owned()
    }
}

} // verus!
