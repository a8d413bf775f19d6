//! The standard parameter codes: what each one measures, in which unit, and
//! the identifier under which it is written in a document.

use vstd::prelude::*;
use crate::text::str_eq;

verus! {

/// A standard parameter code.
#[derive(Debug, Clone, Copy, PartialEq, Eq, Structural)]
pub enum AgsiParameterCode {
    /// Depth.
    Depth,
    /// Elevation.
    Elevation,
    /// Drainage condition assumed for analysis: Drained or Undrained.
    AnalysisDrainageCondition,
    /// Bulk unit weight.
    UnitWeightBulk,
    /// Effective angle of shearing resistance.
    AngleFriction,
    /// Peak effective angle of shearing resistance.
    AngleFrictionPeak,
    /// Critical state effective angle of shearing resistance.
    AngleFrictionCritical,
    /// Residual effective angle of shearing resistance.
    AngleFrictionResidual,
    /// Angle of dilation.
    AngleDilation,
    /// Effective cohesion.
    Cohesion,
    /// Undrained shear strength.
    UndrainedShearStrength,
    /// Undrained shear strength from triaxial tests.
    UndrainedShearStrengthTriaxial,
    /// Uniaxial Compressive Strength.
    UniaxialCompressiveStrength,
    /// Drained Young's Modulus.
    YoungsModulusDrained,
    /// Undrained Young's Modulus.
    YoungsModulusUndrained,
    /// Vertical drained Young's Modulus.
    YoungsModulusDrainedVertical,
    /// Vertical undrained Young's Modulus.
    YoungsModulusUndrainedVertical,
    /// Horizontal drained Young's Modulus.
    YoungsModulusDrainedHorizontal,
    /// Horizontal undrained Young's Modulus.
    YoungsModulusUndrainedHorizontal,
    /// Bulk modulus.
    BulkModulus,
    /// Drained shear Modulus.
    ShearModulusDrained,
    /// Undrained shear Modulus.
    ShearModulusUndrained,
    /// Poisson's ratio.
    PoissonsRatio,
    /// Coefficient of earth pressure at rest.
    CoefficientLateralEarthPressureAtRest,
    /// Coefficient of active earth pressure.
    CoefficientLateralEarthPressureActive,
    /// Coefficient of passive earth pressure.
    CoefficientLateralEarthPressurePassive,
    /// Coefficient of earth pressure for integral bridge abutments subject to strain ratcheting.
    CoefficientLateralEarthPressureStar,
    /// California bearing ratio (CBR).
    CBR,
    /// Subgrade surface modulus.
    SubgradeSurfaceModulus,
    /// Permeability.
    Permeability,
    /// Horizontal permeability.
    PermeabilityHorizontal,
    /// Vertical permeability.
    PermeabilityVertical,
    /// ACEC Aggressive chemical environment class.
    ACECClass,
    /// ACEC Design sulphate class.
    ACECDSClass,
    /// ACEC Design chemical class.
    ACECCDCClass,
}

impl AgsiParameterCode {
    /// The identifier under which the code is written in a document.
    pub open spec fn code_id(self) -> Seq<char> {
        match self {
            AgsiParameterCode::Depth => "Depth"@,
            AgsiParameterCode::Elevation => "Elevation"@,
            AgsiParameterCode::AnalysisDrainageCondition => "AnalysisDrainageCondition"@,
            AgsiParameterCode::UnitWeightBulk => "UnitWeightBulk"@,
            AgsiParameterCode::AngleFriction => "AngleFriction"@,
            AgsiParameterCode::AngleFrictionPeak => "AngleFrictionPeak"@,
            AgsiParameterCode::AngleFrictionCritical => "AngleFrictionCritical"@,
            AgsiParameterCode::AngleFrictionResidual => "AngleFrictionResidual"@,
            AgsiParameterCode::AngleDilation => "AngleDilation"@,
            AgsiParameterCode::Cohesion => "Cohesion"@,
            AgsiParameterCode::UndrainedShearStrength => "UndrainedShearStrength"@,
            AgsiParameterCode::UndrainedShearStrengthTriaxial => "UndrainedShearStrengthTriaxial"@,
            AgsiParameterCode::UniaxialCompressiveStrength => "UniaxialCompressiveStrength"@,
            AgsiParameterCode::YoungsModulusDrained => "YoungsModulusDrained"@,
            AgsiParameterCode::YoungsModulusUndrained => "YoungsModulusUndrained"@,
            AgsiParameterCode::YoungsModulusDrainedVertical => "YoungsModulusDrainedVertical"@,
            AgsiParameterCode::YoungsModulusUndrainedVertical => "YoungsModulusUndrainedVertical"@,
            AgsiParameterCode::YoungsModulusDrainedHorizontal => "YoungsModulusDrainedHorizontal"@,
            AgsiParameterCode::YoungsModulusUndrainedHorizontal => "YoungsModulusUndrainedHorizontal"@,
            AgsiParameterCode::BulkModulus => "BulkModulus"@,
            AgsiParameterCode::ShearModulusDrained => "ShearModulusDrained"@,
            AgsiParameterCode::ShearModulusUndrained => "ShearModulusUndrained"@,
            AgsiParameterCode::PoissonsRatio => "PoissonsRatio"@,
            AgsiParameterCode::CoefficientLateralEarthPressureAtRest => "CoefficientLateralEarthPressureAtRest"@,
            AgsiParameterCode::CoefficientLateralEarthPressureActive => "CoefficientLateralEarthPressureActive"@,
            AgsiParameterCode::CoefficientLateralEarthPressurePassive => "CoefficientLateralEarthPressurePassive"@,
            AgsiParameterCode::CoefficientLateralEarthPressureStar => "CoefficientLateralEarthPressureStar"@,
            AgsiParameterCode::CBR => "CBR"@,
            AgsiParameterCode::SubgradeSurfaceModulus => "SubgradeSurfaceModulus"@,
            AgsiParameterCode::Permeability => "Permeability"@,
            AgsiParameterCode::PermeabilityHorizontal => "PermeabilityHorizontal"@,
            AgsiParameterCode::PermeabilityVertical => "PermeabilityVertical"@,
            AgsiParameterCode::ACECClass => "ACECClass"@,
            AgsiParameterCode::ACECDSClass => "ACECDSClass"@,
            AgsiParameterCode::ACECCDCClass => "ACECCDCClass"@,
        }
    }

    /// The standard unit of the parameter, where it has one.
    pub open spec fn unit_text(self) -> Option<Seq<char>> {
        match self {
            AgsiParameterCode::Depth => Some("m"@),
            AgsiParameterCode::Elevation => Some("m"@),
            AgsiParameterCode::AnalysisDrainageCondition => None,
            AgsiParameterCode::UnitWeightBulk => Some("kN/m3"@),
            AgsiParameterCode::AngleFriction => Some("deg"@),
            AgsiParameterCode::AngleFrictionPeak => Some("deg"@),
            AgsiParameterCode::AngleFrictionCritical => Some("deg"@),
            AgsiParameterCode::AngleFrictionResidual => Some("deg"@),
            AgsiParameterCode::AngleDilation => Some("deg"@),
            AgsiParameterCode::Cohesion => Some("kPa"@),
            AgsiParameterCode::UndrainedShearStrength => Some("kPa"@),
            AgsiParameterCode::UndrainedShearStrengthTriaxial => Some("kPa"@),
            AgsiParameterCode::UniaxialCompressiveStrength => Some("MPa"@),
            AgsiParameterCode::YoungsModulusDrained => Some("MPa"@),
            AgsiParameterCode::YoungsModulusUndrained => Some("MPa"@),
            AgsiParameterCode::YoungsModulusDrainedVertical => Some("MPa"@),
            AgsiParameterCode::YoungsModulusUndrainedVertical => Some("MPa"@),
            AgsiParameterCode::YoungsModulusDrainedHorizontal => Some("MPa"@),
            AgsiParameterCode::YoungsModulusUndrainedHorizontal => Some("MPa"@),
            AgsiParameterCode::BulkModulus => Some("MPa"@),
            AgsiParameterCode::ShearModulusDrained => Some("MPa"@),
            AgsiParameterCode::ShearModulusUndrained => Some("MPa"@),
            AgsiParameterCode::PoissonsRatio => None,
            AgsiParameterCode::CoefficientLateralEarthPressureAtRest => None,
            AgsiParameterCode::CoefficientLateralEarthPressureActive => None,
            AgsiParameterCode::CoefficientLateralEarthPressurePassive => None,
            AgsiParameterCode::CoefficientLateralEarthPressureStar => None,
            AgsiParameterCode::CBR => Some("%"@),
            AgsiParameterCode::SubgradeSurfaceModulus => Some("MPa"@),
            AgsiParameterCode::Permeability => Some("m/s"@),
            AgsiParameterCode::PermeabilityHorizontal => Some("m/s"@),
            AgsiParameterCode::PermeabilityVertical => Some("m/s"@),
            AgsiParameterCode::ACECClass => None,
            AgsiParameterCode::ACECDSClass => None,
            AgsiParameterCode::ACECCDCClass => None,
        }
    }

    /// The category that the parameter belongs to.
    pub open spec fn category_text(self) -> Seq<char> {
        match self {
            AgsiParameterCode::Depth => "General"@,
            AgsiParameterCode::Elevation => "General"@,
            AgsiParameterCode::AnalysisDrainageCondition => "General"@,
            AgsiParameterCode::UnitWeightBulk => "Density"@,
            AgsiParameterCode::AngleFriction => "Strength"@,
            AgsiParameterCode::AngleFrictionPeak => "Strength"@,
            AgsiParameterCode::AngleFrictionCritical => "Strength"@,
            AgsiParameterCode::AngleFrictionResidual => "Strength"@,
            AgsiParameterCode::AngleDilation => "Strength"@,
            AgsiParameterCode::Cohesion => "Strength"@,
            AgsiParameterCode::UndrainedShearStrength => "Strength"@,
            AgsiParameterCode::UndrainedShearStrengthTriaxial => "Strength"@,
            AgsiParameterCode::UniaxialCompressiveStrength => "Stiffness"@,
            AgsiParameterCode::YoungsModulusDrained => "Stiffness"@,
            AgsiParameterCode::YoungsModulusUndrained => "Stiffness"@,
            AgsiParameterCode::YoungsModulusDrainedVertical => "Stiffness"@,
            AgsiParameterCode::YoungsModulusUndrainedVertical => "Stiffness"@,
            AgsiParameterCode::YoungsModulusDrainedHorizontal => "Stiffness"@,
            AgsiParameterCode::YoungsModulusUndrainedHorizontal => "Stiffness"@,
            AgsiParameterCode::BulkModulus => "Stiffness"@,
            AgsiParameterCode::ShearModulusDrained => "Stiffness"@,
            AgsiParameterCode::ShearModulusUndrained => "Stiffness"@,
            AgsiParameterCode::PoissonsRatio => "Stiffness"@,
            AgsiParameterCode::CoefficientLateralEarthPressureAtRest => "Ret wall"@,
            AgsiParameterCode::CoefficientLateralEarthPressureActive => "Ret wall"@,
            AgsiParameterCode::CoefficientLateralEarthPressurePassive => "Ret wall"@,
            AgsiParameterCode::CoefficientLateralEarthPressureStar => "Ret wall"@,
            AgsiParameterCode::CBR => "Pavement"@,
            AgsiParameterCode::SubgradeSurfaceModulus => "Pavement"@,
            AgsiParameterCode::Permeability => "Permeability"@,
            AgsiParameterCode::PermeabilityHorizontal => "Permeability"@,
            AgsiParameterCode::PermeabilityVertical => "Permeability"@,
            AgsiParameterCode::ACECClass => "ACEC"@,
            AgsiParameterCode::ACECDSClass => "ACEC"@,
            AgsiParameterCode::ACECCDCClass => "ACEC"@,
        }
    }

    /// What the parameter measures.
    pub open spec fn description_text(self) -> Seq<char> {
        match self {
            AgsiParameterCode::Depth => "Depth"@,
            AgsiParameterCode::Elevation => "Elevation"@,
            AgsiParameterCode::AnalysisDrainageCondition => "Drainage condition assumed for analysis: Drained or Undrained"@,
            AgsiParameterCode::UnitWeightBulk => "Bulk unit weight"@,
            AgsiParameterCode::AngleFriction => "Effective angle of shearing resistance"@,
            AgsiParameterCode::AngleFrictionPeak => "Peak effective angle of shearing resistance"@,
            AgsiParameterCode::AngleFrictionCritical => "Critical state effective angle of shearing resistance"@,
            AgsiParameterCode::AngleFrictionResidual => "Residual effective angle of shearing resistance"@,
            AgsiParameterCode::AngleDilation => "Angle of dilation"@,
            AgsiParameterCode::Cohesion => "Effective cohesion"@,
            AgsiParameterCode::UndrainedShearStrength => "Undrained shear strength"@,
            AgsiParameterCode::UndrainedShearStrengthTriaxial => "Undrained shear strength from triaxial tests"@,
            AgsiParameterCode::UniaxialCompressiveStrength => "Uniaxial Compressive Strength"@,
            AgsiParameterCode::YoungsModulusDrained => "Drained Young's Modulus"@,
            AgsiParameterCode::YoungsModulusUndrained => "Undrained Young's Modulus"@,
            AgsiParameterCode::YoungsModulusDrainedVertical => "Vertical drained Young's Modulus"@,
            AgsiParameterCode::YoungsModulusUndrainedVertical => "Vertical undrained Young's Modulus"@,
            AgsiParameterCode::YoungsModulusDrainedHorizontal => "Horizontal drained Young's Modulus"@,
            AgsiParameterCode::YoungsModulusUndrainedHorizontal => "Horizontal undrained Young's Modulus"@,
            AgsiParameterCode::BulkModulus => "Bulk modulus"@,
            AgsiParameterCode::ShearModulusDrained => "Drained shear Modulus"@,
            AgsiParameterCode::ShearModulusUndrained => "Undrained shear Modulus"@,
            AgsiParameterCode::PoissonsRatio => "Poisson's ratio"@,
            AgsiParameterCode::CoefficientLateralEarthPressureAtRest => "Coefficient of earth pressure at rest"@,
            AgsiParameterCode::CoefficientLateralEarthPressureActive => "Coefficient of active earth pressure"@,
            AgsiParameterCode::CoefficientLateralEarthPressurePassive => "Coefficient of passive earth pressure"@,
            AgsiParameterCode::CoefficientLateralEarthPressureStar => "Coefficient of earth pressure for integral bridge abutments subject to strain ratcheting"@,
            AgsiParameterCode::CBR => "California bearing ratio (CBR)"@,
            AgsiParameterCode::SubgradeSurfaceModulus => "Subgrade surface modulus"@,
            AgsiParameterCode::Permeability => "Permeability"@,
            AgsiParameterCode::PermeabilityHorizontal => "Horizontal permeability"@,
            AgsiParameterCode::PermeabilityVertical => "Vertical permeability"@,
            AgsiParameterCode::ACECClass => "ACEC Aggressive chemical environment class"@,
            AgsiParameterCode::ACECDSClass => "ACEC Design sulphate class"@,
            AgsiParameterCode::ACECCDCClass => "ACEC Design chemical class"@,
        }
    }

    /// The code whose identifier is `code`, if `code` is the identifier of
    /// one.
    pub open spec fn named(code: Seq<char>) -> Option<AgsiParameterCode> {
        if exists|c: AgsiParameterCode| #[trigger] c.code_id() == code {
            Some(choose|c: AgsiParameterCode| #[trigger] c.code_id() == code)
        } else {
            None
        }
    }

    /// The standard unit of the parameter, where it has one.
    pub fn units(&self) -> (unit: Option<&'static str>)
        ensures
            match unit {
                Some(u) => self.unit_text() == Some(u@),
                None => self.unit_text().is_none(),
            },
    {
        match self {
            AgsiParameterCode::Depth => Some("m"),
            AgsiParameterCode::Elevation => Some("m"),
            AgsiParameterCode::AnalysisDrainageCondition => None,
            AgsiParameterCode::UnitWeightBulk => Some("kN/m3"),
            AgsiParameterCode::AngleFriction => Some("deg"),
            AgsiParameterCode::AngleFrictionPeak => Some("deg"),
            AgsiParameterCode::AngleFrictionCritical => Some("deg"),
            AgsiParameterCode::AngleFrictionResidual => Some("deg"),
            AgsiParameterCode::AngleDilation => Some("deg"),
            AgsiParameterCode::Cohesion => Some("kPa"),
            AgsiParameterCode::UndrainedShearStrength => Some("kPa"),
            AgsiParameterCode::UndrainedShearStrengthTriaxial => Some("kPa"),
            AgsiParameterCode::UniaxialCompressiveStrength => Some("MPa"),
            AgsiParameterCode::YoungsModulusDrained => Some("MPa"),
            AgsiParameterCode::YoungsModulusUndrained => Some("MPa"),
            AgsiParameterCode::YoungsModulusDrainedVertical => Some("MPa"),
            AgsiParameterCode::YoungsModulusUndrainedVertical => Some("MPa"),
            AgsiParameterCode::YoungsModulusDrainedHorizontal => Some("MPa"),
            AgsiParameterCode::YoungsModulusUndrainedHorizontal => Some("MPa"),
            AgsiParameterCode::BulkModulus => Some("MPa"),
            AgsiParameterCode::ShearModulusDrained => Some("MPa"),
            AgsiParameterCode::ShearModulusUndrained => Some("MPa"),
            AgsiParameterCode::PoissonsRatio => None,
            AgsiParameterCode::CoefficientLateralEarthPressureAtRest => None,
            AgsiParameterCode::CoefficientLateralEarthPressureActive => None,
            AgsiParameterCode::CoefficientLateralEarthPressurePassive => None,
            AgsiParameterCode::CoefficientLateralEarthPressureStar => None,
            AgsiParameterCode::CBR => Some("%"),
            AgsiParameterCode::SubgradeSurfaceModulus => Some("MPa"),
            AgsiParameterCode::Permeability => Some("m/s"),
            AgsiParameterCode::PermeabilityHorizontal => Some("m/s"),
            AgsiParameterCode::PermeabilityVertical => Some("m/s"),
            AgsiParameterCode::ACECClass => None,
            AgsiParameterCode::ACECDSClass => None,
            AgsiParameterCode::ACECCDCClass => None,
        }
    }

    /// The category that the parameter belongs to.
    pub fn category(&self) -> (category: &'static str)
        ensures
            category@ == self.category_text(),
    {
        match self {
            AgsiParameterCode::Depth => "General",
            AgsiParameterCode::Elevation => "General",
            AgsiParameterCode::AnalysisDrainageCondition => "General",
            AgsiParameterCode::UnitWeightBulk => "Density",
            AgsiParameterCode::AngleFriction => "Strength",
            AgsiParameterCode::AngleFrictionPeak => "Strength",
            AgsiParameterCode::AngleFrictionCritical => "Strength",
            AgsiParameterCode::AngleFrictionResidual => "Strength",
            AgsiParameterCode::AngleDilation => "Strength",
            AgsiParameterCode::Cohesion => "Strength",
            AgsiParameterCode::UndrainedShearStrength => "Strength",
            AgsiParameterCode::UndrainedShearStrengthTriaxial => "Strength",
            AgsiParameterCode::UniaxialCompressiveStrength => "Stiffness",
            AgsiParameterCode::YoungsModulusDrained => "Stiffness",
            AgsiParameterCode::YoungsModulusUndrained => "Stiffness",
            AgsiParameterCode::YoungsModulusDrainedVertical => "Stiffness",
            AgsiParameterCode::YoungsModulusUndrainedVertical => "Stiffness",
            AgsiParameterCode::YoungsModulusDrainedHorizontal => "Stiffness",
            AgsiParameterCode::YoungsModulusUndrainedHorizontal => "Stiffness",
            AgsiParameterCode::BulkModulus => "Stiffness",
            AgsiParameterCode::ShearModulusDrained => "Stiffness",
            AgsiParameterCode::ShearModulusUndrained => "Stiffness",
            AgsiParameterCode::PoissonsRatio => "Stiffness",
            AgsiParameterCode::CoefficientLateralEarthPressureAtRest => "Ret wall",
            AgsiParameterCode::CoefficientLateralEarthPressureActive => "Ret wall",
            AgsiParameterCode::CoefficientLateralEarthPressurePassive => "Ret wall",
            AgsiParameterCode::CoefficientLateralEarthPressureStar => "Ret wall",
            AgsiParameterCode::CBR => "Pavement",
            AgsiParameterCode::SubgradeSurfaceModulus => "Pavement",
            AgsiParameterCode::Permeability => "Permeability",
            AgsiParameterCode::PermeabilityHorizontal => "Permeability",
            AgsiParameterCode::PermeabilityVertical => "Permeability",
            AgsiParameterCode::ACECClass => "ACEC",
            AgsiParameterCode::ACECDSClass => "ACEC",
            AgsiParameterCode::ACECCDCClass => "ACEC",
        }
    }

    /// What the parameter measures.
    pub fn description(&self) -> (description: &'static str)
        ensures
            description@ == self.description_text(),
    {
        match self {
            AgsiParameterCode::Depth => "Depth",
            AgsiParameterCode::Elevation => "Elevation",
            AgsiParameterCode::AnalysisDrainageCondition => "Drainage condition assumed for analysis: Drained or Undrained",
            AgsiParameterCode::UnitWeightBulk => "Bulk unit weight",
            AgsiParameterCode::AngleFriction => "Effective angle of shearing resistance",
            AgsiParameterCode::AngleFrictionPeak => "Peak effective angle of shearing resistance",
            AgsiParameterCode::AngleFrictionCritical => "Critical state effective angle of shearing resistance",
            AgsiParameterCode::AngleFrictionResidual => "Residual effective angle of shearing resistance",
            AgsiParameterCode::AngleDilation => "Angle of dilation",
            AgsiParameterCode::Cohesion => "Effective cohesion",
            AgsiParameterCode::UndrainedShearStrength => "Undrained shear strength",
            AgsiParameterCode::UndrainedShearStrengthTriaxial => "Undrained shear strength from triaxial tests",
            AgsiParameterCode::UniaxialCompressiveStrength => "Uniaxial Compressive Strength",
            AgsiParameterCode::YoungsModulusDrained => "Drained Young's Modulus",
            AgsiParameterCode::YoungsModulusUndrained => "Undrained Young's Modulus",
            AgsiParameterCode::YoungsModulusDrainedVertical => "Vertical drained Young's Modulus",
            AgsiParameterCode::YoungsModulusUndrainedVertical => "Vertical undrained Young's Modulus",
            AgsiParameterCode::YoungsModulusDrainedHorizontal => "Horizontal drained Young's Modulus",
            AgsiParameterCode::YoungsModulusUndrainedHorizontal => "Horizontal undrained Young's Modulus",
            AgsiParameterCode::BulkModulus => "Bulk modulus",
            AgsiParameterCode::ShearModulusDrained => "Drained shear Modulus",
            AgsiParameterCode::ShearModulusUndrained => "Undrained shear Modulus",
            AgsiParameterCode::PoissonsRatio => "Poisson's ratio",
            AgsiParameterCode::CoefficientLateralEarthPressureAtRest => "Coefficient of earth pressure at rest",
            AgsiParameterCode::CoefficientLateralEarthPressureActive => "Coefficient of active earth pressure",
            AgsiParameterCode::CoefficientLateralEarthPressurePassive => "Coefficient of passive earth pressure",
            AgsiParameterCode::CoefficientLateralEarthPressureStar => "Coefficient of earth pressure for integral bridge abutments subject to strain ratcheting",
            AgsiParameterCode::CBR => "California bearing ratio (CBR)",
            AgsiParameterCode::SubgradeSurfaceModulus => "Subgrade surface modulus",
            AgsiParameterCode::Permeability => "Permeability",
            AgsiParameterCode::PermeabilityHorizontal => "Horizontal permeability",
            AgsiParameterCode::PermeabilityVertical => "Vertical permeability",
            AgsiParameterCode::ACECClass => "ACEC Aggressive chemical environment class",
            AgsiParameterCode::ACECDSClass => "ACEC Design sulphate class",
            AgsiParameterCode::ACECCDCClass => "ACEC Design chemical class",
        }
    }

    /// The identifier under which the code is written in a document.
    pub fn as_code_id(&self) -> (id: &'static str)
        ensures
            id@ == self.code_id(),
    {
        match self {
            AgsiParameterCode::Depth => "Depth",
            AgsiParameterCode::Elevation => "Elevation",
            AgsiParameterCode::AnalysisDrainageCondition => "AnalysisDrainageCondition",
            AgsiParameterCode::UnitWeightBulk => "UnitWeightBulk",
            AgsiParameterCode::AngleFriction => "AngleFriction",
            AgsiParameterCode::AngleFrictionPeak => "AngleFrictionPeak",
            AgsiParameterCode::AngleFrictionCritical => "AngleFrictionCritical",
            AgsiParameterCode::AngleFrictionResidual => "AngleFrictionResidual",
            AgsiParameterCode::AngleDilation => "AngleDilation",
            AgsiParameterCode::Cohesion => "Cohesion",
            AgsiParameterCode::UndrainedShearStrength => "UndrainedShearStrength",
            AgsiParameterCode::UndrainedShearStrengthTriaxial => "UndrainedShearStrengthTriaxial",
            AgsiParameterCode::UniaxialCompressiveStrength => "UniaxialCompressiveStrength",
            AgsiParameterCode::YoungsModulusDrained => "YoungsModulusDrained",
            AgsiParameterCode::YoungsModulusUndrained => "YoungsModulusUndrained",
            AgsiParameterCode::YoungsModulusDrainedVertical => "YoungsModulusDrainedVertical",
            AgsiParameterCode::YoungsModulusUndrainedVertical => "YoungsModulusUndrainedVertical",
            AgsiParameterCode::YoungsModulusDrainedHorizontal => "YoungsModulusDrainedHorizontal",
            AgsiParameterCode::YoungsModulusUndrainedHorizontal => "YoungsModulusUndrainedHorizontal",
            AgsiParameterCode::BulkModulus => "BulkModulus",
            AgsiParameterCode::ShearModulusDrained => "ShearModulusDrained",
            AgsiParameterCode::ShearModulusUndrained => "ShearModulusUndrained",
            AgsiParameterCode::PoissonsRatio => "PoissonsRatio",
            AgsiParameterCode::CoefficientLateralEarthPressureAtRest => "CoefficientLateralEarthPressureAtRest",
            AgsiParameterCode::CoefficientLateralEarthPressureActive => "CoefficientLateralEarthPressureActive",
            AgsiParameterCode::CoefficientLateralEarthPressurePassive => "CoefficientLateralEarthPressurePassive",
            AgsiParameterCode::CoefficientLateralEarthPressureStar => "CoefficientLateralEarthPressureStar",
            AgsiParameterCode::CBR => "CBR",
            AgsiParameterCode::SubgradeSurfaceModulus => "SubgradeSurfaceModulus",
            AgsiParameterCode::Permeability => "Permeability",
            AgsiParameterCode::PermeabilityHorizontal => "PermeabilityHorizontal",
            AgsiParameterCode::PermeabilityVertical => "PermeabilityVertical",
            AgsiParameterCode::ACECClass => "ACECClass",
            AgsiParameterCode::ACECDSClass => "ACECDSClass",
            AgsiParameterCode::ACECCDCClass => "ACECCDCClass",
        }
    }

    /// The code that is written as `code`, if `code` is the identifier of a
    /// standard code. Identifiers are matched exactly, letter case included.
    pub fn from_code_id(code: &str) -> (found: Option<AgsiParameterCode>)
        ensures
            found == AgsiParameterCode::named(code@),
    {
        let found = if str_eq(code, "Depth") {
            Some(AgsiParameterCode::Depth)
        } else if str_eq(code, "Elevation") {
            Some(AgsiParameterCode::Elevation)
        } else if str_eq(code, "AnalysisDrainageCondition") {
            Some(AgsiParameterCode::AnalysisDrainageCondition)
        } else if str_eq(code, "UnitWeightBulk") {
            Some(AgsiParameterCode::UnitWeightBulk)
        } else if str_eq(code, "AngleFriction") {
            Some(AgsiParameterCode::AngleFriction)
        } else if str_eq(code, "AngleFrictionPeak") {
            Some(AgsiParameterCode::AngleFrictionPeak)
        } else if str_eq(code, "AngleFrictionCritical") {
            Some(AgsiParameterCode::AngleFrictionCritical)
        } else if str_eq(code, "AngleFrictionResidual") {
            Some(AgsiParameterCode::AngleFrictionResidual)
        } else if str_eq(code, "AngleDilation") {
            Some(AgsiParameterCode::AngleDilation)
        } else if str_eq(code, "Cohesion") {
            Some(AgsiParameterCode::Cohesion)
        } else if str_eq(code, "UndrainedShearStrength") {
            Some(AgsiParameterCode::UndrainedShearStrength)
        } else if str_eq(code, "UndrainedShearStrengthTriaxial") {
            Some(AgsiParameterCode::UndrainedShearStrengthTriaxial)
        } else if str_eq(code, "UniaxialCompressiveStrength") {
            Some(AgsiParameterCode::UniaxialCompressiveStrength)
        } else if str_eq(code, "YoungsModulusDrained") {
            Some(AgsiParameterCode::YoungsModulusDrained)
        } else if str_eq(code, "YoungsModulusUndrained") {
            Some(AgsiParameterCode::YoungsModulusUndrained)
        } else if str_eq(code, "YoungsModulusDrainedVertical") {
            Some(AgsiParameterCode::YoungsModulusDrainedVertical)
        } else if str_eq(code, "YoungsModulusUndrainedVertical") {
            Some(AgsiParameterCode::YoungsModulusUndrainedVertical)
        } else if str_eq(code, "YoungsModulusDrainedHorizontal") {
            Some(AgsiParameterCode::YoungsModulusDrainedHorizontal)
        } else if str_eq(code, "YoungsModulusUndrainedHorizontal") {
            Some(AgsiParameterCode::YoungsModulusUndrainedHorizontal)
        } else if str_eq(code, "BulkModulus") {
            Some(AgsiParameterCode::BulkModulus)
        } else if str_eq(code, "ShearModulusDrained") {
            Some(AgsiParameterCode::ShearModulusDrained)
        } else if str_eq(code, "ShearModulusUndrained") {
            Some(AgsiParameterCode::ShearModulusUndrained)
        } else if str_eq(code, "PoissonsRatio") {
            Some(AgsiParameterCode::PoissonsRatio)
        } else if str_eq(code, "CoefficientLateralEarthPressureAtRest") {
            Some(AgsiParameterCode::CoefficientLateralEarthPressureAtRest)
        } else if str_eq(code, "CoefficientLateralEarthPressureActive") {
            Some(AgsiParameterCode::CoefficientLateralEarthPressureActive)
        } else if str_eq(code, "CoefficientLateralEarthPressurePassive") {
            Some(AgsiParameterCode::CoefficientLateralEarthPressurePassive)
        } else if str_eq(code, "CoefficientLateralEarthPressureStar") {
            Some(AgsiParameterCode::CoefficientLateralEarthPressureStar)
        } else if str_eq(code, "CBR") {
            Some(AgsiParameterCode::CBR)
        } else if str_eq(code, "SubgradeSurfaceModulus") {
            Some(AgsiParameterCode::SubgradeSurfaceModulus)
        } else if str_eq(code, "Permeability") {
            Some(AgsiParameterCode::Permeability)
        } else if str_eq(code, "PermeabilityHorizontal") {
            Some(AgsiParameterCode::PermeabilityHorizontal)
        } else if str_eq(code, "PermeabilityVertical") {
            Some(AgsiParameterCode::PermeabilityVertical)
        } else if str_eq(code, "ACECClass") {
            Some(AgsiParameterCode::ACECClass)
        } else if str_eq(code, "ACECDSClass") {
            Some(AgsiParameterCode::ACECDSClass)
        } else if str_eq(code, "ACECCDCClass") {
            Some(AgsiParameterCode::ACECCDCClass)
        } else {
            None
        };
        proof {
            match found {
                Some(f) => {
                    assert(f.code_id() == code@);
                    let chosen = choose|c: AgsiParameterCode| #[trigger] c.code_id() == code@;
                    lemma_code_ids_distinct(chosen, f);
                },
                None => {
                    assert forall|c: AgsiParameterCode| #[trigger] c.code_id() != code@ by {}
                },
            }
        }
        found
    }
}

/// What tells two identifiers apart: the length, the last letter, the
/// middle letter, and the eighth letter from the end where there is one.
spec fn mark(id: Seq<char>) -> (nat, char, char, char) {
    (
        id.len(),
        id[id.len() - 1],
        id[(id.len() / 2) as int],
        if id.len() >= 8 {
            id[id.len() - 8]
        } else {
            ' '
        },
    )
}

/// The mark of the identifier of each code.
spec fn mark_of(c: AgsiParameterCode) -> (nat, char, char, char) {
    match c {
        AgsiParameterCode::Depth => (5, 'h', 'p', ' '),
        AgsiParameterCode::Elevation => (9, 'n', 'a', 'l'),
        AgsiParameterCode::AnalysisDrainageCondition => (25, 'n', 'n', 'o'),
        AgsiParameterCode::UnitWeightBulk => (14, 'k', 'g', 'i'),
        AgsiParameterCode::AngleFriction => (13, 'n', 'r', 'F'),
        AgsiParameterCode::AngleFrictionPeak => (17, 'k', 'c', 't'),
        AgsiParameterCode::AngleFrictionCritical => (21, 'l', 'i', 'C'),
        AgsiParameterCode::AngleFrictionResidual => (21, 'l', 'i', 'R'),
        AgsiParameterCode::AngleDilation => (13, 'n', 'i', 'D'),
        AgsiParameterCode::Cohesion => (8, 'n', 's', 'C'),
        AgsiParameterCode::UndrainedShearStrength => (22, 'h', 'e', 'S'),
        AgsiParameterCode::UndrainedShearStrengthTriaxial => (30, 'l', 't', 'T'),
        AgsiParameterCode::UniaxialCompressiveStrength => (27, 'h', 'e', 'S'),
        AgsiParameterCode::YoungsModulusDrained => (20, 'd', 'l', 's'),
        AgsiParameterCode::YoungsModulusUndrained => (22, 'd', 'u', 'n'),
        AgsiParameterCode::YoungsModulusDrainedVertical => (28, 'l', 'r', 'V'),
        AgsiParameterCode::YoungsModulusUndrainedVertical => (30, 'l', 'd', 'V'),
        AgsiParameterCode::YoungsModulusDrainedHorizontal => (30, 'l', 'a', 'r'),
        AgsiParameterCode::YoungsModulusUndrainedHorizontal => (32, 'l', 'r', 'r'),
        AgsiParameterCode::BulkModulus => (11, 's', 'o', 'k'),
        AgsiParameterCode::ShearModulusDrained => (19, 'd', 'l', 's'),
        AgsiParameterCode::ShearModulusUndrained => (21, 'd', 'u', 'n'),
        AgsiParameterCode::PoissonsRatio => (13, 'o', 'n', 'o'),
        AgsiParameterCode::CoefficientLateralEarthPressureAtRest => (37, 't', 'E', 'r'),
        AgsiParameterCode::CoefficientLateralEarthPressureActive => (37, 'e', 'E', 'r'),
        AgsiParameterCode::CoefficientLateralEarthPressurePassive => (38, 'e', 'a', 'e'),
        AgsiParameterCode::CoefficientLateralEarthPressureStar => (35, 'r', 'l', 's'),
        AgsiParameterCode::CBR => (3, 'R', 'B', ' '),
        AgsiParameterCode::SubgradeSurfaceModulus => (22, 's', 'f', 'e'),
        AgsiParameterCode::Permeability => (12, 'y', 'b', 'e'),
        AgsiParameterCode::PermeabilityHorizontal => (22, 'l', 'y', 'r'),
        AgsiParameterCode::PermeabilityVertical => (20, 'l', 't', 'V'),
        AgsiParameterCode::ACECClass => (9, 's', 'C', 'C'),
        AgsiParameterCode::ACECDSClass => (11, 's', 'S', 'C'),
        AgsiParameterCode::ACECCDCClass => (12, 's', 'C', 'C'),
    }
}

proof fn lemma_mark(c: AgsiParameterCode)
    ensures
        mark(c.code_id()) == mark_of(c),
{
    match c {
        AgsiParameterCode::Depth => {
            reveal_strlit("Depth");
        },
        AgsiParameterCode::Elevation => {
            reveal_strlit("Elevation");
        },
        AgsiParameterCode::AnalysisDrainageCondition => {
            reveal_strlit("AnalysisDrainageCondition");
        },
        AgsiParameterCode::UnitWeightBulk => {
            reveal_strlit("UnitWeightBulk");
        },
        AgsiParameterCode::AngleFriction => {
            reveal_strlit("AngleFriction");
        },
        AgsiParameterCode::AngleFrictionPeak => {
            reveal_strlit("AngleFrictionPeak");
        },
        AgsiParameterCode::AngleFrictionCritical => {
            reveal_strlit("AngleFrictionCritical");
        },
        AgsiParameterCode::AngleFrictionResidual => {
            reveal_strlit("AngleFrictionResidual");
        },
        AgsiParameterCode::AngleDilation => {
            reveal_strlit("AngleDilation");
        },
        AgsiParameterCode::Cohesion => {
            reveal_strlit("Cohesion");
        },
        AgsiParameterCode::UndrainedShearStrength => {
            reveal_strlit("UndrainedShearStrength");
        },
        AgsiParameterCode::UndrainedShearStrengthTriaxial => {
            reveal_strlit("UndrainedShearStrengthTriaxial");
        },
        AgsiParameterCode::UniaxialCompressiveStrength => {
            reveal_strlit("UniaxialCompressiveStrength");
        },
        AgsiParameterCode::YoungsModulusDrained => {
            reveal_strlit("YoungsModulusDrained");
        },
        AgsiParameterCode::YoungsModulusUndrained => {
            reveal_strlit("YoungsModulusUndrained");
        },
        AgsiParameterCode::YoungsModulusDrainedVertical => {
            reveal_strlit("YoungsModulusDrainedVertical");
        },
        AgsiParameterCode::YoungsModulusUndrainedVertical => {
            reveal_strlit("YoungsModulusUndrainedVertical");
        },
        AgsiParameterCode::YoungsModulusDrainedHorizontal => {
            reveal_strlit("YoungsModulusDrainedHorizontal");
        },
        AgsiParameterCode::YoungsModulusUndrainedHorizontal => {
            reveal_strlit("YoungsModulusUndrainedHorizontal");
        },
        AgsiParameterCode::BulkModulus => {
            reveal_strlit("BulkModulus");
        },
        AgsiParameterCode::ShearModulusDrained => {
            reveal_strlit("ShearModulusDrained");
        },
        AgsiParameterCode::ShearModulusUndrained => {
            reveal_strlit("ShearModulusUndrained");
        },
        AgsiParameterCode::PoissonsRatio => {
            reveal_strlit("PoissonsRatio");
        },
        AgsiParameterCode::CoefficientLateralEarthPressureAtRest => {
            reveal_strlit("CoefficientLateralEarthPressureAtRest");
        },
        AgsiParameterCode::CoefficientLateralEarthPressureActive => {
            reveal_strlit("CoefficientLateralEarthPressureActive");
        },
        AgsiParameterCode::CoefficientLateralEarthPressurePassive => {
            reveal_strlit("CoefficientLateralEarthPressurePassive");
        },
        AgsiParameterCode::CoefficientLateralEarthPressureStar => {
            reveal_strlit("CoefficientLateralEarthPressureStar");
        },
        AgsiParameterCode::CBR => {
            reveal_strlit("CBR");
        },
        AgsiParameterCode::SubgradeSurfaceModulus => {
            reveal_strlit("SubgradeSurfaceModulus");
        },
        AgsiParameterCode::Permeability => {
            reveal_strlit("Permeability");
        },
        AgsiParameterCode::PermeabilityHorizontal => {
            reveal_strlit("PermeabilityHorizontal");
        },
        AgsiParameterCode::PermeabilityVertical => {
            reveal_strlit("PermeabilityVertical");
        },
        AgsiParameterCode::ACECClass => {
            reveal_strlit("ACECClass");
        },
        AgsiParameterCode::ACECDSClass => {
            reveal_strlit("ACECDSClass");
        },
        AgsiParameterCode::ACECCDCClass => {
            reveal_strlit("ACECCDCClass");
        },
    }
}

/// No two codes are written alike.
pub proof fn lemma_code_ids_distinct(c: AgsiParameterCode, d: AgsiParameterCode)
    requires
        c.code_id() == d.code_id(),
    ensures
        c == d,
{
    lemma_mark(c);
    lemma_mark(d);
}

/// Reading back the identifier of a code gives that code.
pub proof fn lemma_code_id_round_trip(c: AgsiParameterCode)
    ensures
        AgsiParameterCode::named(c.code_id()) == Some(c),
{
    assert(c.code_id() == c.code_id());
    let chosen = choose|x: AgsiParameterCode| #[trigger] x.code_id() == c.code_id();
    lemma_code_ids_distinct(chosen, c);
}

proof fn lemma_texts_not_empty(c: AgsiParameterCode)
    ensures
        c.category_text().len() > 0,
        c.description_text().len() > 0,
{
    reveal_strlit("General");
    reveal_strlit("Density");
    reveal_strlit("Strength");
    reveal_strlit("Stiffness");
    reveal_strlit("Ret wall");
    reveal_strlit("Pavement");
    reveal_strlit("Permeability");
    reveal_strlit("ACEC");
    match c {
        AgsiParameterCode::Depth => {
            reveal_strlit("Depth");
        },
        AgsiParameterCode::Elevation => {
            reveal_strlit("Elevation");
        },
        AgsiParameterCode::AnalysisDrainageCondition => {
            reveal_strlit("Drainage condition assumed for analysis: Drained or Undrained");
        },
        AgsiParameterCode::UnitWeightBulk => {
            reveal_strlit("Bulk unit weight");
        },
        AgsiParameterCode::AngleFriction => {
            reveal_strlit("Effective angle of shearing resistance");
        },
        AgsiParameterCode::AngleFrictionPeak => {
            reveal_strlit("Peak effective angle of shearing resistance");
        },
        AgsiParameterCode::AngleFrictionCritical => {
            reveal_strlit("Critical state effective angle of shearing resistance");
        },
        AgsiParameterCode::AngleFrictionResidual => {
            reveal_strlit("Residual effective angle of shearing resistance");
        },
        AgsiParameterCode::AngleDilation => {
            reveal_strlit("Angle of dilation");
        },
        AgsiParameterCode::Cohesion => {
            reveal_strlit("Effective cohesion");
        },
        AgsiParameterCode::UndrainedShearStrength => {
            reveal_strlit("Undrained shear strength");
        },
        AgsiParameterCode::UndrainedShearStrengthTriaxial => {
            reveal_strlit("Undrained shear strength from triaxial tests");
        },
        AgsiParameterCode::UniaxialCompressiveStrength => {
            reveal_strlit("Uniaxial Compressive Strength");
        },
        AgsiParameterCode::YoungsModulusDrained => {
            reveal_strlit("Drained Young's Modulus");
        },
        AgsiParameterCode::YoungsModulusUndrained => {
            reveal_strlit("Undrained Young's Modulus");
        },
        AgsiParameterCode::YoungsModulusDrainedVertical => {
            reveal_strlit("Vertical drained Young's Modulus");
        },
        AgsiParameterCode::YoungsModulusUndrainedVertical => {
            reveal_strlit("Vertical undrained Young's Modulus");
        },
        AgsiParameterCode::YoungsModulusDrainedHorizontal => {
            reveal_strlit("Horizontal drained Young's Modulus");
        },
        AgsiParameterCode::YoungsModulusUndrainedHorizontal => {
            reveal_strlit("Horizontal undrained Young's Modulus");
        },
        AgsiParameterCode::BulkModulus => {
            reveal_strlit("Bulk modulus");
        },
        AgsiParameterCode::ShearModulusDrained => {
            reveal_strlit("Drained shear Modulus");
        },
        AgsiParameterCode::ShearModulusUndrained => {
            reveal_strlit("Undrained shear Modulus");
        },
        AgsiParameterCode::PoissonsRatio => {
            reveal_strlit("Poisson's ratio");
        },
        AgsiParameterCode::CoefficientLateralEarthPressureAtRest => {
            reveal_strlit("Coefficient of earth pressure at rest");
        },
        AgsiParameterCode::CoefficientLateralEarthPressureActive => {
            reveal_strlit("Coefficient of active earth pressure");
        },
        AgsiParameterCode::CoefficientLateralEarthPressurePassive => {
            reveal_strlit("Coefficient of passive earth pressure");
        },
        AgsiParameterCode::CoefficientLateralEarthPressureStar => {
            reveal_strlit("Coefficient of earth pressure for integral bridge abutments subject to strain ratcheting");
        },
        AgsiParameterCode::CBR => {
            reveal_strlit("California bearing ratio (CBR)");
        },
        AgsiParameterCode::SubgradeSurfaceModulus => {
            reveal_strlit("Subgrade surface modulus");
        },
        AgsiParameterCode::Permeability => {
            reveal_strlit("Permeability");
        },
        AgsiParameterCode::PermeabilityHorizontal => {
            reveal_strlit("Horizontal permeability");
        },
        AgsiParameterCode::PermeabilityVertical => {
            reveal_strlit("Vertical permeability");
        },
        AgsiParameterCode::ACECClass => {
            reveal_strlit("ACEC Aggressive chemical environment class");
        },
        AgsiParameterCode::ACECDSClass => {
            reveal_strlit("ACEC Design sulphate class");
        },
        AgsiParameterCode::ACECCDCClass => {
            reveal_strlit("ACEC Design chemical class");
        },
    }
}

/// Every code has a category and a description, and neither is empty.
pub proof fn lemma_codes_are_described(c: AgsiParameterCode)
    ensures
        c.code_id().len() > 0,
        c.category_text().len() > 0,
        c.description_text().len() > 0,
{
    lemma_mark(c);
    lemma_texts_not_empty(c);
}

} // verus!
