use vstd::prelude::*;
use crate::text::same_text;

verus! {

/// The settable physical constants of a simulation, one per configuration
/// key.
#[derive(Debug, PartialEq, Eq, Structural, Clone, Copy)]
pub enum ConfigKey {
    TimeDelta,
    SomiteMass,
    SomiteRadius,
    NormalAngularVelocity,
    RtsMaxNaturalLength,
    RtsK,
    RtsC,
    RtsAmp,
    SpNaturalLength,
    SpK,
    DpC,
    HorizonTsK0,
    HorizonTsK1,
    VerticalTsK0,
    VerticalTsK1,
    VerticalTsC,
    VerticalRealtimeTunableTorsionSpirngK,
    RealtimeTunableTsRomMin,
    RealtimeTunableTsRomMax,
    StaticFrictionCoeff,
    DynamicFrictionCoeff,
    ViscosityFrictionCoeff,
    TipSubStaticFrictionCoeff,
    TipSubDynamicFrictionCoeff,
    TipSubViscosityFrictionCoeff,
    FrictionSwitchTan,
    GrippingPhaseThreshold,
    GrippingShearStressK,
    GrippingShearStressC,
}

impl ConfigKey {
    /// The key's name, as a configuration source writes it.
    pub open spec fn text(self) -> Seq<char> {
        match self {
            ConfigKey::TimeDelta => "time_delta"@,
            ConfigKey::SomiteMass => "somite_mass"@,
            ConfigKey::SomiteRadius => "somite_radius"@,
            ConfigKey::NormalAngularVelocity => "normal_angular_velocity"@,
            ConfigKey::RtsMaxNaturalLength => "rts_max_natural_length"@,
            ConfigKey::RtsK => "rts_k"@,
            ConfigKey::RtsC => "rts_c"@,
            ConfigKey::RtsAmp => "rts_amp"@,
            ConfigKey::SpNaturalLength => "sp_natural_length"@,
            ConfigKey::SpK => "sp_k"@,
            ConfigKey::DpC => "dp_c"@,
            ConfigKey::HorizonTsK0 => "horizon_ts_k0"@,
            ConfigKey::HorizonTsK1 => "horizon_ts_k1"@,
            ConfigKey::VerticalTsK0 => "vertical_ts_k0"@,
            ConfigKey::VerticalTsK1 => "vertical_ts_k1"@,
            ConfigKey::VerticalTsC => "vertical_ts_c"@,
            ConfigKey::VerticalRealtimeTunableTorsionSpirngK => "vertical_realtime_tunable_torsion_spirng_k"@,
            ConfigKey::RealtimeTunableTsRomMin => "realtime_tunable_ts_rom_min"@,
            ConfigKey::RealtimeTunableTsRomMax => "realtime_tunable_ts_rom_max"@,
            ConfigKey::StaticFrictionCoeff => "static_friction_coeff"@,
            ConfigKey::DynamicFrictionCoeff => "dynamic_friction_coeff"@,
            ConfigKey::ViscosityFrictionCoeff => "viscosity_friction_coeff"@,
            ConfigKey::TipSubStaticFrictionCoeff => "tip_sub_static_friction_coeff"@,
            ConfigKey::TipSubDynamicFrictionCoeff => "tip_sub_dynamic_friction_coeff"@,
            ConfigKey::TipSubViscosityFrictionCoeff => "tip_sub_viscosity_friction_coeff"@,
            ConfigKey::FrictionSwitchTan => "friction_switch_tan"@,
            ConfigKey::GrippingPhaseThreshold => "gripping_phase_threshold"@,
            ConfigKey::GrippingShearStressK => "gripping_shear_stress_k"@,
            ConfigKey::GrippingShearStressC => "gripping_shear_stress_c"@,
        }
    }

    /// The key's name.
    pub fn name(&self) -> (r: &'static str)
        ensures
            r@ == self.text(),
    {
        match self {
            ConfigKey::TimeDelta => "time_delta",
            ConfigKey::SomiteMass => "somite_mass",
            ConfigKey::SomiteRadius => "somite_radius",
            ConfigKey::NormalAngularVelocity => "normal_angular_velocity",
            ConfigKey::RtsMaxNaturalLength => "rts_max_natural_length",
            ConfigKey::RtsK => "rts_k",
            ConfigKey::RtsC => "rts_c",
            ConfigKey::RtsAmp => "rts_amp",
            ConfigKey::SpNaturalLength => "sp_natural_length",
            ConfigKey::SpK => "sp_k",
            ConfigKey::DpC => "dp_c",
            ConfigKey::HorizonTsK0 => "horizon_ts_k0",
            ConfigKey::HorizonTsK1 => "horizon_ts_k1",
            ConfigKey::VerticalTsK0 => "vertical_ts_k0",
            ConfigKey::VerticalTsK1 => "vertical_ts_k1",
            ConfigKey::VerticalTsC => "vertical_ts_c",
            ConfigKey::VerticalRealtimeTunableTorsionSpirngK => "vertical_realtime_tunable_torsion_spirng_k",
            ConfigKey::RealtimeTunableTsRomMin => "realtime_tunable_ts_rom_min",
            ConfigKey::RealtimeTunableTsRomMax => "realtime_tunable_ts_rom_max",
            ConfigKey::StaticFrictionCoeff => "static_friction_coeff",
            ConfigKey::DynamicFrictionCoeff => "dynamic_friction_coeff",
            ConfigKey::ViscosityFrictionCoeff => "viscosity_friction_coeff",
            ConfigKey::TipSubStaticFrictionCoeff => "tip_sub_static_friction_coeff",
            ConfigKey::TipSubDynamicFrictionCoeff => "tip_sub_dynamic_friction_coeff",
            ConfigKey::TipSubViscosityFrictionCoeff => "tip_sub_viscosity_friction_coeff",
            ConfigKey::FrictionSwitchTan => "friction_switch_tan",
            ConfigKey::GrippingPhaseThreshold => "gripping_phase_threshold",
            ConfigKey::GrippingShearStressK => "gripping_shear_stress_k",
            ConfigKey::GrippingShearStressC => "gripping_shear_stress_c",
        }
    }

    /// The key named `key`, or `None` when no key has that name.
    pub fn parse(key: &str) -> (r: Option<ConfigKey>)
        ensures
            match r {
                Some(k) => k.text() == key@,
                None => forall|k: ConfigKey| #[trigger] k.text() != key@,
            },
    {
        if same_text(key, "time_delta") {
            Some(ConfigKey::TimeDelta)
        } else if same_text(key, "somite_mass") {
            Some(ConfigKey::SomiteMass)
        } else if same_text(key, "somite_radius") {
            Some(ConfigKey::SomiteRadius)
        } else if same_text(key, "normal_angular_velocity") {
            Some(ConfigKey::NormalAngularVelocity)
        } else if same_text(key, "rts_max_natural_length") {
            Some(ConfigKey::RtsMaxNaturalLength)
        } else if same_text(key, "rts_k") {
            Some(ConfigKey::RtsK)
        } else if same_text(key, "rts_c") {
            Some(ConfigKey::RtsC)
        } else if same_text(key, "rts_amp") {
            Some(ConfigKey::RtsAmp)
        } else if same_text(key, "sp_natural_length") {
            Some(ConfigKey::SpNaturalLength)
        } else if same_text(key, "sp_k") {
            Some(ConfigKey::SpK)
        } else if same_text(key, "dp_c") {
            Some(ConfigKey::DpC)
        } else if same_text(key, "horizon_ts_k0") {
            Some(ConfigKey::HorizonTsK0)
        } else if same_text(key, "horizon_ts_k1") {
            Some(ConfigKey::HorizonTsK1)
        } else if same_text(key, "vertical_ts_k0") {
            Some(ConfigKey::VerticalTsK0)
        } else if same_text(key, "vertical_ts_k1") {
            Some(ConfigKey::VerticalTsK1)
        } else if same_text(key, "vertical_ts_c") {
            Some(ConfigKey::VerticalTsC)
        } else if same_text(key, "vertical_realtime_tunable_torsion_spirng_k") {
            Some(ConfigKey::VerticalRealtimeTunableTorsionSpirngK)
        } else if same_text(key, "realtime_tunable_ts_rom_min") {
            Some(ConfigKey::RealtimeTunableTsRomMin)
        } else if same_text(key, "realtime_tunable_ts_rom_max") {
            Some(ConfigKey::RealtimeTunableTsRomMax)
        } else if same_text(key, "static_friction_coeff") {
            Some(ConfigKey::StaticFrictionCoeff)
        } else if same_text(key, "dynamic_friction_coeff") {
            Some(ConfigKey::DynamicFrictionCoeff)
        } else if same_text(key, "viscosity_friction_coeff") {
            Some(ConfigKey::ViscosityFrictionCoeff)
        } else if same_text(key, "tip_sub_static_friction_coeff") {
            Some(ConfigKey::TipSubStaticFrictionCoeff)
        } else if same_text(key, "tip_sub_dynamic_friction_coeff") {
            Some(ConfigKey::TipSubDynamicFrictionCoeff)
        } else if same_text(key, "tip_sub_viscosity_friction_coeff") {
            Some(ConfigKey::TipSubViscosityFrictionCoeff)
        } else if same_text(key, "friction_switch_tan") {
            Some(ConfigKey::FrictionSwitchTan)
        } else if same_text(key, "gripping_phase_threshold") {
            Some(ConfigKey::GrippingPhaseThreshold)
        } else if same_text(key, "gripping_shear_stress_k") {
            Some(ConfigKey::GrippingShearStressK)
        } else if same_text(key, "gripping_shear_stress_c") {
            Some(ConfigKey::GrippingShearStressC)
        } else {
            proof {
                assert forall|k: ConfigKey| #[trigger] k.text() != key@ by {
                    match k {
                        ConfigKey::TimeDelta => {},
                        ConfigKey::SomiteMass => {},
                        ConfigKey::SomiteRadius => {},
                        ConfigKey::NormalAngularVelocity => {},
                        ConfigKey::RtsMaxNaturalLength => {},
                        ConfigKey::RtsK => {},
                        ConfigKey::RtsC => {},
                        ConfigKey::RtsAmp => {},
                        ConfigKey::SpNaturalLength => {},
                        ConfigKey::SpK => {},
                        ConfigKey::DpC => {},
                        ConfigKey::HorizonTsK0 => {},
                        ConfigKey::HorizonTsK1 => {},
                        ConfigKey::VerticalTsK0 => {},
                        ConfigKey::VerticalTsK1 => {},
                        ConfigKey::VerticalTsC => {},
                        ConfigKey::VerticalRealtimeTunableTorsionSpirngK => {},
                        ConfigKey::RealtimeTunableTsRomMin => {},
                        ConfigKey::RealtimeTunableTsRomMax => {},
                        ConfigKey::StaticFrictionCoeff => {},
                        ConfigKey::DynamicFrictionCoeff => {},
                        ConfigKey::ViscosityFrictionCoeff => {},
                        ConfigKey::TipSubStaticFrictionCoeff => {},
                        ConfigKey::TipSubDynamicFrictionCoeff => {},
                        ConfigKey::TipSubViscosityFrictionCoeff => {},
                        ConfigKey::FrictionSwitchTan => {},
                        ConfigKey::GrippingPhaseThreshold => {},
                        ConfigKey::GrippingShearStressK => {},
                        ConfigKey::GrippingShearStressC => {},
                    }
                }
            }
            None
        }
    }
}

} // verus!
