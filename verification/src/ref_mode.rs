//! The reference-mode rule: how the generated binding accesses each native
//! parameter — by value, by shared reference, or by exclusive reference.

use vstd::prelude::*;
use crate::conversion_type::spec_is_value_category;
use crate::library::{ConversionType, Env, Parameter, ParameterDirection, spec_conversion_of};

verus! {

#[derive(Clone, Copy, Debug, PartialEq, Eq, Structural)]
pub enum RefMode {
    ByValue,
    ByRef,
    ByRefMut,
}

/// The mode a parameter's category and direction ask for on their own:
/// copyable value types pass by value, inbound pointers by shared reference,
/// outbound or in-out pointers by exclusive reference.
pub open spec fn spec_base_ref_mode(env: Env, typ: int, direction: ParameterDirection) -> RefMode {
    if spec_is_value_category(spec_conversion_of(env, typ)) {
        RefMode::ByValue
    } else {
        match direction {
            ParameterDirection::In => RefMode::ByRef,
            ParameterDirection::InOut => RefMode::ByRefMut,
            ParameterDirection::Out => RefMode::ByRefMut,
            ParameterDirection::Return => RefMode::ByValue,
        }
    }
}

/// The final mode: exclusive access is downgraded to shared where a
/// configuration marks the parameter immutable, or where the parameter is
/// the instance receiver of a method generated in a shared trait context.
pub open spec fn spec_without_unneeded_mut(
    env: Env,
    par: Parameter,
    immutable: bool,
    self_in_trait: bool,
) -> RefMode {
    let base = spec_base_ref_mode(env, par.typ as int, par.direction);
    if base == RefMode::ByRefMut && (immutable || self_in_trait) {
        RefMode::ByRef
    } else {
        base
    }
}

impl RefMode {
    /// Compute the reference mode for one parameter.
    pub fn without_unneeded_mut(
        env: &Env,
        par: &Parameter,
        immutable: bool,
        self_in_trait: bool,
    ) -> (r: RefMode)
        ensures
            r == spec_without_unneeded_mut(*env, *par, immutable, self_in_trait),
    {
        let conversion = ConversionType::of(env, par.typ);
        let is_value = conversion == ConversionType::Direct
            || conversion == ConversionType::Scalar;
        let base = if is_value {
            RefMode::ByValue
        } else {
            match par.direction {
                ParameterDirection::In => RefMode::ByRef,
                ParameterDirection::InOut => RefMode::ByRefMut,
                ParameterDirection::Out => RefMode::ByRefMut,
                ParameterDirection::Return => RefMode::ByValue,
            }
        };
        if base == RefMode::ByRefMut && (immutable || self_in_trait) {
            RefMode::ByRef
        } else {
            base
        }
    }
}

} // verus!
