//! The type classifier: every type falls into one conversion category, with
//! unresolvable shapes degrading to `Unknown` rather than failing.

use vstd::prelude::*;
use crate::library::{
    ConversionType, Env, TypeShape, resolve_alias, spec_conversion_of, spec_resolved,
    spec_resolved_with_fuel, type_known,
};

verus! {

/// The category describes a copyable value type, for which no ownership
/// crosses the foreign-call boundary.
pub open spec fn spec_is_value_category(c: ConversionType) -> bool {
    c == ConversionType::Direct || c == ConversionType::Scalar
}

/// Alias resolution only ever lands on a known environment entry.
pub proof fn lemma_resolved_known(env: Env, typ: int, fuel: nat)
    ensures
        spec_resolved_with_fuel(env, typ, fuel) matches Some(t) ==> type_known(env, t),
    decreases fuel,
{
    if type_known(env, typ) {
        match env.types@[typ].shape {
            TypeShape::Alias(next) => {
                if fuel > 0 {
                    lemma_resolved_known(env, next as int, (fuel - 1) as nat);
                }
            },
            _ => {},
        }
    }
}

/// Classification is idempotent: the category is a pure function of the
/// environment and the type identifier alone, so re-running the classifier
/// on the same pair always yields the same category.
pub proof fn lemma_classification_idempotent(
    env: Env,
    typ: int,
    first: ConversionType,
    second: ConversionType,
)
    requires
        first == spec_conversion_of(env, typ),
        second == spec_conversion_of(env, typ),
    ensures
        first == second,
{
}

impl ConversionType {
    /// Classify a type: a pure, total function of the environment and the
    /// type identifier alone, so re-running it on the same pair always
    /// yields the same category.
    pub fn of(env: &Env, typ: usize) -> (r: ConversionType)
        ensures
            r == spec_conversion_of(*env, typ as int),
    {
        match resolve_alias(env, typ) {
            Some(t) => {
                proof {
                    lemma_resolved_known(*env, typ as int, env.types@.len() as nat);
                    assert(spec_resolved(*env, typ as int) == Some(t as int));
                }
                env.types[t].category
            },
            None => ConversionType::Unknown,
        }
    }
}

} // verus!
