//! Per-parameter configuration overrides for one function, keyed by the
//! parameter's (mangled) name.  Absence of a matching entry is the default
//! path, not an error.

use vstd::prelude::*;
use crate::strutil::str_eq;

verus! {

/// One override entry.
#[derive(Clone, Debug)]
pub struct ParameterConfig {
    /// The parameter name the entry applies to.
    pub ident: String,
    /// Replaces the descriptor's declared nullability.
    pub nullable: Option<bool>,
    /// Treat the parameter as immutable regardless of its direction.
    pub constant: bool,
    /// The parameter is the length of the named array parameter.
    pub length_of: Option<String>,
    /// Force a specialized type for the parameter.
    pub string_type: Option<usize>,
}

pub open spec fn cfg_matches(c: ParameterConfig, name: Seq<char>) -> bool {
    c.ident@ == name
}

/// The first matching entry's nullability override, if any entry has one.
pub open spec fn spec_first_nullable(cfgs: Seq<ParameterConfig>, name: Seq<char>) -> Option<bool>
    decreases cfgs.len(),
{
    if cfgs.len() == 0 {
        None
    } else if cfg_matches(cfgs[0], name) && cfgs[0].nullable is Some {
        cfgs[0].nullable
    } else {
        spec_first_nullable(cfgs.drop_first(), name)
    }
}

/// The first matching entry's array link, if any entry has one.
pub open spec fn spec_first_length_of(cfgs: Seq<ParameterConfig>, name: Seq<char>) -> Option<
    Seq<char>,
>
    decreases cfgs.len(),
{
    if cfgs.len() == 0 {
        None
    } else if cfg_matches(cfgs[0], name) && cfgs[0].length_of is Some {
        match cfgs[0].length_of {
            Some(a) => Some(a@),
            None => None,
        }
    } else {
        spec_first_length_of(cfgs.drop_first(), name)
    }
}

/// The first matching entry's type override, if any entry has one.
pub open spec fn spec_first_string_type(cfgs: Seq<ParameterConfig>, name: Seq<char>) -> Option<
    usize,
>
    decreases cfgs.len(),
{
    if cfgs.len() == 0 {
        None
    } else if cfg_matches(cfgs[0], name) && cfgs[0].string_type is Some {
        cfgs[0].string_type
    } else {
        spec_first_string_type(cfgs.drop_first(), name)
    }
}

/// Some matching entry marks the parameter constant.
pub open spec fn spec_any_constant(cfgs: Seq<ParameterConfig>, name: Seq<char>) -> bool
    decreases cfgs.len(),
{
    if cfgs.len() == 0 {
        false
    } else {
        (cfg_matches(cfgs[0], name) && cfgs[0].constant) || spec_any_constant(
            cfgs.drop_first(),
            name,
        )
    }
}

/// An optional owned string agrees with an optional character sequence.
pub open spec fn opt_str_matches(r: Option<String>, m: Option<Seq<char>>) -> bool {
    match r {
        Some(s) => m == Some(s@),
        None => m is None,
    }
}

/// Look up the nullability override for `name`.
pub fn first_nullable(cfgs: &Vec<ParameterConfig>, name: &str) -> (r: Option<bool>)
    ensures
        r == spec_first_nullable(cfgs@, name@),
{
    proof {
        assert(cfgs@.skip(0) =~= cfgs@);
    }
    let mut i: usize = 0;
    while i < cfgs.len()
        invariant
            i <= cfgs@.len(),
            spec_first_nullable(cfgs@, name@) == spec_first_nullable(
                cfgs@.skip(i as int),
                name@,
            ),
        decreases cfgs@.len() - i,
    {
        proof {
            assert(cfgs@.skip(i as int)[0] == cfgs@[i as int]);
            assert(cfgs@.skip(i as int).drop_first() =~= cfgs@.skip(i as int + 1));
        }
        let c = &cfgs[i];
        if c.nullable.is_some() && str_eq(c.ident.as_str(), name) {
            return c.nullable;
        }
        i += 1;
    }
    proof {
        assert(cfgs@.skip(i as int).len() == 0);
    }
    None
}

/// Look up the array link for `name`.
pub fn first_length_of(cfgs: &Vec<ParameterConfig>, name: &str) -> (r: Option<String>)
    ensures
        opt_str_matches(r, spec_first_length_of(cfgs@, name@)),
{
    proof {
        assert(cfgs@.skip(0) =~= cfgs@);
    }
    let mut i: usize = 0;
    while i < cfgs.len()
        invariant
            i <= cfgs@.len(),
            spec_first_length_of(cfgs@, name@) == spec_first_length_of(
                cfgs@.skip(i as int),
                name@,
            ),
        decreases cfgs@.len() - i,
    {
        proof {
            assert(cfgs@.skip(i as int)[0] == cfgs@[i as int]);
            assert(cfgs@.skip(i as int).drop_first() =~= cfgs@.skip(i as int + 1));
        }
        let c = &cfgs[i];
        if str_eq(c.ident.as_str(), name) {
            match &c.length_of {
                Some(array) => {
                    return Some(array.clone());
                },
                None => {},
            }
        }
        i += 1;
    }
    proof {
        assert(cfgs@.skip(i as int).len() == 0);
    }
    None
}

/// Look up the type override for `name`.
pub fn first_string_type(cfgs: &Vec<ParameterConfig>, name: &str) -> (r: Option<usize>)
    ensures
        r == spec_first_string_type(cfgs@, name@),
{
    proof {
        assert(cfgs@.skip(0) =~= cfgs@);
    }
    let mut i: usize = 0;
    while i < cfgs.len()
        invariant
            i <= cfgs@.len(),
            spec_first_string_type(cfgs@, name@) == spec_first_string_type(
                cfgs@.skip(i as int),
                name@,
            ),
        decreases cfgs@.len() - i,
    {
        proof {
            assert(cfgs@.skip(i as int)[0] == cfgs@[i as int]);
            assert(cfgs@.skip(i as int).drop_first() =~= cfgs@.skip(i as int + 1));
        }
        let c = &cfgs[i];
        if c.string_type.is_some() && str_eq(c.ident.as_str(), name) {
            return c.string_type;
        }
        i += 1;
    }
    proof {
        assert(cfgs@.skip(i as int).len() == 0);
    }
    None
}

/// Is some matching entry marked constant?
pub fn any_constant(cfgs: &Vec<ParameterConfig>, name: &str) -> (r: bool)
    ensures
        r == spec_any_constant(cfgs@, name@),
{
    proof {
        assert(cfgs@.skip(0) =~= cfgs@);
    }
    let mut i: usize = 0;
    while i < cfgs.len()
        invariant
            i <= cfgs@.len(),
            spec_any_constant(cfgs@, name@) == spec_any_constant(cfgs@.skip(i as int), name@),
        decreases cfgs@.len() - i,
    {
        proof {
            assert(cfgs@.skip(i as int)[0] == cfgs@[i as int]);
            assert(cfgs@.skip(i as int).drop_first() =~= cfgs@.skip(i as int + 1));
        }
        let c = &cfgs[i];
        if c.constant && str_eq(c.ident.as_str(), name) {
            return true;
        }
        i += 1;
    }
    proof {
        assert(cfgs@.skip(i as int).len() == 0);
    }
    false
}

} // verus!
