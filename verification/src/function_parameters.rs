//! The lowering engine.  One pass over a native function's descriptor list
//! produces a [`Parameters`] value: the surface parameter list shown to
//! callers of the generated binding, the native parameter list needed for
//! the foreign call, and the ordered transformation steps between them.
//!
//! The pass is total: a length parameter without a qualifying array, a
//! missing configuration entry, or an unresolvable type all degrade to a
//! conservative result instead of failing.

use vstd::prelude::*;
use crate::config::{
    ParameterConfig, any_constant, first_length_of, first_nullable, first_string_type,
    opt_str_matches, spec_any_constant, spec_first_length_of, spec_first_nullable,
    spec_first_string_type,
};
use crate::conversion_type::{lemma_resolved_known, spec_is_value_category};
use crate::library::{
    ConversionType, Env, Parameter, ParameterDirection, ParameterScope, Transfer, TypeShape,
    can_as_return, resolve_alias, rust_type, spec_can_as_return, spec_conversion_of,
    spec_has_length, spec_is_class, spec_is_final, spec_is_interface, spec_resolved,
    spec_rust_type, type_is_class, type_is_final, type_is_interface,
};
use crate::nameutil::{mangle_keywords, spec_mangle};
use crate::ref_mode::{RefMode, spec_without_unneeded_mut};
use crate::strutil::{spec_contains, spec_ends_with, str_contains, str_ends_with, str_eq};

verus! {

/// A parameter of the generated binding's callable signature.
#[derive(Clone, Debug)]
pub struct RustParameter {
    /// Index of the native parameter this one was derived from.
    pub ind_c: usize,
    pub name: String,
    pub typ: usize,
    /// Callers may pass an absent value.
    pub allow_none: bool,
}

/// A parameter exactly as the foreign call needs it.
#[derive(Clone, Debug)]
pub struct CParameter {
    pub name: String,
    pub typ: usize,
    pub c_type: String,
    pub instance_parameter: bool,
    pub direction: ParameterDirection,
    pub nullable: bool,
    pub transfer: Transfer,
    pub caller_allocates: bool,
    pub is_error: bool,
    pub scope: ParameterScope,
    /// Index of the user-data parameter associated with a callback.
    pub user_data_index: Option<usize>,
    /// Index of the destroy-notification parameter associated with a callback.
    pub destroy_index: Option<usize>,
    pub ref_mode: RefMode,
}

/// One instruction for converting a surface value into its native
/// counterpart, or for linking two parameters.
#[derive(Clone, Debug)]
pub enum TransformationType {
    ToGlibDirect { name: String },
    ToGlibScalar { name: String, nullable: bool },
    ToGlibPointer {
        name: String,
        instance_parameter: bool,
        transfer: Transfer,
        ref_mode: RefMode,
        to_glib_extra: String,
        explicit_target_type: String,
        pointer_cast: String,
        in_trait: bool,
        nullable: bool,
    },
    ToGlibBorrow,
    ToGlibUnknown { name: String },
    /// Pairs an array parameter with the parameter carrying its length.
    Length { array_name: String, array_length_name: String, array_length_type: String },
    /// Box the value into a raw owned pointer (the asynchronous user-data slot).
    IntoRaw(String),
    /// Wrap the value into a present value (the asynchronous callback slot).
    ToSome(String),
}

impl TransformationType {
    /// The step converts a surface value toward the native side; only a
    /// length link does not.
    pub fn is_to_glib(&self) -> (r: bool)
        ensures
            r == !(self is Length),
    {
        match self {
            TransformationType::ToGlibDirect { .. } => true,
            TransformationType::ToGlibScalar { .. } => true,
            TransformationType::ToGlibPointer { .. } => true,
            TransformationType::ToGlibBorrow => true,
            TransformationType::ToGlibUnknown { .. } => true,
            TransformationType::ToSome(..) => true,
            TransformationType::IntoRaw(..) => true,
            TransformationType::Length { .. } => false,
        }
    }

    /// Replace the extra-conversion suffix of a pointer conversion; any
    /// other step is left unchanged.  The step is rebuilt rather than
    /// mutated in place.
    pub fn set_to_glib_extra(&mut self, to_glib_extra_: &str)
        ensures
            (match *old(self) {
                TransformationType::ToGlibPointer {
                    name,
                    instance_parameter,
                    transfer,
                    ref_mode,
                    to_glib_extra: _,
                    explicit_target_type,
                    pointer_cast,
                    in_trait,
                    nullable,
                } => {
                    &&& *final(self) matches TransformationType::ToGlibPointer {
                        name: name2,
                        instance_parameter: instance_parameter2,
                        transfer: transfer2,
                        ref_mode: ref_mode2,
                        to_glib_extra: to_glib_extra2,
                        explicit_target_type: explicit_target_type2,
                        pointer_cast: pointer_cast2,
                        in_trait: in_trait2,
                        nullable: nullable2,
                    }
                    &&& name2@ == name@
                    &&& instance_parameter2 == instance_parameter
                    &&& transfer2 == transfer
                    &&& ref_mode2 == ref_mode
                    &&& to_glib_extra2@ == to_glib_extra_@
                    &&& explicit_target_type2@ == explicit_target_type@
                    &&& pointer_cast2@ == pointer_cast@
                    &&& in_trait2 == in_trait
                    &&& nullable2 == nullable
                },
                _ => *final(self) == *old(self),
            }),
    {
        let replacement: Option<TransformationType> = match &*self {
            TransformationType::ToGlibPointer {
                name,
                instance_parameter,
                transfer,
                ref_mode,
                explicit_target_type,
                pointer_cast,
                in_trait,
                nullable,
                ..
            } => Some(
                TransformationType::ToGlibPointer {
                    name: name.clone(),
                    instance_parameter: *instance_parameter,
                    transfer: *transfer,
                    ref_mode: *ref_mode,
                    to_glib_extra: to_glib_extra_.to_owned(),
                    explicit_target_type: explicit_target_type.clone(),
                    pointer_cast: pointer_cast.clone(),
                    in_trait: *in_trait,
                    nullable: *nullable,
                },
            ),
            _ => None,
        };
        match replacement {
            Some(step) => {
                *self = step;
            },
            None => {},
        }
    }
}

/// One transformation step with its position in the two parameter lists.
#[derive(Clone, Debug)]
pub struct Transformation {
    /// Index into the native parameter list.
    pub ind_c: usize,
    /// Index into the surface parameter list; absent when the native
    /// parameter has no surface counterpart.
    pub ind_rust: Option<usize>,
    pub transformation_type: TransformationType,
}

/// The complete result of lowering one function signature.
#[derive(Clone, Debug)]
pub struct Parameters {
    pub rust_parameters: Vec<RustParameter>,
    pub c_parameters: Vec<CParameter>,
    pub transformations: Vec<Transformation>,
}

/// The name marks an asynchronous payload parameter that is threaded through
/// the generated future instead of being surfaced.
pub open spec fn spec_async_param_to_remove(name: Seq<char>) -> bool {
    name == "user_data"@ || spec_ends_with(name, "data"@)
}

/// The parameter looks like a length parameter: inbound, and named with a
/// trailing "len" or a "length" somewhere.
pub open spec fn spec_is_length(par: Parameter) -> bool {
    &&& par.direction == ParameterDirection::In
    &&& (spec_ends_with(par.name@, "len"@) || spec_contains(par.name@, "length"@))
}

/// The name of the array whose length parameter sits at `pos`, according to
/// a descriptor's own back-link; the last declaration wins.
pub open spec fn spec_back_link(fps: Seq<Parameter>, pos: int) -> Option<Seq<char>>
    decreases fps.len(),
{
    if fps.len() == 0 {
        None
    } else {
        let lastp = fps[fps.len() - 1];
        if lastp.array_length matches Some(l) && l as int == pos {
            Some(lastp.name@)
        } else {
            spec_back_link(fps.drop_last(), pos)
        }
    }
}

/// Heuristic length detection: a length-looking parameter at `pos` pairs
/// with an immediately preceding array-like parameter, if there is one.
pub open spec fn spec_detect_length(env: Env, fps: Seq<Parameter>, pos: int) -> Option<Seq<char>> {
    if spec_is_length(fps[pos]) && pos >= 1 && spec_has_length(env, fps[pos - 1].typ as int) {
        Some(fps[pos - 1].name@)
    } else {
        None
    }
}

/// The immutable inputs of one lowering run, bundled for specification.
pub ghost struct Lowering {
    pub env: Env,
    pub fps: Seq<Parameter>,
    pub cfgs: Seq<ParameterConfig>,
    pub disable_length_detect: bool,
    pub async_func: bool,
    pub in_trait: bool,
}

impl Lowering {
    /// The working name: instance receivers keep their declared name, every
    /// other parameter passes through keyword mangling.
    pub open spec fn working_name(self, pos: int) -> Seq<char> {
        let p = self.fps[pos];
        if p.instance_parameter {
            p.name@
        } else {
            spec_mangle(p.name@)
        }
    }

    /// The working type: a configuration override may force a specialized
    /// type for the parameter.
    pub open spec fn resolved_type(self, pos: int) -> usize {
        match spec_first_string_type(self.cfgs, self.working_name(pos)) {
            Some(t) => t,
            None => self.fps[pos].typ,
        }
    }

    /// The array this parameter is the length of, if any: an explicit
    /// configuration link wins, then a descriptor back-link, then — unless
    /// detection is disabled — the naming heuristic.
    pub open spec fn array_name(self, pos: int) -> Option<Seq<char>> {
        match spec_first_length_of(self.cfgs, self.working_name(pos)) {
            Some(a) => Some(a),
            None => match spec_back_link(self.fps, pos) {
                Some(a) => Some(a),
                None => if !self.disable_length_detect {
                    spec_detect_length(self.env, self.fps, pos)
                } else {
                    None
                },
            },
        }
    }

    /// The parameter is folded out of the surface list as a length parameter.
    pub open spec fn folded_length(self, pos: int) -> bool {
        self.array_name(pos) is Some
    }

    /// Surface inclusion as the direction alone decides it.
    pub open spec fn base_included(self, pos: int) -> bool {
        match self.fps[pos].direction {
            ParameterDirection::In => true,
            ParameterDirection::InOut => true,
            ParameterDirection::Return => false,
            ParameterDirection::Out => !spec_can_as_return(self.env, self.fps[pos])
                && !self.async_func,
        }
    }

    /// The parameter appears in the surface list.
    pub open spec fn included(self, pos: int) -> bool {
        &&& self.base_included(pos)
        &&& !(self.async_func && spec_async_param_to_remove(self.fps[pos].name@))
        &&& !self.folded_length(pos)
    }

    /// How many of the first `upto` parameters appear in the surface list.
    pub open spec fn surface_count(self, upto: int) -> int
        decreases upto,
    {
        if upto <= 0 {
            0
        } else {
            self.surface_count(upto - 1) + if self.included(upto - 1) {
                1int
            } else {
                0int
            }
        }
    }

    /// The resolved nullability: an override replaces the declared one.
    pub open spec fn final_nullable(self, pos: int) -> bool {
        match spec_first_nullable(self.cfgs, self.working_name(pos)) {
            Some(b) => b,
            None => self.fps[pos].nullable,
        }
    }

    /// The working type is a copyable value type, for which ownership flags
    /// are meaningless.
    pub open spec fn value_category(self, pos: int) -> bool {
        spec_is_value_category(spec_conversion_of(self.env, self.resolved_type(pos) as int))
    }

    /// The resolved ownership transfer: erased for value types.
    pub open spec fn final_transfer(self, pos: int) -> Transfer {
        if self.value_category(pos) {
            Transfer::Nothing
        } else {
            self.fps[pos].transfer
        }
    }

    /// The resolved caller-allocates flag: erased for value types.
    pub open spec fn final_caller_allocates(self, pos: int) -> bool {
        if self.value_category(pos) {
            false
        } else {
            self.fps[pos].caller_allocates
        }
    }

    /// The resolved reference mode.
    pub open spec fn ref_mode(self, pos: int) -> RefMode {
        spec_without_unneeded_mut(
            self.env,
            self.fps[pos],
            spec_any_constant(self.cfgs, self.working_name(pos)),
            self.in_trait && self.fps[pos].instance_parameter,
        )
    }

    /// A pointer conversion carries its nullability when the parameter is
    /// nullable, is not the receiver, and is of an interface or class type.
    pub open spec fn pointer_nullable(self, pos: int) -> bool {
        let p = self.fps[pos];
        &&& !p.instance_parameter
        &&& self.final_nullable(pos)
        &&& (spec_is_interface(self.env, p.typ as int) || spec_is_class(self.env, p.typ as int))
    }

    /// The extra-conversion suffix: dereference as a shared reference, for a
    /// nullable, non-receiver parameter of a non-final interface or class
    /// type.
    pub open spec fn to_glib_extra(self, pos: int) -> Seq<char> {
        if self.pointer_nullable(pos) && !spec_is_final(self.env, self.fps[pos].typ as int) {
            ".as_ref()"@
        } else {
            Seq::<char>::empty()
        }
    }

    /// What the native parameter at `pos` must hold.
    pub open spec fn c_param_ok(self, pos: int, cp: CParameter) -> bool {
        let p = self.fps[pos];
        &&& cp.name@ == self.working_name(pos)
        &&& cp.typ == self.resolved_type(pos)
        &&& cp.c_type@ == p.c_type@
        &&& cp.instance_parameter == p.instance_parameter
        &&& cp.direction == p.direction
        &&& cp.nullable == self.final_nullable(pos)
        &&& cp.transfer == self.final_transfer(pos)
        &&& cp.caller_allocates == self.final_caller_allocates(pos)
        &&& cp.is_error == p.is_error
        &&& cp.scope == p.scope
        &&& cp.user_data_index == p.closure
        &&& cp.destroy_index == p.destroy
        &&& cp.ref_mode == self.ref_mode(pos)
    }

    /// What the surface parameter derived from `pos` must hold.
    pub open spec fn rust_param_ok(self, pos: int, rp: RustParameter) -> bool {
        &&& rp.name@ == self.working_name(pos)
        &&& rp.typ == self.resolved_type(pos)
        &&& rp.ind_c as int == pos
        &&& rp.allow_none == self.fps[pos].nullable
    }

    /// What the primary conversion step for `pos` must be, including the
    /// late asynchronous substitution of the callback and user-data slots.
    pub open spec fn primary_step_ok(self, pos: int, tt: TransformationType) -> bool {
        let wname = self.working_name(pos);
        match spec_conversion_of(self.env, self.resolved_type(pos) as int) {
            ConversionType::Direct => if self.async_func && wname == "callback"@ {
                tt matches TransformationType::ToSome(n) && n@ == wname
            } else {
                tt matches TransformationType::ToGlibDirect { name } && name@ == wname
            },
            ConversionType::Scalar => {
                &&& tt matches TransformationType::ToGlibScalar { name, nullable }
                &&& name@ == wname
                &&& nullable == self.final_nullable(pos)
            },
            ConversionType::Pointer => if self.async_func && wname == "user_data"@ {
                tt matches TransformationType::IntoRaw(n) && n@ == wname
            } else {
                &&& tt matches TransformationType::ToGlibPointer {
                    name,
                    instance_parameter,
                    transfer,
                    ref_mode,
                    to_glib_extra,
                    explicit_target_type,
                    pointer_cast,
                    in_trait,
                    nullable,
                }
                &&& name@ == wname
                &&& instance_parameter == self.fps[pos].instance_parameter
                &&& transfer == self.final_transfer(pos)
                &&& ref_mode == self.ref_mode(pos)
                &&& to_glib_extra@ == self.to_glib_extra(pos)
                &&& explicit_target_type@ == Seq::<char>::empty()
                &&& pointer_cast@ == Seq::<char>::empty()
                &&& in_trait == self.in_trait
                &&& nullable == self.pointer_nullable(pos)
            },
            ConversionType::Borrow => tt is ToGlibBorrow,
            ConversionType::Unknown => if self.async_func && wname == "callback"@ {
                tt matches TransformationType::ToSome(n) && n@ == wname
            } else {
                tt matches TransformationType::ToGlibUnknown { name } && name@ == wname
            },
        }
    }

    /// What the length-link step for a folded length parameter must be.
    pub open spec fn length_step_ok(self, pos: int, raw_array: Seq<char>, tt: TransformationType) -> bool {
        &&& tt matches TransformationType::Length {
            array_name,
            array_length_name,
            array_length_type,
        }
        &&& array_name@ == spec_mangle(raw_array)
        &&& array_length_name@ == self.fps[pos].name@
        &&& array_length_type@ == spec_rust_type(self.env, self.resolved_type(pos) as int)
    }

    /// What the transformation emitted for `pos` must be: the length link
    /// alone for a folded length parameter, the primary conversion step for
    /// every other parameter.
    pub open spec fn transformation_ok(self, pos: int, t: Transformation) -> bool {
        &&& t.ind_c as int == pos
        &&& match self.array_name(pos) {
            Some(raw) => t.ind_rust is None && self.length_step_ok(
                pos,
                raw,
                t.transformation_type,
            ),
            None => {
                &&& (if self.included(pos) {
                    t.ind_rust matches Some(j) && j as int == self.surface_count(pos)
                } else {
                    t.ind_rust is None
                })
                &&& self.primary_step_ok(pos, t.transformation_type)
            },
        }
    }

    /// The surface count never shrinks as the prefix grows.
    pub proof fn lemma_surface_count_mono(self, i: int, j: int)
        requires
            i <= j,
        ensures
            self.surface_count(i) <= self.surface_count(j),
        decreases j - i,
    {
        if i < j {
            self.lemma_surface_count_mono(i, j - 1);
        }
    }

    /// An included position strictly raises every later surface count, so
    /// its surface index is in bounds.
    pub proof fn lemma_surface_count_bound(self, i: int, j: int)
        requires
            0 <= i < j,
            self.included(i),
        ensures
            self.surface_count(i) < self.surface_count(j),
    {
        self.lemma_surface_count_mono(i + 1, j);
    }

    /// Surface counts are never negative.
    pub proof fn lemma_surface_count_nonneg(self, upto: int)
        ensures
            self.surface_count(upto) >= 0,
    {
        self.lemma_surface_count_mono(0, if upto >= 0 { upto } else { 0 });
    }
}

/// The name marks a parameter that an asynchronous lowering removes from the
/// surface list, its payload being threaded through the generated future.
pub fn async_param_to_remove(name: &str) -> (r: bool)
    ensures
        r == spec_async_param_to_remove(name@),
{
    str_eq(name, "user_data") || str_ends_with(name, "data")
}

/// The parameter qualifies as a length-parameter candidate.
pub fn is_length(par: &Parameter) -> (r: bool)
    ensures
        r == spec_is_length(*par),
{
    if par.direction != ParameterDirection::In {
        return false;
    }
    str_ends_with(par.name.as_str(), "len") || str_contains(par.name.as_str(), "length")
}

/// The type resolves, through aliases, to an array-like type that can carry
/// a separate length parameter.
pub fn has_length(env: &Env, typ: usize) -> (r: bool)
    ensures
        r == spec_has_length(*env, typ as int),
{
    match resolve_alias(env, typ) {
        Some(t) => {
            proof {
                lemma_resolved_known(*env, typ as int, env.types@.len() as nat);
                assert(spec_resolved(*env, typ as int) == Some(t as int));
            }
            match env.types[t].shape {
                TypeShape::NativeString => true,
                TypeShape::Filename => true,
                TypeShape::OpaqueString => true,
                TypeShape::CArray => true,
                TypeShape::FixedArray => true,
                TypeShape::GrowableArray => true,
                TypeShape::PointerArray => true,
                TypeShape::SinglyLinkedList => true,
                TypeShape::DoublyLinkedList => true,
                TypeShape::HashTable => true,
                TypeShape::Alias(_) => false,
                TypeShape::Other => false,
            }
        },
        None => false,
    }
}

/// The last descriptor declaring `pos` as its length parameter, if any.
pub fn back_link_array(parameters: &Vec<Parameter>, pos: usize) -> (r: Option<String>)
    ensures
        opt_str_matches(r, spec_back_link(parameters@, pos as int)),
{
    let mut j = parameters.len();
    proof {
        assert(parameters@.take(j as int) =~= parameters@);
    }
    while j > 0
        invariant
            j <= parameters@.len(),
            spec_back_link(parameters@, pos as int) == spec_back_link(
                parameters@.take(j as int),
                pos as int,
            ),
        decreases j,
    {
        proof {
            assert(parameters@.take(j as int)[j - 1] == parameters@[j - 1]);
            assert(parameters@.take(j as int).drop_last() =~= parameters@.take(j as int - 1));
        }
        let p = &parameters[j - 1];
        match p.array_length {
            Some(l) => {
                if l == pos {
                    return Some(p.name.clone());
                }
            },
            None => {},
        }
        j -= 1;
    }
    proof {
        assert(parameters@.take(0).len() == 0);
    }
    None
}

/// Heuristic length detection for the parameter at `pos`: the immediately
/// preceding parameter is its array if that parameter's type is array-like.
pub fn detect_length(
    env: &Env,
    pos: usize,
    par: &Parameter,
    parameters: &Vec<Parameter>,
) -> (r: Option<String>)
    requires
        pos < parameters@.len(),
        *par == parameters@[pos as int],
    ensures
        opt_str_matches(r, spec_detect_length(*env, parameters@, pos as int)),
{
    if !is_length(par) {
        return None;
    }
    if pos == 0 {
        return None;
    }
    let prev = &parameters[pos - 1];
    if has_length(env, prev.typ) {
        Some(prev.name.clone())
    } else {
        None
    }
}

/// Build the length-link transformation pairing `array_name` with the length
/// parameter `length_name` of printable type `length_typ`.
pub fn get_length_type(
    env: &Env,
    array_name: &str,
    length_name: &str,
    length_typ: usize,
) -> (t: TransformationType)
    ensures
        (
        {
            &&& t matches TransformationType::Length {
                array_name: a,
                array_length_name: n,
                array_length_type: ty,
            }
            &&& a@ == array_name@
            &&& n@ == length_name@
            &&& ty@ == spec_rust_type(*env, length_typ as int)
        }),
{
    TransformationType::Length {
        array_name: array_name.to_owned(),
        array_length_name: length_name.to_owned(),
        array_length_type: rust_type(env, length_typ),
    }
}

impl Parameters {
    /// An empty result with room for `capacity` parameters.
    pub fn new(capacity: usize) -> (r: Parameters)
        ensures
            r.rust_parameters@.len() == 0,
            r.c_parameters@.len() == 0,
            r.transformations@.len() == 0,
    {
        Parameters {
            rust_parameters: Vec::with_capacity(capacity),
            c_parameters: Vec::with_capacity(capacity),
            transformations: Vec::with_capacity(capacity),
        }
    }
}

impl Default for Parameters {
    /// The empty result.
    fn default() -> (r: Parameters)
        ensures
            r.rust_parameters@.len() == 0,
            r.c_parameters@.len() == 0,
            r.transformations@.len() == 0,
    {
        Parameters::new(0)
    }
}

/// Every transformation step addresses the parameter lists correctly: its
/// native index is in bounds, and its surface index, when present, is too.
pub open spec fn spec_indices_valid(ps: Parameters) -> bool {
    forall|k: int|
        0 <= k < ps.transformations@.len() ==> ((#[trigger] ps.transformations@[k]).ind_c
            < ps.c_parameters@.len() && (ps.transformations@[k].ind_rust matches Some(j) ==> (
        j as int) < ps.rust_parameters@.len()))
}

/// The inputs of one lowering run, as the specification sees them.
pub open spec fn spec_lowering(
    env: Env,
    fps: Seq<Parameter>,
    cfgs: Seq<ParameterConfig>,
    disable_length_detect: bool,
    async_func: bool,
    in_trait: bool,
) -> Lowering {
    Lowering { env, fps, cfgs, disable_length_detect, async_func, in_trait }
}

/// Lower one native function's parameter list.
///
/// The result holds, in order: one native parameter per descriptor; one
/// surface parameter per descriptor that stays visible to callers; and one
/// transformation per descriptor — the length link alone for a folded
/// length parameter, the primary conversion step for every other one.
/// Every transformation's native index is in bounds, every present surface
/// index is in bounds, and a folded length parameter owns the only
/// transformation at its native index.
#[verifier::rlimit(100)]
pub fn analyze(
    env: &Env,
    function_parameters: &Vec<Parameter>,
    configured_parameters: &Vec<ParameterConfig>,
    disable_length_detect: bool,
    async_func: bool,
    in_trait: bool,
) -> (r: Parameters)
    ensures
        ({
            let ctx = spec_lowering(
                *env,
                function_parameters@,
                configured_parameters@,
                disable_length_detect,
                async_func,
                in_trait,
            );
            &&& r.c_parameters@.len() == ctx.fps.len()
            &&& forall|i: int|
                0 <= i < ctx.fps.len() ==> ctx.c_param_ok(i, #[trigger] r.c_parameters@[i])
            &&& r.transformations@.len() == ctx.fps.len()
            &&& forall|i: int|
                0 <= i < ctx.fps.len() ==> ctx.transformation_ok(
                    i,
                    #[trigger] r.transformations@[i],
                )
            &&& r.rust_parameters@.len() == ctx.surface_count(ctx.fps.len() as int)
            &&& forall|i: int|
                0 <= i < ctx.fps.len() && #[trigger] ctx.included(i) ==> ctx.rust_param_ok(
                    i,
                    r.rust_parameters@[ctx.surface_count(i)],
                )
            &&& spec_indices_valid(r)
            &&& forall|i: int|
                0 <= i < ctx.fps.len() && #[trigger] ctx.folded_length(i) ==> (
                r.transformations@[i].transformation_type is Length
                    && r.transformations@[i].ind_rust is None && (forall|k: int|
                    0 <= k < r.transformations@.len() && k != i ==> (
                    #[trigger] r.transformations@[k]).ind_c != i))
        }),
{
    let ghost ctx = spec_lowering(
        *env,
        function_parameters@,
        configured_parameters@,
        disable_length_detect,
        async_func,
        in_trait,
    );
    let n = function_parameters.len();
    let mut parameters = Parameters::new(n);
    let mut pos: usize = 0;
    while pos < n
        invariant
            n == function_parameters@.len(),
            ctx == (spec_lowering(
                *env,
                function_parameters@,
                configured_parameters@,
                disable_length_detect,
                async_func,
                in_trait,
            )),
            pos <= n,
            parameters.c_parameters@.len() == pos,
            forall|i: int|
                0 <= i < pos ==> ctx.c_param_ok(i, #[trigger] parameters.c_parameters@[i]),
            parameters.transformations@.len() == pos,
            forall|i: int|
                0 <= i < pos ==> ctx.transformation_ok(
                    i,
                    #[trigger] parameters.transformations@[i],
                ),
            parameters.rust_parameters@.len() == ctx.surface_count(pos as int),
            forall|i: int|
                0 <= i < pos && #[trigger] ctx.included(i) ==> ctx.rust_param_ok(
                    i,
                    parameters.rust_parameters@[ctx.surface_count(i)],
                ),
        decreases n - pos,
    {
        let par = &function_parameters[pos];

        // 1. the working name: receivers keep theirs, the rest are mangled
        let name: String = if par.instance_parameter {
            par.name.clone()
        } else {
            mangle_keywords(par.name.as_str())
        };
        proof {
            assert(name@ == ctx.working_name(pos as int));
        }

        // 2.-3. configuration lookup and the working type
        let typ: usize = match first_string_type(configured_parameters, name.as_str()) {
            Some(t) => t,
            None => par.typ,
        };
        proof {
            assert(typ == ctx.resolved_type(pos as int));
        }
        let ind_c = pos;

        // 4. default surface inclusion from the direction
        let mut add_rust_parameter = match par.direction {
            ParameterDirection::In => true,
            ParameterDirection::InOut => true,
            ParameterDirection::Return => false,
            ParameterDirection::Out => !can_as_return(env, par) && !async_func,
        };
        if async_func && async_param_to_remove(par.name.as_str()) {
            add_rust_parameter = false;
        }

        // 5. array-length resolution: configuration, back-link, heuristic
        let array_name: Option<String> = match first_length_of(
            configured_parameters,
            name.as_str(),
        ) {
            Some(a) => Some(a),
            None => match back_link_array(function_parameters, pos) {
                Some(a) => Some(a),
                None => if !disable_length_detect {
                    detect_length(env, pos, par, function_parameters)
                } else {
                    None
                },
            },
        };
        proof {
            assert(opt_str_matches(array_name, ctx.array_name(pos as int)));
        }

        // 6. ownership resolution: value types carry no ownership flags
        let conversion = ConversionType::of(env, typ);
        let is_value = conversion == ConversionType::Direct
            || conversion == ConversionType::Scalar;
        let caller_allocates = if is_value {
            false
        } else {
            par.caller_allocates
        };
        let transfer = if is_value {
            Transfer::Nothing
        } else {
            par.transfer
        };
        let immutable = any_constant(configured_parameters, name.as_str());
        let ref_mode = RefMode::without_unneeded_mut(
            env,
            par,
            immutable,
            in_trait && par.instance_parameter,
        );
        let nullable = match first_nullable(configured_parameters, name.as_str()) {
            Some(b) => b,
            None => par.nullable,
        };

        // 7. the native parameter
        let c_par = CParameter {
            name: name.clone(),
            typ,
            c_type: par.c_type.clone(),
            instance_parameter: par.instance_parameter,
            direction: par.direction,
            transfer,
            caller_allocates,
            nullable,
            ref_mode,
            is_error: par.is_error,
            scope: par.scope,
            user_data_index: par.closure,
            destroy_index: par.destroy,
        };
        parameters.c_parameters.push(c_par);
        proof {
            assert(ctx.c_param_ok(pos as int, parameters.c_parameters@[pos as int]));
        }

        match array_name {
            Some(raw_array) => {
                // a folded length parameter: the length link replaces the
                // primary conversion step, and nothing is surfaced
                let mangled_array = mangle_keywords(raw_array.as_str());
                let step = get_length_type(env, mangled_array.as_str(), par.name.as_str(), typ);
                let transformation = Transformation {
                    ind_c,
                    ind_rust: None,
                    transformation_type: step,
                };
                parameters.transformations.push(transformation);
                proof {
                    assert(!ctx.included(pos as int));
                    assert(ctx.transformation_ok(
                        pos as int,
                        parameters.transformations@[pos as int],
                    ));
                }
            },
            None => {
                // 8. the surface parameter, if the parameter stays visible
                proof {
                    assert(add_rust_parameter == ctx.included(pos as int));
                }
                let ind_rust: Option<usize> = if add_rust_parameter {
                    let idx = parameters.rust_parameters.len();
                    let rust_par = RustParameter {
                        name: name.clone(),
                        typ,
                        ind_c,
                        allow_none: par.nullable,
                    };
                    parameters.rust_parameters.push(rust_par);
                    Some(idx)
                } else {
                    None
                };

                // 9. the primary conversion step
                let pointer_nullable = !par.instance_parameter && nullable && (type_is_interface(
                    env,
                    par.typ,
                ) || type_is_class(env, par.typ));
                let to_glib_extra: String = if pointer_nullable && !type_is_final(env, par.typ) {
                    ".as_ref()".to_owned()
                } else {
                    String::new()
                };
                let mut transformation_type = match conversion {
                    ConversionType::Direct => TransformationType::ToGlibDirect {
                        name: name.clone(),
                    },
                    ConversionType::Scalar => TransformationType::ToGlibScalar {
                        name: name.clone(),
                        nullable,
                    },
                    ConversionType::Pointer => TransformationType::ToGlibPointer {
                        name: name.clone(),
                        instance_parameter: par.instance_parameter,
                        transfer,
                        ref_mode,
                        to_glib_extra,
                        explicit_target_type: String::new(),
                        pointer_cast: String::new(),
                        in_trait,
                        nullable: pointer_nullable,
                    },
                    ConversionType::Borrow => TransformationType::ToGlibBorrow,
                    ConversionType::Unknown => TransformationType::ToGlibUnknown {
                        name: name.clone(),
                    },
                };

                // 10. the late asynchronous substitution of the callback and
                // user-data slots
                if async_func {
                    let replacement: Option<TransformationType> = match &transformation_type {
                        TransformationType::ToGlibDirect { name: step_name } => {
                            if str_eq(step_name.as_str(), "callback") {
                                Some(TransformationType::ToSome(step_name.clone()))
                            } else {
                                None
                            }
                        },
                        TransformationType::ToGlibUnknown { name: step_name } => {
                            if str_eq(step_name.as_str(), "callback") {
                                Some(TransformationType::ToSome(step_name.clone()))
                            } else {
                                None
                            }
                        },
                        TransformationType::ToGlibPointer { name: step_name, .. } => {
                            if str_eq(step_name.as_str(), "user_data") {
                                Some(TransformationType::IntoRaw(step_name.clone()))
                            } else {
                                None
                            }
                        },
                        _ => None,
                    };
                    match replacement {
                        Some(step) => {
                            transformation_type = step;
                        },
                        None => {},
                    }
                }
                proof {
                    assert(ctx.primary_step_ok(pos as int, transformation_type));
                }

                // 11. the transformation entry
                let transformation = Transformation {
                    ind_c,
                    ind_rust,
                    transformation_type,
                };
                parameters.transformations.push(transformation);
                proof {
                    assert(ctx.transformation_ok(
                        pos as int,
                        parameters.transformations@[pos as int],
                    ));
                }
            },
        }
        proof {
            assert forall|i: int|
                0 <= i < pos + 1 && #[trigger] ctx.included(i) implies ctx.rust_param_ok(
                i,
                parameters.rust_parameters@[ctx.surface_count(i)],
            ) by {
                if i < pos {
                    ctx.lemma_surface_count_bound(i, pos as int);
                    ctx.lemma_surface_count_nonneg(i);
                }
            }
        }
        pos += 1;
    }
    proof {
        assert forall|k: int|
            0 <= k < parameters.transformations@.len() implies ((
        #[trigger] parameters.transformations@[k]).ind_c < parameters.c_parameters@.len() && (
        parameters.transformations@[k].ind_rust matches Some(j) ==> (j as int)
            < parameters.rust_parameters@.len())) by {
            assert(ctx.transformation_ok(k, parameters.transformations@[k]));
            if parameters.transformations@[k].ind_rust is Some {
                ctx.lemma_surface_count_bound(k, n as int);
            }
        }
        assert(spec_indices_valid(parameters));
    }
    parameters
}

/// Where the return value's array-length back-link points, if it names an
/// existing native parameter.
pub open spec fn spec_return_length_link(ps: Parameters, ret: Option<Parameter>) -> Option<int> {
    match ret {
        Some(r) => match r.array_length {
            Some(l) => if (l as int) < ps.c_parameters@.len() {
                Some(l as int)
            } else {
                None
            },
            None => None,
        },
        None => None,
    }
}

/// What the post-pass step for the return value's length parameter must be.
pub open spec fn spec_return_step_ok(env: Env, ps: Parameters, ind: int, t: Transformation) -> bool {
    let cp = ps.c_parameters@[ind];
    &&& t.ind_c as int == ind
    &&& t.ind_rust is None
    &&& t.transformation_type matches TransformationType::Length {
        array_name,
        array_length_name,
        array_length_type,
    }
    &&& array_name@ == Seq::<char>::empty()
    &&& array_length_name@ == cp.name@
    &&& array_length_type@ == spec_rust_type(env, cp.typ as int)
}

impl Parameters {
    /// The one follow-up pass: when the function's return value declares an
    /// array-length back-link to one of the already-built native parameters,
    /// append a single length-link step for it; otherwise change nothing.
    pub fn analyze_return(&mut self, env: &Env, ret: &Option<Parameter>)
        ensures
            final(self).rust_parameters@ == old(self).rust_parameters@,
            final(self).c_parameters@ == old(self).c_parameters@,
            (match spec_return_length_link(*old(self), *ret) {
                Some(ind) => {
                    &&& final(self).transformations@.len() == old(self).transformations@.len()
                        + 1
                    &&& final(self).transformations@.subrange(
                        0,
                        old(self).transformations@.len() as int,
                    ) == old(self).transformations@
                    &&& spec_return_step_ok(
                        *env,
                        *old(self),
                        ind,
                        final(self).transformations@.last(),
                    )
                },
                None => final(self).transformations@ == old(self).transformations@,
            }),
            spec_indices_valid(*old(self)) ==> spec_indices_valid(*final(self)),
    {
        let array_length: usize = match ret {
            Some(r) => match r.array_length {
                Some(l) => l,
                None => {
                    return ;
                },
            },
            None => {
                return ;
            },
        };
        if array_length >= self.c_parameters.len() {
            return ;
        }
        let par = &self.c_parameters[array_length];
        let step = get_length_type(env, "", par.name.as_str(), par.typ);
        let transformation = Transformation {
            ind_c: array_length,
            ind_rust: None,
            transformation_type: step,
        };
        self.transformations.push(transformation);
        proof {
            reveal_strlit("");
            assert(""@ =~= Seq::<char>::empty());
            assert(self.transformations@.subrange(
                0,
                old(self).transformations@.len() as int,
            ) =~= old(self).transformations@);
            if spec_indices_valid(*old(self)) {
                assert forall|k: int|
                    0 <= k < self.transformations@.len() implies ((
                #[trigger] self.transformations@[k]).ind_c < self.c_parameters@.len() && (
                self.transformations@[k].ind_rust matches Some(j) ==> (j as int)
                    < self.rust_parameters@.len())) by {
                    if k < old(self).transformations@.len() {
                        assert(self.transformations@[k] == old(self).transformations@[k]);
                    }
                }
            }
        }
    }
}

} // verus!

