//! The read-only model of the native library that lowering works over: the
//! type environment (one definition per type identifier) and the raw
//! descriptor of one native function parameter.

use vstd::prelude::*;

verus! {

/// Direction of a native parameter.
#[derive(Clone, Copy, Debug, PartialEq, Eq, Structural)]
pub enum ParameterDirection {
    In,
    Out,
    InOut,
    Return,
}

/// Ownership transfer across the foreign call: nothing, the container only,
/// or the container together with its contents.
#[derive(Clone, Copy, Debug, PartialEq, Eq, Structural)]
pub enum Transfer {
    Nothing,
    Container,
    Full,
}

/// How long a callback parameter stays valid.
#[derive(Clone, Copy, Debug, PartialEq, Eq, Structural)]
pub enum ParameterScope {
    CallBound,
    Permanent,
    Notified,
}

/// The shape of a type definition, as far as lowering needs it: the
/// array-like shapes that can carry a separate length parameter, aliases,
/// and everything else.
#[derive(Clone, Copy, Debug, PartialEq, Eq, Structural)]
pub enum TypeShape {
    NativeString,
    Filename,
    OpaqueString,
    CArray,
    FixedArray,
    GrowableArray,
    PointerArray,
    SinglyLinkedList,
    DoublyLinkedList,
    HashTable,
    Alias(usize),
    Other,
}

/// Conversion category of a type: how a value of it crosses the foreign-call
/// boundary.
#[derive(Clone, Copy, Debug, PartialEq, Eq, Structural)]
pub enum ConversionType {
    Direct,
    Scalar,
    Pointer,
    Borrow,
    Unknown,
}

/// One entry of the type environment.
#[derive(Clone, Debug)]
pub struct TypeDef {
    /// Conversion category of the type (read through aliases).
    pub category: ConversionType,
    /// Shape of the type, for array-length detection and alias resolution.
    pub shape: TypeShape,
    /// The type is an interface.
    pub is_interface: bool,
    /// The type is a class.
    pub is_class: bool,
    /// The type is declared final (no subtypes).
    pub is_final_type: bool,
    /// The printable target-language spelling of the type.
    pub rust_type_name: String,
    /// An `Out` parameter of this type can be promoted to a return value.
    pub out_parameter_as_return: bool,
}

/// The read-only type environment: type identifiers index into `types`.
#[derive(Clone, Debug)]
pub struct Env {
    pub types: Vec<TypeDef>,
}

/// The raw, language-neutral descriptor of one native function parameter.
#[derive(Clone, Debug)]
pub struct Parameter {
    pub name: String,
    /// Type identifier, an index into the environment.
    pub typ: usize,
    /// The native type spelling, passed through unchanged.
    pub c_type: String,
    /// The parameter is the instance receiver of a method.
    pub instance_parameter: bool,
    pub direction: ParameterDirection,
    pub nullable: bool,
    pub transfer: Transfer,
    pub caller_allocates: bool,
    /// The parameter is the error-sentinel slot.
    pub is_error: bool,
    pub scope: ParameterScope,
    /// An array parameter's back-link: the position of its length parameter.
    pub array_length: Option<usize>,
    /// For a callback parameter, the position of its user-data parameter.
    pub closure: Option<usize>,
    /// For a callback parameter, the position of its destroy-notify parameter.
    pub destroy: Option<usize>,
}

/// `typ` names an entry of the environment.
pub open spec fn type_known(env: Env, typ: int) -> bool {
    0 <= typ < env.types@.len()
}

/// Transitive alias resolution with bounded depth: `None` for an unknown
/// identifier or an alias chain longer than the environment itself (a cycle).
pub open spec fn spec_resolved_with_fuel(env: Env, typ: int, fuel: nat) -> Option<int>
    decreases fuel,
{
    if !type_known(env, typ) {
        None
    } else {
        match env.types@[typ].shape {
            TypeShape::Alias(next) => {
                if fuel == 0 {
                    None
                } else {
                    spec_resolved_with_fuel(env, next as int, (fuel - 1) as nat)
                }
            },
            _ => Some(typ),
        }
    }
}

/// The non-alias definition that `typ` finally names, if any.  A fuel of one
/// per environment entry is enough for every acyclic alias chain.
pub open spec fn spec_resolved(env: Env, typ: int) -> Option<int> {
    spec_resolved_with_fuel(env, typ, env.types@.len())
}

/// The conversion category of `typ`, read through aliases; unresolvable
/// identifiers degrade to `Unknown` rather than failing.
pub open spec fn spec_conversion_of(env: Env, typ: int) -> ConversionType {
    match spec_resolved(env, typ) {
        Some(t) => env.types@[t].category,
        None => ConversionType::Unknown,
    }
}

/// The shape is array-like: a value of it carries elements whose count a
/// separate length parameter can describe.
pub open spec fn spec_array_like(shape: TypeShape) -> bool {
    match shape {
        TypeShape::NativeString => true,
        TypeShape::Filename => true,
        TypeShape::OpaqueString => true,
        TypeShape::CArray => true,
        TypeShape::FixedArray => true,
        TypeShape::GrowableArray => true,
        TypeShape::PointerArray => true,
        TypeShape::SinglyLinkedList => true,
        TypeShape::DoublyLinkedList => true,
        TypeShape::HashTable => true,
        TypeShape::Alias(_) => false,
        TypeShape::Other => false,
    }
}

/// `typ` resolves, through aliases, to an array-like type.
pub open spec fn spec_has_length(env: Env, typ: int) -> bool {
    match spec_resolved(env, typ) {
        Some(t) => spec_array_like(env.types@[t].shape),
        None => false,
    }
}

pub open spec fn spec_is_interface(env: Env, typ: int) -> bool {
    type_known(env, typ) && env.types@[typ].is_interface
}

pub open spec fn spec_is_class(env: Env, typ: int) -> bool {
    type_known(env, typ) && env.types@[typ].is_class
}

pub open spec fn spec_is_final(env: Env, typ: int) -> bool {
    type_known(env, typ) && env.types@[typ].is_final_type
}

/// The printable spelling of `typ`; empty for an unknown identifier.
pub open spec fn spec_rust_type(env: Env, typ: int) -> Seq<char> {
    if type_known(env, typ) {
        env.types@[typ].rust_type_name@
    } else {
        Seq::<char>::empty()
    }
}

/// An `Out` parameter can be surfaced as the function's return value instead
/// of staying an argument.
pub open spec fn spec_can_as_return(env: Env, par: Parameter) -> bool {
    type_known(env, par.typ as int) && env.types@[par.typ as int].out_parameter_as_return
}

/// Resolve an alias chain to the type definition it finally names.
pub fn resolve_alias(env: &Env, typ: usize) -> (r: Option<usize>)
    ensures
        match r {
            Some(t) => spec_resolved(*env, typ as int) == Some(t as int),
            None => spec_resolved(*env, typ as int) is None,
        },
{
    let mut t = typ;
    let mut fuel = env.types.len();
    loop
        invariant
            spec_resolved_with_fuel(*env, t as int, fuel as nat) == spec_resolved(
                *env,
                typ as int,
            ),
            fuel <= env.types.len(),
        decreases fuel,
    {
        if t >= env.types.len() {
            return None;
        }
        match env.types[t].shape {
            TypeShape::Alias(next) => {
                if fuel == 0 {
                    return None;
                }
                fuel = fuel - 1;
                t = next;
            },
            _ => {
                return Some(t);
            },
        }
    }
}

/// The type's interface flag, read directly (not through aliases).
pub fn type_is_interface(env: &Env, typ: usize) -> (r: bool)
    ensures
        r == spec_is_interface(*env, typ as int),
{
    typ < env.types.len() && env.types[typ].is_interface
}

/// The type's class flag, read directly (not through aliases).
pub fn type_is_class(env: &Env, typ: usize) -> (r: bool)
    ensures
        r == spec_is_class(*env, typ as int),
{
    typ < env.types.len() && env.types[typ].is_class
}

/// The type's final flag, read directly (not through aliases).
pub fn type_is_final(env: &Env, typ: usize) -> (r: bool)
    ensures
        r == spec_is_final(*env, typ as int),
{
    typ < env.types.len() && env.types[typ].is_final_type
}

/// Render a type identifier as target-language source text.
pub fn rust_type(env: &Env, typ: usize) -> (r: String)
    ensures
        r@ == spec_rust_type(*env, typ as int),
{
    if typ < env.types.len() {
        env.types[typ].rust_type_name.clone()
    } else {
        String::new()
    }
}

/// Decide whether an `Out` parameter can be promoted to the function's
/// return value.
pub fn can_as_return(env: &Env, par: &Parameter) -> (r: bool)
    ensures
        r == spec_can_as_return(*env, *par),
{
    par.typ < env.types.len() && env.types[par.typ].out_parameter_as_return
}

} // verus!
