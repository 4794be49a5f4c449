//! The descriptor model: an already-validated structural description of an
//! enum, its variants, and per-field behavioral policies, together with the
//! spec-level naming conventions (member text, alias, error identifier) that
//! every fragment builder shares.

use vstd::prelude::*;
use crate::text::dec_rep;
use crate::text::usize_dec;

verus! {

/// What happens when a dynamically accessed field is absent.
pub enum DefaultPolicy {
    /// Substitute a call of the named zero-argument function.
    Func(String),
    /// Substitute the type's trait-level default value.
    TraitDefault,
    /// The field is required: absence is an error of the operation.
    Required,
}

/// How the structural-clone operation copies a field.
pub enum ClonePolicy {
    /// Deep-clone through the reflective clone operation (may fail).
    Deep,
    /// Use the type's intrinsic clone semantics (infallible).
    Native,
    /// Call the named user-supplied clone function (infallible).
    Func(String),
}

/// One field of a variant: its identity, its concrete type as source text,
/// and its four behavioral policies.
pub struct FieldDescriptor {
    /// The declared name, for named fields; `None` for positional fields.
    pub name: Option<String>,
    /// The field's position among the variant's fields, in declaration order.
    pub declaration_index: usize,
    /// The field's position among the variant's reflectable (non-ignored)
    /// fields, where it has one.
    pub reflection_index: Option<usize>,
    /// Source text of the field's concrete type, for generated annotations.
    pub reflected_type: String,
    /// Whether the field is excluded from dynamic access and synthesized
    /// instead.
    pub ignore: bool,
    /// What to do when the field's dynamic value is absent.
    pub default_policy: DefaultPolicy,
    /// How structural clone copies the field.
    pub clone_policy: ClonePolicy,
    /// Source text of a remote wrapper type, when the field's value must be
    /// converted to and from an external representation.
    pub remote: Option<String>,
}

/// One variant of the enum: its name and its fields in declaration order.
pub struct VariantDescriptor {
    /// The variant's declared name, such as `Circle`.
    pub name: String,
    /// The variant's fields, in declaration order.
    pub fields: Vec<FieldDescriptor>,
}

/// The whole enum: its type path, the path of the reflection crate that the
/// generated fragments call into, and the variants in declaration order.
pub struct EnumDescriptor {
    /// Source text of the enum's own path, such as `Shape`; prefixes every
    /// variant pattern and constructor.
    pub type_path: String,
    /// Source text of the reflection crate's root path, such as
    /// `bevy_reflect`; prefixes every reflective call in the fragments.
    pub reflect_crate_path: String,
    /// The variants, in declaration order; this order fixes output order.
    pub variants: Vec<VariantDescriptor>,
}

/// The member text of a field inside a braced pattern or constructor: its
/// name when named, its declaration index in decimal when positional.
pub open spec fn member_text(f: FieldDescriptor) -> Seq<char> {
    match f.name {
        Option::Some(n) => n@,
        Option::None => dec_rep(f.declaration_index as nat),
    }
}

/// The alias that the generated code binds a field's value to: an underscore
/// followed by the member text, such as `_radius` or `_0`.
pub open spec fn alias_text(f: FieldDescriptor) -> Seq<char> {
    "_"@ + member_text(f)
}

/// The human-readable identifier that error fragments carry for a field: its
/// name when named, or a positional marker `.N` when positional.
pub open spec fn field_identifier(f: FieldDescriptor) -> Seq<char> {
    match f.name {
        Option::Some(n) => n@,
        Option::None => "."@ + dec_rep(f.declaration_index as nat),
    }
}

/// The fully qualified path of one variant: the enum's path, `::`, and the
/// variant's name.
pub open spec fn variant_path_text(d: EnumDescriptor, v: VariantDescriptor) -> Seq<char> {
    d.type_path@ + "::"@ + v.name@
}

/// Renders the member text of `f`.
pub fn member_string(f: &FieldDescriptor) -> (r: String)
    ensures
        r@ == member_text(*f),
{
    match &f.name {
        Option::Some(n) => n.clone(),
        Option::None => usize_dec(f.declaration_index),
    }
}

/// Renders the alias of `f`.
pub fn alias_string(f: &FieldDescriptor) -> (r: String)
    ensures
        r@ == alias_text(*f),
{
    let mut s = String::from_str("_");
    let m = member_string(f);
    s.append(m.as_str());
    s
}

/// Renders the error identifier of `f`.
pub fn field_identifier_string(f: &FieldDescriptor) -> (r: String)
    ensures
        r@ == field_identifier(*f),
{
    match &f.name {
        Option::Some(n) => n.clone(),
        Option::None => {
            let mut s = String::from_str(".");
            let m = usize_dec(f.declaration_index);
            s.append(m.as_str());
            s
        },
    }
}

/// Renders the fully qualified path of variant `v` of `d`.
pub fn variant_path_string(d: &EnumDescriptor, v: &VariantDescriptor) -> (r: String)
    ensures
        r@ == variant_path_text(*d, *v),
{
    let mut s = d.type_path.clone();
    s.append("::");
    s.append(v.name.as_str());
    s
}

} // verus!
