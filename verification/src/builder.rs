//! The polymorphic fragment builders: one shared traversal, three strategies
//! (reconstruction, merge-apply, structural clone), dispatched over a closed
//! strategy set. Every function's result is pinned to a spec-level rendering
//! of the fragment it emits.

use vstd::prelude::*;
use crate::model::ClonePolicy;
use crate::model::DefaultPolicy;
use crate::model::EnumDescriptor;
use crate::model::FieldDescriptor;
use crate::model::VariantDescriptor;
use crate::model::alias_string;
use crate::model::alias_text;
use crate::model::field_identifier;
use crate::model::field_identifier_string;
use crate::model::member_string;
use crate::model::member_text;
use crate::model::variant_path_string;
use crate::model::variant_path_text;
use crate::text::dec_rep;
use crate::text::joined;
use crate::text::usize_dec;

verus! {

/// The three reflective operations the engine can emit code for.
#[derive(Clone, Copy, Debug, PartialEq, Eq)]
pub enum Strategy {
    /// Build a concrete instance from a fully dynamic representation.
    FromReflect,
    /// Merge a dynamic source onto an existing instance, with structured
    /// errors on missing or mismatched fields.
    TryApply,
    /// Deep-copy an instance, honoring each field's clone policy.
    ReflectClone,
}

/// The fragment that accesses a field's dynamic value as an optional value.
///
/// Under the clone strategy every field of the existing instance is present,
/// so access short-circuits to a definitely-present value. Otherwise a named
/// field is looked up by name and a positional one by reflection index; a
/// field with no reflectable identity marks a malformed descriptor and gets
/// a compile-time stand-in diagnostic.
pub open spec fn spec_access_field(strategy: Strategy, this: Seq<char>, f: FieldDescriptor) -> Seq<
    char,
> {
    match strategy {
        Strategy::ReflectClone => "::core::option::Option::Some("@ + alias_text(f) + ")"@,
        _ => match f.name {
            Option::Some(n) => this + ".field(\""@ + n@ + "\")"@,
            Option::None => match f.reflection_index {
                Option::Some(i) => this + ".field_at("@ + dec_rep(i as nat) + ")"@,
                Option::None => "::core::compile_error!(\"internal reflection error: field should be active\")"@,
            },
        },
    }
}

/// The fragment that turns the optionally present value bound to the alias
/// into a definite value or an early failure.
///
/// Reconstruction propagates absence; merge-apply fails with a
/// missing-enum-field error carrying the variant name and the field's
/// identifier; clone unwraps unconditionally, since access always reports
/// the value present.
pub open spec fn spec_unwrap_field(
    strategy: Strategy,
    d: EnumDescriptor,
    v: VariantDescriptor,
    f: FieldDescriptor,
) -> Seq<char> {
    match strategy {
        Strategy::FromReflect => alias_text(f) + "?"@,
        Strategy::TryApply => alias_text(f) + ".ok_or("@ + d.reflect_crate_path@
            + "::ApplyError::MissingEnumField { variant_name: ::core::convert::Into::into(\""@
            + v.name@ + "\"), field_name: ::core::convert::Into::into(\""@ + field_identifier(f)
            + "\") })?"@,
        Strategy::ReflectClone => alias_text(f) + ".unwrap()"@,
    }
}

/// The alias as the clone strategy's construction input: unwrapped out of its
/// remote wrapper first when the field has one.
pub open spec fn spec_remote_unwrapped_alias(d: EnumDescriptor, f: FieldDescriptor) -> Seq<char> {
    match f.remote {
        Option::Some(w) => "<"@ + w@ + " as "@ + d.reflect_crate_path@
            + "::ReflectRemote>::as_wrapper("@ + alias_text(f) + ")"@,
        Option::None => alias_text(f),
    }
}

/// The fragment that turns a definite dynamic value into the field's
/// concrete type.
///
/// Reconstruction recursively reconstructs and propagates absence.
/// Merge-apply recursively reconstructs and fails with a mismatched-types
/// error carrying the source value's actual dynamic type path and the
/// field's expected type path. Clone branches on the clone policy:
/// reflective deep clone (fallible), intrinsic clone, or a user-supplied
/// clone function.
pub open spec fn spec_construct_field(
    strategy: Strategy,
    d: EnumDescriptor,
    f: FieldDescriptor,
) -> Seq<char> {
    match strategy {
        Strategy::FromReflect => "<"@ + f.reflected_type@ + " as "@ + d.reflect_crate_path@
            + "::FromReflect>::from_reflect("@ + alias_text(f) + ")?"@,
        Strategy::TryApply => "<"@ + f.reflected_type@ + " as "@ + d.reflect_crate_path@
            + "::FromReflect>::from_reflect("@ + alias_text(f) + ").ok_or("@
            + d.reflect_crate_path@
            + "::ApplyError::MismatchedTypes { from_type: ::core::convert::Into::into("@
            + d.reflect_crate_path@ + "::DynamicTypePath::reflect_type_path("@ + alias_text(f)
            + ")), to_type: ::core::convert::Into::into(<"@ + f.reflected_type@ + " as "@
            + d.reflect_crate_path@ + "::TypePath>::type_path()) })?"@,
        Strategy::ReflectClone => match f.clone_policy {
            ClonePolicy::Deep => "<"@ + f.reflected_type@ + " as "@ + d.reflect_crate_path@
                + "::PartialReflect>::reflect_clone_and_take("@ + spec_remote_unwrapped_alias(d, f)
                + ")?"@,
            ClonePolicy::Native => "::core::clone::Clone::clone("@ + spec_remote_unwrapped_alias(
                d,
                f,
            ) + ")"@,
            ClonePolicy::Func(g) => g@ + "("@ + spec_remote_unwrapped_alias(d, f) + ")"@,
        },
    }
}

/// Renders `spec_access_field`.
pub fn access_field(strategy: Strategy, this: &str, f: &FieldDescriptor) -> (r: String)
    ensures
        r@ == spec_access_field(strategy, this@, *f),
{
    match strategy {
        Strategy::ReflectClone => {
            let mut s = String::from_str("::core::option::Option::Some(");
            let a = alias_string(f);
            s.append(a.as_str());
            s.append(")");
            s
        },
        _ => {
            match &f.name {
                Option::Some(n) => {
                    let mut s = String::from_str(this);
                    s.append(".field(\"");
                    s.append(n.as_str());
                    s.append("\")");
                    s
                },
                Option::None => {
                    match &f.reflection_index {
                        Option::Some(i) => {
                            let mut s = String::from_str(this);
                            s.append(".field_at(");
                            let ix = usize_dec(*i);
                            s.append(ix.as_str());
                            s.append(")");
                            s
                        },
                        Option::None => {
                            String::from_str(
                                "::core::compile_error!(\"internal reflection error: field should be active\")",
                            )
                        },
                    }
                },
            }
        },
    }
}

/// Renders `spec_unwrap_field`.
pub fn unwrap_field(
    strategy: Strategy,
    d: &EnumDescriptor,
    v: &VariantDescriptor,
    f: &FieldDescriptor,
) -> (r: String)
    ensures
        r@ == spec_unwrap_field(strategy, *d, *v, *f),
{
    match strategy {
        Strategy::FromReflect => {
            let mut s = alias_string(f);
            s.append("?");
            s
        },
        Strategy::TryApply => {
            let mut s = alias_string(f);
            s.append(".ok_or(");
            s.append(d.reflect_crate_path.as_str());
            s.append("::ApplyError::MissingEnumField { variant_name: ::core::convert::Into::into(\"");
            s.append(v.name.as_str());
            s.append("\"), field_name: ::core::convert::Into::into(\"");
            let id = field_identifier_string(f);
            s.append(id.as_str());
            s.append("\") })?");
            s
        },
        Strategy::ReflectClone => {
            let mut s = alias_string(f);
            s.append(".unwrap()");
            s
        },
    }
}

/// Renders `spec_remote_unwrapped_alias`.
fn remote_unwrapped_alias(d: &EnumDescriptor, f: &FieldDescriptor) -> (r: String)
    ensures
        r@ == spec_remote_unwrapped_alias(*d, *f),
{
    match &f.remote {
        Option::Some(w) => {
            let mut s = String::from_str("<");
            s.append(w.as_str());
            s.append(" as ");
            s.append(d.reflect_crate_path.as_str());
            s.append("::ReflectRemote>::as_wrapper(");
            let a = alias_string(f);
            s.append(a.as_str());
            s.append(")");
            s
        },
        Option::None => alias_string(f),
    }
}

/// Renders `spec_construct_field`.
pub fn construct_field(strategy: Strategy, d: &EnumDescriptor, f: &FieldDescriptor) -> (r: String)
    ensures
        r@ == spec_construct_field(strategy, *d, *f),
{
    match strategy {
        Strategy::FromReflect => {
            let mut s = String::from_str("<");
            s.append(f.reflected_type.as_str());
            s.append(" as ");
            s.append(d.reflect_crate_path.as_str());
            s.append("::FromReflect>::from_reflect(");
            let a = alias_string(f);
            s.append(a.as_str());
            s.append(")?");
            s
        },
        Strategy::TryApply => {
            let mut s = String::from_str("<");
            s.append(f.reflected_type.as_str());
            s.append(" as ");
            s.append(d.reflect_crate_path.as_str());
            s.append("::FromReflect>::from_reflect(");
            let a = alias_string(f);
            s.append(a.as_str());
            s.append(").ok_or(");
            s.append(d.reflect_crate_path.as_str());
            s.append("::ApplyError::MismatchedTypes { from_type: ::core::convert::Into::into(");
            s.append(d.reflect_crate_path.as_str());
            s.append("::DynamicTypePath::reflect_type_path(");
            s.append(a.as_str());
            s.append(")), to_type: ::core::convert::Into::into(<");
            s.append(f.reflected_type.as_str());
            s.append(" as ");
            s.append(d.reflect_crate_path.as_str());
            s.append("::TypePath>::type_path()) })?");
            s
        },
        Strategy::ReflectClone => {
            let a = remote_unwrapped_alias(d, f);
            match &f.clone_policy {
                ClonePolicy::Deep => {
                    let mut s = String::from_str("<");
                    s.append(f.reflected_type.as_str());
                    s.append(" as ");
                    s.append(d.reflect_crate_path.as_str());
                    s.append("::PartialReflect>::reflect_clone_and_take(");
                    s.append(a.as_str());
                    s.append(")?");
                    s
                },
                ClonePolicy::Native => {
                    let mut s = String::from_str("::core::clone::Clone::clone(");
                    s.append(a.as_str());
                    s.append(")");
                    s
                },
                ClonePolicy::Func(g) => {
                    let mut s = g.clone();
                    s.append("(");
                    s.append(a.as_str());
                    s.append(")");
                    s
                },
            }
        },
    }
}

/// The borrowed-cow constructor path of the reflection crate, used where a
/// fragment embeds a string datum.
pub open spec fn cow_text(d: EnumDescriptor) -> Seq<char> {
    d.reflect_crate_path@ + "::__macro_exports::alloc_utils::Cow::Borrowed"@
}

/// The fragment that names a field inside a field-not-cloneable error: a
/// named field identifier or an unnamed declaration index.
pub open spec fn spec_field_id_text(d: EnumDescriptor, f: FieldDescriptor) -> Seq<char> {
    match f.name {
        Option::Some(n) => d.reflect_crate_path@ + "::FieldId::Named("@ + cow_text(d) + "(\""@ + n@
            + "\"))"@,
        Option::None => d.reflect_crate_path@ + "::FieldId::Unnamed("@ + dec_rep(
            f.declaration_index as nat,
        ) + ")"@,
    }
}

/// The fragment produced for an active (non-ignored) field.
///
/// The clone strategy constructs directly: every field of the instance is
/// present, so there is no default-versus-required branch. The other two
/// strategies access the field dynamically and branch on the default policy:
/// a configured default expression replaces construction when the value is
/// absent, while a required field binds, unwraps, and constructs. A remote
/// wrapper, when configured, wraps the whole result in a conversion into the
/// remote representation.
pub open spec fn spec_on_active_field(
    strategy: Strategy,
    d: EnumDescriptor,
    this: Seq<char>,
    v: VariantDescriptor,
    f: FieldDescriptor,
) -> Seq<char> {
    match strategy {
        Strategy::ReflectClone => spec_construct_field(strategy, d, f),
        _ => {
            let construction = match f.default_policy {
                DefaultPolicy::Func(p) => "if let ::core::option::Option::Some("@ + alias_text(f)
                    + ") = "@ + spec_access_field(strategy, this, f) + " { "@ + spec_construct_field(
                    strategy,
                    d,
                    f,
                ) + " } else { "@ + p@ + "() }"@,
                DefaultPolicy::TraitDefault => "if let ::core::option::Option::Some("@
                    + alias_text(f) + ") = "@ + spec_access_field(strategy, this, f) + " { "@
                    + spec_construct_field(strategy, d, f)
                    + " } else { ::core::default::Default::default() }"@,
                DefaultPolicy::Required => "{ let "@ + alias_text(f) + " = "@ + spec_access_field(
                    strategy,
                    this,
                    f,
                ) + "; let "@ + alias_text(f) + " = "@ + spec_unwrap_field(strategy, d, v, f)
                    + "; "@ + spec_construct_field(strategy, d, f) + " }"@,
            };
            match f.remote {
                Option::Some(_) => "<"@ + f.reflected_type@ + " as "@ + d.reflect_crate_path@
                    + "::ReflectRemote>::into_remote("@ + construction + ")"@,
                Option::None => construction,
            }
        },
    }
}

/// The fragment produced for an ignored field.
///
/// Reconstruction and merge-apply synthesize the configured default. The
/// clone strategy branches on the clone policy: deep reflective clone cannot
/// recover a value that was never captured, so it emits an immediate
/// field-not-cloneable failure carrying the field identifier, the variant
/// name and the containing type's path; intrinsic clone copies the alias;
/// a user-supplied function is called with no arguments.
pub open spec fn spec_on_ignored_field(
    strategy: Strategy,
    d: EnumDescriptor,
    v: VariantDescriptor,
    f: FieldDescriptor,
) -> Seq<char> {
    match strategy {
        Strategy::ReflectClone => match f.clone_policy {
            ClonePolicy::Deep => "return ::core::result::Result::Err("@ + d.reflect_crate_path@
                + "::ReflectCloneError::FieldNotCloneable { field: "@ + spec_field_id_text(d, f)
                + ", variant: ::core::option::Option::Some("@ + cow_text(d) + "(\""@ + v.name@
                + "\")), container_type_path: "@ + cow_text(d) + "(<Self as "@
                + d.reflect_crate_path@ + "::TypePath>::type_path()) })"@,
            ClonePolicy::Native => "::core::clone::Clone::clone("@ + alias_text(f) + ")"@,
            ClonePolicy::Func(g) => g@ + "()"@,
        },
        _ => match f.default_policy {
            DefaultPolicy::Func(p) => p@ + "()"@,
            _ => "::core::default::Default::default()"@,
        },
    }
}

/// The fragment that produces a field's value in a constructor: the ignored
/// path for ignored fields, the active path otherwise.
pub open spec fn spec_field_value(
    strategy: Strategy,
    d: EnumDescriptor,
    this: Seq<char>,
    v: VariantDescriptor,
    f: FieldDescriptor,
) -> Seq<char> {
    if f.ignore {
        spec_on_ignored_field(strategy, d, v, f)
    } else {
        spec_on_active_field(strategy, d, this, v, f)
    }
}

/// Renders the borrowed-cow constructor path.
fn cow_string(d: &EnumDescriptor) -> (r: String)
    ensures
        r@ == cow_text(*d),
{
    let mut s = d.reflect_crate_path.clone();
    s.append("::__macro_exports::alloc_utils::Cow::Borrowed");
    s
}

/// Renders `spec_field_id_text`.
fn field_id_string(d: &EnumDescriptor, f: &FieldDescriptor) -> (r: String)
    ensures
        r@ == spec_field_id_text(*d, *f),
{
    match &f.name {
        Option::Some(n) => {
            let mut s = d.reflect_crate_path.clone();
            s.append("::FieldId::Named(");
            let c = cow_string(d);
            s.append(c.as_str());
            s.append("(\"");
            s.append(n.as_str());
            s.append("\"))");
            s
        },
        Option::None => {
            let mut s = d.reflect_crate_path.clone();
            s.append("::FieldId::Unnamed(");
            let ix = usize_dec(f.declaration_index);
            s.append(ix.as_str());
            s.append(")");
            s
        },
    }
}

/// Renders `spec_on_active_field`.
pub fn on_active_field(
    strategy: Strategy,
    d: &EnumDescriptor,
    this: &str,
    v: &VariantDescriptor,
    f: &FieldDescriptor,
) -> (r: String)
    ensures
        r@ == spec_on_active_field(strategy, *d, this@, *v, *f),
{
    match strategy {
        Strategy::ReflectClone => construct_field(strategy, d, f),
        _ => {
            let construction = match &f.default_policy {
                DefaultPolicy::Func(p) => {
                    let mut s = String::from_str("if let ::core::option::Option::Some(");
                    let a = alias_string(f);
                    s.append(a.as_str());
                    s.append(") = ");
                    let acc = access_field(strategy, this, f);
                    s.append(acc.as_str());
                    s.append(" { ");
                    let cons = construct_field(strategy, d, f);
                    s.append(cons.as_str());
                    s.append(" } else { ");
                    s.append(p.as_str());
                    s.append("() }");
                    s
                },
                DefaultPolicy::TraitDefault => {
                    let mut s = String::from_str("if let ::core::option::Option::Some(");
                    let a = alias_string(f);
                    s.append(a.as_str());
                    s.append(") = ");
                    let acc = access_field(strategy, this, f);
                    s.append(acc.as_str());
                    s.append(" { ");
                    let cons = construct_field(strategy, d, f);
                    s.append(cons.as_str());
                    s.append(" } else { ::core::default::Default::default() }");
                    s
                },
                DefaultPolicy::Required => {
                    let mut s = String::from_str("{ let ");
                    let a = alias_string(f);
                    s.append(a.as_str());
                    s.append(" = ");
                    let acc = access_field(strategy, this, f);
                    s.append(acc.as_str());
                    s.append("; let ");
                    s.append(a.as_str());
                    s.append(" = ");
                    let unw = unwrap_field(strategy, d, v, f);
                    s.append(unw.as_str());
                    s.append("; ");
                    let cons = construct_field(strategy, d, f);
                    s.append(cons.as_str());
                    s.append(" }");
                    s
                },
            };
            match &f.remote {
                Option::Some(_) => {
                    let mut s = String::from_str("<");
                    s.append(f.reflected_type.as_str());
                    s.append(" as ");
                    s.append(d.reflect_crate_path.as_str());
                    s.append("::ReflectRemote>::into_remote(");
                    s.append(construction.as_str());
                    s.append(")");
                    s
                },
                Option::None => construction,
            }
        },
    }
}

/// Renders `spec_on_ignored_field`.
pub fn on_ignored_field(
    strategy: Strategy,
    d: &EnumDescriptor,
    v: &VariantDescriptor,
    f: &FieldDescriptor,
) -> (r: String)
    ensures
        r@ == spec_on_ignored_field(strategy, *d, *v, *f),
{
    match strategy {
        Strategy::ReflectClone => {
            match &f.clone_policy {
                ClonePolicy::Deep => {
                    let mut s = String::from_str("return ::core::result::Result::Err(");
                    s.append(d.reflect_crate_path.as_str());
                    s.append("::ReflectCloneError::FieldNotCloneable { field: ");
                    let id = field_id_string(d, f);
                    s.append(id.as_str());
                    s.append(", variant: ::core::option::Option::Some(");
                    let c = cow_string(d);
                    s.append(c.as_str());
                    s.append("(\"");
                    s.append(v.name.as_str());
                    s.append("\")), container_type_path: ");
                    s.append(c.as_str());
                    s.append("(<Self as ");
                    s.append(d.reflect_crate_path.as_str());
                    s.append("::TypePath>::type_path()) })");
                    s
                },
                ClonePolicy::Native => {
                    let mut s = String::from_str("::core::clone::Clone::clone(");
                    let a = alias_string(f);
                    s.append(a.as_str());
                    s.append(")");
                    s
                },
                ClonePolicy::Func(g) => {
                    let mut s = g.clone();
                    s.append("()");
                    s
                },
            }
        },
        _ => {
            match &f.default_policy {
                DefaultPolicy::Func(p) => {
                    let mut s = p.clone();
                    s.append("()");
                    s
                },
                _ => String::from_str("::core::default::Default::default()"),
            }
        },
    }
}

/// Renders `spec_field_value`.
pub fn field_value(
    strategy: Strategy,
    d: &EnumDescriptor,
    this: &str,
    v: &VariantDescriptor,
    f: &FieldDescriptor,
) -> (r: String)
    ensures
        r@ == spec_field_value(strategy, *d, this@, *v, *f),
{
    if f.ignore {
        on_ignored_field(strategy, d, v, f)
    } else {
        on_active_field(strategy, d, this, v, f)
    }
}

/// One field's slot in a variant's match pattern: `member: alias`.
pub open spec fn spec_pattern_slot(f: FieldDescriptor) -> Seq<char> {
    member_text(f) + ": "@ + alias_text(f)
}

/// One field's slot in a variant's constructor: `member: value`.
pub open spec fn spec_constructor_slot(
    strategy: Strategy,
    d: EnumDescriptor,
    this: Seq<char>,
    v: VariantDescriptor,
    f: FieldDescriptor,
) -> Seq<char> {
    member_text(f) + ": "@ + spec_field_value(strategy, d, this, v, f)
}

/// The pattern slots of a variant, one per field, in declaration order.
pub open spec fn pattern_slots(v: VariantDescriptor) -> Seq<Seq<char>> {
    v.fields@.map(|i: int, f: FieldDescriptor| spec_pattern_slot(f))
}

/// The constructor slots of a variant, one per field, in declaration order.
pub open spec fn constructor_slots(
    strategy: Strategy,
    d: EnumDescriptor,
    this: Seq<char>,
    v: VariantDescriptor,
) -> Seq<Seq<char>> {
    v.fields@.map(|i: int, f: FieldDescriptor| spec_constructor_slot(strategy, d, this, v, f))
}

/// A variant's whole match pattern: the variant path followed by the braced,
/// comma-joined pattern slots. The pattern destructures every field, active
/// or ignored, and is the same under every strategy.
pub open spec fn spec_variant_pattern(d: EnumDescriptor, v: VariantDescriptor) -> Seq<char> {
    if v.fields@.len() == 0 {
        variant_path_text(d, v) + " {}"@
    } else {
        variant_path_text(d, v) + " { "@ + joined(pattern_slots(v)) + " }"@
    }
}

/// A variant's whole constructor: the variant path followed by the braced,
/// comma-joined constructor slots, one per field, active or ignored.
pub open spec fn spec_variant_constructor(
    strategy: Strategy,
    d: EnumDescriptor,
    this: Seq<char>,
    v: VariantDescriptor,
) -> Seq<char> {
    if v.fields@.len() == 0 {
        variant_path_text(d, v) + " {}"@
    } else {
        variant_path_text(d, v) + " { "@ + joined(constructor_slots(strategy, d, this, v)) + " }"@
    }
}

/// Renders `spec_pattern_slot`.
pub fn pattern_slot_string(f: &FieldDescriptor) -> (r: String)
    ensures
        r@ == spec_pattern_slot(*f),
{
    let mut s = member_string(f);
    s.append(": ");
    let a = alias_string(f);
    s.append(a.as_str());
    s
}

/// Renders `spec_constructor_slot`.
pub fn constructor_slot_string(
    strategy: Strategy,
    d: &EnumDescriptor,
    this: &str,
    v: &VariantDescriptor,
    f: &FieldDescriptor,
) -> (r: String)
    ensures
        r@ == spec_constructor_slot(strategy, *d, this@, *v, *f),
{
    let mut s = member_string(f);
    s.append(": ");
    let value = field_value(strategy, d, this, v, f);
    s.append(value.as_str());
    s
}

/// Renders `spec_variant_pattern`.
pub fn variant_pattern(d: &EnumDescriptor, v: &VariantDescriptor) -> (r: String)
    ensures
        r@ == spec_variant_pattern(*d, *v),
{
    let mut s = variant_path_string(d, v);
    let n = v.fields.len();
    if n == 0 {
        s.append(" {}");
        s
    } else {
        s.append(" { ");
        let mut body = pattern_slot_string(&v.fields[0]);
        proof {
            let slots = pattern_slots(*v);
            assert(slots.take(1) =~= seq![slots[0]]);
            assert(slots[0] == spec_pattern_slot(v.fields@[0]));
        }
        let mut j: usize = 1;
        while j < n
            invariant
                1 <= j <= n,
                n == v.fields@.len(),
                body@ == joined(pattern_slots(*v).take(j as int)),
            decreases n - j,
        {
            body.append(", ");
            let slot = pattern_slot_string(&v.fields[j]);
            body.append(slot.as_str());
            proof {
                let slots = pattern_slots(*v);
                assert(slots.take(j as int + 1).drop_last() =~= slots.take(j as int));
                assert(slots.take(j as int + 1).last() == slots[j as int]);
                assert(slots[j as int] == spec_pattern_slot(v.fields@[j as int]));
            }
            j += 1;
        }
        proof {
            assert(pattern_slots(*v).take(n as int) =~= pattern_slots(*v));
        }
        s.append(body.as_str());
        s.append(" }");
        s
    }
}

/// Renders `spec_variant_constructor`.
pub fn variant_constructor(
    strategy: Strategy,
    d: &EnumDescriptor,
    this: &str,
    v: &VariantDescriptor,
) -> (r: String)
    ensures
        r@ == spec_variant_constructor(strategy, *d, this@, *v),
{
    let mut s = variant_path_string(d, v);
    let n = v.fields.len();
    if n == 0 {
        s.append(" {}");
        s
    } else {
        s.append(" { ");
        let mut body = constructor_slot_string(strategy, d, this, v, &v.fields[0]);
        proof {
            let slots = constructor_slots(strategy, *d, this@, *v);
            assert(slots.take(1) =~= seq![slots[0]]);
            assert(slots[0] == spec_constructor_slot(strategy, *d, this@, *v, v.fields@[0]));
        }
        let mut j: usize = 1;
        while j < n
            invariant
                1 <= j <= n,
                n == v.fields@.len(),
                body@ == joined(constructor_slots(strategy, *d, this@, *v).take(j as int)),
            decreases n - j,
        {
            body.append(", ");
            let slot = constructor_slot_string(strategy, d, this, v, &v.fields[j]);
            body.append(slot.as_str());
            proof {
                let slots = constructor_slots(strategy, *d, this@, *v);
                assert(slots.take(j as int + 1).drop_last() =~= slots.take(j as int));
                assert(slots.take(j as int + 1).last() == slots[j as int]);
                assert(slots[j as int] == spec_constructor_slot(
                    strategy,
                    *d,
                    this@,
                    *v,
                    v.fields@[j as int],
                ));
            }
            j += 1;
        }
        proof {
            assert(constructor_slots(strategy, *d, this@, *v).take(n as int)
                =~= constructor_slots(strategy, *d, this@, *v));
        }
        s.append(body.as_str());
        s.append(" }");
        s
    }
}

/// The three index-aligned output collections of one traversal: variant
/// display names, match patterns, and constructor expressions, one entry per
/// variant, in declaration order.
pub struct EnumVariantOutputData {
    /// The name of each variant as a string, such as `Circle`.
    pub variant_names: Vec<String>,
    /// The match-pattern fragment of each variant.
    pub variant_patterns: Vec<String>,
    /// The constructor fragment of each variant.
    pub variant_constructors: Vec<String>,
}

/// Builds the output data: for every variant, in declaration order, one
/// display name, one pattern destructuring every field into its alias, and
/// one constructor producing every field's value under the given strategy.
/// `this` names the instance that active fields are accessed from. The
/// contract pins every entry to a spec-level rendering, so the output is a
/// function of the descriptor, the strategy and `this` alone.
pub fn build(strategy: Strategy, d: &EnumDescriptor, this: &str) -> (r: EnumVariantOutputData)
    ensures
        r.variant_names@.len() == d.variants@.len(),
        r.variant_patterns@.len() == d.variants@.len(),
        r.variant_constructors@.len() == d.variants@.len(),
        forall|k: int|
            0 <= k < d.variants@.len() ==> (#[trigger] r.variant_names@[k])@
                == d.variants@[k].name@,
        forall|k: int|
            0 <= k < d.variants@.len() ==> (#[trigger] r.variant_patterns@[k])@
                == spec_variant_pattern(*d, d.variants@[k]),
        forall|k: int|
            0 <= k < d.variants@.len() ==> (#[trigger] r.variant_constructors@[k])@
                == spec_variant_constructor(strategy, *d, this@, d.variants@[k]),
{
    let n = d.variants.len();
    let mut variant_names: Vec<String> = Vec::new();
    let mut variant_patterns: Vec<String> = Vec::new();
    let mut variant_constructors: Vec<String> = Vec::new();
    let mut i: usize = 0;
    while i < n
        invariant
            i <= n,
            n == d.variants@.len(),
            variant_names@.len() == i as int,
            variant_patterns@.len() == i as int,
            variant_constructors@.len() == i as int,
            forall|k: int|
                0 <= k < i ==> (#[trigger] variant_names@[k])@ == d.variants@[k].name@,
            forall|k: int|
                0 <= k < i ==> (#[trigger] variant_patterns@[k])@ == spec_variant_pattern(
                    *d,
                    d.variants@[k],
                ),
            forall|k: int|
                0 <= k < i ==> (#[trigger] variant_constructors@[k])@ == spec_variant_constructor(
                    strategy,
                    *d,
                    this@,
                    d.variants@[k],
                ),
        decreases n - i,
    {
        let v = &d.variants[i];
        variant_names.push(v.name.clone());
        let pattern = variant_pattern(d, v);
        variant_patterns.push(pattern);
        let constructor = variant_constructor(strategy, d, this, v);
        variant_constructors.push(constructor);
        i += 1;
    }
    EnumVariantOutputData { variant_names, variant_patterns, variant_constructors }
}

} // verus!
