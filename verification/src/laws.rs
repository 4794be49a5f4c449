//! Laws of the fragment builders: the per-variant output shape, the
//! field-identifier convention of error fragments, and the policy-directed
//! behavior of ignored fields under structural clone.

use vstd::prelude::*;
use crate::builder::Strategy;
use crate::builder::constructor_slots;
use crate::builder::pattern_slots;
use crate::builder::spec_constructor_slot;
use crate::builder::spec_field_value;
use crate::builder::spec_on_ignored_field;
use crate::builder::spec_pattern_slot;
use crate::builder::spec_construct_field;
use crate::builder::spec_unwrap_field;
use crate::builder::spec_variant_constructor;
use crate::builder::spec_variant_pattern;
use crate::model::ClonePolicy;
use crate::model::DefaultPolicy;
use crate::model::EnumDescriptor;
use crate::model::FieldDescriptor;
use crate::model::VariantDescriptor;
use crate::model::alias_text;
use crate::model::field_identifier;
use crate::model::member_text;
use crate::model::variant_path_text;
use crate::text::dec_rep;
use crate::text::joined;
use crate::text::lemma_dec_rep_digits;
use crate::text::lemma_dec_rep_len;

verus! {

/// Whether `needle` occurs contiguously somewhere inside `hay`.
pub open spec fn contains_seq(hay: Seq<char>, needle: Seq<char>) -> bool {
    exists|i: int|
        0 <= i && i + needle.len() <= hay.len() && #[trigger] hay.subrange(i, i + needle.len())
            == needle
}

/// A sequence of the shape `x + m + y` contains `m`.
proof fn lemma_concat_contains_middle(x: Seq<char>, m: Seq<char>, y: Seq<char>)
    ensures
        contains_seq(x + m + y, m),
{
    assert((x + m + y).subrange(x.len() as int, x.len() + m.len() as int) =~= m);
}

/// Every variant contributes exactly one pattern and one constructor to the
/// output, and inside them every field — active or ignored — contributes
/// exactly one slot, in declaration order: the slot sequences have one entry
/// per field, and the variant's pattern and constructor are precisely the
/// variant path around the comma-joined slots.
pub proof fn lemma_one_slot_per_field(
    strategy: Strategy,
    d: EnumDescriptor,
    this: Seq<char>,
    v: VariantDescriptor,
)
    ensures
        pattern_slots(v).len() == v.fields@.len(),
        constructor_slots(strategy, d, this, v).len() == v.fields@.len(),
        forall|i: int|
            0 <= i < v.fields@.len() ==> #[trigger] pattern_slots(v)[i] == spec_pattern_slot(
                v.fields@[i],
            ),
        forall|i: int|
            0 <= i < v.fields@.len() ==> #[trigger] constructor_slots(strategy, d, this, v)[i]
                == spec_constructor_slot(strategy, d, this, v, v.fields@[i]),
        v.fields@.len() > 0 ==> spec_variant_pattern(d, v) == variant_path_text(d, v) + " { "@
            + joined(pattern_slots(v)) + " }"@,
        v.fields@.len() > 0 ==> spec_variant_constructor(strategy, d, this, v)
            == variant_path_text(d, v) + " { "@ + joined(constructor_slots(strategy, d, this, v))
            + " }"@,
        v.fields@.len() == 0 ==> spec_variant_pattern(d, v) == variant_path_text(d, v) + " {}"@,
        v.fields@.len() == 0 ==> spec_variant_constructor(strategy, d, this, v)
            == variant_path_text(d, v) + " {}"@,
{
}

/// The identifier convention of error fragments: a named field is identified
/// by its name; a positional field is identified by a marker that joins a
/// dot to its declaration index in decimal. The marker always begins with
/// the dot, so it is never the bare index and never collides with a field's
/// member text.
pub proof fn lemma_field_identifier_convention(f: FieldDescriptor)
    ensures
        f.name matches Option::Some(n) ==> field_identifier(f) == n@,
        f.name is None ==> field_identifier(f) == "."@ + dec_rep(f.declaration_index as nat),
        f.name is None ==> field_identifier(f).len() == 1 + dec_rep(f.declaration_index as nat).len(),
        f.name is None ==> field_identifier(f)[0] == '.',
        f.name is None ==> field_identifier(f) != dec_rep(f.declaration_index as nat),
        f.name is None ==> field_identifier(f) != member_text(f),
{
    reveal_strlit(".");
    if f.name is None {
        let id = field_identifier(f);
        let rep = dec_rep(f.declaration_index as nat);
        lemma_dec_rep_len(f.declaration_index as nat);
        lemma_dec_rep_digits(f.declaration_index as nat);
        assert(id[0] == '.');
        assert(rep[0] != '.');
        assert(id != rep) by {
            if id == rep {
                assert(id[0] == rep[0]);
            }
        }
    }
}

/// A required field that the merge-apply strategy finds absent is reported
/// through a missing-enum-field error: the unwrap fragment embeds both the
/// owning variant's name and the field's identifier.
pub proof fn lemma_missing_field_error_data(
    d: EnumDescriptor,
    v: VariantDescriptor,
    f: FieldDescriptor,
)
    ensures
        contains_seq(spec_unwrap_field(Strategy::TryApply, d, v, f), v.name@),
        contains_seq(spec_unwrap_field(Strategy::TryApply, d, v, f), field_identifier(f)),
{
    let frag = spec_unwrap_field(Strategy::TryApply, d, v, f);
    let x1 = alias_text(f) + ".ok_or("@ + d.reflect_crate_path@
        + "::ApplyError::MissingEnumField { variant_name: ::core::convert::Into::into(\""@;
    let y1 = "\"), field_name: ::core::convert::Into::into(\""@ + field_identifier(f) + "\") })?"@;
    assert(frag =~= x1 + v.name@ + y1);
    lemma_concat_contains_middle(x1, v.name@, y1);
    let x2 = x1 + v.name@ + "\"), field_name: ::core::convert::Into::into(\""@;
    let y2 = "\") })?"@;
    assert(frag =~= x2 + field_identifier(f) + y2);
    lemma_concat_contains_middle(x2, field_identifier(f), y2);
}

/// A source field that the merge-apply strategy cannot coerce is reported
/// through a mismatched-types error: the construction fragment embeds both a
/// capture of the source value's actual dynamic type path — taken from the
/// aliased value itself — and the field's expected static type.
pub proof fn lemma_mismatched_types_error_data(d: EnumDescriptor, f: FieldDescriptor)
    ensures
        contains_seq(
            spec_construct_field(Strategy::TryApply, d, f),
            d.reflect_crate_path@ + "::DynamicTypePath::reflect_type_path("@ + alias_text(f),
        ),
        contains_seq(
            spec_construct_field(Strategy::TryApply, d, f),
            "to_type: ::core::convert::Into::into(<"@ + f.reflected_type@ + " as "@
                + d.reflect_crate_path@ + "::TypePath>::type_path())"@,
        ),
{
    let frag = spec_construct_field(Strategy::TryApply, d, f);
    let from_capture = d.reflect_crate_path@ + "::DynamicTypePath::reflect_type_path("@
        + alias_text(f);
    let x1 = "<"@ + f.reflected_type@ + " as "@ + d.reflect_crate_path@
        + "::FromReflect>::from_reflect("@ + alias_text(f) + ").ok_or("@ + d.reflect_crate_path@
        + "::ApplyError::MismatchedTypes { from_type: ::core::convert::Into::into("@;
    let y1 = ")), to_type: ::core::convert::Into::into(<"@ + f.reflected_type@ + " as "@
        + d.reflect_crate_path@ + "::TypePath>::type_path()) })?"@;
    assert(frag =~= x1 + from_capture + y1);
    lemma_concat_contains_middle(x1, from_capture, y1);
    let to_capture = "to_type: ::core::convert::Into::into(<"@ + f.reflected_type@ + " as "@
        + d.reflect_crate_path@ + "::TypePath>::type_path())"@;
    reveal_strlit(")), to_type: ::core::convert::Into::into(<");
    reveal_strlit(")), ");
    reveal_strlit("to_type: ::core::convert::Into::into(<");
    assert(")), to_type: ::core::convert::Into::into(<"@ =~= ")), "@
        + "to_type: ::core::convert::Into::into(<"@);
    reveal_strlit("::TypePath>::type_path()) })?");
    reveal_strlit("::TypePath>::type_path())");
    reveal_strlit(" })?");
    assert("::TypePath>::type_path()) })?"@ =~= "::TypePath>::type_path())"@ + " })?"@);
    let x2 = x1 + from_capture + ")), "@;
    let y2 = " })?"@;
    assert(frag =~= x2 + to_capture + y2);
    lemma_concat_contains_middle(x2, to_capture, y2);
}

/// Structural clone of an ignored field is decided by the clone policy
/// alone: under deep reflective clone the traversal emits an immediate
/// failure — a fragment that begins with `return` and embeds the variant's
/// name and the field's identifying text; under intrinsic clone it copies
/// the alias; under a user-supplied function it calls that function with no
/// arguments.
pub proof fn lemma_ignored_field_clone_policy(
    d: EnumDescriptor,
    this: Seq<char>,
    v: VariantDescriptor,
    f: FieldDescriptor,
)
    requires
        f.ignore,
    ensures
        spec_field_value(Strategy::ReflectClone, d, this, v, f) == spec_on_ignored_field(
            Strategy::ReflectClone,
            d,
            v,
            f,
        ),
        f.clone_policy is Deep ==> spec_on_ignored_field(Strategy::ReflectClone, d, v, f).subrange(
            0,
            7,
        ) == "return "@,
        f.clone_policy is Deep ==> contains_seq(
            spec_on_ignored_field(Strategy::ReflectClone, d, v, f),
            v.name@,
        ),
        f.clone_policy is Native ==> spec_on_ignored_field(Strategy::ReflectClone, d, v, f)
            == "::core::clone::Clone::clone("@ + alias_text(f) + ")"@,
        f.clone_policy matches ClonePolicy::Func(g) ==> spec_on_ignored_field(
            Strategy::ReflectClone,
            d,
            v,
            f,
        ) == g@ + "()"@,
{
    if f.clone_policy is Deep {
        let frag = spec_on_ignored_field(Strategy::ReflectClone, d, v, f);
        reveal_strlit("return ");
        reveal_strlit("return ::core::result::Result::Err(");
        assert(frag.subrange(0, 7) =~= "return "@);
        let x = "return ::core::result::Result::Err("@ + d.reflect_crate_path@
            + "::ReflectCloneError::FieldNotCloneable { field: "@ + crate::builder::spec_field_id_text(
            d,
            f,
        ) + ", variant: ::core::option::Option::Some("@ + crate::builder::cow_text(d) + "(\""@;
        let y = "\")), container_type_path: "@ + crate::builder::cow_text(d) + "(<Self as "@
            + d.reflect_crate_path@ + "::TypePath>::type_path()) })"@;
        assert(frag =~= x + v.name@ + y);
        lemma_concat_contains_middle(x, v.name@, y);
    }
}

/// Ignored fields outside the clone strategy synthesize the configured
/// default: the named function called with no arguments when one is
/// configured, the trait-level default otherwise.
pub proof fn lemma_ignored_field_default(
    strategy: Strategy,
    d: EnumDescriptor,
    this: Seq<char>,
    v: VariantDescriptor,
    f: FieldDescriptor,
)
    requires
        f.ignore,
        !(strategy is ReflectClone),
    ensures
        spec_field_value(strategy, d, this, v, f) == spec_on_ignored_field(strategy, d, v, f),
        f.default_policy matches DefaultPolicy::Func(p) ==> spec_on_ignored_field(strategy, d, v, f)
            == p@ + "()"@,
        !(f.default_policy is Func) ==> spec_on_ignored_field(strategy, d, v, f)
            == "::core::default::Default::default()"@,
{
}

} // verus!
