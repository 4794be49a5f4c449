use reflect_codegen::builder::Strategy;
use reflect_codegen::builder::unwrap_field;
use reflect_codegen::model::ClonePolicy;
use reflect_codegen::model::DefaultPolicy;
use reflect_codegen::model::EnumDescriptor;
use reflect_codegen::model::FieldDescriptor;
use reflect_codegen::model::VariantDescriptor;
use reflect_codegen::strategies::TryApplyVariantBuilder;
use reflect_codegen::text::usize_dec;

fn pair_field(index: usize) -> FieldDescriptor {
    FieldDescriptor {
        name: None,
        declaration_index: index,
        reflection_index: Some(index),
        reflected_type: String::from("i32"),
        ignore: false,
        default_policy: DefaultPolicy::Required,
        clone_policy: ClonePolicy::Native,
        remote: None,
    }
}

fn pair_descriptor() -> EnumDescriptor {
    EnumDescriptor {
        type_path: String::from("Values"),
        reflect_crate_path: String::from("bevy_reflect"),
        variants: vec![VariantDescriptor {
            name: String::from("Pair"),
            fields: vec![pair_field(0), pair_field(1)],
        }],
    }
}

#[test]
fn pair_pattern_uses_index_members() {
    let d = pair_descriptor();
    let out = TryApplyVariantBuilder::new(&d).build("this");
    assert_eq!(out.variant_patterns[0], "Values::Pair { 0: _0, 1: _1 }");
}

#[test]
fn pair_error_identifiers_render_with_leading_dot() {
    let d = pair_descriptor();
    let v = &d.variants[0];
    let first = unwrap_field(Strategy::TryApply, &d, v, &v.fields[0]);
    let second = unwrap_field(Strategy::TryApply, &d, v, &v.fields[1]);
    assert_eq!(
        first,
        "_0.ok_or(bevy_reflect::ApplyError::MissingEnumField { \
         variant_name: ::core::convert::Into::into(\"Pair\"), \
         field_name: ::core::convert::Into::into(\".0\") })?"
    );
    assert_eq!(
        second,
        "_1.ok_or(bevy_reflect::ApplyError::MissingEnumField { \
         variant_name: ::core::convert::Into::into(\"Pair\"), \
         field_name: ::core::convert::Into::into(\".1\") })?"
    );
    assert!(first.contains("\".0\""));
    assert!(!first.contains("\"0\""));
}

#[test]
fn pair_positional_access_uses_field_at() {
    let d = pair_descriptor();
    let out = TryApplyVariantBuilder::new(&d).build("this");
    assert!(out.variant_constructors[0].contains("this.field_at(0)"));
    assert!(out.variant_constructors[0].contains("this.field_at(1)"));
}

#[test]
fn decimal_rendering() {
    assert_eq!(usize_dec(0), "0");
    assert_eq!(usize_dec(7), "7");
    assert_eq!(usize_dec(10), "10");
    assert_eq!(usize_dec(905), "905");
    assert_eq!(usize_dec(123456789), "123456789");
}
