use reflect_codegen::builder::Strategy;
use reflect_codegen::builder::construct_field;
use reflect_codegen::builder::unwrap_field;
use reflect_codegen::model::ClonePolicy;
use reflect_codegen::model::DefaultPolicy;
use reflect_codegen::model::EnumDescriptor;
use reflect_codegen::model::FieldDescriptor;
use reflect_codegen::model::VariantDescriptor;

fn record_field(name: Option<&str>, index: usize, ty: &str) -> FieldDescriptor {
    FieldDescriptor {
        name: name.map(String::from),
        declaration_index: index,
        reflection_index: Some(index),
        reflected_type: String::from(ty),
        ignore: false,
        default_policy: DefaultPolicy::Required,
        clone_policy: ClonePolicy::Native,
        remote: None,
    }
}

fn record_descriptor() -> EnumDescriptor {
    EnumDescriptor {
        type_path: String::from("Record"),
        reflect_crate_path: String::from("bevy_reflect"),
        variants: vec![VariantDescriptor {
            name: String::from("Entry"),
            fields: vec![
                record_field(None, 0, "u8"),
                record_field(None, 1, "u16"),
                record_field(None, 2, "u32"),
                record_field(Some("label"), 3, "String"),
            ],
        }],
    }
}

#[test]
fn missing_field_error_carries_variant_and_positional_identifier() {
    let d = record_descriptor();
    let v = &d.variants[0];
    let third = unwrap_field(Strategy::TryApply, &d, v, &v.fields[2]);
    assert_eq!(
        third,
        "_2.ok_or(bevy_reflect::ApplyError::MissingEnumField { \
         variant_name: ::core::convert::Into::into(\"Entry\"), \
         field_name: ::core::convert::Into::into(\".2\") })?"
    );
}

#[test]
fn missing_field_error_carries_named_identifier() {
    let d = record_descriptor();
    let v = &d.variants[0];
    let named = unwrap_field(Strategy::TryApply, &d, v, &v.fields[3]);
    assert_eq!(
        named,
        "_label.ok_or(bevy_reflect::ApplyError::MissingEnumField { \
         variant_name: ::core::convert::Into::into(\"Entry\"), \
         field_name: ::core::convert::Into::into(\"label\") })?"
    );
}

#[test]
fn mismatched_types_error_carries_both_type_paths() {
    let d = record_descriptor();
    let v = &d.variants[0];
    let frag = construct_field(Strategy::TryApply, &d, &v.fields[3]);
    assert_eq!(
        frag,
        "<String as bevy_reflect::FromReflect>::from_reflect(_label)\
         .ok_or(bevy_reflect::ApplyError::MismatchedTypes { \
         from_type: ::core::convert::Into::into(\
         bevy_reflect::DynamicTypePath::reflect_type_path(_label)), \
         to_type: ::core::convert::Into::into(\
         <String as bevy_reflect::TypePath>::type_path()) })?"
    );
    assert!(frag.contains("reflect_type_path(_label)"));
    assert!(frag.contains("<String as bevy_reflect::TypePath>::type_path()"));
}
