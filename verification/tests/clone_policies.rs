use reflect_codegen::builder::Strategy;
use reflect_codegen::builder::access_field;
use reflect_codegen::builder::construct_field;
use reflect_codegen::builder::on_ignored_field;
use reflect_codegen::model::ClonePolicy;
use reflect_codegen::model::DefaultPolicy;
use reflect_codegen::model::EnumDescriptor;
use reflect_codegen::model::FieldDescriptor;
use reflect_codegen::model::VariantDescriptor;
use reflect_codegen::strategies::ReflectCloneVariantBuilder;

fn tree_field(ignore: bool, clone_policy: ClonePolicy, remote: Option<&str>) -> FieldDescriptor {
    FieldDescriptor {
        name: Some(String::from("data")),
        declaration_index: 0,
        reflection_index: if ignore { None } else { Some(0) },
        reflected_type: String::from("Payload"),
        ignore,
        default_policy: DefaultPolicy::Required,
        clone_policy,
        remote: remote.map(String::from),
    }
}

fn tree_descriptor(f: FieldDescriptor) -> EnumDescriptor {
    EnumDescriptor {
        type_path: String::from("Tree"),
        reflect_crate_path: String::from("bevy_reflect"),
        variants: vec![VariantDescriptor { name: String::from("Node"), fields: vec![f] }],
    }
}

#[test]
fn clone_access_always_reports_present() {
    let d = tree_descriptor(tree_field(false, ClonePolicy::Deep, None));
    let frag = access_field(Strategy::ReflectClone, "this", &d.variants[0].fields[0]);
    assert_eq!(frag, "::core::option::Option::Some(_data)");
}

#[test]
fn clone_deep_goes_through_reflective_clone() {
    let d = tree_descriptor(tree_field(false, ClonePolicy::Deep, None));
    let out = ReflectCloneVariantBuilder::new(&d).build("this");
    assert_eq!(
        out.variant_constructors[0],
        "Tree::Node { data: \
         <Payload as bevy_reflect::PartialReflect>::reflect_clone_and_take(_data)? }"
    );
}

#[test]
fn clone_custom_function_takes_the_value() {
    let d = tree_descriptor(tree_field(false, ClonePolicy::Func(String::from("clone_payload")), None));
    let frag = construct_field(Strategy::ReflectClone, &d, &d.variants[0].fields[0]);
    assert_eq!(frag, "clone_payload(_data)");
}

#[test]
fn clone_remote_field_unwraps_the_wrapper_first() {
    let d = tree_descriptor(tree_field(false, ClonePolicy::Native, Some("PayloadWrapper")));
    let frag = construct_field(Strategy::ReflectClone, &d, &d.variants[0].fields[0]);
    assert_eq!(
        frag,
        "::core::clone::Clone::clone(\
         <PayloadWrapper as bevy_reflect::ReflectRemote>::as_wrapper(_data))"
    );
}

#[test]
fn ignored_deep_field_is_not_cloneable() {
    let d = tree_descriptor(tree_field(true, ClonePolicy::Deep, None));
    let v = &d.variants[0];
    let frag = on_ignored_field(Strategy::ReflectClone, &d, v, &v.fields[0]);
    assert_eq!(
        frag,
        "return ::core::result::Result::Err(\
         bevy_reflect::ReflectCloneError::FieldNotCloneable { \
         field: bevy_reflect::FieldId::Named(\
         bevy_reflect::__macro_exports::alloc_utils::Cow::Borrowed(\"data\")), \
         variant: ::core::option::Option::Some(\
         bevy_reflect::__macro_exports::alloc_utils::Cow::Borrowed(\"Node\")), \
         container_type_path: bevy_reflect::__macro_exports::alloc_utils::Cow::Borrowed(\
         <Self as bevy_reflect::TypePath>::type_path()) })"
    );
    let out = ReflectCloneVariantBuilder::new(&d).build("this");
    assert!(out.variant_constructors[0].starts_with("Tree::Node { data: return "));
}

#[test]
fn ignored_unnamed_deep_field_uses_unnamed_field_id() {
    let mut f = tree_field(true, ClonePolicy::Deep, None);
    f.name = None;
    f.declaration_index = 4;
    let d = tree_descriptor(f);
    let v = &d.variants[0];
    let frag = on_ignored_field(Strategy::ReflectClone, &d, v, &v.fields[0]);
    assert!(frag.contains("field: bevy_reflect::FieldId::Unnamed(4)"));
}

#[test]
fn ignored_native_field_clones_the_alias() {
    let d = tree_descriptor(tree_field(true, ClonePolicy::Native, None));
    let v = &d.variants[0];
    let frag = on_ignored_field(Strategy::ReflectClone, &d, v, &v.fields[0]);
    assert_eq!(frag, "::core::clone::Clone::clone(_data)");
}

#[test]
fn ignored_custom_function_is_called_with_no_arguments() {
    let d = tree_descriptor(tree_field(true, ClonePolicy::Func(String::from("fresh_payload")), None));
    let v = &d.variants[0];
    let frag = on_ignored_field(Strategy::ReflectClone, &d, v, &v.fields[0]);
    assert_eq!(frag, "fresh_payload()");
}
