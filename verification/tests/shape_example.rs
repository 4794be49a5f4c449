use reflect_codegen::builder::Strategy;
use reflect_codegen::builder::construct_field;
use reflect_codegen::model::ClonePolicy;
use reflect_codegen::model::DefaultPolicy;
use reflect_codegen::model::EnumDescriptor;
use reflect_codegen::model::FieldDescriptor;
use reflect_codegen::model::VariantDescriptor;
use reflect_codegen::strategies::FromReflectVariantBuilder;
use reflect_codegen::strategies::ReflectCloneVariantBuilder;
use reflect_codegen::strategies::TryApplyVariantBuilder;

fn shape_radius_field(clone_policy: ClonePolicy) -> FieldDescriptor {
    FieldDescriptor {
        name: Some(String::from("radius")),
        declaration_index: 0,
        reflection_index: Some(0),
        reflected_type: String::from("f32"),
        ignore: false,
        default_policy: DefaultPolicy::Required,
        clone_policy,
        remote: None,
    }
}

fn shape_descriptor(clone_policy: ClonePolicy) -> EnumDescriptor {
    EnumDescriptor {
        type_path: String::from("Shape"),
        reflect_crate_path: String::from("bevy_reflect"),
        variants: vec![
            VariantDescriptor {
                name: String::from("Circle"),
                fields: vec![shape_radius_field(clone_policy)],
            },
            VariantDescriptor { name: String::from("Point"), fields: vec![] },
        ],
    }
}

#[test]
fn shape_names_and_patterns() {
    let d = shape_descriptor(ClonePolicy::Native);
    let out = FromReflectVariantBuilder::new(&d).build("this");
    assert_eq!(out.variant_names, vec!["Circle", "Point"]);
    assert_eq!(out.variant_patterns[0], "Shape::Circle { radius: _radius }");
    assert_eq!(out.variant_patterns[1], "Shape::Point {}");
}

#[test]
fn shape_same_pattern_under_every_strategy() {
    let d = shape_descriptor(ClonePolicy::Native);
    let a = FromReflectVariantBuilder::new(&d).build("this");
    let b = TryApplyVariantBuilder::new(&d).build("this");
    let c = ReflectCloneVariantBuilder::new(&d).build("this");
    assert_eq!(a.variant_patterns, b.variant_patterns);
    assert_eq!(b.variant_patterns, c.variant_patterns);
    assert_eq!(a.variant_names, c.variant_names);
}

#[test]
fn shape_output_lengths_match_variant_count() {
    let d = shape_descriptor(ClonePolicy::Native);
    for out in [
        FromReflectVariantBuilder::new(&d).build("this"),
        TryApplyVariantBuilder::new(&d).build("this"),
        ReflectCloneVariantBuilder::new(&d).build("this"),
    ] {
        assert_eq!(out.variant_names.len(), 2);
        assert_eq!(out.variant_patterns.len(), 2);
        assert_eq!(out.variant_constructors.len(), 2);
    }
}

#[test]
fn shape_reconstruction_propagates_absence() {
    let d = shape_descriptor(ClonePolicy::Native);
    let out = FromReflectVariantBuilder::new(&d).build("this");
    assert_eq!(
        out.variant_constructors[0],
        "Shape::Circle { radius: { let _radius = this.field(\"radius\"); \
         let _radius = _radius?; \
         <f32 as bevy_reflect::FromReflect>::from_reflect(_radius)? } }"
    );
    assert_eq!(out.variant_constructors[1], "Shape::Point {}");
}

#[test]
fn shape_clone_native_uses_intrinsic_clone() {
    let d = shape_descriptor(ClonePolicy::Native);
    let frag = construct_field(Strategy::ReflectClone, &d, &d.variants[0].fields[0]);
    assert_eq!(frag, "::core::clone::Clone::clone(_radius)");
    let out = ReflectCloneVariantBuilder::new(&d).build("this");
    assert_eq!(
        out.variant_constructors[0],
        "Shape::Circle { radius: ::core::clone::Clone::clone(_radius) }"
    );
}

#[test]
fn shape_builders_expose_their_descriptor() {
    let d = shape_descriptor(ClonePolicy::Native);
    assert_eq!(FromReflectVariantBuilder::new(&d).reflect_enum().type_path, "Shape");
    assert_eq!(TryApplyVariantBuilder::new(&d).reflect_enum().variants.len(), 2);
    assert_eq!(
        ReflectCloneVariantBuilder::new(&d).reflect_enum().reflect_crate_path,
        "bevy_reflect"
    );
}
