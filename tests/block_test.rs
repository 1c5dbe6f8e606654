use std140::block::{
    expand_repr_std140, has_other_repr, repr_std140, FieldDecl, ItemKind, ReprError, StructDecl,
};
use std140::layout::{ScalarKind, Std140Type};
use std140::matrix::mat4x4;
use std140::scalar::float;
use std140::vector::vec3;
use std140::ReprStd140;

fn field(name: &str, ty: Option<Std140Type>) -> FieldDecl {
    FieldDecl { name: name.to_string(), ty }
}

fn point_light(kind: ItemKind, attributes: Vec<String>) -> StructDecl {
    StructDecl {
        name: "PointLight".to_string(),
        kind,
        attributes,
        fields: vec![
            field("position", Some(vec3::layout())),
            field("intensity", Some(float::layout())),
        ],
    }
}

#[test]
fn catalog_fields_are_accepted() {
    let block = expand_repr_std140(point_light(ItemKind::Struct, vec!["derive".to_string()])).unwrap();
    assert_eq!(block.name, "PointLight");
    assert_eq!(block.field_names, vec!["position".to_string(), "intensity".to_string()]);
    assert_eq!(block.attributes, vec!["repr".to_string(), "derive".to_string()]);
    assert_eq!(block.offsets(), vec![0, 12]);
    assert_eq!(block.size(), 16);
}

#[test]
fn field_without_layout_is_rejected_by_name() {
    let decl = StructDecl {
        name: "PointLight".to_string(),
        kind: ItemKind::Struct,
        attributes: vec![],
        fields: vec![
            field("position", None),
            field("intensity", Some(float::layout())),
            field("label", None),
        ],
    };
    match expand_repr_std140(decl) {
        Err(ReprError::FieldNotStd140(name)) => assert_eq!(name, "position"),
        other => panic!("unexpected result {:?}", other),
    }
}

#[test]
fn later_field_without_layout_is_rejected() {
    let decl = StructDecl {
        name: "Light".to_string(),
        kind: ItemKind::Struct,
        attributes: vec![],
        fields: vec![field("intensity", Some(float::layout())), field("label", None)],
    };
    let err = expand_repr_std140(decl).unwrap_err();
    assert_eq!(
        err.message(),
        "The type of field `label` does not implement ReprStd140: it is not layout-compatible with std140."
    );
}

#[test]
fn enums_and_unions_are_rejected() {
    for kind in [ItemKind::Enum, ItemKind::Union] {
        let err = expand_repr_std140(point_light(kind, vec![])).unwrap_err();
        assert!(matches!(err, ReprError::NotAStruct));
        assert_eq!(err.message(), "Cannot represent an enum or union as std140, only a struct.");
    }
}

#[test]
fn enum_is_rejected_before_its_repr() {
    let err = expand_repr_std140(point_light(ItemKind::Enum, vec!["repr".to_string()])).unwrap_err();
    assert!(matches!(err, ReprError::NotAStruct));
}

#[test]
fn other_repr_is_rejected() {
    let err = expand_repr_std140(point_light(
        ItemKind::Struct,
        vec!["derive".to_string(), "repr".to_string()],
    ))
    .unwrap_err();
    assert!(matches!(err, ReprError::OtherRepr));
    assert_eq!(
        err.message(),
        "Cannot parse another #[repr] attribute on a struct marked with #[repr_std140]"
    );
}

#[test]
fn repr_attribute_detection() {
    assert!(!has_other_repr(&vec![]));
    assert!(!has_other_repr(&vec!["derive".to_string(), "reprs".to_string()]));
    assert!(has_other_repr(&vec!["doc".to_string(), "repr".to_string()]));
}

#[test]
fn validating_twice_fails() {
    let block = expand_repr_std140(point_light(ItemKind::Struct, vec![])).unwrap();
    let again = block.into_declaration();
    assert_eq!(again.attributes, vec!["repr".to_string()]);
    assert!(matches!(expand_repr_std140(again), Err(ReprError::OtherRepr)));
}

#[test]
fn validated_block_nests_in_another_block() {
    let light = expand_repr_std140(point_light(ItemKind::Struct, vec![])).unwrap().into_layout();
    let lights = Std140Type::Array(Box::new(light), 2);
    assert_eq!(lights.size(), 32);
    let uniforms = StructDecl {
        name: "Uniforms".to_string(),
        kind: ItemKind::Struct,
        attributes: vec![],
        fields: vec![
            field("transform", Some(mat4x4::layout())),
            field("ambient_light_color", Some(vec3::layout())),
            field("lights", Some(lights)),
        ],
    };
    let block = expand_repr_std140(uniforms).unwrap();
    assert_eq!(block.offsets(), vec![0, 64, 80]);
    assert_eq!(block.size(), 112);
}

#[test]
fn empty_struct_is_accepted() {
    let decl = StructDecl {
        name: "Empty".to_string(),
        kind: ItemKind::Struct,
        attributes: vec![],
        fields: vec![],
    };
    let block = expand_repr_std140(decl).unwrap();
    assert_eq!(block.size(), 0);
    assert_eq!(block.offsets(), Vec::<usize>::new());
}

#[test]
fn attribute_entry_point() {
    let ok = repr_std140(&vec![], point_light(ItemKind::Struct, vec![])).unwrap();
    assert_eq!(ok.size(), 16);
    let decl = StructDecl {
        name: "Bad".to_string(),
        kind: ItemKind::Struct,
        attributes: vec![],
        fields: vec![field("scale", Some(Std140Type::Scalar(ScalarKind::Float))), field("name", None)],
    };
    assert_eq!(
        repr_std140(&vec![], decl).unwrap_err(),
        "The type of field `name` does not implement ReprStd140: it is not layout-compatible with std140."
    );
}
