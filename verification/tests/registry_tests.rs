use vulkan_slang_renderer::BufferKind;
use vulkan_slang_renderer::layout::{FieldType, LayoutField, SynthesizedType};
use vulkan_slang_renderer::registry::TypeRegistry;
use vulkan_slang_renderer::layout::LayoutError;

fn sphere(radius_name: &str) -> SynthesizedType {
    SynthesizedType {
        type_ident: "Sphere".to_string(),
        kind: BufferKind::Storage,
        fields: vec![
            LayoutField::Real {
                name: "center".to_string(),
                ty: FieldType::Vec3,
                offset: 0,
                size: 12,
            },
            LayoutField::Real {
                name: radius_name.to_string(),
                ty: FieldType::F32,
                offset: 12,
                size: 4,
            },
        ],
        byte_alignment: 16,
        byte_size: 16,
    }
}

#[test]
fn registering_identical_type_twice_is_idempotent() {
    let mut registry = TypeRegistry::new();
    let first = registry.register_or_validate(sphere("radius")).unwrap();
    assert!(first);
    let second = registry.register_or_validate(sphere("radius")).unwrap();
    assert!(!second);
    assert_eq!(registry.entries().len(), 1);
}

#[test]
fn conflicting_redeclaration_is_fatal() {
    let mut registry = TypeRegistry::new();
    registry.register_or_validate(sphere("radius")).unwrap();
    let err = registry.register_or_validate(sphere("r")).unwrap_err();
    match err {
        LayoutError::TypeConflict { type_ident } => assert_eq!(type_ident.as_str(), "Sphere"),
        other => panic!("expected type conflict, got {other:?}"),
    }
    assert_eq!(registry.entries().len(), 1);
}

#[test]
fn types_with_different_names_coexist() {
    let mut registry = TypeRegistry::new();
    registry.register_or_validate(sphere("radius")).unwrap();
    let mut cube = sphere("radius");
    cube.type_ident = "Cube".to_string();
    assert!(registry.register_or_validate(cube).unwrap());
    assert_eq!(registry.entries().len(), 2);
    assert_eq!(registry.entries()[0].type_ident.as_str(), "Sphere");
    assert_eq!(registry.entries()[1].type_ident.as_str(), "Cube");
}
