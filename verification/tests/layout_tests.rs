use vulkan_slang_renderer::BufferKind;
use vulkan_slang_renderer::layout::{FieldType, LayoutError, LayoutField, synthesize};
use vulkan_slang_renderer::reflection::{FieldBinding, ReflectedField, ScalarKind};

fn scalar(name: &str, kind: ScalarKind, offset: u32, size: u32) -> ReflectedField {
    ReflectedField::Scalar {
        name: name.to_string(),
        kind,
        binding: Some(FieldBinding { offset, size }),
    }
}

fn vector(name: &str, count: u32, offset: u32, size: u32) -> ReflectedField {
    ReflectedField::Vector {
        name: name.to_string(),
        element_kind: ScalarKind::Float32,
        element_count: count,
        binding: Some(FieldBinding { offset, size }),
    }
}

#[test]
fn scenario_uniform_block_trailing_padding() {
    // Uniform block {position: vec3, scale: f32}: no internal gap,
    // trailing padding to the next multiple of 16.
    let fields = vec![
        vector("position", 3, 0, 16),
        scalar("scale", ScalarKind::Float32, 16, 4),
    ];
    let (t, nested) = synthesize("Params", &fields, BufferKind::Uniform).unwrap();
    assert_eq!(t.byte_size, 32);
    assert_eq!(t.byte_alignment, 16);
    assert!(nested.is_empty());
    assert_eq!(t.fields.len(), 3);
    match &t.fields[0] {
        LayoutField::Real { name, ty, offset, size } => {
            assert_eq!(name.as_str(), "position");
            assert!(matches!(ty, FieldType::Vec3));
            assert_eq!((*offset, *size), (0, 16));
        }
        other => panic!("expected real field, got {other:?}"),
    }
    match &t.fields[1] {
        LayoutField::Real { name, size, .. } => {
            assert_eq!(name.as_str(), "scale");
            assert_eq!(*size, 4);
        }
        other => panic!("expected real field, got {other:?}"),
    }
    match &t.fields[2] {
        LayoutField::Padding { index, size } => {
            assert_eq!(*index, 0);
            assert_eq!(*size, 12);
        }
        other => panic!("expected padding, got {other:?}"),
    }
}

#[test]
fn scenario_storage_element_scalars() {
    // Storage element {a: f32, b: f32}: struct alignment 4, byte size
    // 8, no padding.
    let fields = vec![
        scalar("a", ScalarKind::Float32, 0, 4),
        scalar("b", ScalarKind::Float32, 4, 4),
    ];
    let (t, nested) = synthesize("Pair", &fields, BufferKind::Storage).unwrap();
    assert_eq!(t.byte_alignment, 4);
    assert_eq!(t.byte_size, 8);
    assert!(nested.is_empty());
    assert_eq!(t.fields.len(), 2);
    assert!(t
        .fields
        .iter()
        .all(|f| matches!(f, LayoutField::Real { .. })));
}

#[test]
fn internal_gap_synthesizes_one_padding_field() {
    // Fields reported at [0,4) then [16,20) get exactly one padding
    // field of 12 bytes between them.
    let fields = vec![
        scalar("a", ScalarKind::Float32, 0, 4),
        scalar("b", ScalarKind::Float32, 16, 4),
    ];
    let (t, _) = synthesize("Gapped", &fields, BufferKind::Storage).unwrap();
    assert_eq!(t.byte_alignment, 4);
    assert_eq!(t.byte_size, 20);
    assert_eq!(t.fields.len(), 3);
    match &t.fields[1] {
        LayoutField::Padding { index, size } => {
            assert_eq!(*index, 0);
            assert_eq!(*size, 12);
        }
        other => panic!("expected one padding field, got {other:?}"),
    }
    let pad_count = t
        .fields
        .iter()
        .filter(|f| matches!(f, LayoutField::Padding { .. }))
        .count();
    assert_eq!(pad_count, 1);
}

#[test]
fn three_vector_is_sixteen_byte_aligned() {
    // A 3-vector is never treated as a 12-byte field for alignment:
    // a storage struct holding one vec3 gets alignment 16, not 12.
    let fields = vec![
        vector("normal", 3, 0, 12),
        scalar("w", ScalarKind::Float32, 12, 4),
    ];
    let (t, _) = synthesize("V", &fields, BufferKind::Storage).unwrap();
    assert_eq!(t.byte_alignment, 16);
    assert_eq!(t.byte_size, 16);
}

#[test]
fn two_vector_aligns_to_eight() {
    let fields = vec![vector("uv", 2, 0, 8)];
    let (t, _) = synthesize("T", &fields, BufferKind::Storage).unwrap();
    assert_eq!(t.byte_alignment, 8);
    assert_eq!(t.byte_size, 8);
}

#[test]
fn uniform_size_is_multiple_of_sixteen() {
    let fields = vec![scalar("x", ScalarKind::Uint32, 0, 4)];
    let (t, _) = synthesize("U", &fields, BufferKind::Uniform).unwrap();
    assert_eq!(t.byte_alignment, 16);
    assert_eq!(t.byte_size, 16);
    assert_eq!(t.fields.len(), 2);
    match &t.fields[1] {
        LayoutField::Padding { index, size } => {
            assert_eq!(*index, 0);
            assert_eq!(*size, 12);
        }
        other => panic!("expected trailing padding, got {other:?}"),
    }
}

#[test]
fn field_names_are_snake_cased() {
    let fields = vec![vector("lightPosition", 3, 0, 16)];
    let (t, _) = synthesize("L", &fields, BufferKind::Uniform).unwrap();
    match &t.fields[0] {
        LayoutField::Real { name, .. } => assert_eq!(name.as_str(), "light_position"),
        other => panic!("expected real field, got {other:?}"),
    }
}

#[test]
fn missing_binding_is_fatal() {
    let fields = vec![ReflectedField::Scalar {
        name: "time".to_string(),
        kind: ScalarKind::Float32,
        binding: None,
    }];
    let err = synthesize("E", &fields, BufferKind::Uniform).unwrap_err();
    match err {
        LayoutError::MissingBinding { field_name } => assert_eq!(field_name.as_str(), "time"),
        other => panic!("expected missing binding, got {other:?}"),
    }
}

#[test]
fn semantic_vector_is_skipped() {
    let fields = vec![
        ReflectedField::Vector {
            name: "vertexIndex".to_string(),
            element_kind: ScalarKind::Uint32,
            element_count: 1,
            binding: None,
        },
        scalar("x", ScalarKind::Float32, 0, 4),
    ];
    let (t, _) = synthesize("S", &fields, BufferKind::Storage).unwrap();
    assert_eq!(t.fields.len(), 1);
    assert_eq!(t.byte_size, 4);
}

#[test]
fn unsupported_vector_shape_is_fatal() {
    let fields = vec![ReflectedField::Vector {
        name: "counts".to_string(),
        element_kind: ScalarKind::Uint32,
        element_count: 2,
        binding: Some(FieldBinding { offset: 0, size: 8 }),
    }];
    let err = synthesize("E", &fields, BufferKind::Uniform).unwrap_err();
    match err {
        LayoutError::UnsupportedShape { field_name } => assert_eq!(field_name.as_str(), "counts"),
        other => panic!("expected unsupported shape, got {other:?}"),
    }
}

#[test]
fn unsupported_matrix_shape_is_fatal() {
    let fields = vec![ReflectedField::Matrix {
        name: "proj".to_string(),
        element_kind: ScalarKind::Float32,
        rows: 4,
        cols: 3,
        binding: Some(FieldBinding { offset: 0, size: 48 }),
    }];
    let err = synthesize("E", &fields, BufferKind::Uniform).unwrap_err();
    assert!(matches!(err, LayoutError::UnsupportedShape { .. }));
}

#[test]
fn square_matrix_aligns_to_sixteen() {
    let fields = vec![ReflectedField::Matrix {
        name: "model".to_string(),
        element_kind: ScalarKind::Float32,
        rows: 4,
        cols: 4,
        binding: Some(FieldBinding { offset: 0, size: 64 }),
    }];
    let (t, _) = synthesize("M", &fields, BufferKind::Storage).unwrap();
    assert_eq!(t.byte_alignment, 16);
    assert_eq!(t.byte_size, 64);
    match &t.fields[0] {
        LayoutField::Real { ty, .. } => assert!(matches!(ty, FieldType::Mat4)),
        other => panic!("expected real field, got {other:?}"),
    }
}

#[test]
fn nested_struct_under_uniform_contributes_sixteen() {
    // The nested type is synthesized and collected; the parent places
    // the field by its reported binding, 16-byte aligned.
    let camera = ReflectedField::NestedStruct {
        name: "camera".to_string(),
        type_ident: "Camera".to_string(),
        fields: vec![
            ReflectedField::Matrix {
                name: "viewProj".to_string(),
                element_kind: ScalarKind::Float32,
                rows: 4,
                cols: 4,
                binding: Some(FieldBinding { offset: 0, size: 64 }),
            },
            vector("position", 3, 64, 16),
        ],
        binding: Some(FieldBinding { offset: 0, size: 80 }),
    };
    let fields = vec![camera, scalar("time", ScalarKind::Float32, 80, 4)];
    let (t, nested) = synthesize("Scene", &fields, BufferKind::Uniform).unwrap();
    assert_eq!(nested.len(), 1);
    assert_eq!(nested[0].type_ident.as_str(), "Camera");
    assert_eq!(nested[0].byte_alignment, 16);
    assert_eq!(nested[0].byte_size, 80);
    assert_eq!(t.byte_size, 96);
    match &t.fields[0] {
        LayoutField::Real { name, ty, .. } => {
            assert_eq!(name.as_str(), "camera");
            match ty {
                FieldType::Named(n) => assert_eq!(n.as_str(), "Camera"),
                other => panic!("expected named type, got {other:?}"),
            }
        }
        other => panic!("expected real field, got {other:?}"),
    }
}

#[test]
fn storage_nested_struct_contributes_its_own_alignment() {
    // A nested struct of scalars has alignment 4 under the Storage
    // rule, and contributes 4 (not 16) to its parent's maximum.
    let pair = ReflectedField::NestedStruct {
        name: "pair".to_string(),
        type_ident: "Pair".to_string(),
        fields: vec![
            scalar("a", ScalarKind::Float32, 0, 4),
            scalar("b", ScalarKind::Float32, 4, 4),
        ],
        binding: Some(FieldBinding { offset: 0, size: 8 }),
    };
    let fields = vec![pair, scalar("c", ScalarKind::Float32, 8, 4)];
    let (t, nested) = synthesize("Outer", &fields, BufferKind::Storage).unwrap();
    assert_eq!(nested[0].byte_alignment, 4);
    assert_eq!(t.byte_alignment, 4);
    assert_eq!(t.byte_size, 12);
}
