use vulkan_slang_renderer::BufferKind;
use vulkan_slang_renderer::generate::{
    DrawKind, RequiredResourceKind, ShaderModule, WireFormat, add_top_level_rust_modules,
    build_shader_module, required_resource, resource_type_name,
};
use vulkan_slang_renderer::layout::LayoutError;
use vulkan_slang_renderer::reflection::{
    EntryPoint, EntryPointParameter, FieldBinding, GlobalParameter, NamedStructType,
    ParameterBlock, ReflectedField, ReflectedPipelineLayout, ReflectionJson, ResourceResult,
    ResourceShape, ScalarKind, check_well_formed,
};
use vulkan_slang_renderer::registry::TypeRegistry;

fn vector(name: &str, count: u32, offset: u32, size: u32) -> ReflectedField {
    ReflectedField::Vector {
        name: name.to_string(),
        element_kind: ScalarKind::Float32,
        element_count: count,
        binding: Some(FieldBinding { offset, size }),
    }
}

fn scalar(name: &str, kind: ScalarKind, offset: u32, size: u32) -> ReflectedField {
    ReflectedField::Scalar {
        name: name.to_string(),
        kind,
        binding: Some(FieldBinding { offset, size }),
    }
}

fn entry_point(name: &str, parameters: Vec<EntryPointParameter>) -> EntryPoint {
    EntryPoint {
        entry_point_name: name.to_string(),
        parameters,
    }
}

fn reflection(
    source: &str,
    vertex_params: Vec<EntryPointParameter>,
    blocks: Vec<GlobalParameter>,
) -> ReflectionJson {
    ReflectionJson {
        source_file_name: source.to_string(),
        vertex_entry_point: entry_point("vertexMain", vertex_params),
        fragment_entry_point: entry_point("fragmentMain", vec![]),
        global_parameters: blocks,
        pipeline_layout: ReflectedPipelineLayout,
    }
}

fn sphere_block(param_name: &str, block_type: &str) -> GlobalParameter {
    let sphere = ReflectedField::NestedStruct {
        name: "sphere".to_string(),
        type_ident: "Sphere".to_string(),
        fields: vec![
            vector("center", 3, 0, 12),
            scalar("radius", ScalarKind::Float32, 12, 4),
        ],
        binding: Some(FieldBinding { offset: 0, size: 16 }),
    };
    GlobalParameter::ParameterBlock(ParameterBlock {
        parameter_name: param_name.to_string(),
        element_type: NamedStructType {
            type_ident: block_type.to_string(),
            fields: vec![sphere],
        },
    })
}

fn build(m: &ReflectionJson, registry: &mut TypeRegistry) -> Result<ShaderModule, LayoutError> {
    assert!(check_well_formed(m));
    build_shader_module(m, registry)
}

#[test]
fn scenario_procedural_shader_needs_vertex_count_only() {
    // A vertex entry point with no struct parameter: the manifest
    // holds a single vertex-count parameter and the draw-call kind is
    // vertex-count.
    let m = reflection(
        "fullscreen.shader.slang",
        vec![EntryPointParameter::SemanticScalar {
            name: "vertexIndex".to_string(),
        }],
        vec![],
    );
    let mut registry = TypeRegistry::new();
    let module = build(&m, &mut registry).unwrap();
    assert_eq!(module.draw_kind, DrawKind::VertexCount);
    assert_eq!(module.required_resources.len(), 1);
    assert_eq!(module.required_resources[0].field_name.as_str(), "vertex_count");
    assert!(matches!(
        module.required_resources[0].kind,
        RequiredResourceKind::VertexCountParameter
    ));
    assert!(module.vertex_type_ident.is_none());
    assert!(module.vertex_impl_blocks.is_empty());
    assert_eq!(module.shader_name.as_str(), "fullscreen");
    assert_eq!(
        module.module_doc_line.as_str(),
        "generated from slang shader: fullscreen.shader.slang"
    );
    // Only the Resources struct is declared.
    assert_eq!(module.struct_defs.len(), 1);
    assert_eq!(module.struct_defs[0].type_ident.as_str(), "Resources<'a>");
    assert_eq!(module.struct_defs[0].fields[0].type_text.as_str(), "u32");
}

#[test]
fn scenario_same_type_in_two_shaders_is_defined_once() {
    // Two shaders each declare a "Sphere" record with the same
    // layout: the registry accepts both and the second module does
    // not re-declare Sphere.
    let m1 = reflection("one.shader.slang", vec![], vec![sphere_block("params", "ParamsOne")]);
    let m2 = reflection("two.shader.slang", vec![], vec![sphere_block("params", "ParamsTwo")]);
    let mut registry = TypeRegistry::new();
    let module1 = build(&m1, &mut registry).unwrap();
    let module2 = build(&m2, &mut registry).unwrap();
    let names1: Vec<&str> = module1.struct_defs.iter().map(|d| d.type_ident.as_str()).collect();
    let names2: Vec<&str> = module2.struct_defs.iter().map(|d| d.type_ident.as_str()).collect();
    assert!(names1.contains(&"Sphere"));
    assert!(!names2.contains(&"Sphere"));
    assert!(names2.contains(&"ParamsTwo"));
    let sphere_count = registry
        .entries()
        .iter()
        .filter(|t| t.type_ident.as_str() == "Sphere")
        .count();
    assert_eq!(sphere_count, 1);
}

#[test]
fn rebuilding_the_same_shader_never_errors_or_duplicates() {
    let m = reflection("one.shader.slang", vec![], vec![sphere_block("params", "Params")]);
    let mut registry = TypeRegistry::new();
    let first = build(&m, &mut registry).unwrap();
    let names1: Vec<&str> = first.struct_defs.iter().map(|d| d.type_ident.as_str()).collect();
    assert_eq!(names1, vec!["Params", "Sphere", "Resources<'a>"]);
    let second = build(&m, &mut registry).unwrap();
    // Nothing is newly registered, so only the Resources struct is
    // declared again, and the registry has not grown.
    let names2: Vec<&str> = second.struct_defs.iter().map(|d| d.type_ident.as_str()).collect();
    assert_eq!(names2, vec!["Resources<'a>"]);
    assert_eq!(registry.entries().len(), 2);
}

#[test]
fn conflicting_sphere_declarations_abort_the_build() {
    let m1 = reflection("one.shader.slang", vec![], vec![sphere_block("params", "ParamsOne")]);
    let mut m2 = reflection("two.shader.slang", vec![], vec![]);
    // Same name, different field layout.
    let other_sphere = ReflectedField::NestedStruct {
        name: "sphere".to_string(),
        type_ident: "Sphere".to_string(),
        fields: vec![
            vector("middle", 3, 0, 12),
            scalar("radius", ScalarKind::Float32, 12, 4),
        ],
        binding: Some(FieldBinding { offset: 0, size: 16 }),
    };
    m2.global_parameters = vec![GlobalParameter::ParameterBlock(ParameterBlock {
        parameter_name: "params".to_string(),
        element_type: NamedStructType {
            type_ident: "ParamsTwo".to_string(),
            fields: vec![other_sphere],
        },
    })];
    let mut registry = TypeRegistry::new();
    build(&m1, &mut registry).unwrap();
    let err = build(&m2, &mut registry).unwrap_err();
    match err {
        LayoutError::TypeConflict { type_ident } => assert_eq!(type_ident.as_str(), "Sphere"),
        other => panic!("expected type conflict, got {other:?}"),
    }
}

#[test]
fn vertex_struct_drives_indexed_drawing() {
    let vertex = EntryPointParameter::Struct(NamedStructType {
        type_ident: "Vertex".to_string(),
        fields: vec![
            vector("position", 3, 0, 12),
            vector("uv", 2, 16, 8),
            scalar("objectId", ScalarKind::Uint32, 24, 4),
        ],
    });
    let m = reflection("mesh.shader.slang", vec![vertex], vec![]);
    let mut registry = TypeRegistry::new();
    let module = build(&m, &mut registry).unwrap();
    assert_eq!(module.draw_kind, DrawKind::Indexed);
    assert_eq!(module.vertex_type_ident.as_deref(), Some("Vertex"));
    assert_eq!(module.required_resources.len(), 2);
    assert_eq!(module.required_resources[0].field_name.as_str(), "vertices");
    assert!(matches!(
        module.required_resources[0].kind,
        RequiredResourceKind::VertexBuffer
    ));
    assert_eq!(module.required_resources[1].field_name.as_str(), "indices");
    assert!(matches!(
        module.required_resources[1].kind,
        RequiredResourceKind::IndexBuffer
    ));
    assert_eq!(module.vertex_impl_blocks.len(), 1);
    let block = &module.vertex_impl_blocks[0];
    assert_eq!(block.type_ident.as_str(), "Vertex");
    let attrs = &block.attribute_descriptions;
    assert_eq!(attrs.len(), 3);
    assert_eq!(attrs[0].field_name.as_str(), "position");
    assert_eq!(attrs[0].format, WireFormat::Float32x3);
    assert_eq!(attrs[0].location, 0);
    assert_eq!(attrs[1].field_name.as_str(), "uv");
    assert_eq!(attrs[1].format, WireFormat::Float32x2);
    assert_eq!(attrs[1].location, 1);
    assert_eq!(attrs[2].field_name.as_str(), "object_id");
    assert_eq!(attrs[2].format, WireFormat::Uint32);
    assert_eq!(attrs[2].location, 2);
    // Resources struct field types carry the vertex type.
    let resources_def = module.struct_defs.last().unwrap();
    assert_eq!(resources_def.fields[0].type_text.as_str(), "Vec<Vertex>");
    assert_eq!(resources_def.fields[1].type_text.as_str(), "Vec<u32>");
}

#[test]
fn vertex_field_without_wire_format_is_fatal() {
    let vertex = EntryPointParameter::Struct(NamedStructType {
        type_ident: "Vertex".to_string(),
        fields: vec![scalar("weight", ScalarKind::Float32, 0, 4)],
    });
    let m = reflection("bad.shader.slang", vec![vertex], vec![]);
    let mut registry = TypeRegistry::new();
    let err = build(&m, &mut registry).unwrap_err();
    match err {
        LayoutError::UnsupportedShape { field_name } => {
            assert_eq!(field_name.as_str(), "weight")
        }
        other => panic!("expected unsupported shape, got {other:?}"),
    }
}

#[test]
fn bound_scalar_entry_point_parameter_is_fatal() {
    let m = reflection(
        "bad.shader.slang",
        vec![EntryPointParameter::BoundScalar {
            name: "time".to_string(),
        }],
        vec![],
    );
    let mut registry = TypeRegistry::new();
    let err = build(&m, &mut registry).unwrap_err();
    assert!(matches!(err, LayoutError::UnsupportedShape { .. }));
}

#[test]
fn parameter_block_resources_in_binding_order() {
    // The block's uniform buffer comes first, then its resource
    // fields in declaration order.
    let fields = vec![
        vector("tint", 4, 0, 16),
        ReflectedField::Resource {
            name: "cubeMap".to_string(),
            shape: ResourceShape::Texture2D,
            result: ResourceResult::Vector {
                element_kind: ScalarKind::Float32,
                element_count: 4,
            },
        },
        ReflectedField::Resource {
            name: "weights".to_string(),
            shape: ResourceShape::StructuredBuffer,
            result: ResourceResult::Vector {
                element_kind: ScalarKind::Float32,
                element_count: 1,
            },
        },
    ];
    let block = GlobalParameter::ParameterBlock(ParameterBlock {
        parameter_name: "SceneParams".to_string(),
        element_type: NamedStructType {
            type_ident: "Scene".to_string(),
            fields,
        },
    });
    let m = reflection("scene.shader.slang", vec![], vec![block]);
    let mut registry = TypeRegistry::new();
    let module = build(&m, &mut registry).unwrap();
    let entries = &module.required_resources;
    assert_eq!(entries.len(), 4);
    assert_eq!(entries[0].field_name.as_str(), "vertex_count");
    assert_eq!(entries[1].field_name.as_str(), "scene_params_buffer");
    match &entries[1].kind {
        RequiredResourceKind::UniformBuffer(t) => assert_eq!(t.as_str(), "Scene"),
        other => panic!("expected uniform buffer, got {other:?}"),
    }
    assert_eq!(entries[2].field_name.as_str(), "cube_map");
    assert!(matches!(entries[2].kind, RequiredResourceKind::Texture));
    assert_eq!(entries[3].field_name.as_str(), "weights");
    match &entries[3].kind {
        RequiredResourceKind::StorageBuffer(t) => assert_eq!(t.as_str(), "Vec<f32>"),
        other => panic!("expected storage buffer, got {other:?}"),
    }
    assert_eq!(module.resources_texture_fields.len(), 1);
    assert_eq!(module.resources_texture_fields[0].as_str(), "cube_map");
    assert_eq!(module.resources_uniform_buffer_fields.len(), 1);
    assert_eq!(
        module.resources_uniform_buffer_fields[0].as_str(),
        "scene_params_buffer"
    );
    assert_eq!(module.resources_storage_buffer_fields.len(), 1);
    assert_eq!(module.resources_storage_buffer_fields[0].as_str(), "weights");
    // Resources struct field types.
    let resources_def = module.struct_defs.last().unwrap();
    assert_eq!(
        resources_def.fields[1].type_text.as_str(),
        "&'a UniformBufferHandle<Scene>"
    );
    assert_eq!(
        resources_def.fields[2].type_text.as_str(),
        "&'a TextureHandle"
    );
    assert_eq!(
        resources_def.fields[3].type_text.as_str(),
        "&'a StorageBufferHandle<Vec<f32>>"
    );
}

#[test]
fn storage_buffer_element_struct_is_synthesized_under_storage_rule() {
    let block = GlobalParameter::ParameterBlock(ParameterBlock {
        parameter_name: "params".to_string(),
        element_type: NamedStructType {
            type_ident: "Params".to_string(),
            fields: vec![ReflectedField::Resource {
                name: "spheres".to_string(),
                shape: ResourceShape::StructuredBuffer,
                result: ResourceResult::Struct(NamedStructType {
                    type_ident: "Sphere".to_string(),
                    fields: vec![
                        vector("center", 3, 0, 12),
                        scalar("radius", ScalarKind::Float32, 12, 4),
                    ],
                }),
            }],
        },
    });
    let m = reflection("spheres.shader.slang", vec![], vec![block]);
    let mut registry = TypeRegistry::new();
    let module = build(&m, &mut registry).unwrap();
    let sphere = registry
        .entries()
        .iter()
        .find(|t| t.type_ident.as_str() == "Sphere")
        .unwrap();
    assert_eq!(sphere.kind, BufferKind::Storage);
    assert_eq!(sphere.byte_alignment, 16);
    assert_eq!(sphere.byte_size, 16);
    // Struct declarations come out parent-first: Params, Sphere, Resources.
    let names: Vec<&str> = module.struct_defs.iter().map(|d| d.type_ident.as_str()).collect();
    assert_eq!(names, vec!["Params", "Sphere", "Resources<'a>"]);
    // The manifest names the element type.
    match &module.required_resources[2].kind {
        RequiredResourceKind::StorageBuffer(t) => assert_eq!(t.as_str(), "Sphere"),
        other => panic!("expected storage buffer, got {other:?}"),
    }
}

#[test]
fn required_resource_maps_resource_fields_only() {
    let texture = ReflectedField::Resource {
        name: "colorMap".to_string(),
        shape: ResourceShape::Texture2D,
        result: ResourceResult::Vector {
            element_kind: ScalarKind::Float32,
            element_count: 4,
        },
    };
    let entry = required_resource(&texture).unwrap();
    assert_eq!(entry.field_name.as_str(), "color_map");
    assert!(matches!(entry.kind, RequiredResourceKind::Texture));
    let plain = scalar("x", ScalarKind::Float32, 0, 4);
    assert!(required_resource(&plain).is_none());
}

#[test]
fn resource_type_name_of_vector_elements() {
    let floats = ResourceResult::Vector {
        element_kind: ScalarKind::Float32,
        element_count: 1,
    };
    assert_eq!(resource_type_name(&floats).as_str(), "Vec<f32>");
    let uints = ResourceResult::Vector {
        element_kind: ScalarKind::Uint32,
        element_count: 1,
    };
    assert_eq!(resource_type_name(&uints).as_str(), "Vec<u32>");
}

#[test]
fn malformed_bindings_are_rejected_by_the_checker() {
    // Overlapping bindings: the second field starts before the first
    // ends.
    let m = reflection(
        "bad.shader.slang",
        vec![],
        vec![GlobalParameter::ParameterBlock(ParameterBlock {
            parameter_name: "params".to_string(),
            element_type: NamedStructType {
                type_ident: "Params".to_string(),
                fields: vec![
                    scalar("a", ScalarKind::Float32, 0, 8),
                    scalar("b", ScalarKind::Float32, 4, 4),
                ],
            },
        })],
    );
    assert!(!check_well_formed(&m));
    let good = reflection("good.shader.slang", vec![], vec![]);
    assert!(check_well_formed(&good));
}

#[test]
fn shader_name_without_suffix_stays_unchanged() {
    let m = reflection("plain_name", vec![], vec![]);
    let mut registry = TypeRegistry::new();
    let module = build(&m, &mut registry).unwrap();
    assert_eq!(module.shader_name.as_str(), "plain_name");
}

#[test]
fn atlas_module_lists_shaders_in_discovery_order() {
    let names = vec![
        "koch_curve.shader.slang".to_string(),
        "sdf_2d.shader.slang".to_string(),
    ];
    let atlas = add_top_level_rust_modules(&names);
    assert_eq!(atlas.module_names.len(), 2);
    assert_eq!(atlas.module_names[0].as_str(), "koch_curve");
    assert_eq!(atlas.module_names[1].as_str(), "sdf_2d");
    assert_eq!(atlas.entries[0].0.as_str(), "koch_curve");
    assert_eq!(atlas.entries[0].1.as_str(), "koch_curve::");
    assert_eq!(atlas.entries[1].1.as_str(), "sdf_2d::");
}
