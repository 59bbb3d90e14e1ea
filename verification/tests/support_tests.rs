use vulkan_slang_renderer::BufferKind;
use vulkan_slang_renderer::game::{Label, MaxMSAASamples};
use vulkan_slang_renderer::generate::{StructDef, StructFieldDef, WireFormat};
use vulkan_slang_renderer::reflection::{ReflectedPipelineLayout, ReflectionJson};
use vulkan_slang_renderer::reflection::EntryPoint;
use vulkan_slang_renderer::renderer::{
    RawStorageBufferHandle, RawUniformBufferHandle, StorageBufferHandle, UniformBufferHandle,
};
use vulkan_slang_renderer::text::{
    join_strs, padding_field_name, padding_type_text, strip_suffix, u32_to_dec, usize_to_dec,
};

use std::marker::PhantomData;

#[test]
fn decimal_rendering() {
    assert_eq!(u32_to_dec(0).as_str(), "0");
    assert_eq!(u32_to_dec(7).as_str(), "7");
    assert_eq!(u32_to_dec(12345).as_str(), "12345");
    assert_eq!(u32_to_dec(4294967295).as_str(), "4294967295");
    assert_eq!(usize_to_dec(108).as_str(), "108");
}

#[test]
fn padding_names_and_types() {
    assert_eq!(padding_field_name(0).as_str(), "_padding_0");
    assert_eq!(padding_field_name(12).as_str(), "_padding_12");
    assert_eq!(padding_type_text(12).as_str(), "[u8; 12]");
    assert_eq!(padding_type_text(4).as_str(), "[u8; 4]");
}

#[test]
fn suffix_stripping() {
    assert_eq!(
        strip_suffix("koch_curve.shader.slang", ".shader.slang").as_deref(),
        Some("koch_curve")
    );
    assert!(strip_suffix("koch_curve.vert", ".shader.slang").is_none());
    assert_eq!(strip_suffix("abc", "abc").as_deref(), Some(""));
    assert!(strip_suffix("c", "abc").is_none());
}

#[test]
fn joining_strings() {
    let parts: Vec<&'static str> = vec!["Debug", "Clone", "Serialize"];
    assert_eq!(join_strs(&parts, ", ").as_str(), "Debug, Clone, Serialize");
    let one: Vec<&'static str> = vec!["Debug"];
    assert_eq!(join_strs(&one, ", ").as_str(), "Debug");
    let none: Vec<&'static str> = vec![];
    assert_eq!(join_strs(&none, ", ").as_str(), "");
}

#[test]
fn buffer_kind_annotations() {
    assert_eq!(BufferKind::Uniform.annotation(), "#[repr(C, align(16))]");
    assert_eq!(BufferKind::Storage.annotation(), "#[repr(C)]");
}

#[test]
fn wire_format_names() {
    assert_eq!(
        WireFormat::Float32x3.vk_format_name(),
        "ash::vk::Format::R32G32B32_SFLOAT"
    );
    assert_eq!(
        WireFormat::Float32x2.vk_format_name(),
        "ash::vk::Format::R32G32_SFLOAT"
    );
    assert_eq!(WireFormat::Uint32.vk_format_name(), "ash::vk::Format::R32_UINT");
}

#[test]
fn struct_def_lines() {
    let def = StructDef {
        type_ident: "Params".to_string(),
        fields: vec![StructFieldDef {
            field_name: "time".to_string(),
            type_text: "f32".to_string(),
        }],
        trait_derives: vec!["Debug", "Clone", "Serialize"],
        layout_kind: Some(BufferKind::Uniform),
        expected_size: Some(16),
    };
    assert_eq!(
        def.trait_derive_line().as_deref(),
        Some("#[derive(Debug, Clone, Serialize)]")
    );
    assert!(def.gpu_write());
    assert_eq!(def.repr(), Some("#[repr(C, align(16))]"));

    let host_only = StructDef {
        type_ident: "Resources<'a>".to_string(),
        fields: vec![],
        trait_derives: vec![],
        layout_kind: None,
        expected_size: None,
    };
    assert!(host_only.trait_derive_line().is_none());
    assert!(!host_only.gpu_write());
    assert!(host_only.repr().is_none());
}

#[test]
fn raw_handles_keep_their_identity() {
    let uniform: UniformBufferHandle<u32> = UniformBufferHandle {
        index: 3,
        _phantom_data: PhantomData,
    };
    assert_eq!(RawUniformBufferHandle::from_typed(&uniform).index, 3);
    let storage: StorageBufferHandle<u32> = StorageBufferHandle {
        index: 9,
        _phantom_data: PhantomData,
    };
    assert_eq!(RawStorageBufferHandle::from_typed(&storage).index, 9);
}

#[test]
fn reflection_layout_bindings_are_empty() {
    let m = ReflectionJson {
        source_file_name: "x.shader.slang".to_string(),
        vertex_entry_point: EntryPoint {
            entry_point_name: "vertexMain".to_string(),
            parameters: vec![],
        },
        fragment_entry_point: EntryPoint {
            entry_point_name: "fragmentMain".to_string(),
            parameters: vec![],
        },
        global_parameters: vec![],
        pipeline_layout: ReflectedPipelineLayout,
    };
    assert!(m.layout_bindings().is_empty());
}

#[test]
fn label_holds_its_text() {
    let mut label = Label::new("fps: 60".to_string());
    assert_eq!(label.render_text().as_str(), "fps: 60");
    label.set("fps: 30".to_string());
    assert_eq!(label.text.as_str(), "fps: 30");
}

#[test]
fn msaa_default_is_max8() {
    assert_eq!(MaxMSAASamples::default(), MaxMSAASamples::Max8);
}
