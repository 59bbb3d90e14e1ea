//! From synthesized layouts to generated-module descriptions: host
//! struct definitions with explicit padding fields, vertex attribute
//! descriptions, and the ordered manifest of external resources a
//! caller must bind.
//!
//! Everything here is a pure function from synthesized values to
//! description values; rendering those descriptions as source text is
//! a separate concern.

use vstd::prelude::*;
use vstd::string::StringExecFns;

use crate::BufferKind;
use crate::layout::FieldType;
use crate::layout::FieldTypeModel;
use crate::layout::LayoutError;
use crate::layout::LayoutErrorModel;
use crate::layout::LayoutField;
use crate::layout::LayoutFieldModel;
use crate::layout::SynthesizedType;
use crate::layout::TypeModel;
use crate::reflection::EntryPointParameter;
use crate::reflection::GlobalParameter;
use crate::reflection::ReflectionJson;
use crate::reflection::ReflectedField;
use crate::registry::TypeRegistry;
use crate::reflection::ResourceResult;
use crate::reflection::ResourceShape;
use crate::reflection::ScalarKind;
use crate::text::join_with;
use crate::text::join_strs;
use crate::text::padding_name_of;
use crate::text::padding_field_name;
use crate::text::padding_type_text_of;
use crate::text::padding_type_text;
use crate::text::snake_case_of;
use crate::text::to_snake_case;

verus! {

/// Configuration of one build invocation.
#[derive(Debug, Clone)]
pub struct Config {
    /// Whether to write generated host source (or only compiled
    /// shader output).
    pub generate_rust_source: bool,
    /// The directory to write the generated module tree into.
    pub rust_source_dir: String,
    /// The directory to read shader sources from.
    pub shaders_source_dir: String,
    /// The directory to write compiled shader output to.
    pub compiled_shaders_dir: String,
}

/// The wire format of one vertex attribute.
#[derive(Debug, Clone, Copy, PartialEq, Eq, Structural)]
pub enum WireFormat {
    Float32x3,
    Float32x2,
    Uint32,
}

impl WireFormat {
    /// The name of the graphics API format constant this wire format
    /// is emitted as.
    pub fn vk_format_name(&self) -> (r: &'static str)
        ensures
            *self is Float32x3 ==> r@ == "ash::vk::Format::R32G32B32_SFLOAT"@,
            *self is Float32x2 ==> r@ == "ash::vk::Format::R32G32_SFLOAT"@,
            *self is Uint32 ==> r@ == "ash::vk::Format::R32_UINT"@,
    {
        match self {
            WireFormat::Float32x3 => "ash::vk::Format::R32G32B32_SFLOAT",
            WireFormat::Float32x2 => "ash::vk::Format::R32G32_SFLOAT",
            WireFormat::Uint32 => "ash::vk::Format::R32_UINT",
        }
    }
}

/// One vertex attribute of an index-buffer-driven shader.
#[derive(Debug)]
pub struct VertexAttributeDescription {
    pub field_name: String,
    pub format: WireFormat,
    pub location: usize,
}

/// Mathematical model of a [`VertexAttributeDescription`].
pub struct VertexAttributeModel {
    pub field_name: Seq<char>,
    pub format: WireFormat,
    pub location: int,
}

impl View for VertexAttributeDescription {
    type V = VertexAttributeModel;

    open spec fn view(&self) -> VertexAttributeModel {
        VertexAttributeModel {
            field_name: self.field_name@,
            format: self.format,
            location: self.location as int,
        }
    }
}

/// The vertex-description block generated for one per-vertex struct.
#[derive(Debug)]
pub struct VertexImplBlock {
    pub type_ident: String,
    pub attribute_descriptions: Vec<VertexAttributeDescription>,
}

/// Mathematical model of a [`VertexImplBlock`].
#[verifier::ext_equal]
pub struct VertexBlockModel {
    pub type_ident: Seq<char>,
    pub attribute_descriptions: Seq<VertexAttributeModel>,
}

impl View for VertexImplBlock {
    type V = VertexBlockModel;

    open spec fn view(&self) -> VertexBlockModel {
        VertexBlockModel {
            type_ident: self.type_ident@,
            attribute_descriptions: self.attribute_descriptions@.map_values(
                |a: VertexAttributeDescription| a@,
            ),
        }
    }
}

/// The kind of one external resource a caller must supply, in binding
/// order.  Buffer kinds carry the name of their element type.
#[derive(Debug)]
pub enum RequiredResourceKind {
    VertexBuffer,
    IndexBuffer,
    VertexCountParameter,
    Texture,
    UniformBuffer(String),
    StorageBuffer(String),
}

/// Mathematical model of a [`RequiredResourceKind`].
pub enum ResourceKindModel {
    VertexBuffer,
    IndexBuffer,
    VertexCountParameter,
    Texture,
    UniformBuffer(Seq<char>),
    StorageBuffer(Seq<char>),
}

impl View for RequiredResourceKind {
    type V = ResourceKindModel;

    open spec fn view(&self) -> ResourceKindModel {
        match self {
            RequiredResourceKind::VertexBuffer => ResourceKindModel::VertexBuffer,
            RequiredResourceKind::IndexBuffer => ResourceKindModel::IndexBuffer,
            RequiredResourceKind::VertexCountParameter => ResourceKindModel::VertexCountParameter,
            RequiredResourceKind::Texture => ResourceKindModel::Texture,
            RequiredResourceKind::UniformBuffer(s) => ResourceKindModel::UniformBuffer(s@),
            RequiredResourceKind::StorageBuffer(s) => ResourceKindModel::StorageBuffer(s@),
        }
    }
}

/// One entry of the resource manifest.
#[derive(Debug)]
pub struct RequiredResourceEntry {
    pub field_name: String,
    pub kind: RequiredResourceKind,
}

/// Mathematical model of a [`RequiredResourceEntry`].
#[verifier::ext_equal]
pub struct ResourceEntryModel {
    pub field_name: Seq<char>,
    pub kind: ResourceKindModel,
}

impl View for RequiredResourceEntry {
    type V = ResourceEntryModel;

    open spec fn view(&self) -> ResourceEntryModel {
        ResourceEntryModel { field_name: self.field_name@, kind: self.kind@ }
    }
}

/// Which draw-call variant the external renderer must issue.
#[derive(Debug, Clone, Copy, PartialEq, Eq, Structural)]
pub enum DrawKind {
    Indexed,
    VertexCount,
}

/// One field of a generated host struct declaration.
#[derive(Debug)]
pub struct StructFieldDef {
    pub field_name: String,
    pub type_text: String,
}

/// Mathematical model of a [`StructFieldDef`].
pub struct FieldDefModel {
    pub field_name: Seq<char>,
    pub type_text: Seq<char>,
}

impl View for StructFieldDef {
    type V = FieldDefModel;

    open spec fn view(&self) -> FieldDefModel {
        FieldDefModel { field_name: self.field_name@, type_text: self.type_text@ }
    }
}

/// One generated host struct declaration: its fields in layout order
/// (padding included), its derives, the layout rule it was packed
/// under (none for host-only structs), and its expected byte size
/// where one is known.
#[derive(Debug)]
pub struct StructDef {
    pub type_ident: String,
    pub fields: Vec<StructFieldDef>,
    pub trait_derives: Vec<&'static str>,
    pub layout_kind: Option<BufferKind>,
    pub expected_size: Option<u32>,
}

/// Mathematical model of a [`StructDef`].
#[verifier::ext_equal]
pub struct StructDefModel {
    pub type_ident: Seq<char>,
    pub fields: Seq<FieldDefModel>,
    pub trait_derives: Seq<Seq<char>>,
    pub layout_kind: Option<BufferKind>,
    pub expected_size: Option<int>,
}

impl View for StructDef {
    type V = StructDefModel;

    open spec fn view(&self) -> StructDefModel {
        StructDefModel {
            type_ident: self.type_ident@,
            fields: self.fields@.map_values(|f: StructFieldDef| f@),
            trait_derives: self.trait_derives@.map_values(|s: &'static str| s@),
            layout_kind: self.layout_kind,
            expected_size: match self.expected_size {
                Some(n) => Some(n as int),
                None => None,
            },
        }
    }
}

/// The derive line of a struct declaration, if it has any derives.
pub open spec fn derive_line_of(derives: Seq<Seq<char>>) -> Option<Seq<char>> {
    if derives.len() == 0 {
        None
    } else {
        Some("#[derive("@ + join_with(derives, ", "@) + ")]"@)
    }
}

impl StructDef {
    /// The `#[derive(..)]` line to emit above this declaration, if it
    /// has any derives.
    pub fn trait_derive_line(&self) -> (r: Option<String>)
        ensures
            match r {
                Some(s) => derive_line_of(self@.trait_derives) == Some(s@),
                None => derive_line_of(self@.trait_derives) is None,
            },
    {
        if self.trait_derives.len() == 0 {
            None
        } else {
            let mut s = String::from_str("#[derive(");
            let joined = join_strs(&self.trait_derives, ", ");
            s.append(joined.as_str());
            s.append(")]");
            Some(s)
        }
    }

    /// Whether this type is written to GPU memory: exactly the types
    /// packed under a buffer-layout rule.
    pub fn gpu_write(&self) -> (r: bool)
        ensures
            r == (self@.layout_kind is Some),
    {
        self.layout_kind.is_some()
    }

    /// The `repr` annotation to emit above this declaration, if it is
    /// packed under a buffer-layout rule.
    pub fn repr(&self) -> (r: Option<&'static str>)
        ensures
            match self@.layout_kind {
                None => r is None,
                Some(k) => r matches Some(a) && (k is Uniform ==> a@ == "#[repr(C, align(16))]"@)
                    && (k is Storage ==> a@ == "#[repr(C)]"@),
            },
    {
        match &self.layout_kind {
            None => None,
            Some(k) => Some(k.annotation()),
        }
    }
}

/// The Rust type a field type token is emitted as.
pub open spec fn rust_text_of(t: FieldTypeModel) -> Seq<char> {
    match t {
        FieldTypeModel::F32 => "f32"@,
        FieldTypeModel::U32 => "u32"@,
        FieldTypeModel::Vec2 => "glam::Vec2"@,
        FieldTypeModel::Vec3 => "glam::Vec3"@,
        FieldTypeModel::Vec4 => "glam::Vec4"@,
        FieldTypeModel::Mat2 => "glam::Mat2"@,
        FieldTypeModel::Mat3 => "glam::Mat3"@,
        FieldTypeModel::Mat4 => "glam::Mat4"@,
        FieldTypeModel::Named(s) => s,
    }
}

/// Render a field type token as Rust source text.
pub fn field_type_text(t: &FieldType) -> (r: String)
    ensures
        r@ == rust_text_of(t@),
{
    match t {
        FieldType::F32 => String::from_str("f32"),
        FieldType::U32 => String::from_str("u32"),
        FieldType::Vec2 => String::from_str("glam::Vec2"),
        FieldType::Vec3 => String::from_str("glam::Vec3"),
        FieldType::Vec4 => String::from_str("glam::Vec4"),
        FieldType::Mat2 => String::from_str("glam::Mat2"),
        FieldType::Mat3 => String::from_str("glam::Mat3"),
        FieldType::Mat4 => String::from_str("glam::Mat4"),
        FieldType::Named(s) => s.clone(),
    }
}

/// The struct-field declaration one layout slot is emitted as: a real
/// field under its own name and type, padding as a byte array under a
/// synthetic index-numbered name.
pub open spec fn layout_field_def_of(f: LayoutFieldModel) -> FieldDefModel {
    match f {
        LayoutFieldModel::Real { name, ty, .. } => FieldDefModel {
            field_name: name,
            type_text: rust_text_of(ty),
        },
        LayoutFieldModel::Padding { index, size } => FieldDefModel {
            field_name: padding_name_of(index),
            type_text: padding_type_text_of(size),
        },
    }
}

/// The derives every GPU-written struct declaration carries.
pub open spec fn default_derives() -> Seq<Seq<char>> {
    seq!["Debug"@, "Clone"@, "Serialize"@]
}

/// The struct declaration a synthesized type is emitted as.
pub open spec fn struct_def_model_of(t: TypeModel) -> StructDefModel {
    StructDefModel {
        type_ident: t.type_ident,
        fields: t.fields.map_values(|f: LayoutFieldModel| layout_field_def_of(f)),
        trait_derives: default_derives(),
        layout_kind: Some(t.kind),
        expected_size: Some(t.size),
    }
}

/// Turn a synthesized type into the struct declaration it is emitted
/// as.
pub fn struct_def_of(t: &SynthesizedType) -> (r: StructDef)
    ensures
        r@ == struct_def_model_of(t@),
{
    let mut fields: Vec<StructFieldDef> = Vec::new();
    let mut i: usize = 0;
    while i < t.fields.len()
        invariant
            i <= t.fields@.len(),
            fields@.map_values(|f: StructFieldDef| f@) =~= t.fields@.map_values(
                |f: LayoutField| f@,
            ).map_values(|f: LayoutFieldModel| layout_field_def_of(f)).subrange(0, i as int),
        decreases t.fields@.len() - i,
    {
        let ghost pre = fields@.map_values(|f: StructFieldDef| f@);
        let def = match &t.fields[i] {
            LayoutField::Real { name, ty, .. } => StructFieldDef {
                field_name: name.clone(),
                type_text: field_type_text(ty),
            },
            LayoutField::Padding { index, size } => StructFieldDef {
                field_name: padding_field_name(*index),
                type_text: padding_type_text(*size),
            },
        };
        let ghost def_model = def@;
        fields.push(def);
        proof {
            let slots = t.fields@.map_values(|f: LayoutField| f@);
            let target = slots.map_values(|f: LayoutFieldModel| layout_field_def_of(f));
            assert(slots[i as int] == t.fields@[i as int]@);
            assert(def_model == layout_field_def_of(slots[i as int]));
            assert(fields@.map_values(|f: StructFieldDef| f@) =~= pre.push(def_model));
            assert(pre.push(def_model) =~= target.subrange(0, i + 1));
        }
        i += 1;
    }
    let r = StructDef {
        type_ident: t.type_ident.clone(),
        fields,
        trait_derives: vec!["Debug", "Clone", "Serialize"],
        layout_kind: Some(t.kind),
        expected_size: Some(t.byte_size),
    };
    proof {
        let full = t.fields@.map_values(|f: LayoutField| f@).map_values(
            |f: LayoutFieldModel| layout_field_def_of(f),
        );
        assert(full.subrange(0, full.len() as int) =~= full);
        assert(r@.trait_derives =~= default_derives()) by {
            reveal_strlit("Debug");
            reveal_strlit("Clone");
            reveal_strlit("Serialize");
        }
        assert(r@ =~= struct_def_model_of(t@));
    }
    r
}

/// The manifest entry a resource field requires, if it is a resource
/// field: a texture handle for a 2D texture, a storage-buffer handle
/// for a structured buffer.  Other fields require nothing.
pub open spec fn required_resource_spec(f: ReflectedField) -> Option<ResourceEntryModel> {
    match f {
        ReflectedField::Resource { name, shape, result } => match shape {
            ResourceShape::Texture2D => Some(
                ResourceEntryModel {
                    field_name: snake_case_of(name@),
                    kind: ResourceKindModel::Texture,
                },
            ),
            ResourceShape::StructuredBuffer => Some(
                ResourceEntryModel {
                    field_name: snake_case_of(name@),
                    kind: ResourceKindModel::StorageBuffer(resource_type_text_of(result)),
                },
            ),
        },
        _ => None,
    }
}

/// The element type name a structured-buffer resource is emitted
/// with.
pub open spec fn resource_type_text_of(r: ResourceResult) -> Seq<char> {
    match r {
        ResourceResult::Vector { element_kind, .. } => match element_kind {
            ScalarKind::Float32 => "Vec<f32>"@,
            ScalarKind::Uint32 => "Vec<u32>"@,
        },
        ResourceResult::Struct(nst) => nst.type_ident@,
    }
}

/// Render the element type name of a structured-buffer resource.
pub fn resource_type_name(result: &ResourceResult) -> (r: String)
    ensures
        r@ == resource_type_text_of(*result),
{
    match result {
        ResourceResult::Vector { element_kind, .. } => match element_kind {
            ScalarKind::Float32 => String::from_str("Vec<f32>"),
            ScalarKind::Uint32 => String::from_str("Vec<u32>"),
        },
        ResourceResult::Struct(nst) => nst.type_ident.clone(),
    }
}

/// The manifest entry a field requires, if any.
pub fn required_resource(field: &ReflectedField) -> (r: Option<RequiredResourceEntry>)
    ensures
        match r {
            Some(e) => required_resource_spec(*field) == Some(e@),
            None => required_resource_spec(*field) is None,
        },
{
    match field {
        ReflectedField::Resource { name, shape, result } => match shape {
            ResourceShape::Texture2D => Some(
                RequiredResourceEntry {
                    field_name: to_snake_case(name.as_str()),
                    kind: RequiredResourceKind::Texture,
                },
            ),
            ResourceShape::StructuredBuffer => Some(
                RequiredResourceEntry {
                    field_name: to_snake_case(name.as_str()),
                    kind: RequiredResourceKind::StorageBuffer(resource_type_name(result)),
                },
            ),
        },
        _ => None,
    }
}

/// The wire format of one vertex-struct field type, if it has one:
/// a 3-vector maps to three 32-bit floats, a 2-vector to two, a
/// 4-byte unsigned scalar to one 32-bit unsigned integer.  Any other
/// shape has none.
pub open spec fn attr_format_of(t: FieldTypeModel) -> Option<WireFormat> {
    match t {
        FieldTypeModel::Vec3 => Some(WireFormat::Float32x3),
        FieldTypeModel::Vec2 => Some(WireFormat::Float32x2),
        FieldTypeModel::U32 => Some(WireFormat::Uint32),
        _ => None,
    }
}

/// The vertex attribute descriptions of a per-vertex struct's layout
/// slots: one per real field, in field order, with the location equal
/// to the field's index among the real fields.  A field without a
/// wire format fails synthesis.
pub open spec fn attrs_of(fields: Seq<LayoutFieldModel>) -> Result<
    Seq<VertexAttributeModel>,
    LayoutErrorModel,
>
    decreases fields.len(),
{
    if fields.len() == 0 {
        Ok(Seq::empty())
    } else {
        match attrs_of(fields.drop_last()) {
            Err(e) => Err(e),
            Ok(acc) => match fields.last() {
                LayoutFieldModel::Padding { .. } => Ok(acc),
                LayoutFieldModel::Real { name, ty, .. } => match attr_format_of(ty) {
                    Some(w) => Ok(
                        acc.push(
                            VertexAttributeModel {
                                field_name: name,
                                format: w,
                                location: acc.len() as int,
                            },
                        ),
                    ),
                    None => Err(LayoutErrorModel::UnsupportedShape { field_name: name }),
                },
            },
        }
    }
}

proof fn lemma_attrs_err_extends(fields: Seq<LayoutFieldModel>, i: int)
    requires
        0 <= i <= fields.len(),
        attrs_of(fields.subrange(0, i)) is Err,
    ensures
        attrs_of(fields) == attrs_of(fields.subrange(0, i)),
    decreases fields.len() - i,
{
    if i == fields.len() {
        assert(fields.subrange(0, i) =~= fields);
    } else {
        assert(fields.subrange(0, i + 1).drop_last() =~= fields.subrange(0, i));
        lemma_attrs_err_extends(fields, i + 1);
    }
}

/// Build the vertex attribute descriptions of a per-vertex struct's
/// layout slots.
pub fn build_attrs(fields: &Vec<LayoutField>) -> (r: Result<
    Vec<VertexAttributeDescription>,
    LayoutError,
>)
    ensures
        match r {
            Ok(attrs) => attrs_of(fields@.map_values(|f: LayoutField| f@)) matches Ok(m)
                && attrs@.map_values(|a: VertexAttributeDescription| a@) == m,
            Err(e) => attrs_of(fields@.map_values(|f: LayoutField| f@)) matches Err(em) && e@
                == em,
        },
{
    let ghost slots = fields@.map_values(|f: LayoutField| f@);
    let mut attrs: Vec<VertexAttributeDescription> = Vec::new();
    let mut i: usize = 0;
    proof {
        assert(slots.subrange(0, 0) =~= Seq::<LayoutFieldModel>::empty());
        assert(attrs@.map_values(|a: VertexAttributeDescription| a@) =~= Seq::<
            VertexAttributeModel,
        >::empty());
    }
    while i < fields.len()
        invariant
            i <= fields@.len(),
            slots == fields@.map_values(|f: LayoutField| f@),
            attrs_of(slots.subrange(0, i as int)) == Ok::<
                Seq<VertexAttributeModel>,
                LayoutErrorModel,
            >(attrs@.map_values(|a: VertexAttributeDescription| a@)),
        decreases fields@.len() - i,
    {
        proof {
            assert(slots.subrange(0, i + 1).drop_last() =~= slots.subrange(0, i as int));
            assert(slots.subrange(0, i + 1).last() == slots[i as int]);
        }
        match &fields[i] {
            LayoutField::Padding { .. } => {
            },
            LayoutField::Real { name, ty, .. } => {
                let format = match ty {
                    FieldType::Vec3 => Some(WireFormat::Float32x3),
                    FieldType::Vec2 => Some(WireFormat::Float32x2),
                    FieldType::U32 => Some(WireFormat::Uint32),
                    _ => None,
                };
                match format {
                    None => {
                        proof {
                            let e = LayoutErrorModel::UnsupportedShape { field_name: name@ };
                            assert(attrs_of(slots.subrange(0, i + 1)) == Err::<
                                Seq<VertexAttributeModel>,
                                LayoutErrorModel,
                            >(e));
                            lemma_attrs_err_extends(slots, i + 1);
                            assert(slots.subrange(0, slots.len() as int) =~= slots);
                        }
                        return Err(LayoutError::UnsupportedShape { field_name: name.clone() });
                    },
                    Some(w) => {
                        let ghost pre_attrs = attrs@.map_values(
                            |a: VertexAttributeDescription| a@,
                        );
                        let location: usize = attrs.len();
                        let attr = VertexAttributeDescription {
                            field_name: name.clone(),
                            format: w,
                            location,
                        };
                        let ghost attr_model = attr@;
                        attrs.push(attr);
                        proof {
                            assert(attrs@.map_values(|a: VertexAttributeDescription| a@)
                                =~= pre_attrs.push(attr_model));
                        }
                    },
                }
            },
        }
        i += 1;
    }
    proof {
        assert(slots.subrange(0, slots.len() as int) =~= slots);
    }
    Ok(attrs)
}

/// What registering a list of candidate types, in order, does: the
/// registry reached, the candidates that were newly inserted, in
/// order, and the first conflict if one arose.
#[verifier::ext_equal]
pub struct RegisterOutcome {
    pub reg: Seq<TypeModel>,
    pub news: Seq<TypeModel>,
    pub err: Option<LayoutErrorModel>,
}

/// Register candidates left to right, stopping at the first conflict.
pub open spec fn register_all_spec(reg: Seq<TypeModel>, ts: Seq<TypeModel>) -> RegisterOutcome
    decreases ts.len(),
{
    if ts.len() == 0 {
        RegisterOutcome { reg, news: Seq::empty(), err: None }
    } else {
        match crate::registry::register_spec(reg, ts[0]) {
            Err(e) => RegisterOutcome { reg, news: Seq::empty(), err: Some(e) },
            Ok(p) => {
                let rest = register_all_spec(p.0, ts.drop_first());
                RegisterOutcome {
                    reg: rest.reg,
                    news: (if p.1 {
                        seq![ts[0]]
                    } else {
                        Seq::<TypeModel>::empty()
                    }) + rest.news,
                    err: rest.err,
                }
            },
        }
    }
}

/// Register a list of synthesized types, in order, collecting the
/// struct declaration of each newly inserted one.  Stops at the first
/// conflict, leaving the earlier registrations in place: a conflict
/// aborts the whole build, so no partial output survives it.
#[verifier::loop_isolation(false)]
pub fn register_and_collect(
    registry: &mut TypeRegistry,
    ts: Vec<SynthesizedType>,
    news: &mut Vec<StructDef>,
) -> (r: Result<(), LayoutError>)
    ensures
        ({
            let o = register_all_spec(old(registry)@, crate::layout::types_view(ts@));
            &&& final(registry)@ == o.reg
            &&& match r {
                Ok(_) => o.err is None && final(news)@.map_values(|d: StructDef| d@) == old(
                    news,
                )@.map_values(|d: StructDef| d@) + o.news.map_values(
                    |t: TypeModel| struct_def_model_of(t),
                ),
                Err(e) => o.err == Some(e@),
            }
        }),
{
    let mut queue = ts;
    let ghost all = crate::layout::types_view(queue@);
    let ghost reg0 = registry@;
    let ghost news0 = news@.map_values(|d: StructDef| d@);
    let ghost mut done: Seq<TypeModel> = Seq::empty();
    proof {
        assert(done + register_all_spec(registry@, crate::layout::types_view(queue@)).news
            =~= register_all_spec(reg0, all).news);
        assert(news0 + done.map_values(|t: TypeModel| struct_def_model_of(t)) =~= news0);
    }
    while queue.len() > 0
        invariant
            ({
                let full = register_all_spec(reg0, all);
                let rem = register_all_spec(registry@, crate::layout::types_view(queue@));
                &&& full.reg == rem.reg
                &&& full.err == rem.err
                &&& full.news == done + rem.news
            }),
            news@.map_values(|d: StructDef| d@) == news0 + done.map_values(
                |t: TypeModel| struct_def_model_of(t),
            ),
        decreases queue@.len(),
    {
        let ghost pre_models = crate::layout::types_view(queue@);
        let ghost pre_reg = registry@;
        let t = queue.remove(0);
        let ghost tm = t@;
        proof {
            assert(pre_models[0] == tm);
            assert(crate::layout::types_view(queue@) =~= pre_models.drop_first());
        }
        let def = struct_def_of(&t);
        let res = registry.register_or_validate(t);
        match res {
            Err(e) => {
                proof {
                    let full = register_all_spec(reg0, all);
                    let rem_top = register_all_spec(pre_reg, pre_models);
                    assert(crate::registry::register_spec(pre_reg, tm) == Err::<
                        (Seq<TypeModel>, bool),
                        LayoutErrorModel,
                    >(e@));
                    assert(rem_top.err == Some(e@));
                    assert(rem_top.reg == pre_reg);
                    assert(full.err == Some(e@));
                    assert(full.reg == pre_reg);
                    assert(registry@ == pre_reg);
                }
                return Err(e);
            },
            Ok(inserted) => {
                proof {
                    let rem_top = register_all_spec(pre_reg, pre_models);
                    let rem_new = register_all_spec(registry@, crate::layout::types_view(queue@));
                    if inserted {
                        assert(rem_top.news =~= seq![tm] + rem_new.news);
                    } else {
                        assert(rem_top.news =~= Seq::<TypeModel>::empty() + rem_new.news);
                        assert(rem_top.news =~= rem_new.news);
                    }
                }
                if inserted {
                    let ghost pre_news = news@.map_values(|d: StructDef| d@);
                    let ghost def_model = def@;
                    news.push(def);
                    proof {
                        let pre_done = done;
                        done = done.push(tm);
                        let full = register_all_spec(reg0, all);
                        let rem_new = register_all_spec(registry@, crate::layout::types_view(queue@));
                        assert(full.news =~= done + rem_new.news);
                        assert(news@.map_values(|d: StructDef| d@) =~= pre_news.push(def_model));
                        assert(done.map_values(|t: TypeModel| struct_def_model_of(t))
                            =~= pre_done.map_values(|t: TypeModel| struct_def_model_of(t)).push(
                            struct_def_model_of(tm),
                        ));
                        assert(news@.map_values(|d: StructDef| d@) =~= news0 + done.map_values(
                            |t: TypeModel| struct_def_model_of(t),
                        ));
                    }
                } else {
                    proof {
                        let full = register_all_spec(reg0, all);
                        let rem_new = register_all_spec(registry@, crate::layout::types_view(queue@));
                        assert(full.news =~= done + rem_new.news);
                    }
                }
            },
        }
    }
    proof {
        assert(crate::layout::types_view(queue@).len() == 0);
        let rem = register_all_spec(registry@, crate::layout::types_view(queue@));
        assert(rem.news =~= Seq::<TypeModel>::empty());
        assert(done + rem.news =~= done);
    }
    Ok(())
}

/// The name model of an optional vertex type name.
pub open spec fn opt_name_model(v: Option<String>) -> Option<Seq<char>> {
    match v {
        Some(s) => Some(s@),
        None => None,
    }
}

/// What classifying a vertex entry point's parameters does: the
/// registry reached, the newly registered types, the generated
/// vertex-description blocks, the name of the per-vertex struct type
/// if one was seen, and the first fatal error if one arose.
#[verifier::ext_equal]
pub struct ClassifyOutcome {
    pub reg: Seq<TypeModel>,
    pub news: Seq<TypeModel>,
    pub blocks: Seq<VertexBlockModel>,
    pub vt: Option<Seq<char>>,
    pub err: Option<LayoutErrorModel>,
}

/// Classify entry-point parameters left to right.  A semantic scalar
/// is skipped; a bound scalar has no layout rule and fails; a
/// per-vertex struct is synthesized under the Uniform rule set,
/// registered, and given one vertex attribute per real field.
pub open spec fn classify_spec(
    params: Seq<EntryPointParameter>,
    reg: Seq<TypeModel>,
    vt: Option<Seq<char>>,
) -> ClassifyOutcome
    decreases params.len(),
{
    if params.len() == 0 {
        ClassifyOutcome { reg, news: Seq::empty(), blocks: Seq::empty(), vt, err: None }
    } else {
        match params[0] {
            EntryPointParameter::SemanticScalar { .. } => classify_spec(
                params.drop_first(),
                reg,
                vt,
            ),
            EntryPointParameter::BoundScalar { name } => ClassifyOutcome {
                reg,
                news: Seq::empty(),
                blocks: Seq::empty(),
                vt,
                err: Some(LayoutErrorModel::UnsupportedShape { field_name: name@ }),
            },
            EntryPointParameter::Struct(nst) => match crate::layout::synthesize_spec(
                nst.type_ident@,
                nst.fields@,
                BufferKind::Uniform,
            ) {
                Err(e) => ClassifyOutcome {
                    reg,
                    news: Seq::empty(),
                    blocks: Seq::empty(),
                    vt,
                    err: Some(e),
                },
                Ok(p) => {
                    let ro = register_all_spec(reg, p.1.push(p.0));
                    if ro.err is Some {
                        ClassifyOutcome {
                            reg: ro.reg,
                            news: ro.news,
                            blocks: Seq::empty(),
                            vt,
                            err: ro.err,
                        }
                    } else {
                        match attrs_of(p.0.fields) {
                            Err(e) => ClassifyOutcome {
                                reg: ro.reg,
                                news: ro.news,
                                blocks: Seq::empty(),
                                vt,
                                err: Some(e),
                            },
                            Ok(attrs) => {
                                let block = VertexBlockModel {
                                    type_ident: nst.type_ident@,
                                    attribute_descriptions: attrs,
                                };
                                let rest = classify_spec(
                                    params.drop_first(),
                                    ro.reg,
                                    Some(nst.type_ident@),
                                );
                                ClassifyOutcome {
                                    reg: rest.reg,
                                    news: ro.news + rest.news,
                                    blocks: seq![block] + rest.blocks,
                                    vt: rest.vt,
                                    err: rest.err,
                                }
                            },
                        }
                    }
                },
            },
        }
    }
}

/// Classify the vertex entry point's parameters, synthesizing and
/// registering every per-vertex struct, collecting its struct
/// declaration, vertex-description block, and type name.
#[verifier::loop_isolation(false)]
pub fn classify_entry_point(
    params: &Vec<EntryPointParameter>,
    registry: &mut TypeRegistry,
    news: &mut Vec<StructDef>,
    blocks: &mut Vec<VertexImplBlock>,
    vertex_type: &mut Option<String>,
) -> (r: Result<(), LayoutError>)
    requires
        crate::reflection::wf_parameters(params@),
    ensures
        ({
            let o = classify_spec(params@, old(registry)@, opt_name_model(*old(vertex_type)));
            &&& final(registry)@ == o.reg
            &&& match r {
                Ok(_) => {
                    &&& o.err is None
                    &&& final(news)@.map_values(|d: StructDef| d@) == old(news)@.map_values(
                        |d: StructDef| d@,
                    ) + o.news.map_values(|t: TypeModel| struct_def_model_of(t))
                    &&& final(blocks)@.map_values(|b: VertexImplBlock| b@) == old(
                        blocks,
                    )@.map_values(|b: VertexImplBlock| b@) + o.blocks
                    &&& opt_name_model(*final(vertex_type)) == o.vt
                },
                Err(e) => o.err == Some(e@),
            }
        }),
{
    let ghost all = params@;
    let ghost reg0 = registry@;
    let ghost vt0 = opt_name_model(*vertex_type);
    let ghost news0 = news@.map_values(|d: StructDef| d@);
    let ghost blocks0 = blocks@.map_values(|b: VertexImplBlock| b@);
    let ghost mut done_news: Seq<TypeModel> = Seq::empty();
    let ghost mut done_blocks: Seq<VertexBlockModel> = Seq::empty();
    let mut i: usize = 0;
    proof {
        assert(all.subrange(0, all.len() as int) =~= all);
    }
    while i < params.len()
        invariant
            i <= all.len(),
            ({
                let full = classify_spec(all, reg0, vt0);
                let rem = classify_spec(
                    all.subrange(i as int, all.len() as int),
                    registry@,
                    opt_name_model(*vertex_type),
                );
                &&& full.reg == rem.reg
                &&& full.err == rem.err
                &&& full.vt == rem.vt
                &&& full.news == done_news + rem.news
                &&& full.blocks == done_blocks + rem.blocks
            }),
            news@.map_values(|d: StructDef| d@) == news0 + done_news.map_values(
                |t: TypeModel| struct_def_model_of(t),
            ),
            blocks@.map_values(|b: VertexImplBlock| b@) == blocks0 + done_blocks,
        decreases all.len() - i,
    {
        let ghost rest = all.subrange(i as int, all.len() as int);
        let ghost pre_reg = registry@;
        let ghost pre_vt = opt_name_model(*vertex_type);
        proof {
            assert(rest[0] == all[i as int]);
            assert(rest.drop_first() =~= all.subrange(i + 1, all.len() as int));
            assert(crate::reflection::wf_parameter(all[i as int]));
        }
        match &params[i] {
            EntryPointParameter::SemanticScalar { .. } => {
            },
            EntryPointParameter::BoundScalar { name } => {
                proof {
                    let rem_top = classify_spec(rest, pre_reg, pre_vt);
                    assert(rem_top.err == Some(
                        LayoutErrorModel::UnsupportedShape { field_name: name@ },
                    ));
                    assert(rem_top.reg == pre_reg);
                }
                return Err(LayoutError::UnsupportedShape { field_name: name.clone() });
            },
            EntryPointParameter::Struct(nst) => {
                let sub = crate::layout::synthesize(
                    nst.type_ident.as_str(),
                    &nst.fields,
                    BufferKind::Uniform,
                );
                match sub {
                    Err(e) => {
                        proof {
                            let rem_top = classify_spec(rest, pre_reg, pre_vt);
                            assert(rem_top.err == Some(e@));
                            assert(rem_top.reg == pre_reg);
                        }
                        return Err(e);
                    },
                    Ok((t, mut ts_vec)) => {
                        let attrs_r = build_attrs(&t.fields);
                        let ghost t_model = t@;
                        let ghost ts_models = crate::layout::types_view(ts_vec@);
                        ts_vec.push(t);
                        proof {
                            assert(crate::layout::types_view(ts_vec@) =~= ts_models.push(t_model));
                        }
                        let ghost ro = register_all_spec(pre_reg, ts_models.push(t_model));
                        let reg_r = register_and_collect(registry, ts_vec, news);
                        match reg_r {
                            Err(e) => {
                                proof {
                                    let rem_top = classify_spec(rest, pre_reg, pre_vt);
                                    assert(ro.err == Some(e@));
                                    assert(rem_top.err == Some(e@));
                                    assert(rem_top.reg == ro.reg);
                                    assert(registry@ == ro.reg);
                                }
                                return Err(e);
                            },
                            Ok(_) => {
                                match attrs_r {
                                    Err(e) => {
                                        proof {
                                            let rem_top = classify_spec(rest, pre_reg, pre_vt);
                                            assert(attrs_of(t_model.fields) matches Err(em) && e@
                                                == em);
                                            assert(rem_top.err == Some(e@));
                                            assert(rem_top.reg == ro.reg);
                                            assert(registry@ == ro.reg);
                                        }
                                        return Err(e);
                                    },
                                    Ok(attrs_vec) => {
                                        let block = VertexImplBlock {
                                            type_ident: nst.type_ident.clone(),
                                            attribute_descriptions: attrs_vec,
                                        };
                                        let ghost block_model = block@;
                                        let ghost pre_blocks = blocks@.map_values(
                                            |b: VertexImplBlock| b@,
                                        );
                                        blocks.push(block);
                                        *vertex_type = Some(nst.type_ident.clone());
                                        proof {
                                            let pre_done_news = done_news;
                                            let pre_done_blocks = done_blocks;
                                            done_news = done_news + ro.news;
                                            done_blocks = done_blocks.push(block_model);
                                            let rem_top = classify_spec(rest, pre_reg, pre_vt);
                                            let rem_new = classify_spec(
                                                all.subrange(i + 1, all.len() as int),
                                                registry@,
                                                opt_name_model(*vertex_type),
                                            );
                                            assert(attrs_of(t_model.fields) matches Ok(m)
                                                && block_model.attribute_descriptions =~= m);
                                            assert(rem_top.news =~= ro.news + rem_new.news);
                                            assert(rem_top.blocks =~= seq![block_model]
                                                + rem_new.blocks);
                                            assert(pre_done_news + rem_top.news =~= done_news
                                                + rem_new.news);
                                            assert(pre_done_blocks + rem_top.blocks
                                                =~= done_blocks + rem_new.blocks);
                                            assert(blocks@.map_values(|b: VertexImplBlock| b@)
                                                =~= pre_blocks.push(block_model));
                                            assert(blocks@.map_values(|b: VertexImplBlock| b@)
                                                =~= blocks0 + done_blocks);
                                            assert(done_news.map_values(
                                                |t: TypeModel| struct_def_model_of(t),
                                            ) =~= pre_done_news.map_values(
                                                |t: TypeModel| struct_def_model_of(t),
                                            ) + ro.news.map_values(
                                                |t: TypeModel| struct_def_model_of(t),
                                            ));
                                            assert(news@.map_values(|d: StructDef| d@) =~= news0
                                                + done_news.map_values(
                                                |t: TypeModel| struct_def_model_of(t),
                                            ));
                                        }
                                    },
                                }
                            },
                        }
                    },
                }
            },
        }
        i += 1;
    }
    proof {
        assert(all.subrange(all.len() as int, all.len() as int)
            =~= Seq::<EntryPointParameter>::empty());
        let rem = classify_spec(
            Seq::<EntryPointParameter>::empty(),
            registry@,
            opt_name_model(*vertex_type),
        );
        assert(done_news + rem.news =~= done_news);
        assert(done_blocks + rem.blocks =~= done_blocks);
    }
    Ok(())
}

/// The manifest entry for a parameter block's own uniform buffer.
pub open spec fn uniform_block_entry(pb: crate::reflection::ParameterBlock) -> ResourceEntryModel {
    ResourceEntryModel {
        field_name: snake_case_of(pb.parameter_name@) + "_buffer"@,
        kind: ResourceKindModel::UniformBuffer(pb.element_type.type_ident@),
    }
}

/// The manifest entries of the resource fields of a field list, in
/// declaration order.
pub open spec fn field_resources(fields: Seq<ReflectedField>) -> Seq<ResourceEntryModel>
    decreases fields.len(),
{
    if fields.len() == 0 {
        Seq::empty()
    } else {
        field_resources(fields.drop_last()) + (match required_resource_spec(fields.last()) {
            Some(e) => seq![e],
            None => Seq::<ResourceEntryModel>::empty(),
        })
    }
}

/// Append the manifest entries of the resource fields of a field
/// list, in declaration order.
#[verifier::loop_isolation(false)]
pub fn collect_field_resources(fields: &Vec<ReflectedField>, out: &mut Vec<RequiredResourceEntry>)
    ensures
        final(out)@.map_values(|e: RequiredResourceEntry| e@) == old(out)@.map_values(
            |e: RequiredResourceEntry| e@,
        ) + field_resources(fields@),
{
    let ghost out0 = out@.map_values(|e: RequiredResourceEntry| e@);
    let mut i: usize = 0;
    proof {
        assert(fields@.subrange(0, 0) =~= Seq::<ReflectedField>::empty());
        assert(out0 + field_resources(fields@.subrange(0, 0)) =~= out0);
    }
    while i < fields.len()
        invariant
            i <= fields@.len(),
            out@.map_values(|e: RequiredResourceEntry| e@) == out0 + field_resources(
                fields@.subrange(0, i as int),
            ),
        decreases fields@.len() - i,
    {
        proof {
            assert(fields@.subrange(0, i + 1).drop_last() =~= fields@.subrange(0, i as int));
            assert(fields@.subrange(0, i + 1).last() == fields@[i as int]);
        }
        let ghost pre = out@.map_values(|e: RequiredResourceEntry| e@);
        match required_resource(&fields[i]) {
            None => {
                proof {
                    assert(pre + Seq::<ResourceEntryModel>::empty() =~= pre);
                }
            },
            Some(entry) => {
                let ghost em = entry@;
                out.push(entry);
                proof {
                    assert(out@.map_values(|e: RequiredResourceEntry| e@) =~= pre.push(em));
                    assert(pre.push(em) =~= out0 + field_resources(fields@.subrange(0, i + 1)));
                }
            },
        }
        i += 1;
    }
    proof {
        assert(fields@.subrange(0, fields@.len() as int) =~= fields@);
    }
}

/// What processing the global parameter blocks does: the registry
/// reached, the newly registered types, the manifest entries in
/// binding order, and the first fatal error if one arose.
#[verifier::ext_equal]
pub struct BlocksOutcome {
    pub reg: Seq<TypeModel>,
    pub news: Seq<TypeModel>,
    pub resources: Seq<ResourceEntryModel>,
    pub err: Option<LayoutErrorModel>,
}

/// Process parameter blocks in declared order: synthesize each
/// block's element type under the Uniform rule set, register it,
/// record its uniform-buffer entry, then the entries of its resource
/// fields, in field order.
pub open spec fn blocks_spec(gps: Seq<GlobalParameter>, reg: Seq<TypeModel>) -> BlocksOutcome
    decreases gps.len(),
{
    if gps.len() == 0 {
        BlocksOutcome { reg, news: Seq::empty(), resources: Seq::empty(), err: None }
    } else {
        match gps[0] {
            GlobalParameter::ParameterBlock(pb) => match crate::layout::synthesize_spec(
                pb.element_type.type_ident@,
                pb.element_type.fields@,
                BufferKind::Uniform,
            ) {
                Err(e) => BlocksOutcome {
                    reg,
                    news: Seq::empty(),
                    resources: Seq::empty(),
                    err: Some(e),
                },
                Ok(p) => {
                    let ro = register_all_spec(reg, p.1.push(p.0));
                    if ro.err is Some {
                        BlocksOutcome {
                            reg: ro.reg,
                            news: ro.news,
                            resources: Seq::empty(),
                            err: ro.err,
                        }
                    } else {
                        let entries = seq![uniform_block_entry(pb)] + field_resources(
                            pb.element_type.fields@,
                        );
                        let rest = blocks_spec(gps.drop_first(), ro.reg);
                        BlocksOutcome {
                            reg: rest.reg,
                            news: ro.news + rest.news,
                            resources: entries + rest.resources,
                            err: rest.err,
                        }
                    }
                },
            },
        }
    }
}

/// Process the global parameter blocks, registering every synthesized
/// type, collecting new struct declarations and the manifest entries
/// in binding order.
#[verifier::loop_isolation(false)]
pub fn build_parameter_blocks(
    gps: &Vec<GlobalParameter>,
    registry: &mut TypeRegistry,
    news: &mut Vec<StructDef>,
    resources: &mut Vec<RequiredResourceEntry>,
) -> (r: Result<(), LayoutError>)
    requires
        forall|i: int|
            0 <= i < gps@.len() ==> crate::reflection::wf_global_parameter(#[trigger] gps@[i]),
    ensures
        ({
            let o = blocks_spec(gps@, old(registry)@);
            &&& final(registry)@ == o.reg
            &&& match r {
                Ok(_) => {
                    &&& o.err is None
                    &&& final(news)@.map_values(|d: StructDef| d@) == old(news)@.map_values(
                        |d: StructDef| d@,
                    ) + o.news.map_values(|t: TypeModel| struct_def_model_of(t))
                    &&& final(resources)@.map_values(|e: RequiredResourceEntry| e@) == old(
                        resources,
                    )@.map_values(|e: RequiredResourceEntry| e@) + o.resources
                },
                Err(e) => o.err == Some(e@),
            }
        }),
{
    let ghost all = gps@;
    let ghost reg0 = registry@;
    let ghost news0 = news@.map_values(|d: StructDef| d@);
    let ghost res0 = resources@.map_values(|e: RequiredResourceEntry| e@);
    let ghost mut done_news: Seq<TypeModel> = Seq::empty();
    let ghost mut done_res: Seq<ResourceEntryModel> = Seq::empty();
    let mut i: usize = 0;
    proof {
        assert(all.subrange(0, all.len() as int) =~= all);
    }
    while i < gps.len()
        invariant
            i <= all.len(),
            ({
                let full = blocks_spec(all, reg0);
                let rem = blocks_spec(all.subrange(i as int, all.len() as int), registry@);
                &&& full.reg == rem.reg
                &&& full.err == rem.err
                &&& full.news == done_news + rem.news
                &&& full.resources == done_res + rem.resources
            }),
            news@.map_values(|d: StructDef| d@) == news0 + done_news.map_values(
                |t: TypeModel| struct_def_model_of(t),
            ),
            resources@.map_values(|e: RequiredResourceEntry| e@) == res0 + done_res,
        decreases all.len() - i,
    {
        let ghost rest = all.subrange(i as int, all.len() as int);
        let ghost pre_reg = registry@;
        proof {
            assert(rest[0] == all[i as int]);
            assert(rest.drop_first() =~= all.subrange(i + 1, all.len() as int));
            assert(crate::reflection::wf_global_parameter(all[i as int]));
        }
        match &gps[i] {
            GlobalParameter::ParameterBlock(pb) => {
                let sub = crate::layout::synthesize(
                    pb.element_type.type_ident.as_str(),
                    &pb.element_type.fields,
                    BufferKind::Uniform,
                );
                match sub {
                    Err(e) => {
                        proof {
                            let rem_top = blocks_spec(rest, pre_reg);
                            assert(rem_top.err == Some(e@));
                            assert(rem_top.reg == pre_reg);
                        }
                        return Err(e);
                    },
                    Ok((t, mut ts_vec)) => {
                        let ghost t_model = t@;
                        let ghost ts_models = crate::layout::types_view(ts_vec@);
                        ts_vec.push(t);
                        proof {
                            assert(crate::layout::types_view(ts_vec@) =~= ts_models.push(t_model));
                        }
                        let ghost ro = register_all_spec(pre_reg, ts_models.push(t_model));
                        let reg_r = register_and_collect(registry, ts_vec, news);
                        match reg_r {
                            Err(e) => {
                                proof {
                                    let rem_top = blocks_spec(rest, pre_reg);
                                    assert(ro.err == Some(e@));
                                    assert(rem_top.err == Some(e@));
                                    assert(rem_top.reg == ro.reg);
                                    assert(registry@ == ro.reg);
                                }
                                return Err(e);
                            },
                            Ok(_) => {
                                let ghost pre_res = resources@.map_values(
                                    |e: RequiredResourceEntry| e@,
                                );
                                let mut ub_name = to_snake_case(pb.parameter_name.as_str());
                                ub_name.append("_buffer");
                                let ub = RequiredResourceEntry {
                                    field_name: ub_name,
                                    kind: RequiredResourceKind::UniformBuffer(
                                        pb.element_type.type_ident.clone(),
                                    ),
                                };
                                let ghost ub_model = ub@;
                                resources.push(ub);
                                collect_field_resources(&pb.element_type.fields, resources);
                                proof {
                                    let pre_done_news = done_news;
                                    let pre_done_res = done_res;
                                    done_news = done_news + ro.news;
                                    done_res = done_res + (seq![ub_model] + field_resources(
                                        pb.element_type.fields@,
                                    ));
                                    let rem_top = blocks_spec(rest, pre_reg);
                                    let rem_new = blocks_spec(
                                        all.subrange(i + 1, all.len() as int),
                                        registry@,
                                    );
                                    assert(ub_model =~= uniform_block_entry(all[i as int]->0));
                                    assert(rem_top.news =~= ro.news + rem_new.news);
                                    assert(rem_top.resources =~= (seq![ub_model] + field_resources(
                                        pb.element_type.fields@,
                                    )) + rem_new.resources);
                                    assert(pre_done_news + rem_top.news =~= done_news
                                        + rem_new.news);
                                    assert(pre_done_res + rem_top.resources =~= done_res
                                        + rem_new.resources);
                                    assert(done_news.map_values(
                                        |t: TypeModel| struct_def_model_of(t),
                                    ) =~= pre_done_news.map_values(
                                        |t: TypeModel| struct_def_model_of(t),
                                    ) + ro.news.map_values(|t: TypeModel| struct_def_model_of(t)));
                                    assert(news@.map_values(|d: StructDef| d@) =~= news0
                                        + done_news.map_values(
                                        |t: TypeModel| struct_def_model_of(t),
                                    ));
                                    assert(resources@.map_values(|e: RequiredResourceEntry| e@)
                                        =~= (pre_res.push(ub_model)) + field_resources(
                                        pb.element_type.fields@,
                                    ));
                                    assert(resources@.map_values(|e: RequiredResourceEntry| e@)
                                        =~= res0 + done_res);
                                }
                            },
                        }
                    },
                }
            },
        }
        i += 1;
    }
    proof {
        assert(all.subrange(all.len() as int, all.len() as int) =~= Seq::<GlobalParameter>::empty());
        let rem = blocks_spec(Seq::<GlobalParameter>::empty(), registry@);
        assert(done_news + rem.news =~= done_news);
        assert(done_res + rem.resources =~= done_res);
    }
    Ok(())
}

/// The file-name suffix of a shader source file.
pub open spec fn shader_suffix() -> Seq<char> {
    ".shader.slang"@
}

/// The shader file-name suffix, for callers stripping file names.
pub fn shader_file_suffix() -> (r: &'static str)
    ensures
        r@ == shader_suffix(),
{
    ".shader.slang"
}

/// The shader's name: its source file name with the shader suffix
/// stripped, where it carries one.
pub open spec fn shader_name_of(s: Seq<char>) -> Seq<char> {
    if crate::text::ends_with(s, shader_suffix()) {
        s.subrange(0, s.len() - shader_suffix().len())
    } else {
        s
    }
}

/// The doc line of a generated module.
pub open spec fn doc_line_of(source: Seq<char>) -> Seq<char> {
    "generated from slang shader: "@ + source
}

/// Whether the vertex entry point takes a full per-vertex struct.
pub open spec fn has_vertex_struct_spec(params: Seq<EntryPointParameter>) -> bool {
    exists|i: int| 0 <= i < params.len() && (#[trigger] params[i]) is Struct
}

/// The vertex-stage resources: vertex and index buffers for an
/// index-buffer-driven shader, a single vertex-count parameter for a
/// procedural one.
pub open spec fn base_resources_spec(has_vertex_struct: bool) -> Seq<ResourceEntryModel> {
    if has_vertex_struct {
        seq![
            ResourceEntryModel {
                field_name: "vertices"@,
                kind: ResourceKindModel::VertexBuffer,
            },
            ResourceEntryModel { field_name: "indices"@, kind: ResourceKindModel::IndexBuffer },
        ]
    } else {
        seq![
            ResourceEntryModel {
                field_name: "vertex_count"@,
                kind: ResourceKindModel::VertexCountParameter,
            },
        ]
    }
}

/// The field type a manifest entry is given in the generated
/// `Resources` struct.
pub open spec fn resource_field_text_of(k: ResourceKindModel, vt: Option<Seq<char>>) -> Seq<
    char,
> {
    match k {
        ResourceKindModel::VertexBuffer => "Vec<"@ + (match vt {
            Some(v) => v,
            None => Seq::<char>::empty(),
        }) + ">"@,
        ResourceKindModel::IndexBuffer => "Vec<u32>"@,
        ResourceKindModel::VertexCountParameter => "u32"@,
        ResourceKindModel::Texture => "&'a TextureHandle"@,
        ResourceKindModel::UniformBuffer(t) => "&'a UniformBufferHandle<"@ + t + ">"@,
        ResourceKindModel::StorageBuffer(t) => "&'a StorageBufferHandle<"@ + t + ">"@,
    }
}

/// Render the field type a manifest entry is given in the generated
/// `Resources` struct.
pub fn resource_field_text(k: &RequiredResourceKind, vt: &Option<String>) -> (r: String)
    ensures
        r@ == resource_field_text_of(k@, opt_name_model(*vt)),
{
    match k {
        RequiredResourceKind::VertexBuffer => {
            let mut s = String::from_str("Vec<");
            match vt {
                Some(v) => {
                    s.append(v.as_str());
                },
                None => {
                },
            }
            s.append(">");
            s
        },
        RequiredResourceKind::IndexBuffer => String::from_str("Vec<u32>"),
        RequiredResourceKind::VertexCountParameter => String::from_str("u32"),
        RequiredResourceKind::Texture => String::from_str("&'a TextureHandle"),
        RequiredResourceKind::UniformBuffer(t) => {
            let mut s = String::from_str("&'a UniformBufferHandle<");
            s.append(t.as_str());
            s.append(">");
            s
        },
        RequiredResourceKind::StorageBuffer(t) => {
            let mut s = String::from_str("&'a StorageBufferHandle<");
            s.append(t.as_str());
            s.append(">");
            s
        },
    }
}

/// The generated `Resources` struct declaration: one field per
/// manifest entry, in binding order; a host-only struct with no
/// layout rule.
pub open spec fn resources_struct_model(
    entries: Seq<ResourceEntryModel>,
    vt: Option<Seq<char>>,
) -> StructDefModel {
    StructDefModel {
        type_ident: "Resources<'a>"@,
        fields: entries.map_values(
            |e: ResourceEntryModel|
                FieldDefModel {
                    field_name: e.field_name,
                    type_text: resource_field_text_of(e.kind, vt),
                },
        ),
        trait_derives: Seq::empty(),
        layout_kind: None,
        expected_size: None,
    }
}

/// The names of the texture entries of a manifest, in binding order.
pub open spec fn texture_field_names(entries: Seq<ResourceEntryModel>) -> Seq<Seq<char>>
    decreases entries.len(),
{
    if entries.len() == 0 {
        Seq::empty()
    } else {
        texture_field_names(entries.drop_last()) + (if entries.last().kind is Texture {
            seq![entries.last().field_name]
        } else {
            Seq::<Seq<char>>::empty()
        })
    }
}

/// The names of the uniform-buffer entries of a manifest, in binding
/// order.
pub open spec fn uniform_buffer_field_names(entries: Seq<ResourceEntryModel>) -> Seq<Seq<char>>
    decreases entries.len(),
{
    if entries.len() == 0 {
        Seq::empty()
    } else {
        uniform_buffer_field_names(entries.drop_last()) + (if entries.last().kind
            is UniformBuffer {
            seq![entries.last().field_name]
        } else {
            Seq::<Seq<char>>::empty()
        })
    }
}

/// The names of the storage-buffer entries of a manifest, in binding
/// order.
pub open spec fn storage_buffer_field_names(entries: Seq<ResourceEntryModel>) -> Seq<Seq<char>>
    decreases entries.len(),
{
    if entries.len() == 0 {
        Seq::empty()
    } else {
        storage_buffer_field_names(entries.drop_last()) + (if entries.last().kind
            is StorageBuffer {
            seq![entries.last().field_name]
        } else {
            Seq::<Seq<char>>::empty()
        })
    }
}

/// Everything one generated shader module holds, ready to render:
/// the struct declarations in emission order (the `Resources` struct
/// last), the vertex-description blocks, the draw-call kind, and the
/// manifest with its per-kind field-name lists in binding order.
#[derive(Debug)]
pub struct ShaderModule {
    pub shader_name: String,
    pub source_file_name: String,
    pub module_doc_line: String,
    pub struct_defs: Vec<StructDef>,
    pub vertex_impl_blocks: Vec<VertexImplBlock>,
    pub vertex_type_ident: Option<String>,
    pub draw_kind: DrawKind,
    pub required_resources: Vec<RequiredResourceEntry>,
    pub resources_texture_fields: Vec<String>,
    pub resources_uniform_buffer_fields: Vec<String>,
    pub resources_storage_buffer_fields: Vec<String>,
}

/// Mathematical model of a [`ShaderModule`].
#[verifier::ext_equal]
pub struct ModuleModel {
    pub shader_name: Seq<char>,
    pub source_file_name: Seq<char>,
    pub module_doc_line: Seq<char>,
    pub struct_defs: Seq<StructDefModel>,
    pub vertex_impl_blocks: Seq<VertexBlockModel>,
    pub vertex_type_ident: Option<Seq<char>>,
    pub draw_kind: DrawKind,
    pub required_resources: Seq<ResourceEntryModel>,
    pub resources_texture_fields: Seq<Seq<char>>,
    pub resources_uniform_buffer_fields: Seq<Seq<char>>,
    pub resources_storage_buffer_fields: Seq<Seq<char>>,
}

impl View for ShaderModule {
    type V = ModuleModel;

    open spec fn view(&self) -> ModuleModel {
        ModuleModel {
            shader_name: self.shader_name@,
            source_file_name: self.source_file_name@,
            module_doc_line: self.module_doc_line@,
            struct_defs: self.struct_defs@.map_values(|d: StructDef| d@),
            vertex_impl_blocks: self.vertex_impl_blocks@.map_values(|b: VertexImplBlock| b@),
            vertex_type_ident: opt_name_model(self.vertex_type_ident),
            draw_kind: self.draw_kind,
            required_resources: self.required_resources@.map_values(
                |e: RequiredResourceEntry| e@,
            ),
            resources_texture_fields: self.resources_texture_fields@.map_values(
                |s: String| s@,
            ),
            resources_uniform_buffer_fields: self.resources_uniform_buffer_fields@.map_values(
                |s: String| s@,
            ),
            resources_storage_buffer_fields: self.resources_storage_buffer_fields@.map_values(
                |s: String| s@,
            ),
        }
    }
}

/// Build one shader's generated module from its reflection
/// description against the given registry: classify the vertex entry
/// point, process the parameter blocks, and assemble the struct
/// declarations (newly registered types in reverse discovery order,
/// then the `Resources` struct) and the manifest in binding order.
/// Returns the module and the registry reached, or the first fatal
/// error together with the registry reached, whose contents an
/// aborted build must not treat as valid.
pub open spec fn build_module_spec(m: &ReflectionJson, reg0: Seq<TypeModel>) -> (Result<
    ModuleModel,
    LayoutErrorModel,
>, Seq<TypeModel>) {
    let params = m.vertex_entry_point.parameters@;
    let has = has_vertex_struct_spec(params);
    let c = classify_spec(params, reg0, None);
    if c.err is Some {
        (Err(c.err->0), c.reg)
    } else {
        let b = blocks_spec(m.global_parameters@, c.reg);
        if b.err is Some {
            (Err(b.err->0), b.reg)
        } else {
            let news = c.news + b.news;
            let required = base_resources_spec(has) + b.resources;
            let defs = news.map_values(|t: TypeModel| struct_def_model_of(t)).reverse().push(
                resources_struct_model(required, c.vt),
            );
            let module = ModuleModel {
                shader_name: shader_name_of(m.source_file_name@),
                source_file_name: m.source_file_name@,
                module_doc_line: doc_line_of(m.source_file_name@),
                struct_defs: defs,
                vertex_impl_blocks: c.blocks,
                vertex_type_ident: c.vt,
                draw_kind: if has {
                    DrawKind::Indexed
                } else {
                    DrawKind::VertexCount
                },
                required_resources: required,
                resources_texture_fields: texture_field_names(required),
                resources_uniform_buffer_fields: uniform_buffer_field_names(required),
                resources_storage_buffer_fields: storage_buffer_field_names(required),
            };
            (Ok(module), b.reg)
        }
    }
}

/// Build one shader's generated module from its reflection
/// description, registering every synthesized type in `registry`.
/// The struct declarations come out in reverse discovery order with
/// the `Resources` struct last; the manifest lists the vertex-stage
/// resources first, then each parameter block's uniform buffer and
/// resource fields, in declared order.  The first unsupported shape,
/// missing binding or type conflict aborts the build; nothing an
/// aborted build left in the registry may be treated as valid.
#[verifier::loop_isolation(false)]
pub fn build_shader_module(m: &ReflectionJson, registry: &mut TypeRegistry) -> (r: Result<
    ShaderModule,
    LayoutError,
>)
    requires
        crate::reflection::wf_reflection(m),
    ensures
        ({
            let p = build_module_spec(m, old(registry)@);
            &&& final(registry)@ == p.1
            &&& match r {
                Ok(module) => p.0 matches Ok(mm) && module@ == mm,
                Err(e) => p.0 matches Err(em) && e@ == em,
            }
        }),
{
    let params = &m.vertex_entry_point.parameters;
    let mut has_vertex_struct = false;
    let mut i: usize = 0;
    while i < params.len()
        invariant
            i <= params@.len(),
            has_vertex_struct <==> exists|j: int|
                0 <= j < i && (#[trigger] params@[j]) is Struct,
        decreases params@.len() - i,
    {
        if matches!(&params[i], EntryPointParameter::Struct(_)) {
            has_vertex_struct = true;
            proof {
                assert(params@[i as int] is Struct);
            }
        }
        i += 1;
    }
    proof {
        assert(has_vertex_struct == has_vertex_struct_spec(params@));
    }

    let mut news: Vec<StructDef> = Vec::new();
    let mut blocks: Vec<VertexImplBlock> = Vec::new();
    let mut vertex_type: Option<String> = None;
    let ghost c = classify_spec(params@, registry@, None);
    match classify_entry_point(params, registry, &mut news, &mut blocks, &mut vertex_type) {
        Err(e) => {
            return Err(e);
        },
        Ok(_) => {
        },
    }

    let mut resources: Vec<RequiredResourceEntry> = Vec::new();
    if has_vertex_struct {
        resources.push(
            RequiredResourceEntry {
                field_name: String::from_str("vertices"),
                kind: RequiredResourceKind::VertexBuffer,
            },
        );
        resources.push(
            RequiredResourceEntry {
                field_name: String::from_str("indices"),
                kind: RequiredResourceKind::IndexBuffer,
            },
        );
    } else {
        resources.push(
            RequiredResourceEntry {
                field_name: String::from_str("vertex_count"),
                kind: RequiredResourceKind::VertexCountParameter,
            },
        );
    }
    proof {
        assert(resources@.map_values(|e: RequiredResourceEntry| e@) =~= base_resources_spec(
            has_vertex_struct,
        ));
    }

    let ghost b = blocks_spec(m.global_parameters@, registry@);
    let ghost res_before_blocks = resources@.map_values(|e: RequiredResourceEntry| e@);
    match build_parameter_blocks(&m.global_parameters, registry, &mut news, &mut resources) {
        Err(e) => {
            return Err(e);
        },
        Ok(_) => {
        },
    }
    let ghost required = base_resources_spec(has_vertex_struct_spec(params@)) + b.resources;
    proof {
        assert(resources@.map_values(|e: RequiredResourceEntry| e@) =~= required);
    }

    let ghost news_models = (c.news + b.news).map_values(|t: TypeModel| struct_def_model_of(t));
    proof {
        assert(news@.map_values(|d: StructDef| d@) =~= news_models);
    }
    let mut struct_defs: Vec<StructDef> = Vec::new();
    let ghost total: int = news_models.len() as int;
    while news.len() > 0
        invariant
            news@.len() <= total,
            news@.map_values(|d: StructDef| d@) == news_models.subrange(0, news@.len() as int),
            struct_defs@.map_values(|d: StructDef| d@) == news_models.subrange(
                news@.len() as int,
                total,
            ).reverse(),
        decreases news@.len(),
    {
        let ghost pre_len = news@.len() as int;
        let ghost pre_news_map = news@.map_values(|d: StructDef| d@);
        let ghost pre_defs = struct_defs@.map_values(|d: StructDef| d@);
        let last: usize = news.len() - 1;
        let d = news.remove(last);
        let ghost dm = d@;
        struct_defs.push(d);
        proof {
            assert(news@.map_values(|d: StructDef| d@) =~= news_models.subrange(
                0,
                news@.len() as int,
            ));
            assert(dm == pre_news_map[pre_len - 1]);
            assert(dm == news_models[pre_len - 1]);
            assert(struct_defs@.map_values(|d: StructDef| d@) =~= pre_defs.push(dm));
            assert(pre_defs.push(dm) =~= news_models.subrange(pre_len - 1, total).reverse());
        }
    }
    proof {
        assert(news_models.subrange(0, total) =~= news_models);
        assert(struct_defs@.map_values(|d: StructDef| d@) =~= news_models.reverse());
    }

    let mut res_fields: Vec<StructFieldDef> = Vec::new();
    let mut k: usize = 0;
    while k < resources.len()
        invariant
            k <= resources@.len(),
            resources@.map_values(|e: RequiredResourceEntry| e@) == required,
            res_fields@.map_values(|f: StructFieldDef| f@)
                == resources_struct_model(required, opt_name_model(vertex_type)).fields.subrange(
                0,
                k as int,
            ),
        decreases resources@.len() - k,
    {
        let ghost pre_fields = res_fields@.map_values(|f: StructFieldDef| f@);
        let entry = &resources[k];
        let fd = StructFieldDef {
            field_name: entry.field_name.clone(),
            type_text: resource_field_text(&entry.kind, &vertex_type),
        };
        let ghost fdm = fd@;
        res_fields.push(fd);
        proof {
            let target = resources_struct_model(required, opt_name_model(vertex_type)).fields;
            assert(fdm == target[k as int]);
            assert(res_fields@.map_values(|f: StructFieldDef| f@) =~= pre_fields.push(fdm));
            assert(pre_fields.push(fdm) =~= target.subrange(0, k + 1));
        }
        k += 1;
    }
    let resources_def = StructDef {
        type_ident: String::from_str("Resources<'a>"),
        fields: res_fields,
        trait_derives: Vec::new(),
        layout_kind: None,
        expected_size: None,
    };
    proof {
        let target = resources_struct_model(required, opt_name_model(vertex_type));
        assert(target.fields.subrange(0, target.fields.len() as int) =~= target.fields);
        assert(resources_def@.trait_derives =~= Seq::<Seq<char>>::empty());
        assert(resources_def@ =~= target);
    }
    let ghost pre_defs_final = struct_defs@.map_values(|d: StructDef| d@);
    let ghost resources_def_model = resources_def@;
    struct_defs.push(resources_def);
    proof {
        assert(struct_defs@.map_values(|d: StructDef| d@) =~= pre_defs_final.push(
            resources_def_model,
        ));
    }

    let mut texture_fields: Vec<String> = Vec::new();
    let mut uniform_fields: Vec<String> = Vec::new();
    let mut storage_fields: Vec<String> = Vec::new();
    let mut j: usize = 0;
    proof {
        assert(required.subrange(0, 0) =~= Seq::<ResourceEntryModel>::empty());
    }
    while j < resources.len()
        invariant
            j <= resources@.len(),
            resources@.map_values(|e: RequiredResourceEntry| e@) == required,
            texture_fields@.map_values(|s: String| s@) == texture_field_names(
                required.subrange(0, j as int),
            ),
            uniform_fields@.map_values(|s: String| s@) == uniform_buffer_field_names(
                required.subrange(0, j as int),
            ),
            storage_fields@.map_values(|s: String| s@) == storage_buffer_field_names(
                required.subrange(0, j as int),
            ),
        decreases resources@.len() - j,
    {
        proof {
            assert(required.subrange(0, j + 1).drop_last() =~= required.subrange(0, j as int));
            assert(required.subrange(0, j + 1).last() == required[j as int]);
        }
        let ghost pre_tex = texture_fields@.map_values(|s: String| s@);
        let ghost pre_uni = uniform_fields@.map_values(|s: String| s@);
        let ghost pre_sto = storage_fields@.map_values(|s: String| s@);
        match &resources[j].kind {
            RequiredResourceKind::Texture => {
                texture_fields.push(resources[j].field_name.clone());
                proof {
                    assert(texture_fields@.map_values(|s: String| s@) =~= pre_tex.push(
                        required[j as int].field_name,
                    ));
                    assert(pre_tex.push(required[j as int].field_name) =~= texture_field_names(
                        required.subrange(0, j + 1),
                    ));
                    assert(pre_uni + Seq::<Seq<char>>::empty() =~= pre_uni);
                    assert(pre_sto + Seq::<Seq<char>>::empty() =~= pre_sto);
                }
            },
            RequiredResourceKind::UniformBuffer(_) => {
                uniform_fields.push(resources[j].field_name.clone());
                proof {
                    assert(uniform_fields@.map_values(|s: String| s@) =~= pre_uni.push(
                        required[j as int].field_name,
                    ));
                    assert(pre_uni.push(required[j as int].field_name)
                        =~= uniform_buffer_field_names(required.subrange(0, j + 1)));
                    assert(pre_tex + Seq::<Seq<char>>::empty() =~= pre_tex);
                    assert(pre_sto + Seq::<Seq<char>>::empty() =~= pre_sto);
                }
            },
            RequiredResourceKind::StorageBuffer(_) => {
                storage_fields.push(resources[j].field_name.clone());
                proof {
                    assert(storage_fields@.map_values(|s: String| s@) =~= pre_sto.push(
                        required[j as int].field_name,
                    ));
                    assert(pre_sto.push(required[j as int].field_name)
                        =~= storage_buffer_field_names(required.subrange(0, j + 1)));
                    assert(pre_tex + Seq::<Seq<char>>::empty() =~= pre_tex);
                    assert(pre_uni + Seq::<Seq<char>>::empty() =~= pre_uni);
                }
            },
            _ => {
                proof {
                    assert(pre_tex + Seq::<Seq<char>>::empty() =~= pre_tex);
                    assert(pre_uni + Seq::<Seq<char>>::empty() =~= pre_uni);
                    assert(pre_sto + Seq::<Seq<char>>::empty() =~= pre_sto);
                }
            },
        }
        j += 1;
    }
    proof {
        assert(required.subrange(0, required.len() as int) =~= required);
    }

    let shader_name = match crate::text::strip_suffix(
        m.source_file_name.as_str(),
        shader_file_suffix(),
    ) {
        Some(s) => s,
        None => m.source_file_name.clone(),
    };
    let mut doc_line = String::from_str("generated from slang shader: ");
    doc_line.append(m.source_file_name.as_str());

    let module = ShaderModule {
        shader_name,
        source_file_name: m.source_file_name.clone(),
        module_doc_line: doc_line,
        struct_defs,
        vertex_impl_blocks: blocks,
        vertex_type_ident: vertex_type,
        draw_kind: if has_vertex_struct {
            DrawKind::Indexed
        } else {
            DrawKind::VertexCount
        },
        required_resources: resources,
        resources_texture_fields: texture_fields,
        resources_uniform_buffer_fields: uniform_fields,
        resources_storage_buffer_fields: storage_fields,
    };
    proof {
        let p = build_module_spec(m, old(registry)@);
        assert(p.0 matches Ok(mm) && module@ =~= mm);
    }
    Ok(module)
}

/// The top-level atlas module description: one field per discovered
/// shader, with the type prefix its entry is reached through.
#[derive(Debug)]
pub struct ShaderAtlasModule {
    pub module_names: Vec<String>,
    /// Field name and type name prefix, one pair per shader module.
    pub entries: Vec<(String, String)>,
}

/// Mathematical model of a [`ShaderAtlasModule`].
#[verifier::ext_equal]
pub struct AtlasModel {
    pub module_names: Seq<Seq<char>>,
    pub entries: Seq<(Seq<char>, Seq<char>)>,
}

impl View for ShaderAtlasModule {
    type V = AtlasModel;

    open spec fn view(&self) -> AtlasModel {
        AtlasModel {
            module_names: self.module_names@.map_values(|s: String| s@),
            entries: self.entries@.map_values(|p: (String, String)| (p.0@, p.1@)),
        }
    }
}

/// The atlas module of a list of shader file names: each shader's
/// module name is its file name with the shader suffix stripped, and
/// each entry pairs that name with the type prefix `name::`.
pub open spec fn atlas_model_of(file_names: Seq<Seq<char>>) -> AtlasModel {
    AtlasModel {
        module_names: file_names.map_values(|f: Seq<char>| shader_name_of(f)),
        entries: file_names.map_values(
            |f: Seq<char>| (shader_name_of(f), shader_name_of(f) + "::"@),
        ),
    }
}

/// Build the top-level atlas module description from the discovered
/// shader file names, in discovery order.
#[verifier::loop_isolation(false)]
pub fn add_top_level_rust_modules(slang_file_names: &Vec<String>) -> (r: ShaderAtlasModule)
    ensures
        r@ == atlas_model_of(slang_file_names@.map_values(|s: String| s@)),
{
    let ghost names = slang_file_names@.map_values(|s: String| s@);
    let ghost target = atlas_model_of(names);
    let mut module_names: Vec<String> = Vec::new();
    let mut entries: Vec<(String, String)> = Vec::new();
    let mut i: usize = 0;
    while i < slang_file_names.len()
        invariant
            i <= names.len(),
            module_names@.map_values(|s: String| s@) == target.module_names.subrange(
                0,
                i as int,
            ),
            entries@.map_values(|p: (String, String)| (p.0@, p.1@)) == target.entries.subrange(
                0,
                i as int,
            ),
        decreases names.len() - i,
    {
        let ghost pre_names = module_names@.map_values(|s: String| s@);
        let ghost pre_entries = entries@.map_values(|p: (String, String)| (p.0@, p.1@));
        let base = match crate::text::strip_suffix(
            slang_file_names[i].as_str(),
            shader_file_suffix(),
        ) {
            Some(s) => s,
            None => slang_file_names[i].clone(),
        };
        let prefix = base.clone().concat("::");
        let ghost base_model = base@;
        let ghost prefix_model = prefix@;
        module_names.push(base.clone());
        entries.push((base, prefix));
        proof {
            assert(base_model == shader_name_of(names[i as int]));
            assert(module_names@.map_values(|s: String| s@) =~= pre_names.push(base_model));
            assert(pre_names.push(base_model) =~= target.module_names.subrange(0, i + 1));
            assert(entries@.map_values(|p: (String, String)| (p.0@, p.1@)) =~= pre_entries.push(
                (base_model, prefix_model),
            ));
            assert(pre_entries.push((base_model, prefix_model)) =~= target.entries.subrange(
                0,
                i + 1,
            ));
        }
        i += 1;
    }
    let r = ShaderAtlasModule { module_names, entries };
    proof {
        assert(target.module_names.subrange(0, target.module_names.len() as int)
            =~= target.module_names);
        assert(target.entries.subrange(0, target.entries.len() as int) =~= target.entries);
        assert(r@ =~= target);
    }
    r
}

} // verus!
