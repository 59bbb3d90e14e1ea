//! The reflection data model: a parsed, read-only description of one
//! shader's data interface, as an external reflection step produces it.
//!
//! A [`ReflectionJson`] holds the shader's entry points and an ordered
//! list of parameter blocks, each a typed field tree of
//! [`ReflectedField`] values.  A field's `binding`, when present,
//! carries the byte offset and size the reflection step reported for it
//! in the target buffer's native layout; resource fields and "semantic"
//! vector fields (pipeline builtins) carry no binding and never occupy
//! host layout space.

use vstd::prelude::*;

use crate::renderer::LayoutDescription;

verus! {

/// The scalar kinds that can appear in a shader interface.
#[derive(Debug, Clone, Copy, PartialEq, Eq, Structural)]
pub enum ScalarKind {
    Float32,
    Uint32,
}

/// The byte offset and size reported for a field, in the containing
/// buffer's native layout.
#[derive(Debug, Clone, Copy, PartialEq, Eq, Structural)]
pub struct FieldBinding {
    pub offset: u32,
    pub size: u32,
}

/// The shape of a shader resource field.
#[derive(Debug, Clone, Copy, PartialEq, Eq, Structural)]
pub enum ResourceShape {
    Texture2D,
    StructuredBuffer,
}

/// A struct type with its name, as reflected from the shader.
#[derive(Debug)]
pub struct NamedStructType {
    pub type_ident: String,
    pub fields: Vec<ReflectedField>,
}

/// The element type of a structured-buffer resource.
#[derive(Debug)]
pub enum ResourceResult {
    Vector { element_kind: ScalarKind, element_count: u32 },
    Struct(NamedStructType),
}

/// One field of a reflected struct.
///
/// A `Vector` without a binding is a "semantic" field: a pipeline
/// builtin with no host-supplied data.
#[derive(Debug)]
pub enum ReflectedField {
    Scalar { name: String, kind: ScalarKind, binding: Option<FieldBinding> },
    Vector {
        name: String,
        element_kind: ScalarKind,
        element_count: u32,
        binding: Option<FieldBinding>,
    },
    Matrix {
        name: String,
        element_kind: ScalarKind,
        rows: u32,
        cols: u32,
        binding: Option<FieldBinding>,
    },
    NestedStruct {
        name: String,
        type_ident: String,
        fields: Vec<ReflectedField>,
        binding: Option<FieldBinding>,
    },
    Resource { name: String, shape: ResourceShape, result: ResourceResult },
}

/// One parameter of a shader entry point.
#[derive(Debug)]
pub enum EntryPointParameter {
    /// A scalar builtin (for example a vertex index); no host data.
    SemanticScalar { name: String },
    /// A scalar with host-supplied data; no layout rule exists for it.
    BoundScalar { name: String },
    /// A full per-vertex struct.
    Struct(NamedStructType),
}

/// A shader entry point with its parameters.
#[derive(Debug)]
pub struct EntryPoint {
    pub entry_point_name: String,
    pub parameters: Vec<EntryPointParameter>,
}

/// A named, reflectable group of shader-visible bindings.
#[derive(Debug)]
pub struct ParameterBlock {
    pub parameter_name: String,
    pub element_type: NamedStructType,
}

/// One entry of the shader's global parameter list.
#[derive(Debug)]
pub enum GlobalParameter {
    ParameterBlock(ParameterBlock),
}

/// The reflected pipeline layout; opaque to the translator.
#[derive(Debug)]
pub struct ReflectedPipelineLayout;

/// The full reflection description of one shader.
#[derive(Debug)]
pub struct ReflectionJson {
    pub source_file_name: String,
    pub vertex_entry_point: EntryPoint,
    pub fragment_entry_point: EntryPoint,
    pub global_parameters: Vec<GlobalParameter>,
    pub pipeline_layout: ReflectedPipelineLayout,
}

impl ReflectionJson {
    /// Descriptor-set layout bindings; none are derived from the
    /// reflection data itself.
    pub fn layout_bindings(&self) -> (r: Vec<Vec<LayoutDescription>>)
        ensures
            r@.len() == 0,
    {
        Vec::new()
    }
}

/// The largest end offset a binding may report, chosen so that offsets,
/// sizes and the final 16-byte rounding all fit in a `u32`.
pub open spec fn max_binding_end() -> int {
    0xFFFF_FFF0
}

/// A binding's reported extent stays within machine limits.
pub open spec fn binding_in_bounds(b: FieldBinding) -> bool {
    b.offset + b.size <= max_binding_end()
}

/// Structural well-formedness of one field: every nested field tree is
/// itself well formed (each nested type's own layout starts at zero).
pub open spec fn wf_field(f: ReflectedField) -> bool
    decreases f, 1int,
{
    match f {
        ReflectedField::NestedStruct { fields, .. } => wf_fields_from(fields@, 0),
        ReflectedField::Resource { result: ResourceResult::Struct(st), .. } => wf_fields_from(
            st.fields@,
            0,
        ),
        _ => true,
    }
}

/// Well-formedness of a field sequence whose layout cursor currently
/// stands at `cur`: reported bindings are in bounds and never reach
/// backwards past data already laid out.  Schema-valid reflection input
/// satisfies this; the synthesizer requires it.
pub open spec fn wf_fields_from(fields: Seq<ReflectedField>, cur: int) -> bool
    decreases fields, 2int,
{
    if fields.len() == 0 {
        true
    } else {
        let f = fields[0];
        wf_field(f) && match field_binding_of(f) {
            Some(b) => binding_in_bounds(b) && b.offset >= cur && wf_fields_from(
                fields.drop_first(),
                b.offset + b.size,
            ),
            None => wf_fields_from(fields.drop_first(), cur),
        }
    }
}

/// The binding of a field, if it is one that occupies layout space.
pub open spec fn field_binding_of(f: ReflectedField) -> Option<FieldBinding> {
    match f {
        ReflectedField::Scalar { binding, .. } => binding,
        ReflectedField::Vector { binding, .. } => binding,
        ReflectedField::Matrix { binding, .. } => binding,
        ReflectedField::NestedStruct { binding, .. } => binding,
        ReflectedField::Resource { .. } => None,
    }
}

/// Well-formedness of a whole field tree, starting at offset zero.
pub open spec fn wf_fields(fields: Seq<ReflectedField>) -> bool {
    wf_fields_from(fields, 0)
}

/// Well-formedness of one entry-point parameter: a per-vertex struct
/// carries a well-formed field tree.
pub open spec fn wf_parameter(p: EntryPointParameter) -> bool {
    match p {
        EntryPointParameter::Struct(nst) => wf_fields(nst.fields@),
        _ => true,
    }
}

/// Well-formedness of an entry-point parameter list.
pub open spec fn wf_parameters(ps: Seq<EntryPointParameter>) -> bool {
    forall|i: int| 0 <= i < ps.len() ==> wf_parameter(#[trigger] ps[i])
}

/// Well-formedness of one global parameter block.
pub open spec fn wf_global_parameter(g: GlobalParameter) -> bool {
    match g {
        GlobalParameter::ParameterBlock(pb) => wf_fields(pb.element_type.fields@),
    }
}

/// Well-formedness of a whole reflection description: every field
/// tree it holds reports in-bounds, forward-moving bindings.  The
/// external reflection step produces such input; the translator
/// requires it.
pub open spec fn wf_reflection(m: &ReflectionJson) -> bool {
    &&& wf_parameters(m.vertex_entry_point.parameters@)
    &&& forall|i: int|
        0 <= i < m.global_parameters@.len() ==> wf_global_parameter(
            #[trigger] m.global_parameters@[i],
        )
}

/// Check that a field tree's layout, starting with the cursor at
/// `cur`, reports in-bounds, forward-moving bindings.
#[verifier::loop_isolation(false)]
pub fn check_fields_from(fields: &Vec<ReflectedField>, cur: u64) -> (b: bool)
    requires
        cur <= max_binding_end(),
    ensures
        b == wf_fields_from(fields@, cur as int),
    decreases fields@, 0int,
{
    let ghost all = fields@;
    let ghost cur0 = cur as int;
    let mut cur = cur;
    let mut i: usize = 0;
    proof {
        assert(all.subrange(0, all.len() as int) =~= all);
    }
    while i < fields.len()
        invariant
            i <= all.len(),
            cur <= max_binding_end(),
            wf_fields_from(all, cur0) == wf_fields_from(
                all.subrange(i as int, all.len() as int),
                cur as int,
            ),
        decreases all.len() - i,
    {
        let ghost rest = all.subrange(i as int, all.len() as int);
        proof {
            assert(rest[0] == all[i as int]);
            assert(rest.drop_first() =~= all.subrange(i + 1, all.len() as int));
        }
        let nested_ok: bool = match &fields[i] {
            ReflectedField::NestedStruct { fields: sub_fields, .. } => {
                proof {
                    assert(decreases_to!(all => all[i as int]));
                    assert(decreases_to!(all[i as int] => sub_fields@));
                }
                check_fields_from(sub_fields, 0)
            },
            ReflectedField::Resource { result: ResourceResult::Struct(nst), .. } => {
                proof {
                    assert(decreases_to!(all => all[i as int]));
                    assert(decreases_to!(all[i as int] => nst.fields@));
                }
                check_fields_from(&nst.fields, 0)
            },
            _ => true,
        };
        proof {
            assert(nested_ok == wf_field(all[i as int]));
        }
        if !nested_ok {
            return false;
        }
        let binding: Option<FieldBinding> = match &fields[i] {
            ReflectedField::Scalar { binding, .. } => *binding,
            ReflectedField::Vector { binding, .. } => *binding,
            ReflectedField::Matrix { binding, .. } => *binding,
            ReflectedField::NestedStruct { binding, .. } => *binding,
            ReflectedField::Resource { .. } => None,
        };
        proof {
            assert(binding == field_binding_of(all[i as int]));
        }
        match binding {
            Some(b) => {
                let end: u64 = b.offset as u64 + b.size as u64;
                if end > 0xFFFF_FFF0u64 {
                    proof {
                        assert(!binding_in_bounds(b));
                    }
                    return false;
                }
                if (b.offset as u64) < cur {
                    return false;
                }
                cur = end;
            },
            None => {
            },
        }
        i += 1;
    }
    proof {
        assert(all.subrange(all.len() as int, all.len() as int) =~= Seq::<ReflectedField>::empty());
    }
    true
}

/// Check that a whole reflection description is well formed, so that
/// the translator's requirements hold of it.  Input from the external
/// reflection step satisfies this; anything else is malformed and
/// must not be built.
#[verifier::loop_isolation(false)]
pub fn check_well_formed(m: &ReflectionJson) -> (b: bool)
    ensures
        b == wf_reflection(m),
{
    let params = &m.vertex_entry_point.parameters;
    let mut i: usize = 0;
    while i < params.len()
        invariant
            i <= params@.len(),
            forall|j: int| 0 <= j < i ==> wf_parameter(#[trigger] params@[j]),
        decreases params@.len() - i,
    {
        let ok: bool = match &params[i] {
            EntryPointParameter::Struct(nst) => check_fields_from(&nst.fields, 0),
            _ => true,
        };
        proof {
            assert(ok == wf_parameter(params@[i as int]));
        }
        if !ok {
            proof {
                assert(!wf_parameter(params@[i as int]));
                assert(!wf_parameters(params@));
            }
            return false;
        }
        i += 1;
    }
    let gps = &m.global_parameters;
    let mut k: usize = 0;
    while k < gps.len()
        invariant
            k <= gps@.len(),
            wf_parameters(params@),
            forall|j: int| 0 <= j < k ==> wf_global_parameter(#[trigger] gps@[j]),
        decreases gps@.len() - k,
    {
        let ok: bool = match &gps[k] {
            GlobalParameter::ParameterBlock(pb) => check_fields_from(&pb.element_type.fields, 0),
        };
        proof {
            assert(ok == wf_global_parameter(gps@[k as int]));
        }
        if !ok {
            proof {
                assert(!wf_global_parameter(gps@[k as int]));
            }
            return false;
        }
        k += 1;
    }
    true
}

} // verus!
