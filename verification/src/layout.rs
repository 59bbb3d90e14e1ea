//! The layout synthesizer: walks a reflected field tree under a given
//! buffer-layout rule set and produces an ordered field list with
//! explicit padding, a struct alignment, and a byte size.
//!
//! The native alignment table encodes an external binary contract:
//! a 4-component vector or any square matrix aligns to 16 bytes, a
//! 3-component vector to 16 (never 12), a 2-component vector to 8, a
//! 4-byte scalar to 4.  Under the Uniform rule set a struct is
//! unconditionally 16-byte aligned; under the Storage rule set its
//! alignment is the maximum of its fields' native alignments, with a
//! 4-byte floor, where a nested struct contributes its own
//! recursively-computed alignment.

use vstd::prelude::*;
use vstd::string::StringExecFns;

use crate::BufferKind;
use crate::reflection::FieldBinding;
use crate::reflection::ReflectedField;
use crate::reflection::ResourceResult;
use crate::reflection::ResourceShape;
use crate::reflection::ScalarKind;
use crate::reflection::binding_in_bounds;
use crate::reflection::field_binding_of;
use crate::reflection::max_binding_end;
use crate::reflection::wf_field;
use crate::reflection::wf_fields;
use crate::reflection::wf_fields_from;
use crate::text::snake_case_of;
use crate::text::to_snake_case;

verus! {

/// The host-side type a real field is emitted with.
#[derive(Debug)]
pub enum FieldType {
    F32,
    U32,
    Vec2,
    Vec3,
    Vec4,
    Mat2,
    Mat3,
    Mat4,
    Named(String),
}

/// Mathematical model of a [`FieldType`].
pub enum FieldTypeModel {
    F32,
    U32,
    Vec2,
    Vec3,
    Vec4,
    Mat2,
    Mat3,
    Mat4,
    Named(Seq<char>),
}

impl View for FieldType {
    type V = FieldTypeModel;

    open spec fn view(&self) -> FieldTypeModel {
        match self {
            FieldType::F32 => FieldTypeModel::F32,
            FieldType::U32 => FieldTypeModel::U32,
            FieldType::Vec2 => FieldTypeModel::Vec2,
            FieldType::Vec3 => FieldTypeModel::Vec3,
            FieldType::Vec4 => FieldTypeModel::Vec4,
            FieldType::Mat2 => FieldTypeModel::Mat2,
            FieldType::Mat3 => FieldTypeModel::Mat3,
            FieldType::Mat4 => FieldTypeModel::Mat4,
            FieldType::Named(s) => FieldTypeModel::Named(s@),
        }
    }
}

/// One slot of a synthesized layout: either a real field at its
/// reported offset, or synthetic padding that never carries data.
#[derive(Debug)]
pub enum LayoutField {
    Real { name: String, ty: FieldType, offset: u32, size: u32 },
    Padding { index: usize, size: u32 },
}

/// Mathematical model of a [`LayoutField`].
pub enum LayoutFieldModel {
    Real { name: Seq<char>, ty: FieldTypeModel, offset: int, size: int },
    Padding { index: int, size: int },
}

impl View for LayoutField {
    type V = LayoutFieldModel;

    open spec fn view(&self) -> LayoutFieldModel {
        match self {
            LayoutField::Real { name, ty, offset, size } => LayoutFieldModel::Real {
                name: name@,
                ty: ty@,
                offset: *offset as int,
                size: *size as int,
            },
            LayoutField::Padding { index, size } => LayoutFieldModel::Padding {
                index: *index as int,
                size: *size as int,
            },
        }
    }
}

/// A type synthesized under one buffer-layout rule set: its ordered
/// fields (real and padding), struct alignment, and byte size.
#[derive(Debug)]
pub struct SynthesizedType {
    pub type_ident: String,
    pub kind: BufferKind,
    pub fields: Vec<LayoutField>,
    pub byte_alignment: u32,
    pub byte_size: u32,
}

/// Mathematical model of a [`SynthesizedType`].
#[verifier::ext_equal]
pub struct TypeModel {
    pub type_ident: Seq<char>,
    pub kind: BufferKind,
    pub fields: Seq<LayoutFieldModel>,
    pub alignment: int,
    pub size: int,
}

impl View for SynthesizedType {
    type V = TypeModel;

    open spec fn view(&self) -> TypeModel {
        TypeModel {
            type_ident: self.type_ident@,
            kind: self.kind,
            fields: self.fields@.map_values(|f: LayoutField| f@),
            alignment: self.byte_alignment as int,
            size: self.byte_size as int,
        }
    }
}

/// The models of a list of synthesized types.
pub open spec fn types_view(ts: Seq<SynthesizedType>) -> Seq<TypeModel> {
    ts.map_values(|t: SynthesizedType| t@)
}

/// The fatal error kinds of a build pass.  None is recoverable: the
/// first of them aborts the build.
#[derive(Debug)]
pub enum LayoutError {
    /// A scalar, vector, matrix or resource shape with no layout rule.
    UnsupportedShape { field_name: String },
    /// A field expected to carry offset and size data lacks it.
    MissingBinding { field_name: String },
    /// Two same-named synthesized types disagree in field layout.
    TypeConflict { type_ident: String },
}

/// Mathematical model of a [`LayoutError`].
pub enum LayoutErrorModel {
    UnsupportedShape { field_name: Seq<char> },
    MissingBinding { field_name: Seq<char> },
    TypeConflict { type_ident: Seq<char> },
}

impl View for LayoutError {
    type V = LayoutErrorModel;

    open spec fn view(&self) -> LayoutErrorModel {
        match self {
            LayoutError::UnsupportedShape { field_name } => LayoutErrorModel::UnsupportedShape {
                field_name: field_name@,
            },
            LayoutError::MissingBinding { field_name } => LayoutErrorModel::MissingBinding {
                field_name: field_name@,
            },
            LayoutError::TypeConflict { type_ident } => LayoutErrorModel::TypeConflict {
                type_ident: type_ident@,
            },
        }
    }
}

/// The host type token of a scalar.
pub open spec fn scalar_token(k: ScalarKind) -> FieldTypeModel {
    match k {
        ScalarKind::Float32 => FieldTypeModel::F32,
        ScalarKind::Uint32 => FieldTypeModel::U32,
    }
}

/// Whether a vector shape has a layout rule: only float vectors of 2,
/// 3 or 4 components do.
pub open spec fn vector_supported(k: ScalarKind, count: u32) -> bool {
    k is Float32 && (count == 2 || count == 3 || count == 4)
}

/// The host type token of a supported vector.
pub open spec fn vector_token(count: u32) -> FieldTypeModel {
    if count == 2 {
        FieldTypeModel::Vec2
    } else if count == 3 {
        FieldTypeModel::Vec3
    } else {
        FieldTypeModel::Vec4
    }
}

/// Native alignment of a vector: 8 bytes for 2 components, 16
/// otherwise.  A 3-component vector aligns to 16, never 12: GPU
/// packing always rounds a 3-vector up to 4-vector granularity.
pub open spec fn vector_alignment(count: u32) -> int {
    if count == 2 {
        8
    } else {
        16
    }
}

/// Whether a matrix shape has a layout rule: only square float
/// matrices of 2, 3 or 4 rows do.
pub open spec fn matrix_supported(k: ScalarKind, rows: u32, cols: u32) -> bool {
    k is Float32 && rows == cols && (rows == 2 || rows == 3 || rows == 4)
}

/// The host type token of a supported matrix.
pub open spec fn matrix_token(rows: u32) -> FieldTypeModel {
    if rows == 2 {
        FieldTypeModel::Mat2
    } else if rows == 3 {
        FieldTypeModel::Mat3
    } else {
        FieldTypeModel::Mat4
    }
}

/// Round `o` up to the next multiple of `a`.
pub open spec fn round_up_to(o: int, a: int) -> int
    recommends
        a > 0,
        o >= 0,
{
    if o % a == 0 {
        o
    } else {
        o + a - o % a
    }
}

/// The running state of one synthesis pass over a field list.
#[verifier::ext_equal]
pub struct SynthState {
    /// The layout slots placed so far, in order.
    pub fields: Seq<LayoutFieldModel>,
    /// Every type synthesized for nested structs and structured-buffer
    /// element types, in discovery order.
    pub nested: Seq<TypeModel>,
    /// The end of the data laid out so far.
    pub offset: int,
    /// The largest native field alignment seen so far (Storage rule).
    pub max_align: int,
    /// How many padding fields have been inserted.
    pub pads: int,
}

/// The state a synthesis pass starts from.
pub open spec fn initial_state() -> SynthState {
    SynthState {
        fields: Seq::empty(),
        nested: Seq::empty(),
        offset: 0,
        max_align: 4,
        pads: 0,
    }
}

/// Place one real field at its reported binding, inserting one padding
/// field first if the binding starts past the data laid out so far.
pub open spec fn place_field(
    st: SynthState,
    name: Seq<char>,
    ty: FieldTypeModel,
    align: int,
    b: FieldBinding,
) -> SynthState {
    let pad = if b.offset > st.offset {
        seq![LayoutFieldModel::Padding { index: st.pads, size: b.offset - st.offset }]
    } else {
        Seq::<LayoutFieldModel>::empty()
    };
    SynthState {
        fields: st.fields + pad + seq![
            LayoutFieldModel::Real {
                name: name,
                ty: ty,
                offset: b.offset as int,
                size: b.size as int,
            }
        ],
        nested: st.nested,
        offset: b.offset + b.size,
        max_align: if align > st.max_align {
            align
        } else {
            st.max_align
        },
        pads: st.pads + pad.len(),
    }
}

/// Synthesize the layout of one field tree under `kind`: the type
/// itself, and every type synthesized along the way for nested structs
/// and structured-buffer element types, in discovery order.
pub open spec fn synthesize_spec(
    type_ident: Seq<char>,
    fields: Seq<ReflectedField>,
    kind: BufferKind,
) -> Result<(TypeModel, Seq<TypeModel>), LayoutErrorModel>
    decreases fields, 2int,
{
    match synth_fields(initial_state(), fields, kind) {
        Err(e) => Err(e),
        Ok(st) => {
            let align = if kind is Uniform {
                16int
            } else {
                st.max_align
            };
            let size = round_up_to(st.offset, align);
            let all_fields = if size > st.offset {
                st.fields.push(LayoutFieldModel::Padding { index: st.pads, size: size - st.offset })
            } else {
                st.fields
            };
            Ok(
                (
                    TypeModel {
                        type_ident: type_ident,
                        kind: kind,
                        fields: all_fields,
                        alignment: align,
                        size: size,
                    },
                    st.nested,
                ),
            )
        },
    }
}

/// Fold [`synth_field`] over a field list, left to right, aborting at
/// the first fatal error.
pub open spec fn synth_fields(
    st: SynthState,
    fields: Seq<ReflectedField>,
    kind: BufferKind,
) -> Result<SynthState, LayoutErrorModel>
    decreases fields, 1int,
{
    if fields.len() == 0 {
        Ok(st)
    } else {
        match synth_field(st, fields[0], kind) {
            Err(e) => Err(e),
            Ok(st2) => synth_fields(st2, fields.drop_first(), kind),
        }
    }
}

/// Process one source field:
/// a texture or vector-element structured buffer contributes nothing;
/// a struct-element structured buffer has its element type synthesized
/// under the Storage rule but contributes nothing to the containing
/// layout; a semantic vector is skipped; a nested struct is first
/// synthesized as its own type, then placed by its reported binding;
/// scalars, supported vectors and supported matrices are placed by
/// their reported bindings.
pub open spec fn synth_field(st: SynthState, f: ReflectedField, kind: BufferKind) -> Result<
    SynthState,
    LayoutErrorModel,
>
    decreases f, 3int,
{
    match f {
        ReflectedField::Scalar { name, kind: sk, binding } => match binding {
            None => Err(LayoutErrorModel::MissingBinding { field_name: name@ }),
            Some(b) => Ok(place_field(st, snake_case_of(name@), scalar_token(sk), 4, b)),
        },
        ReflectedField::Vector { name, element_kind, element_count, binding } => match binding {
            None => Ok(st),
            Some(b) => if vector_supported(element_kind, element_count) {
                Ok(
                    place_field(
                        st,
                        snake_case_of(name@),
                        vector_token(element_count),
                        vector_alignment(element_count),
                        b,
                    ),
                )
            } else {
                Err(LayoutErrorModel::UnsupportedShape { field_name: name@ })
            },
        },
        ReflectedField::Matrix { name, element_kind, rows, cols, binding } => match binding {
            None => Err(LayoutErrorModel::MissingBinding { field_name: name@ }),
            Some(b) => if matrix_supported(element_kind, rows, cols) {
                Ok(place_field(st, snake_case_of(name@), matrix_token(rows), 16, b))
            } else {
                Err(LayoutErrorModel::UnsupportedShape { field_name: name@ })
            },
        },
        ReflectedField::NestedStruct { name, type_ident, fields, binding } => match synthesize_spec(
            type_ident@,
            fields@,
            kind,
        ) {
            Err(e) => Err(e),
            Ok((t, ts)) => {
                let st2 = SynthState {
                    fields: st.fields,
                    nested: st.nested + ts.push(t),
                    offset: st.offset,
                    max_align: st.max_align,
                    pads: st.pads,
                };
                match binding {
                    None => Err(LayoutErrorModel::MissingBinding { field_name: name@ }),
                    Some(b) => {
                        let align = if kind is Uniform {
                            16int
                        } else {
                            t.alignment
                        };
                        Ok(
                            place_field(
                                st2,
                                snake_case_of(name@),
                                FieldTypeModel::Named(type_ident@),
                                align,
                                b,
                            ),
                        )
                    },
                }
            },
        },
        ReflectedField::Resource { name, shape, result } => match shape {
            ResourceShape::Texture2D => Ok(st),
            ResourceShape::StructuredBuffer => match result {
                ResourceResult::Vector { .. } => Ok(st),
                ResourceResult::Struct(nst) => match synthesize_spec(
                    nst.type_ident@,
                    nst.fields@,
                    BufferKind::Storage,
                ) {
                    Err(e) => Err(e),
                    Ok((t, ts)) => Ok(
                        SynthState {
                            fields: st.fields,
                            nested: st.nested + ts.push(t),
                            offset: st.offset,
                            max_align: st.max_align,
                            pads: st.pads,
                        },
                    ),
                },
            },
        },
    }
}

/// The native alignment a field contributes to its containing struct
/// under `kind`.  Meaningful for fields that occupy layout space and
/// have a layout rule; others never reach the alignment computation.
pub open spec fn field_alignment_under(f: ReflectedField, kind: BufferKind) -> int
    decreases f, 2int,
{
    match f {
        ReflectedField::Scalar { .. } => 4,
        ReflectedField::Vector { element_count, .. } => vector_alignment(element_count),
        ReflectedField::Matrix { .. } => 16,
        ReflectedField::NestedStruct { fields, .. } => if kind is Uniform {
            16
        } else {
            struct_alignment_of(fields@, BufferKind::Storage)
        },
        ReflectedField::Resource { .. } => 4,
    }
}

/// The struct alignment of a field list under `kind`: unconditionally
/// 16 under the Uniform rule set; the maximum of the occupying fields'
/// native alignments, with a 4-byte floor, under the Storage rule set.
pub open spec fn struct_alignment_of(fields: Seq<ReflectedField>, kind: BufferKind) -> int
    decreases fields, 1int,
{
    if kind is Uniform {
        16
    } else {
        max_align_of(fields, 4)
    }
}

/// The maximum of `acc` and the native alignments of the occupying
/// fields of `fields` under the Storage rule set.
pub open spec fn max_align_of(fields: Seq<ReflectedField>, acc: int) -> int
    decreases fields, 0int,
{
    if fields.len() == 0 {
        acc
    } else {
        let a = if field_binding_of(fields[0]) is Some {
            let fa = field_alignment_under(fields[0], BufferKind::Storage);
            if fa > acc {
                fa
            } else {
                acc
            }
        } else {
            acc
        };
        max_align_of(fields.drop_first(), a)
    }
}

/// The alignments a synthesis pass can produce.
pub open spec fn alignment_valued(a: int) -> bool {
    a == 4 || a == 8 || a == 16
}

/// Every synthesized struct alignment is 4, 8 or 16.
pub proof fn lemma_synthesize_alignment(
    type_ident: Seq<char>,
    fields: Seq<ReflectedField>,
    kind: BufferKind,
)
    ensures
        synthesize_spec(type_ident, fields, kind) matches Ok(p) ==> alignment_valued(p.0.alignment),
    decreases fields, 3int,
{
    lemma_synth_fields_alignment(initial_state(), fields, kind);
}

proof fn lemma_synth_fields_alignment(st: SynthState, fields: Seq<ReflectedField>, kind: BufferKind)
    requires
        alignment_valued(st.max_align),
    ensures
        synth_fields(st, fields, kind) matches Ok(st2) ==> alignment_valued(st2.max_align),
    decreases fields, 1int,
{
    if fields.len() > 0 {
        lemma_synth_field_alignment(st, fields[0], kind);
        match synth_field(st, fields[0], kind) {
            Ok(st2) => lemma_synth_fields_alignment(st2, fields.drop_first(), kind),
            Err(_) => {},
        }
    }
}

proof fn lemma_synth_field_alignment(st: SynthState, f: ReflectedField, kind: BufferKind)
    requires
        alignment_valued(st.max_align),
    ensures
        synth_field(st, f, kind) matches Ok(st2) ==> alignment_valued(st2.max_align),
    decreases f, 4int,
{
    match f {
        ReflectedField::NestedStruct { type_ident, fields, .. } => {
            lemma_synthesize_alignment(type_ident@, fields@, kind);
        },
        ReflectedField::Resource { result: ResourceResult::Struct(nst), .. } => {
            lemma_synthesize_alignment(nst.type_ident@, nst.fields@, BufferKind::Storage);
        },
        _ => {},
    }
}

/// The byte size one layout slot occupies.
pub open spec fn field_size(f: LayoutFieldModel) -> int {
    match f {
        LayoutFieldModel::Real { size, .. } => size,
        LayoutFieldModel::Padding { size, .. } => size,
    }
}

/// The sum of the sizes of all layout slots, real and padding.
pub open spec fn fields_total(fields: Seq<LayoutFieldModel>) -> int
    decreases fields.len(),
{
    if fields.len() == 0 {
        0
    } else {
        fields_total(fields.drop_last()) + field_size(fields.last())
    }
}

/// How many padding slots a layout holds.
pub open spec fn pad_count(fields: Seq<LayoutFieldModel>) -> int
    decreases fields.len(),
{
    if fields.len() == 0 {
        0
    } else {
        pad_count(fields.drop_last()) + (if fields.last() is Padding {
            1int
        } else {
            0int
        })
    }
}

/// Padding indices are consecutive from zero in layout order, so they
/// are unique per containing type.
pub open spec fn pads_numbered(fields: Seq<LayoutFieldModel>) -> bool
    decreases fields.len(),
{
    if fields.len() == 0 {
        true
    } else {
        pads_numbered(fields.drop_last()) && (fields.last() matches LayoutFieldModel::Padding {
            index,
            ..
        } ==> index == pad_count(fields.drop_last()))
    }
}

/// The invariant of a synthesized type: sizes add up to the byte size,
/// the byte size is a multiple of the struct alignment, padding
/// indices are unique, and the Uniform rule set always yields 16-byte
/// alignment.
pub open spec fn valid_type(t: TypeModel) -> bool {
    &&& alignment_valued(t.alignment)
    &&& (t.kind is Uniform ==> t.alignment == 16)
    &&& t.size >= 0
    &&& t.size % t.alignment == 0
    &&& fields_total(t.fields) == t.size
    &&& pads_numbered(t.fields)
}

/// The invariant a synthesis pass maintains between fields.
pub open spec fn state_inv(st: SynthState) -> bool {
    &&& st.offset >= 0
    &&& st.pads >= 0
    &&& fields_total(st.fields) == st.offset
    &&& pad_count(st.fields) == st.pads
    &&& pads_numbered(st.fields)
    &&& alignment_valued(st.max_align)
    &&& forall|i: int| 0 <= i < st.nested.len() ==> valid_type(#[trigger] st.nested[i])
}

proof fn lemma_slots_snoc(s: Seq<LayoutFieldModel>, x: LayoutFieldModel)
    ensures
        fields_total(s.push(x)) == fields_total(s) + field_size(x),
        pad_count(s.push(x)) == pad_count(s) + (if x is Padding {
            1int
        } else {
            0int
        }),
        (pads_numbered(s) && (x matches LayoutFieldModel::Padding { index, .. } ==> index
            == pad_count(s))) ==> pads_numbered(s.push(x)),
{
    assert(s.push(x).drop_last() =~= s);
    assert(s.push(x).last() == x);
}

proof fn lemma_round_up(o: int, a: int)
    requires
        o >= 0,
        a > 0,
    ensures
        round_up_to(o, a) % a == 0,
        o <= round_up_to(o, a) < o + a,
{
    if o % a != 0 {
        assert((o + a - o % a) % a == 0 && 0 < o % a < a) by (nonlinear_arith)
            requires
                o >= 0,
                a > 0,
                o % a != 0,
        ;
    }
}

/// Placing one bound field keeps the synthesis invariant, provided the
/// binding does not reach backwards.
proof fn lemma_place_field_inv(
    st: SynthState,
    name: Seq<char>,
    ty: FieldTypeModel,
    align: int,
    b: FieldBinding,
)
    requires
        state_inv(st),
        alignment_valued(align),
        b.offset >= st.offset,
    ensures
        state_inv(place_field(st, name, ty, align, b)),
        place_field(st, name, ty, align, b).offset >= st.offset,
        place_field(st, name, ty, align, b).nested == st.nested,
        place_field(st, name, ty, align, b).max_align == (if align > st.max_align {
            align
        } else {
            st.max_align
        }),
{
    let placed = LayoutFieldModel::Real {
        name: name,
        ty: ty,
        offset: b.offset as int,
        size: b.size as int,
    };
    if b.offset > st.offset {
        let pad = LayoutFieldModel::Padding { index: st.pads, size: b.offset - st.offset };
        assert(st.fields + seq![pad] + seq![placed] =~= st.fields.push(pad).push(placed));
        lemma_slots_snoc(st.fields, pad);
        lemma_slots_snoc(st.fields.push(pad), placed);
    } else {
        assert(st.fields + Seq::<LayoutFieldModel>::empty() + seq![placed] =~= st.fields.push(
            placed,
        ));
        lemma_slots_snoc(st.fields, placed);
    }
}

/// A synthesized type satisfies its invariant, carries its rule set
/// and name, and its alignment is the struct alignment of its fields;
/// so does every type synthesized along the way.
pub proof fn lemma_synthesize_valid(
    type_ident: Seq<char>,
    fields: Seq<ReflectedField>,
    kind: BufferKind,
)
    requires
        wf_fields(fields),
    ensures
        synthesize_spec(type_ident, fields, kind) matches Ok(p) ==> {
            &&& valid_type(p.0)
            &&& p.0.kind == kind
            &&& p.0.type_ident == type_ident
            &&& p.0.alignment == struct_alignment_of(fields, kind)
            &&& forall|i: int| 0 <= i < p.1.len() ==> valid_type(#[trigger] p.1[i])
        },
    decreases fields, 5int,
{
    lemma_fields_fold_valid(initial_state(), fields, kind);
    match synth_fields(initial_state(), fields, kind) {
        Err(_) => {},
        Ok(st) => {
            let align = if kind is Uniform {
                16int
            } else {
                st.max_align
            };
            lemma_round_up(st.offset, align);
            let size = round_up_to(st.offset, align);
            if size > st.offset {
                lemma_slots_snoc(
                    st.fields,
                    LayoutFieldModel::Padding { index: st.pads, size: size - st.offset },
                );
            }
        },
    }
}

proof fn lemma_fields_fold_valid(st: SynthState, fields: Seq<ReflectedField>, kind: BufferKind)
    requires
        state_inv(st),
        wf_fields_from(fields, st.offset),
    ensures
        synth_fields(st, fields, kind) matches Ok(st2) ==> {
            &&& state_inv(st2)
            &&& st2.offset >= st.offset
            &&& kind is Storage ==> st2.max_align == max_align_of(fields, st.max_align)
        },
    decreases fields, 1int,
{
    if fields.len() > 0 {
        lemma_field_step_valid(st, fields[0], kind);
        match synth_field(st, fields[0], kind) {
            Ok(st2) => {
                lemma_fields_fold_valid(st2, fields.drop_first(), kind);
            },
            Err(_) => {},
        }
    }
}

proof fn lemma_field_step_valid(st: SynthState, f: ReflectedField, kind: BufferKind)
    requires
        state_inv(st),
        wf_field(f),
        field_binding_of(f) matches Some(b) ==> b.offset >= st.offset,
    ensures
        synth_field(st, f, kind) matches Ok(st2) ==> {
            &&& state_inv(st2)
            &&& st2.offset >= st.offset
            &&& st2.offset == (match field_binding_of(f) {
                Some(b) => b.offset + b.size,
                None => st.offset,
            })
            &&& st2.max_align == (if field_binding_of(f) is Some {
                let fa = field_alignment_under(f, kind);
                if fa > st.max_align {
                    fa
                } else {
                    st.max_align
                }
            } else {
                st.max_align
            })
        },
    decreases f, 6int,
{
    match f {
        ReflectedField::Scalar { name, kind: sk, binding } => {
            if let Some(b) = binding {
                lemma_place_field_inv(st, snake_case_of(name@), scalar_token(sk), 4, b);
            }
        },
        ReflectedField::Vector { name, element_kind, element_count, binding } => {
            if let Some(b) = binding {
                if vector_supported(element_kind, element_count) {
                    lemma_place_field_inv(
                        st,
                        snake_case_of(name@),
                        vector_token(element_count),
                        vector_alignment(element_count),
                        b,
                    );
                }
            }
        },
        ReflectedField::Matrix { name, element_kind, rows, cols, binding } => {
            if let Some(b) = binding {
                if matrix_supported(element_kind, rows, cols) {
                    lemma_place_field_inv(st, snake_case_of(name@), matrix_token(rows), 16, b);
                }
            }
        },
        ReflectedField::NestedStruct { name, type_ident, fields, binding } => {
            lemma_synthesize_valid(type_ident@, fields@, kind);
            match synthesize_spec(type_ident@, fields@, kind) {
                Err(_) => {},
                Ok((t, ts)) => {
                    let st2 = SynthState {
                        fields: st.fields,
                        nested: st.nested + ts.push(t),
                        offset: st.offset,
                        max_align: st.max_align,
                        pads: st.pads,
                    };
                    assert(state_inv(st2)) by {
                        assert(forall|i: int|
                            0 <= i < st2.nested.len() ==> valid_type(#[trigger] st2.nested[i]));
                    }
                    if let Some(b) = binding {
                        let align = if kind is Uniform {
                            16int
                        } else {
                            t.alignment
                        };
                        lemma_place_field_inv(
                            st2,
                            snake_case_of(name@),
                            FieldTypeModel::Named(type_ident@),
                            align,
                            b,
                        );
                    }
                },
            }
        },
        ReflectedField::Resource { name, shape, result } => {
            if shape is StructuredBuffer {
                if let ResourceResult::Struct(nst) = result {
                    lemma_synthesize_valid(nst.type_ident@, nst.fields@, BufferKind::Storage);
                    match synthesize_spec(nst.type_ident@, nst.fields@, BufferKind::Storage) {
                        Err(_) => {},
                        Ok((t, ts)) => {
                            let st2 = SynthState {
                                fields: st.fields,
                                nested: st.nested + ts.push(t),
                                offset: st.offset,
                                max_align: st.max_align,
                                pads: st.pads,
                            };
                            assert(forall|i: int|
                                0 <= i < st2.nested.len() ==> valid_type(
                                    #[trigger] st2.nested[i],
                                ));
                        },
                    }
                }
            }
        },
    }
}

/// Law: every type synthesized under the Uniform rule set is 16-byte
/// aligned and its byte size is a multiple of 16, and the same holds
/// of every type synthesized along the way under that rule set,
/// whatever each type's own field packing.
pub proof fn lemma_uniform_rule(type_ident: Seq<char>, fields: Seq<ReflectedField>)
    requires
        wf_fields(fields),
    ensures
        synthesize_spec(type_ident, fields, BufferKind::Uniform) matches Ok(p) ==> {
            &&& p.0.alignment == 16
            &&& p.0.size % 16 == 0
            &&& forall|i: int|
                0 <= i < p.1.len() && (#[trigger] p.1[i]).kind is Uniform ==> p.1[i].alignment
                    == 16 && p.1[i].size % 16 == 0
        },
{
    lemma_synthesize_valid(type_ident, fields, BufferKind::Uniform);
}

/// Law: a nested-struct field contributes 16-byte alignment to its
/// parent under the Uniform rule set, regardless of the nested type's
/// own packing.
pub proof fn lemma_uniform_nested_contribution(f: ReflectedField)
    ensures
        f is NestedStruct ==> field_alignment_under(f, BufferKind::Uniform) == 16,
{
}

/// Law: every type synthesized under the Storage rule set has the
/// struct alignment `max(native alignment of directly-owned occupying
/// fields, 4)`, and its byte size is a multiple of that alignment.
pub proof fn lemma_storage_rule(type_ident: Seq<char>, fields: Seq<ReflectedField>)
    requires
        wf_fields(fields),
    ensures
        synthesize_spec(type_ident, fields, BufferKind::Storage) matches Ok(p) ==> {
            &&& p.0.alignment == max_align_of(fields, 4)
            &&& p.0.alignment >= 4
            &&& p.0.size % p.0.alignment == 0
        },
{
    lemma_synthesize_valid(type_ident, fields, BufferKind::Storage);
}

/// Law: under the Storage rule set, a type containing only scalar
/// fields has struct alignment 4.
pub proof fn lemma_storage_scalars_align_four(fields: Seq<ReflectedField>)
    requires
        forall|i: int| 0 <= i < fields.len() ==> (#[trigger] fields[i]) is Scalar,
    ensures
        max_align_of(fields, 4) == 4,
    decreases fields.len(),
{
    if fields.len() > 0 {
        let tail = fields.drop_first();
        assert(fields[0] is Scalar);
        assert forall|i: int| 0 <= i < tail.len() implies (#[trigger] tail[i]) is Scalar by {
            assert(tail[i] == fields[i + 1]);
        }
        lemma_storage_scalars_align_four(tail);
        assert(field_alignment_under(fields[0], BufferKind::Storage) == 4);
        assert(max_align_of(fields, 4) == max_align_of(tail, 4));
    }
}

/// Law: a 3-component vector is never treated as a 12-byte field for
/// alignment purposes; it aligns to 16, like a 4-component vector,
/// while a 2-component vector aligns to 8.
pub proof fn lemma_three_vector_alignment()
    ensures
        vector_alignment(3) == 16,
        vector_alignment(4) == 16,
        vector_alignment(2) == 8,
{
}

/// The synthesis state the executable pass stands in.
pub open spec fn exec_state(
    out: Seq<LayoutField>,
    nested: Seq<SynthesizedType>,
    offset: int,
    max_align: int,
    pads: int,
) -> SynthState {
    SynthState {
        fields: out.map_values(|f: LayoutField| f@),
        nested: types_view(nested),
        offset: offset,
        max_align: max_align,
        pads: pads,
    }
}

/// Whether an executable synthesis result means what the specification
/// says.
pub open spec fn synthesis_matches(
    r: Result<(SynthesizedType, Vec<SynthesizedType>), LayoutError>,
    s: Result<(TypeModel, Seq<TypeModel>), LayoutErrorModel>,
) -> bool {
    match r {
        Ok(p) => s matches Ok(q) && p.0@ == q.0 && types_view(p.1@) == q.1,
        Err(e) => s matches Err(em) && e@ == em,
    }
}

proof fn lemma_fold_err(
    st: SynthState,
    rest: Seq<ReflectedField>,
    kind: BufferKind,
    e: LayoutErrorModel,
)
    requires
        rest.len() > 0,
        synth_field(st, rest[0], kind) == Err::<SynthState, LayoutErrorModel>(e),
    ensures
        synth_fields(st, rest, kind) == Err::<SynthState, LayoutErrorModel>(e),
{
}

proof fn lemma_fold_step(
    st: SynthState,
    rest: Seq<ReflectedField>,
    kind: BufferKind,
    st2: SynthState,
)
    requires
        rest.len() > 0,
        synth_field(st, rest[0], kind) == Ok::<SynthState, LayoutErrorModel>(st2),
    ensures
        synth_fields(st, rest, kind) == synth_fields(st2, rest.drop_first(), kind),
{
}

/// Push one real field at its reported binding, preceded by a padding
/// field if the binding starts past the data laid out so far.
fn place_bound_field(
    out_fields: &mut Vec<LayoutField>,
    pads: &mut usize,
    offset: &mut u32,
    name: String,
    ty: FieldType,
    b: FieldBinding,
)
    requires
        binding_in_bounds(b),
        b.offset >= *old(offset),
        *old(pads) <= old(out_fields)@.len(),
    ensures
        *final(offset) == b.offset + b.size,
        *final(pads) == *old(pads) + (if b.offset > *old(offset) {
            1int
        } else {
            0int
        }),
        *final(pads) <= final(out_fields)@.len(),
        final(out_fields)@.map_values(|f: LayoutField| f@) == ({
            let pad = if b.offset > *old(offset) {
                seq![
                    LayoutFieldModel::Padding {
                        index: *old(pads) as int,
                        size: b.offset - *old(offset),
                    }
                ]
            } else {
                Seq::<LayoutFieldModel>::empty()
            };
            old(out_fields)@.map_values(|f: LayoutField| f@) + pad + seq![
                LayoutFieldModel::Real {
                    name: name@,
                    ty: ty@,
                    offset: b.offset as int,
                    size: b.size as int,
                }
            ]
        }),
{
    let ghost old_map = out_fields@.map_values(|f: LayoutField| f@);
    let ghost old_pads = *pads;
    if b.offset > *offset {
        let pad_size = b.offset - *offset;
        out_fields.push(LayoutField::Padding { index: *pads, size: pad_size });
        let new_len: usize = out_fields.len();
        assert(*pads < new_len);
        *pads += 1;
        proof {
            assert(out_fields@.map_values(|f: LayoutField| f@) =~= old_map.push(
                LayoutFieldModel::Padding { index: old_pads as int, size: pad_size as int },
            ));
        }
    }
    let ghost mid_map = out_fields@.map_values(|f: LayoutField| f@);
    out_fields.push(LayoutField::Real { name, ty, offset: b.offset, size: b.size });
    *offset = b.offset + b.size;
    proof {
        let placed = LayoutFieldModel::Real {
            name: name@,
            ty: ty@,
            offset: b.offset as int,
            size: b.size as int,
        };
        assert(out_fields@.map_values(|f: LayoutField| f@) =~= mid_map.push(placed));
        if b.offset > *old(offset) {
            let pad = seq![
                LayoutFieldModel::Padding {
                    index: old_pads as int,
                    size: b.offset - *old(offset),
                }
            ];
            assert(mid_map.push(placed) =~= old_map + pad + seq![placed]);
        } else {
            assert(mid_map.push(placed) =~= old_map + Seq::<LayoutFieldModel>::empty() + seq![placed]);
        }
    }
}

/// Synthesize the layout of one field tree under `kind`, returning the
/// synthesized type and every type synthesized along the way for
/// nested structs and structured-buffer element types, in discovery
/// order.  Fails with the first unsupported shape or missing binding.
pub fn synthesize(type_ident: &str, fields: &Vec<ReflectedField>, kind: BufferKind) -> (r: Result<
    (SynthesizedType, Vec<SynthesizedType>),
    LayoutError,
>)
    requires
        wf_fields(fields@),
    ensures
        synthesis_matches(r, synthesize_spec(type_ident@, fields@, kind)),
    decreases fields@, 1int,
{
    let ghost all = fields@;
    let mut out_fields: Vec<LayoutField> = Vec::new();
    let mut nested: Vec<SynthesizedType> = Vec::new();
    let mut offset: u32 = 0;
    let mut max_align: u32 = 4;
    let mut pads: usize = 0;
    let mut i: usize = 0;
    proof {
        assert(all.subrange(0, all.len() as int) =~= all);
        assert(exec_state(out_fields@, nested@, 0, 4, 0) =~= initial_state());
    }
    while i < fields.len()
        invariant
            i <= all.len(),
            all == fields@,
            wf_fields_from(all.subrange(i as int, all.len() as int), offset as int),
            offset <= max_binding_end(),
            alignment_valued(max_align as int),
            pads <= out_fields@.len(),
            synth_fields(
                exec_state(out_fields@, nested@, offset as int, max_align as int, pads as int),
                all.subrange(i as int, all.len() as int),
                kind,
            ) == synth_fields(initial_state(), all, kind),
        decreases all.len() - i,
    {
        let ghost rest = all.subrange(i as int, all.len() as int);
        let ghost pre = exec_state(
            out_fields@,
            nested@,
            offset as int,
            max_align as int,
            pads as int,
        );
        proof {
            assert(rest[0] == all[i as int]);
            assert(rest.drop_first() =~= all.subrange(i + 1, all.len() as int));
        }
        let f = &fields[i];
        match f {
            ReflectedField::Scalar { name, kind: sk, binding } => {
                match binding {
                    None => {
                        proof {
                            let e = LayoutErrorModel::MissingBinding { field_name: name@ };
                            assert(synth_field(pre, rest[0], kind) == Err::<
                                SynthState,
                                LayoutErrorModel,
                            >(e));
                            lemma_fold_err(pre, rest, kind, e);
                        }
                        return Err(LayoutError::MissingBinding { field_name: name.clone() });
                    },
                    Some(b) => {
                        let b = *b;
                        let nm = to_snake_case(name.as_str());
                        let ty = match sk {
                            ScalarKind::Float32 => FieldType::F32,
                            ScalarKind::Uint32 => FieldType::U32,
                        };
                        proof {
                            assert(ty@ == scalar_token(*sk));
                        }
                        place_bound_field(&mut out_fields, &mut pads, &mut offset, nm, ty, b);
                        proof {
                            let post = exec_state(
                                out_fields@,
                                nested@,
                                offset as int,
                                max_align as int,
                                pads as int,
                            );
                            assert(post =~= place_field(
                                pre,
                                snake_case_of(name@),
                                scalar_token(*sk),
                                4,
                                b,
                            ));
                            assert(synth_field(pre, rest[0], kind) == Ok::<
                                SynthState,
                                LayoutErrorModel,
                            >(post));
                            lemma_fold_step(pre, rest, kind, post);
                        }
                    },
                }
            },
            ReflectedField::Vector { name, element_kind, element_count, binding } => {
                match binding {
                    None => {
                        proof {
                            assert(synth_field(pre, rest[0], kind) == Ok::<
                                SynthState,
                                LayoutErrorModel,
                            >(pre));
                            lemma_fold_step(pre, rest, kind, pre);
                        }
                    },
                    Some(b) => {
                        let b = *b;
                        if !(matches!(element_kind, ScalarKind::Float32) && (*element_count == 2
                            || *element_count == 3 || *element_count == 4)) {
                            proof {
                                let e = LayoutErrorModel::UnsupportedShape { field_name: name@ };
                                assert(synth_field(pre, rest[0], kind) == Err::<
                                    SynthState,
                                    LayoutErrorModel,
                                >(e));
                                lemma_fold_err(pre, rest, kind, e);
                            }
                            return Err(LayoutError::UnsupportedShape { field_name: name.clone() });
                        }
                        let nm = to_snake_case(name.as_str());
                        let ty = if *element_count == 2 {
                            FieldType::Vec2
                        } else if *element_count == 3 {
                            FieldType::Vec3
                        } else {
                            FieldType::Vec4
                        };
                        let align: u32 = if *element_count == 2 {
                            8
                        } else {
                            16
                        };
                        proof {
                            assert(ty@ == vector_token(*element_count));
                            assert(align as int == vector_alignment(*element_count));
                        }
                        place_bound_field(&mut out_fields, &mut pads, &mut offset, nm, ty, b);
                        if align > max_align {
                            max_align = align;
                        }
                        proof {
                            let post = exec_state(
                                out_fields@,
                                nested@,
                                offset as int,
                                max_align as int,
                                pads as int,
                            );
                            assert(post =~= place_field(
                                pre,
                                snake_case_of(name@),
                                vector_token(*element_count),
                                vector_alignment(*element_count),
                                b,
                            ));
                            assert(synth_field(pre, rest[0], kind) == Ok::<
                                SynthState,
                                LayoutErrorModel,
                            >(post));
                            lemma_fold_step(pre, rest, kind, post);
                        }
                    },
                }
            },
            ReflectedField::Matrix { name, element_kind, rows, cols, binding } => {
                match binding {
                    None => {
                        proof {
                            let e = LayoutErrorModel::MissingBinding { field_name: name@ };
                            assert(synth_field(pre, rest[0], kind) == Err::<
                                SynthState,
                                LayoutErrorModel,
                            >(e));
                            lemma_fold_err(pre, rest, kind, e);
                        }
                        return Err(LayoutError::MissingBinding { field_name: name.clone() });
                    },
                    Some(b) => {
                        let b = *b;
                        if !(matches!(element_kind, ScalarKind::Float32) && *rows == *cols && (*rows
                            == 2 || *rows == 3 || *rows == 4)) {
                            proof {
                                let e = LayoutErrorModel::UnsupportedShape { field_name: name@ };
                                assert(synth_field(pre, rest[0], kind) == Err::<
                                    SynthState,
                                    LayoutErrorModel,
                                >(e));
                                lemma_fold_err(pre, rest, kind, e);
                            }
                            return Err(LayoutError::UnsupportedShape { field_name: name.clone() });
                        }
                        let nm = to_snake_case(name.as_str());
                        let ty = if *rows == 2 {
                            FieldType::Mat2
                        } else if *rows == 3 {
                            FieldType::Mat3
                        } else {
                            FieldType::Mat4
                        };
                        proof {
                            assert(ty@ == matrix_token(*rows));
                        }
                        place_bound_field(&mut out_fields, &mut pads, &mut offset, nm, ty, b);
                        if 16 > max_align {
                            max_align = 16;
                        }
                        proof {
                            let post = exec_state(
                                out_fields@,
                                nested@,
                                offset as int,
                                max_align as int,
                                pads as int,
                            );
                            assert(post =~= place_field(
                                pre,
                                snake_case_of(name@),
                                matrix_token(*rows),
                                16,
                                b,
                            ));
                            assert(synth_field(pre, rest[0], kind) == Ok::<
                                SynthState,
                                LayoutErrorModel,
                            >(post));
                            lemma_fold_step(pre, rest, kind, post);
                        }
                    },
                }
            },
            ReflectedField::NestedStruct { name, type_ident: sub_ident, fields: sub_fields, binding } => {
                proof {
                    assert(decreases_to!(all => all[i as int]));
                    assert(decreases_to!(all[i as int] => sub_fields@));
                    assert(wf_field(all[i as int]));
                }
                let sub = synthesize(sub_ident.as_str(), sub_fields, kind);
                match sub {
                    Err(e) => {
                        proof {
                            let em = e@;
                            assert(synthesize_spec(sub_ident@, sub_fields@, kind) == Err::<
                                (TypeModel, Seq<TypeModel>),
                                LayoutErrorModel,
                            >(em));
                            assert(synth_field(pre, rest[0], kind) == Err::<
                                SynthState,
                                LayoutErrorModel,
                            >(em));
                            lemma_fold_err(pre, rest, kind, em);
                        }
                        return Err(e);
                    },
                    Ok((t, mut ts)) => {
                        proof {
                            lemma_synthesize_alignment(sub_ident@, sub_fields@, kind);
                        }
                        let t_align: u32 = t.byte_alignment;
                        let ghost t_model = t@;
                        let ghost ts_models = types_view(ts@);
                        nested.append(&mut ts);
                        nested.push(t);
                        proof {
                            assert(types_view(nested@) =~= pre.nested + ts_models.push(t_model));
                        }
                        match binding {
                            None => {
                                proof {
                                    let e = LayoutErrorModel::MissingBinding { field_name: name@ };
                                    assert(synth_field(pre, rest[0], kind) == Err::<
                                        SynthState,
                                        LayoutErrorModel,
                                    >(e));
                                    lemma_fold_err(pre, rest, kind, e);
                                }
                                return Err(
                                    LayoutError::MissingBinding { field_name: name.clone() },
                                );
                            },
                            Some(b) => {
                                let b = *b;
                                let nm = to_snake_case(name.as_str());
                                let align: u32 = match kind {
                                    BufferKind::Uniform => 16,
                                    BufferKind::Storage => t_align,
                                };
                                place_bound_field(
                                    &mut out_fields,
                                    &mut pads,
                                    &mut offset,
                                    nm,
                                    FieldType::Named(sub_ident.clone()),
                                    b,
                                );
                                if align > max_align {
                                    max_align = align;
                                }
                                proof {
                                    let st2 = SynthState {
                                        fields: pre.fields,
                                        nested: pre.nested + ts_models.push(t_model),
                                        offset: pre.offset,
                                        max_align: pre.max_align,
                                        pads: pre.pads,
                                    };
                                    let post = exec_state(
                                        out_fields@,
                                        nested@,
                                        offset as int,
                                        max_align as int,
                                        pads as int,
                                    );
                                    assert(post =~= place_field(
                                        st2,
                                        snake_case_of(name@),
                                        FieldTypeModel::Named(sub_ident@),
                                        align as int,
                                        b,
                                    ));
                                    assert(synth_field(pre, rest[0], kind) == Ok::<
                                        SynthState,
                                        LayoutErrorModel,
                                    >(post));
                                    lemma_fold_step(pre, rest, kind, post);
                                }
                            },
                        }
                    },
                }
            },
            ReflectedField::Resource { name, shape, result } => {
                match shape {
                    ResourceShape::Texture2D => {
                        proof {
                            assert(synth_field(pre, rest[0], kind) == Ok::<
                                SynthState,
                                LayoutErrorModel,
                            >(pre));
                            lemma_fold_step(pre, rest, kind, pre);
                        }
                    },
                    ResourceShape::StructuredBuffer => {
                        match result {
                            ResourceResult::Vector { .. } => {
                                proof {
                                    assert(synth_field(pre, rest[0], kind) == Ok::<
                                        SynthState,
                                        LayoutErrorModel,
                                    >(pre));
                                    lemma_fold_step(pre, rest, kind, pre);
                                }
                            },
                            ResourceResult::Struct(nst) => {
                                proof {
                                    assert(decreases_to!(all => all[i as int]));
                                    assert(decreases_to!(all[i as int] => nst.fields@));
                                    assert(wf_field(all[i as int]));
                                }
                                let sub = synthesize(
                                    nst.type_ident.as_str(),
                                    &nst.fields,
                                    BufferKind::Storage,
                                );
                                match sub {
                                    Err(e) => {
                                        proof {
                                            let em = e@;
                                            assert(synthesize_spec(
                                                nst.type_ident@,
                                                nst.fields@,
                                                BufferKind::Storage,
                                            ) == Err::<(TypeModel, Seq<TypeModel>), LayoutErrorModel>(
                                                em,
                                            ));
                                            assert(synth_field(pre, rest[0], kind) == Err::<
                                                SynthState,
                                                LayoutErrorModel,
                                            >(em));
                                            lemma_fold_err(pre, rest, kind, em);
                                        }
                                        return Err(e);
                                    },
                                    Ok((t, mut ts)) => {
                                        let ghost t_model = t@;
                                        let ghost ts_models = types_view(ts@);
                                        nested.append(&mut ts);
                                        nested.push(t);
                                        proof {
                                            assert(types_view(nested@) =~= pre.nested
                                                + ts_models.push(t_model));
                                            let post = exec_state(
                                                out_fields@,
                                                nested@,
                                                offset as int,
                                                max_align as int,
                                                pads as int,
                                            );
                                            assert(post =~= SynthState {
                                                fields: pre.fields,
                                                nested: pre.nested + ts_models.push(t_model),
                                                offset: pre.offset,
                                                max_align: pre.max_align,
                                                pads: pre.pads,
                                            });
                                            assert(synth_field(pre, rest[0], kind) == Ok::<
                                                SynthState,
                                                LayoutErrorModel,
                                            >(post));
                                            lemma_fold_step(pre, rest, kind, post);
                                        }
                                    },
                                }
                            },
                        }
                    },
                }
            },
        }
        i += 1;
    }
    proof {
        assert(all.subrange(all.len() as int, all.len() as int) =~= Seq::<ReflectedField>::empty());
    }
    let ghost st = exec_state(out_fields@, nested@, offset as int, max_align as int, pads as int);
    let align: u32 = match kind {
        BufferKind::Uniform => 16,
        BufferKind::Storage => max_align,
    };
    let rem: u32 = offset % align;
    let size: u32 = if rem == 0 {
        offset
    } else {
        let pad_size = align - rem;
        out_fields.push(LayoutField::Padding { index: pads, size: pad_size });
        offset + pad_size
    };
    proof {
        let spec_align = if kind is Uniform {
            16int
        } else {
            st.max_align
        };
        assert(align as int == spec_align);
        assert(size as int == round_up_to(st.offset, spec_align));
        if rem != 0 {
            assert(out_fields@.map_values(|f: LayoutField| f@) =~= st.fields.push(
                LayoutFieldModel::Padding { index: st.pads, size: size - offset },
            ));
        }
    }
    let result_type = SynthesizedType {
        type_ident: type_ident.to_owned(),
        kind,
        fields: out_fields,
        byte_alignment: align,
        byte_size: size,
    };
    proof {
        let spec_r = synthesize_spec(type_ident@, all, kind);
        assert(spec_r is Ok);
        assert(result_type@ =~= spec_r->Ok_0.0);
        assert(types_view(nested@) == spec_r->Ok_0.1);
    }
    Ok((result_type, nested))
}

} // verus!
