//! The type registry: collects every synthesized type across all
//! shaders processed in one build invocation, deduplicating by name
//! and rejecting layout conflicts.
//!
//! Entries are only ever checked for identical re-declaration, never
//! merged: two shaders may declare the same record, but if their
//! layouts diverge no single emitted definition could satisfy both
//! consumers, so the build aborts.

use vstd::prelude::*;

use crate::layout::LayoutError;
use crate::layout::LayoutErrorModel;
use crate::layout::LayoutField;
use crate::layout::LayoutFieldModel;
use crate::layout::FieldType;
use crate::layout::SynthesizedType;
use crate::layout::TypeModel;
use crate::layout::types_view;

verus! {

/// Whether two layout slots declare the same field: same name and
/// type for real fields, same index and size for padding.
pub open spec fn field_decl_matches(a: LayoutFieldModel, b: LayoutFieldModel) -> bool {
    match (a, b) {
        (
            LayoutFieldModel::Real { name: n1, ty: t1, .. },
            LayoutFieldModel::Real { name: n2, ty: t2, .. },
        ) => n1 == n2 && t1 == t2,
        (
            LayoutFieldModel::Padding { index: i1, size: s1 },
            LayoutFieldModel::Padding { index: i2, size: s2 },
        ) => i1 == i2 && s1 == s2,
        _ => false,
    }
}

/// Whether two field sequences declare the same fields, in order.
pub open spec fn decls_match(a: Seq<LayoutFieldModel>, b: Seq<LayoutFieldModel>) -> bool {
    a.len() == b.len() && forall|i: int|
        0 <= i < a.len() ==> field_decl_matches(#[trigger] a[i], b[i])
}

/// The first registered type of the given name, if any.
pub open spec fn lookup_spec(s: Seq<TypeModel>, name: Seq<char>) -> Option<TypeModel>
    decreases s.len(),
{
    if s.len() == 0 {
        None
    } else if s[0].type_ident == name {
        Some(s[0])
    } else {
        lookup_spec(s.drop_first(), name)
    }
}

/// What registering a candidate does: insert it if its name is new;
/// discard it as redundant if an identical declaration exists; fail
/// with a type conflict if a same-named declaration differs.
pub open spec fn register_spec(s: Seq<TypeModel>, t: TypeModel) -> Result<
    (Seq<TypeModel>, bool),
    LayoutErrorModel,
> {
    match lookup_spec(s, t.type_ident) {
        None => Ok((s.push(t), true)),
        Some(existing) => if decls_match(existing.fields, t.fields) {
            Ok((s, false))
        } else {
            Err(LayoutErrorModel::TypeConflict { type_ident: t.type_ident })
        },
    }
}

/// The registry of every type synthesized in one build invocation, in
/// registration order.
#[derive(Debug)]
pub struct TypeRegistry {
    pub entries: Vec<SynthesizedType>,
}

impl View for TypeRegistry {
    type V = Seq<TypeModel>;

    open spec fn view(&self) -> Seq<TypeModel> {
        types_view(self.entries@)
    }
}

fn field_types_equal(a: &FieldType, b: &FieldType) -> (r: bool)
    ensures
        r == (a@ == b@),
{
    match (a, b) {
        (FieldType::F32, FieldType::F32) => true,
        (FieldType::U32, FieldType::U32) => true,
        (FieldType::Vec2, FieldType::Vec2) => true,
        (FieldType::Vec3, FieldType::Vec3) => true,
        (FieldType::Vec4, FieldType::Vec4) => true,
        (FieldType::Mat2, FieldType::Mat2) => true,
        (FieldType::Mat3, FieldType::Mat3) => true,
        (FieldType::Mat4, FieldType::Mat4) => true,
        (FieldType::Named(x), FieldType::Named(y)) => *x == *y,
        _ => false,
    }
}

fn layout_fields_match(a: &Vec<LayoutField>, b: &Vec<LayoutField>) -> (r: bool)
    ensures
        r == decls_match(
            a@.map_values(|f: LayoutField| f@),
            b@.map_values(|f: LayoutField| f@),
        ),
{
    let ghost av = a@.map_values(|f: LayoutField| f@);
    let ghost bv = b@.map_values(|f: LayoutField| f@);
    if a.len() != b.len() {
        return false;
    }
    let mut i: usize = 0;
    while i < a.len()
        invariant
            a@.len() == b@.len(),
            i <= a@.len(),
            av == a@.map_values(|f: LayoutField| f@),
            bv == b@.map_values(|f: LayoutField| f@),
            forall|j: int| 0 <= j < i ==> field_decl_matches(#[trigger] av[j], bv[j]),
        decreases a@.len() - i,
    {
        let matches_here: bool = match (&a[i], &b[i]) {
            (
                LayoutField::Real { name: n1, ty: t1, .. },
                LayoutField::Real { name: n2, ty: t2, .. },
            ) => *n1 == *n2 && field_types_equal(t1, t2),
            (
                LayoutField::Padding { index: i1, size: s1 },
                LayoutField::Padding { index: i2, size: s2 },
            ) => *i1 == *i2 && *s1 == *s2,
            _ => false,
        };
        if !matches_here {
            assert(!field_decl_matches(av[i as int], bv[i as int]));
            return false;
        }
        assert(field_decl_matches(av[i as int], bv[i as int]));
        i += 1;
    }
    true
}

impl TypeRegistry {
    /// An empty registry.
    pub fn new() -> (r: TypeRegistry)
        ensures
            r@ == Seq::<TypeModel>::empty(),
    {
        let r = TypeRegistry { entries: Vec::new() };
        proof {
            assert(r@ =~= Seq::<TypeModel>::empty());
        }
        r
    }

    /// The registered types, in registration order.
    pub fn entries(&self) -> (r: &Vec<SynthesizedType>)
        ensures
            types_view(r@) == self@,
    {
        &self.entries
    }

    /// Register a candidate type, or validate it against the entry
    /// already registered under its name.  Returns whether the
    /// candidate was inserted; an identical re-declaration is
    /// discarded as redundant, and a differing one is a fatal type
    /// conflict that leaves the registry unchanged.
    pub fn register_or_validate(&mut self, t: SynthesizedType) -> (r: Result<bool, LayoutError>)
        ensures
            match register_spec(old(self)@, t@) {
                Ok(p) => r matches Ok(inserted) && inserted == p.1 && final(self)@ == p.0,
                Err(e) => r matches Err(e2) && e2@ == e && final(self)@ == old(self)@,
            },
    {
        let ghost s0 = self@;
        let n: usize = self.entries.len();
        proof {
            assert(s0.subrange(0, n as int) =~= s0);
        }
        let mut i: usize = 0;
        while i < n
            invariant
                n == self.entries@.len(),
                i <= n,
                s0 == self@,
                lookup_spec(s0.subrange(i as int, n as int), t@.type_ident) == lookup_spec(
                    s0,
                    t@.type_ident,
                ),
                forall|j: int| 0 <= j < i ==> (#[trigger] s0[j]).type_ident != t@.type_ident,
            decreases n - i,
        {
            let ghost rest = s0.subrange(i as int, n as int);
            proof {
                assert(rest[0] == s0[i as int]);
                assert(rest.drop_first() =~= s0.subrange(i + 1, n as int));
            }
            if self.entries[i].type_ident == t.type_ident {
                let same = layout_fields_match(&self.entries[i].fields, &t.fields);
                proof {
                    assert(lookup_spec(rest, t@.type_ident) == Some(s0[i as int]));
                }
                if same {
                    return Ok(false);
                } else {
                    return Err(LayoutError::TypeConflict { type_ident: t.type_ident });
                }
            }
            i += 1;
        }
        proof {
            assert(s0.subrange(n as int, n as int) =~= Seq::<TypeModel>::empty());
            assert(lookup_spec(s0, t@.type_ident) is None);
        }
        let ghost tm = t@;
        self.entries.push(t);
        proof {
            assert(self@ =~= s0.push(tm));
        }
        Ok(true)
    }
}

proof fn lemma_lookup_push(s: Seq<TypeModel>, t: TypeModel, name: Seq<char>)
    ensures
        lookup_spec(s, name) is None ==> lookup_spec(s.push(t), name) == (if t.type_ident
            == name {
            Some(t)
        } else {
            None::<TypeModel>
        }),
        lookup_spec(s, name) is Some ==> lookup_spec(s.push(t), name) == lookup_spec(s, name),
    decreases s.len(),
{
    if s.len() == 0 {
        assert(s.push(t)[0] == t);
        assert(s.push(t).drop_first() =~= Seq::<TypeModel>::empty());
    } else {
        assert(s.push(t)[0] == s[0]);
        assert(s.push(t).drop_first() =~= s.drop_first().push(t));
        lemma_lookup_push(s.drop_first(), t, name);
    }
}

/// Law: registering an identical candidate twice never errors and
/// never duplicates.  After a candidate is accepted, registering it
/// again is accepted as redundant and leaves the registry unchanged.
pub proof fn lemma_register_idempotent(s: Seq<TypeModel>, t: TypeModel)
    ensures
        register_spec(s, t) matches Ok(p) ==> register_spec(p.0, t) == Ok::<
            (Seq<TypeModel>, bool),
            LayoutErrorModel,
        >((p.0, false)),
{
    match lookup_spec(s, t.type_ident) {
        None => {
            lemma_lookup_push(s, t, t.type_ident);
            assert(lookup_spec(s.push(t), t.type_ident) == Some(t));
        },
        Some(_) => {},
    }
}

/// Law: registering two types with the same name but different field
/// sequences raises a type conflict, naming the conflicting type.
pub proof fn lemma_register_conflict(s: Seq<TypeModel>, t1: TypeModel, t2: TypeModel)
    requires
        t1.type_ident == t2.type_ident,
        !decls_match(t1.fields, t2.fields),
        lookup_spec(s, t1.type_ident) is None,
    ensures
        register_spec(s, t1) matches Ok(p) ==> register_spec(p.0, t2) == Err::<
            (Seq<TypeModel>, bool),
            LayoutErrorModel,
        >(LayoutErrorModel::TypeConflict { type_ident: t2.type_ident }),
{
    lemma_lookup_push(s, t1, t2.type_ident);
    assert(lookup_spec(s.push(t1), t2.type_ident) == Some(t1));
}

} // verus!
