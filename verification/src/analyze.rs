use vstd::prelude::*;

use crate::model::{
    Constraint, Convention, FieldDecl, FunctionDecl, Model, TypeBody, TypeDecl, TypeRef,
    VariantDecl,
};
use crate::names::external_name;
use crate::schema::{spec_field_ext, spec_variant_ext};
use vstd::string::StringExecFns;

verus! {

/// A fatal fault of the declaration model: generation aborts with no
/// output at all rather than emit a partial or invalid artifact.
#[derive(Debug)]
pub enum GenError {
    /// A type reference names a declaration absent from the model.
    UnresolvedType { decl: String, reference: String },
    /// Two variants or fields of one declaration map to the same external
    /// name after renaming.
    TagCollision { decl: String, tag: String },
}

/// A non-fatal finding: the constraint is dubious but still emitted
/// verbatim.
#[derive(Debug)]
pub struct Warning {
    pub decl: String,
    pub field: String,
    pub message: String,
}

/// Does the model declare a type of this name?
pub open spec fn spec_has_decl(ts: Seq<TypeDecl>, name: Seq<char>) -> bool {
    exists|i: int| 0 <= i < ts.len() && ts[i].name@ == name
}

/// Does every declaration name mentioned by this reference resolve?
pub open spec fn spec_ref_resolves(ts: Seq<TypeDecl>, t: TypeRef) -> bool
    decreases t,
{
    match t {
        TypeRef::Prim(p) => true,
        TypeRef::Decl(n) => spec_has_decl(ts, n@),
        TypeRef::OptionalOf(inner) => spec_ref_resolves(ts, *inner),
        TypeRef::SequenceOf(inner) => spec_ref_resolves(ts, *inner),
        TypeRef::MapOf(inner) => spec_ref_resolves(ts, *inner),
    }
}

pub open spec fn spec_decl_resolves(ts: Seq<TypeDecl>, d: TypeDecl) -> bool {
    match d.body {
        TypeBody::Struct(fs) => forall|i: int|
            0 <= i < fs@.len() ==> spec_ref_resolves(ts, (#[trigger] fs@[i]).ty),
        TypeBody::Enum(vs) => forall|i: int|
            0 <= i < vs@.len() ==> match (#[trigger] vs@[i]).payload {
                Some(t) => spec_ref_resolves(ts, t),
                None => true,
            },
    }
}

pub open spec fn spec_fn_resolves(ts: Seq<TypeDecl>, f: FunctionDecl) -> bool {
    &&& forall|i: int|
        0 <= i < f.params@.len() ==> spec_ref_resolves(ts, (#[trigger] f.params@[i]).ty)
    &&& match f.ret {
        Some(t) => spec_ref_resolves(ts, t),
        None => true,
    }
    &&& forall|i: int|
        0 <= i < f.channels@.len() ==> spec_ref_resolves(ts, (#[trigger] f.channels@[i]).elem)
}

/// Does every type reference anywhere in the model resolve?
pub open spec fn spec_model_resolves(m: Model) -> bool {
    &&& forall|i: int| 0 <= i < m.types@.len() ==> spec_decl_resolves(m.types@, m.types@[i])
    &&& forall|i: int| 0 <= i < m.functions@.len() ==> spec_fn_resolves(m.types@, m.functions@[i])
}

/// No two entries are equal.
pub open spec fn spec_distinct(names: Seq<Seq<char>>) -> bool {
    forall|i: int, j: int| 0 <= i < j < names.len() ==> names[i] != names[j]
}

/// The external names of the first `i` non-skipped fields, in order.
pub open spec fn spec_members_prefix(fs: Seq<FieldDecl>, conv: Convention, i: int) -> Seq<
    Seq<char>,
>
    decreases i,
{
    if i <= 0 {
        Seq::<Seq<char>>::empty()
    } else if fs[i - 1].skip {
        spec_members_prefix(fs, conv, i - 1)
    } else {
        spec_members_prefix(fs, conv, i - 1).push(spec_field_ext(fs[i - 1], conv))
    }
}

/// The external member names an emitted record holds: exactly those of the
/// non-skipped fields.
pub open spec fn spec_members(fs: Seq<FieldDecl>, conv: Convention) -> Seq<Seq<char>> {
    spec_members_prefix(fs, conv, fs.len() as int)
}

/// The external tags an emitted enum holds, one per variant.
pub open spec fn spec_tags(vs: Seq<VariantDecl>, conv: Convention) -> Seq<Seq<char>> {
    Seq::new(vs.len(), |i: int| spec_variant_ext(vs[i], conv))
}

/// Are the external names within one declaration free of collisions?
pub open spec fn spec_decl_names_ok(d: TypeDecl) -> bool {
    match d.body {
        TypeBody::Struct(fs) => spec_distinct(spec_members(fs@, d.convention)),
        TypeBody::Enum(vs) => spec_distinct(spec_tags(vs@, d.convention)),
    }
}

/// A model is fit for emission when every reference resolves and no
/// declaration has an external-name collision.
pub open spec fn spec_model_ok(m: Model) -> bool {
    &&& spec_model_resolves(m)
    &&& forall|i: int| 0 <= i < m.types@.len() ==> spec_decl_names_ok(m.types@[i])
}

/// Is one constraint inconsistent with itself (a lower bound above its
/// upper bound)?
pub open spec fn spec_inconsistent(c: Constraint) -> bool {
    match c {
        Constraint::Range { min: Some(a), max: Some(b) } => a > b,
        Constraint::Length { min: Some(a), max: Some(b) } => a > b,
        _ => false,
    }
}

fn str_eq(a: &String, b: &String) -> (r: bool)
    ensures
        r == (a@ == b@),
{
    a.eq(b)
}

fn has_decl(ts: &Vec<TypeDecl>, name: &String) -> (r: bool)
    ensures
        r == spec_has_decl(ts@, name@),
{
    let mut i: usize = 0;
    while i < ts.len()
        invariant
            0 <= i <= ts.len(),
            forall|j: int| 0 <= j < i ==> ts@[j].name@ != name@,
        decreases ts.len() - i,
    {
        if str_eq(&ts[i].name, name) {
            return true;
        }
        i = i + 1;
    }
    false
}

/// Returns the first declaration name this reference mentions that the
/// model does not declare, if any.
fn ref_unresolved(ts: &Vec<TypeDecl>, t: &TypeRef) -> (r: Option<String>)
    ensures
        r is None <==> spec_ref_resolves(ts@, *t),
        r is Some ==> !spec_has_decl(ts@, r->0@),
    decreases *t,
{
    match t {
        TypeRef::Prim(p) => None,
        TypeRef::Decl(n) => {
            if has_decl(ts, n) {
                None
            } else {
                Some(n.clone())
            }
        },
        TypeRef::OptionalOf(inner) => ref_unresolved(ts, &**inner),
        TypeRef::SequenceOf(inner) => ref_unresolved(ts, &**inner),
        TypeRef::MapOf(inner) => ref_unresolved(ts, &**inner),
    }
}

/// Returns some tag that occurs twice, if any.
fn find_duplicate(names: &Vec<String>) -> (r: Option<String>)
    ensures
        r is None <==> spec_distinct(names.deep_view()),
{
    let mut j: usize = 0;
    while j < names.len()
        invariant
            0 <= j <= names.len(),
            forall|a: int, b: int| 0 <= a < b < j ==> names@[a]@ != names@[b]@,
        decreases names.len() - j,
    {
        let mut i: usize = 0;
        while i < j
            invariant
                0 <= i <= j < names.len(),
                forall|a: int, b: int| 0 <= a < b < j ==> names@[a]@ != names@[b]@,
                forall|a: int| 0 <= a < i ==> names@[a]@ != names@[j as int]@,
            decreases j - i,
        {
            if str_eq(&names[i], &names[j]) {
                proof {
                    assert(names.deep_view()[i as int] == names.deep_view()[j as int]);
                    assert(!spec_distinct(names.deep_view()));
                }
                return Some(names[j].clone());
            }
            i = i + 1;
        }
        j = j + 1;
    }
    proof {
        assert forall|a: int, b: int|
            0 <= a < b < names.deep_view().len() implies names.deep_view()[a]
            != names.deep_view()[b] by {
            assert(names@[a]@ != names@[b]@);
        }
    }
    None
}

/// Collects the external member names of a struct, skipped fields left out.
fn member_names(fs: &Vec<FieldDecl>, conv: Convention) -> (r: Vec<String>)
    ensures
        r.deep_view() == spec_members(fs@, conv),
{
    let mut out: Vec<String> = Vec::new();
    let mut i: usize = 0;
    while i < fs.len()
        invariant
            0 <= i <= fs.len(),
            out.deep_view() == spec_members_prefix(fs@, conv, i as int),
        decreases fs.len() - i,
    {
        if !fs[i].skip {
            let ext = external_name(&fs[i].name, &fs[i].rename, conv);
            out.push(ext);
            proof {
                assert(out.deep_view() =~= spec_members_prefix(fs@, conv, i + 1));
            }
        }
        i = i + 1;
    }
    out
}

/// Collects the external tags of an enum, one per variant.
fn tag_names(vs: &Vec<VariantDecl>, conv: Convention) -> (r: Vec<String>)
    ensures
        r.deep_view() == spec_tags(vs@, conv),
{
    let mut out: Vec<String> = Vec::new();
    let mut i: usize = 0;
    while i < vs.len()
        invariant
            0 <= i <= vs.len(),
            out@.len() == i,
            forall|j: int| 0 <= j < i ==> out@[j]@ == spec_variant_ext(vs@[j], conv),
        decreases vs.len() - i,
    {
        let ext = external_name(&vs[i].name, &vs[i].rename, conv);
        out.push(ext);
        i = i + 1;
    }
    proof {
        assert forall|j: int|
            0 <= j < vs@.len() implies #[trigger] out.deep_view()[j] == spec_tags(vs@, conv)[j] by {
            assert(out.deep_view()[j] == out@[j]@);
        }
        assert(out.deep_view() =~= spec_tags(vs@, conv));
    }
    out
}

/// Checks one declaration: every reference resolves and its external names
/// are free of collisions.
fn check_decl(ts: &Vec<TypeDecl>, d: &TypeDecl) -> (r: Result<(), GenError>)
    ensures
        r is Ok <==> (spec_decl_resolves(ts@, *d) && spec_decl_names_ok(*d)),
        r is Err ==> match r->Err_0 {
            GenError::UnresolvedType { decl, reference } => !spec_has_decl(ts@, reference@)
                && !spec_decl_resolves(ts@, *d),
            GenError::TagCollision { decl, tag } => !spec_decl_names_ok(*d),
        },
{
    match &d.body {
        TypeBody::Struct(fs) => {
            let mut i: usize = 0;
            while i < fs.len()
                invariant
                    0 <= i <= fs.len(),
                    d.body is Struct,
                    d.body->Struct_0 == *fs,
                    forall|j: int| 0 <= j < i ==> spec_ref_resolves(ts@, fs@[j].ty),
                decreases fs.len() - i,
            {
                match ref_unresolved(ts, &fs[i].ty) {
                    Some(n) => {
                        proof {
                            assert(!spec_ref_resolves(ts@, fs@[i as int].ty));
                            assert(!spec_decl_resolves(ts@, *d));
                        }
                        return Err(GenError::UnresolvedType { decl: d.name.clone(), reference: n });
                    },
                    None => {
                    },
                }
                i = i + 1;
            }
            let members = member_names(fs, d.convention);
            match find_duplicate(&members) {
                Some(t) => Err(GenError::TagCollision { decl: d.name.clone(), tag: t }),
                None => Ok(()),
            }
        },
        TypeBody::Enum(vs) => {
            let mut i: usize = 0;
            while i < vs.len()
                invariant
                    0 <= i <= vs.len(),
                    d.body is Enum,
                    d.body->Enum_0 == *vs,
                    forall|j: int|
                        0 <= j < i ==> match (#[trigger] vs@[j]).payload {
                            Some(t) => spec_ref_resolves(ts@, t),
                            None => true,
                        },
                decreases vs.len() - i,
            {
                match &vs[i].payload {
                    Some(t) => {
                        match ref_unresolved(ts, t) {
                            Some(n) => {
                                proof {
                                    assert(!spec_decl_resolves(ts@, *d));
                                }
                                return Err(
                                    GenError::UnresolvedType { decl: d.name.clone(), reference: n },
                                );
                            },
                            None => {
                            },
                        }
                    },
                    None => {
                    },
                }
                i = i + 1;
            }
            let tags = tag_names(vs, d.convention);
            match find_duplicate(&tags) {
                Some(t) => Err(GenError::TagCollision { decl: d.name.clone(), tag: t }),
                None => Ok(()),
            }
        },
    }
}

/// Checks one callable declaration: every reference resolves.
fn check_fn(ts: &Vec<TypeDecl>, f: &FunctionDecl) -> (r: Result<(), GenError>)
    ensures
        r is Ok <==> spec_fn_resolves(ts@, *f),
        r is Err ==> match r->Err_0 {
            GenError::UnresolvedType { decl, reference } => !spec_has_decl(ts@, reference@)
                && !spec_fn_resolves(ts@, *f),
            GenError::TagCollision { decl, tag } => false,
        },
{
    let mut i: usize = 0;
    while i < f.params.len()
        invariant
            0 <= i <= f.params.len(),
            forall|j: int| 0 <= j < i ==> spec_ref_resolves(ts@, f.params@[j].ty),
        decreases f.params.len() - i,
    {
        match ref_unresolved(ts, &f.params[i].ty) {
            Some(n) => {
                return Err(GenError::UnresolvedType { decl: f.name.clone(), reference: n });
            },
            None => {
            },
        }
        i = i + 1;
    }
    match &f.ret {
        Some(t) => {
            match ref_unresolved(ts, t) {
                Some(n) => {
                    return Err(GenError::UnresolvedType { decl: f.name.clone(), reference: n });
                },
                None => {
                },
            }
        },
        None => {
        },
    }
    let mut k: usize = 0;
    while k < f.channels.len()
        invariant
            0 <= k <= f.channels.len(),
            forall|j: int| 0 <= j < k ==> spec_ref_resolves(ts@, f.channels@[j].elem),
            forall|j: int| 0 <= j < f.params@.len() ==> spec_ref_resolves(ts@, f.params@[j].ty),
            match f.ret {
                Some(t) => spec_ref_resolves(ts@, t),
                None => true,
            },
        decreases f.channels.len() - k,
    {
        match ref_unresolved(ts, &f.channels[k].elem) {
            Some(n) => {
                return Err(GenError::UnresolvedType { decl: f.name.clone(), reference: n });
            },
            None => {
            },
        }
        k = k + 1;
    }
    Ok(())
}

/// Checks the whole model: generation may go ahead exactly when this
/// returns Ok.
pub fn check_model(m: &Model) -> (r: Result<(), GenError>)
    ensures
        r is Ok <==> spec_model_ok(*m),
        r is Err ==> match r->Err_0 {
            GenError::UnresolvedType { decl, reference } => !spec_has_decl(m.types@, reference@)
                && !spec_model_resolves(*m),
            GenError::TagCollision { decl, tag } => exists|i: int|
                0 <= i < m.types@.len() && !spec_decl_names_ok(m.types@[i]),
        },
{
    let mut i: usize = 0;
    while i < m.types.len()
        invariant
            0 <= i <= m.types.len(),
            forall|j: int|
                0 <= j < i ==> spec_decl_resolves(m.types@, m.types@[j]) && spec_decl_names_ok(
                    m.types@[j],
                ),
        decreases m.types.len() - i,
    {
        match check_decl(&m.types, &m.types[i]) {
            Err(e) => {
                proof {
                    if e is UnresolvedType {
                        assert(!spec_decl_resolves(m.types@, m.types@[i as int]));
                        assert(!spec_model_resolves(*m));
                    }
                }
                return Err(e);
            },
            Ok(()) => {
            },
        }
        i = i + 1;
    }
    let mut k: usize = 0;
    while k < m.functions.len()
        invariant
            0 <= k <= m.functions.len(),
            forall|j: int| 0 <= j < k ==> spec_fn_resolves(m.types@, m.functions@[j]),
            forall|j: int|
                0 <= j < m.types@.len() ==> spec_decl_resolves(m.types@, m.types@[j])
                    && spec_decl_names_ok(m.types@[j]),
        decreases m.functions.len() - k,
    {
        match check_fn(&m.types, &m.functions[k]) {
            Err(e) => {
                proof {
                    if e is UnresolvedType {
                        assert(!spec_fn_resolves(m.types@, m.functions@[k as int]));
                        assert(!spec_model_resolves(*m));
                    }
                }
                return Err(e);
            },
            Ok(()) => {
            },
        }
        k = k + 1;
    }
    Ok(())
}

/// Is every constraint of this field consistent with itself?
pub open spec fn spec_field_consistent(f: FieldDecl) -> bool {
    forall|k: int| 0 <= k < f.constraints@.len() ==> !spec_inconsistent(#[trigger] f.constraints@[k])
}

/// Is every constraint of this declaration consistent with itself?
pub open spec fn spec_decl_consistent(d: TypeDecl) -> bool {
    match d.body {
        TypeBody::Struct(fs) => forall|j: int|
            0 <= j < fs@.len() ==> spec_field_consistent(#[trigger] fs@[j]),
        TypeBody::Enum(vs) => true,
    }
}

/// Is every constraint anywhere in the model consistent with itself?
pub open spec fn spec_model_consistent(m: Model) -> bool {
    forall|i: int| 0 <= i < m.types@.len() ==> spec_decl_consistent(#[trigger] m.types@[i])
}

fn field_consistent(f: &FieldDecl) -> (r: bool)
    ensures
        r == spec_field_consistent(*f),
{
    let mut k: usize = 0;
    while k < f.constraints.len()
        invariant
            0 <= k <= f.constraints.len(),
            forall|kk: int| 0 <= kk < k ==> !spec_inconsistent(#[trigger] f.constraints@[kk]),
        decreases f.constraints.len() - k,
    {
        let inconsistent = match &f.constraints[k] {
            Constraint::Range { min: Some(a), max: Some(b) } => *a > *b,
            Constraint::Length { min: Some(a), max: Some(b) } => *a > *b,
            _ => false,
        };
        if inconsistent {
            return false;
        }
        k = k + 1;
    }
    true
}

/// Collects one warning for each field carrying a self-inconsistent
/// constraint; such a constraint is still emitted verbatim.
pub fn constraint_warnings(m: &Model) -> (r: Vec<Warning>)
    ensures
        r@.len() == 0 <==> spec_model_consistent(*m),
{
    let mut out: Vec<Warning> = Vec::new();
    let mut i: usize = 0;
    while i < m.types.len()
        invariant
            0 <= i <= m.types.len(),
            out@.len() == 0 <==> (forall|a: int|
                0 <= a < i ==> spec_decl_consistent(#[trigger] m.types@[a])),
        decreases m.types.len() - i,
    {
        let d = &m.types[i];
        match &d.body {
            TypeBody::Struct(fs) => {
                let mut j: usize = 0;
                while j < fs.len()
                    invariant
                        0 <= j <= fs.len(),
                        out@.len() == 0 <==> ((forall|a: int|
                            0 <= a < i ==> spec_decl_consistent(#[trigger] m.types@[a])) && (
                        forall|jj: int|
                            0 <= jj < j ==> spec_field_consistent(#[trigger] fs@[jj]))),
                    decreases fs.len() - j,
                {
                    let f = &fs[j];
                    if !field_consistent(f) {
                        out.push(
                            Warning {
                                decl: d.name.clone(),
                                field: f.name.clone(),
                                message: (
                                "constraint lower bound exceeds its upper bound").to_owned(),
                            },
                        );
                    }
                    j = j + 1;
                }
            },
            TypeBody::Enum(vs) => {
            },
        }
        i = i + 1;
    }
    out
}

impl GenError {
    /// A human-readable description naming the offending declaration.
    pub fn message(&self) -> (r: String)
        ensures
            match self {
                GenError::UnresolvedType { decl, reference } => r@ == "declaration '"@ + decl@
                    + "' references unknown type '"@ + reference@ + "'"@,
                GenError::TagCollision { decl, tag } => r@ == "declaration '"@ + decl@
                    + "' maps two members to the external name '"@ + tag@ + "'"@,
            },
    {
        let mut r = String::new();
        match self {
            GenError::UnresolvedType { decl, reference } => {
                r.append("declaration '");
                r.append(decl.as_str());
                r.append("' references unknown type '");
                r.append(reference.as_str());
                r.append("'");
                proof {
                    assert(r@ =~= "declaration '"@ + decl@ + "' references unknown type '"@
                        + reference@ + "'"@);
                }
            },
            GenError::TagCollision { decl, tag } => {
                r.append("declaration '");
                r.append(decl.as_str());
                r.append("' maps two members to the external name '");
                r.append(tag.as_str());
                r.append("'");
                proof {
                    assert(r@ =~= "declaration '"@ + decl@
                        + "' maps two members to the external name '"@ + tag@ + "'"@);
                }
            },
        }
        r
    }
}

} // verus!
