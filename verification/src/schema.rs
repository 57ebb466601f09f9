use vstd::prelude::*;

use crate::model::{Convention, FieldDecl, PrimType, TypeBody, TypeDecl, TypeRef, VariantDecl};
use crate::names::{external_name, spec_ext_name};
use vstd::string::StringExecFns;

verus! {

/// The rendering of a primitive type in the target language.
pub open spec fn spec_prim_text(p: PrimType) -> Seq<char> {
    match p {
        PrimType::Int32 => "int32"@,
        PrimType::Int64 => "int64"@,
        PrimType::Float64 => "float64"@,
        PrimType::Boolean => "bool"@,
        PrimType::Text => "string"@,
        PrimType::Bytes => "bytes"@,
    }
}

/// The rendering of a type reference in the target language.
pub open spec fn spec_type_text(t: TypeRef) -> Seq<char>
    decreases t,
{
    match t {
        TypeRef::Prim(p) => spec_prim_text(p),
        TypeRef::Decl(n) => n@,
        TypeRef::OptionalOf(inner) => "optional<"@ + spec_type_text(*inner) + ">"@,
        TypeRef::SequenceOf(inner) => "list<"@ + spec_type_text(*inner) + ">"@,
        TypeRef::MapOf(inner) => "map<string, "@ + spec_type_text(*inner) + ">"@,
    }
}

fn prim_str(p: &PrimType) -> (r: &'static str)
    ensures
        r@ == spec_prim_text(*p),
{
    match p {
        PrimType::Int32 => "int32",
        PrimType::Int64 => "int64",
        PrimType::Float64 => "float64",
        PrimType::Boolean => "bool",
        PrimType::Text => "string",
        PrimType::Bytes => "bytes",
    }
}

/// Appends the rendering of a type reference.
pub fn emit_type_ref(out: &mut String, t: &TypeRef)
    ensures
        final(out)@ == old(out)@ + spec_type_text(*t),
    decreases *t,
{
    match t {
        TypeRef::Prim(p) => {
            out.append(prim_str(p));
        },
        TypeRef::Decl(n) => {
            out.append(n.as_str());
        },
        TypeRef::OptionalOf(inner) => {
            out.append("optional<");
            emit_type_ref(out, &**inner);
            out.append(">");
            proof {
                assert(out@ =~= old(out)@ + spec_type_text(*t));
            }
        },
        TypeRef::SequenceOf(inner) => {
            out.append("list<");
            emit_type_ref(out, &**inner);
            out.append(">");
            proof {
                assert(out@ =~= old(out)@ + spec_type_text(*t));
            }
        },
        TypeRef::MapOf(inner) => {
            out.append("map<string, ");
            emit_type_ref(out, &**inner);
            out.append(">");
            proof {
                assert(out@ =~= old(out)@ + spec_type_text(*t));
            }
        },
    }
}

/// The effective external name of a field under the owning declaration's
/// convention.
pub open spec fn spec_field_ext(f: FieldDecl, conv: Convention) -> Seq<char> {
    spec_ext_name(f.name@, f.rename.deep_view(), conv)
}

/// The effective external tag of a variant under the owning declaration's
/// convention.
pub open spec fn spec_variant_ext(v: VariantDecl, conv: Convention) -> Seq<char> {
    spec_ext_name(v.name@, v.rename.deep_view(), conv)
}

/// One member line of an emitted record; a skipped field contributes
/// nothing at all.
pub open spec fn spec_field_line(f: FieldDecl, conv: Convention) -> Seq<char> {
    if f.skip {
        Seq::<char>::empty()
    } else {
        "  "@ + spec_field_ext(f, conv) + (if f.optional {
            "?"@
        } else {
            Seq::<char>::empty()
        }) + ": "@ + spec_type_text(f.ty) + ";\n"@
    }
}

pub open spec fn spec_field_lines_prefix(fs: Seq<FieldDecl>, conv: Convention, i: int) -> Seq<char>
    decreases i,
{
    if i <= 0 {
        Seq::<char>::empty()
    } else {
        spec_field_lines_prefix(fs, conv, i - 1) + spec_field_line(fs[i - 1], conv)
    }
}

/// Does every variant lack a payload?
pub open spec fn spec_all_unit(vs: Seq<VariantDecl>) -> bool {
    forall|i: int| 0 <= i < vs.len() ==> vs[i].payload is None
}

/// One tag of an all-unit enum, with its separator.
pub open spec fn spec_unit_tag_at(vs: Seq<VariantDecl>, conv: Convention, i: int) -> Seq<char> {
    (if i == 0 {
        " \""@
    } else {
        " | \""@
    }) + spec_variant_ext(vs[i], conv) + "\""@
}

pub open spec fn spec_unit_tags_prefix(vs: Seq<VariantDecl>, conv: Convention, i: int) -> Seq<char>
    decreases i,
{
    if i <= 0 {
        Seq::<char>::empty()
    } else {
        spec_unit_tags_prefix(vs, conv, i - 1) + spec_unit_tag_at(vs, conv, i - 1)
    }
}

/// One arm of a tagged union: the tag, and the payload type if any.
pub open spec fn spec_arm_line(v: VariantDecl, conv: Convention) -> Seq<char> {
    "  case \""@ + spec_variant_ext(v, conv) + "\""@ + (match v.payload {
        Some(t) => ": "@ + spec_type_text(t),
        None => Seq::<char>::empty(),
    }) + ";\n"@
}

pub open spec fn spec_arm_lines_prefix(vs: Seq<VariantDecl>, conv: Convention, i: int) -> Seq<char>
    decreases i,
{
    if i <= 0 {
        Seq::<char>::empty()
    } else {
        spec_arm_lines_prefix(vs, conv, i - 1) + spec_arm_line(vs[i - 1], conv)
    }
}

/// The emitted declaration for one type: a record for a struct, a closed
/// string union for an all-unit enum, a tagged union otherwise.
pub open spec fn spec_type_decl_text(d: TypeDecl) -> Seq<char> {
    match d.body {
        TypeBody::Struct(fs) => "record "@ + d.name@ + " {\n"@ + spec_field_lines_prefix(
            fs@,
            d.convention,
            fs@.len() as int,
        ) + "}\n"@,
        TypeBody::Enum(vs) => {
            if spec_all_unit(vs@) {
                "union "@ + d.name@ + " ="@ + spec_unit_tags_prefix(
                    vs@,
                    d.convention,
                    vs@.len() as int,
                ) + ";\n"@
            } else {
                "tagged union "@ + d.name@ + " {\n"@ + spec_arm_lines_prefix(
                    vs@,
                    d.convention,
                    vs@.len() as int,
                ) + "}\n"@
            }
        },
    }
}

fn all_unit(vs: &Vec<VariantDecl>) -> (r: bool)
    ensures
        r == spec_all_unit(vs@),
{
    let mut i: usize = 0;
    while i < vs.len()
        invariant
            0 <= i <= vs.len(),
            forall|j: int| 0 <= j < i ==> vs@[j].payload is None,
        decreases vs.len() - i,
    {
        if vs[i].payload.is_some() {
            return false;
        }
        i = i + 1;
    }
    true
}

/// Appends the emitted declaration for one type.
pub fn emit_type_decl(out: &mut String, d: &TypeDecl)
    ensures
        final(out)@ == old(out)@ + spec_type_decl_text(*d),
{
    match &d.body {
        TypeBody::Struct(fs) => {
            out.append("record ");
            out.append(d.name.as_str());
            out.append(" {\n");
            let ghost header = old(out)@ + "record "@ + d.name@ + " {\n"@;
            proof {
                assert(out@ =~= header);
            }
            let mut i: usize = 0;
            while i < fs.len()
                invariant
                    0 <= i <= fs.len(),
                    out@ == header + spec_field_lines_prefix(fs@, d.convention, i as int),
                decreases fs.len() - i,
            {
                let f = &fs[i];
                if !f.skip {
                    out.append("  ");
                    let ext = external_name(&f.name, &f.rename, d.convention);
                    out.append(ext.as_str());
                    if f.optional {
                        out.append("?");
                    }
                    out.append(": ");
                    emit_type_ref(out, &f.ty);
                    out.append(";\n");
                }
                proof {
                    assert(out@ =~= header + (spec_field_lines_prefix(fs@, d.convention, i as int)
                        + spec_field_line(fs@[i as int], d.convention)));
                }
                i = i + 1;
            }
            out.append("}\n");
            proof {
                assert(out@ =~= old(out)@ + spec_type_decl_text(*d));
            }
        },
        TypeBody::Enum(vs) => {
            if all_unit(vs) {
                out.append("union ");
                out.append(d.name.as_str());
                out.append(" =");
                let ghost header = old(out)@ + "union "@ + d.name@ + " ="@;
                proof {
                    assert(out@ =~= header);
                }
                let mut i: usize = 0;
                while i < vs.len()
                    invariant
                        0 <= i <= vs.len(),
                        out@ == header + spec_unit_tags_prefix(vs@, d.convention, i as int),
                    decreases vs.len() - i,
                {
                    let v = &vs[i];
                    if i == 0 {
                        out.append(" \"");
                    } else {
                        out.append(" | \"");
                    }
                    let ext = external_name(&v.name, &v.rename, d.convention);
                    out.append(ext.as_str());
                    out.append("\"");
                    proof {
                        assert(out@ =~= header + (spec_unit_tags_prefix(
                            vs@,
                            d.convention,
                            i as int,
                        ) + spec_unit_tag_at(vs@, d.convention, i as int)));
                    }
                    i = i + 1;
                }
                out.append(";\n");
                proof {
                    assert(out@ =~= old(out)@ + spec_type_decl_text(*d));
                }
            } else {
                out.append("tagged union ");
                out.append(d.name.as_str());
                out.append(" {\n");
                let ghost header = old(out)@ + "tagged union "@ + d.name@ + " {\n"@;
                proof {
                    assert(out@ =~= header);
                }
                let mut i: usize = 0;
                while i < vs.len()
                    invariant
                        0 <= i <= vs.len(),
                        out@ == header + spec_arm_lines_prefix(vs@, d.convention, i as int),
                    decreases vs.len() - i,
                {
                    let v = &vs[i];
                    out.append("  case \"");
                    let ext = external_name(&v.name, &v.rename, d.convention);
                    out.append(ext.as_str());
                    out.append("\"");
                    match &v.payload {
                        Some(t) => {
                            out.append(": ");
                            emit_type_ref(out, t);
                        },
                        None => {
                        },
                    }
                    out.append(";\n");
                    proof {
                        assert(out@ =~= header + (spec_arm_lines_prefix(vs@, d.convention, i as int)
                            + spec_arm_line(vs@[i as int], d.convention)));
                    }
                    i = i + 1;
                }
                out.append("}\n");
                proof {
                    assert(out@ =~= old(out)@ + spec_type_decl_text(*d));
                }
            }
        },
    }
}

} // verus!
