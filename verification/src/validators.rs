use vstd::prelude::*;

use crate::model::{Constraint, Convention, FieldDecl, MatchMode, TypeBody, TypeDecl};
use crate::names::external_name;
use crate::schema::spec_field_ext;
use crate::text::{dec_i64, dec_u64, spec_dec_int, spec_dec_nat, string_from_chars};
use vstd::string::StringExecFns;

verus! {

/// The rendering of a pair of optional bounds, lower one first.
pub open spec fn spec_bounds_text(min: Option<Seq<char>>, max: Option<Seq<char>>) -> Seq<char> {
    match (min, max) {
        (None, None) => Seq::<char>::empty(),
        (Some(a), None) => "min="@ + a,
        (None, Some(b)) => "max="@ + b,
        (Some(a), Some(b)) => "min="@ + a + ", max="@ + b,
    }
}

/// The rendering of one constraint in the target language.
pub open spec fn spec_constraint_text(c: Constraint) -> Seq<char> {
    match c {
        Constraint::Range { min, max } => "range("@ + spec_bounds_text(
            match min {
                Some(a) => Some(spec_dec_int(a as int)),
                None => None,
            },
            match max {
                Some(b) => Some(spec_dec_int(b as int)),
                None => None,
            },
        ) + ")"@,
        Constraint::Length { min, max } => "length("@ + spec_bounds_text(
            match min {
                Some(a) => Some(spec_dec_nat(a as nat)),
                None => None,
            },
            match max {
                Some(b) => Some(spec_dec_nat(b as nat)),
                None => None,
            },
        ) + ")"@,
        Constraint::Pattern { pattern, mode } => "pattern("@ + (match mode {
            MatchMode::Full => "full"@,
            MatchMode::Partial => "partial"@,
        }) + ", /"@ + pattern@ + "/)"@,
        Constraint::Email => "email"@,
    }
}

/// One constraint with its separator: constraints of one field are joined
/// with a logical AND.
pub open spec fn spec_constraint_at(cs: Seq<Constraint>, i: int) -> Seq<char> {
    (if i == 0 {
        Seq::<char>::empty()
    } else {
        " and "@
    }) + spec_constraint_text(cs[i])
}

pub open spec fn spec_constraints_prefix(cs: Seq<Constraint>, i: int) -> Seq<char>
    decreases i,
{
    if i <= 0 {
        Seq::<char>::empty()
    } else {
        spec_constraints_prefix(cs, i - 1) + spec_constraint_at(cs, i - 1)
    }
}

/// The emitted check for one field: nothing for a skipped field, and
/// nothing for a field without constraints (absence, not a vacuous check).
pub open spec fn spec_field_check_text(
    owner: Seq<char>,
    f: FieldDecl,
    conv: Convention,
) -> Seq<char> {
    if f.skip || f.constraints@.len() == 0 {
        Seq::<char>::empty()
    } else {
        "check "@ + owner + "."@ + spec_field_ext(f, conv) + ": "@ + spec_constraints_prefix(
            f.constraints@,
            f.constraints@.len() as int,
        ) + ";\n"@
    }
}

pub open spec fn spec_field_checks_prefix(
    owner: Seq<char>,
    fs: Seq<FieldDecl>,
    conv: Convention,
    i: int,
) -> Seq<char>
    decreases i,
{
    if i <= 0 {
        Seq::<char>::empty()
    } else {
        spec_field_checks_prefix(owner, fs, conv, i - 1) + spec_field_check_text(
            owner,
            fs[i - 1],
            conv,
        )
    }
}

/// The emitted checks for one type declaration: one line per constrained,
/// non-skipped struct field; enums carry no constraints.
pub open spec fn spec_type_checks_text(d: TypeDecl) -> Seq<char> {
    match d.body {
        TypeBody::Struct(fs) => spec_field_checks_prefix(
            d.name@,
            fs@,
            d.convention,
            fs@.len() as int,
        ),
        TypeBody::Enum(vs) => Seq::<char>::empty(),
    }
}

fn emit_i64_bound(out: &mut String, b: i64)
    ensures
        final(out)@ == old(out)@ + spec_dec_int(b as int),
{
    let cs = dec_i64(b);
    let s = string_from_chars(&cs);
    out.append(s.as_str());
}

fn emit_u64_bound(out: &mut String, b: u64)
    ensures
        final(out)@ == old(out)@ + spec_dec_nat(b as nat),
{
    let cs = dec_u64(b);
    let s = string_from_chars(&cs);
    out.append(s.as_str());
}

/// Appends the rendering of one constraint.
pub fn emit_constraint(out: &mut String, c: &Constraint)
    ensures
        final(out)@ == old(out)@ + spec_constraint_text(*c),
{
    match c {
        Constraint::Range { min, max } => {
            out.append("range(");
            match (min, max) {
                (None, None) => {
                },
                (Some(a), None) => {
                    out.append("min=");
                    emit_i64_bound(out, *a);
                },
                (None, Some(b)) => {
                    out.append("max=");
                    emit_i64_bound(out, *b);
                },
                (Some(a), Some(b)) => {
                    out.append("min=");
                    emit_i64_bound(out, *a);
                    out.append(", max=");
                    emit_i64_bound(out, *b);
                },
            }
            out.append(")");
            proof {
                assert(out@ =~= old(out)@ + spec_constraint_text(*c));
            }
        },
        Constraint::Length { min, max } => {
            out.append("length(");
            match (min, max) {
                (None, None) => {
                },
                (Some(a), None) => {
                    out.append("min=");
                    emit_u64_bound(out, *a);
                },
                (None, Some(b)) => {
                    out.append("max=");
                    emit_u64_bound(out, *b);
                },
                (Some(a), Some(b)) => {
                    out.append("min=");
                    emit_u64_bound(out, *a);
                    out.append(", max=");
                    emit_u64_bound(out, *b);
                },
            }
            out.append(")");
            proof {
                assert(out@ =~= old(out)@ + spec_constraint_text(*c));
            }
        },
        Constraint::Pattern { pattern, mode } => {
            out.append("pattern(");
            match mode {
                MatchMode::Full => out.append("full"),
                MatchMode::Partial => out.append("partial"),
            }
            out.append(", /");
            out.append(pattern.as_str());
            out.append("/)");
            proof {
                assert(out@ =~= old(out)@ + spec_constraint_text(*c));
            }
        },
        Constraint::Email => {
            out.append("email");
        },
    }
}

/// Appends the emitted checks for one type declaration.
pub fn emit_type_checks(out: &mut String, d: &TypeDecl)
    ensures
        final(out)@ == old(out)@ + spec_type_checks_text(*d),
{
    match &d.body {
        TypeBody::Struct(fs) => {
            let ghost base = old(out)@;
            let mut i: usize = 0;
            while i < fs.len()
                invariant
                    0 <= i <= fs.len(),
                    out@ == base + spec_field_checks_prefix(d.name@, fs@, d.convention, i as int),
                decreases fs.len() - i,
            {
                let f = &fs[i];
                if !f.skip && f.constraints.len() > 0 {
                    out.append("check ");
                    out.append(d.name.as_str());
                    out.append(".");
                    let ext = external_name(&f.name, &f.rename, d.convention);
                    out.append(ext.as_str());
                    out.append(": ");
                    let ghost chead = out@;
                    let mut k: usize = 0;
                    while k < f.constraints.len()
                        invariant
                            0 <= k <= f.constraints.len(),
                            out@ == chead + spec_constraints_prefix(f.constraints@, k as int),
                        decreases f.constraints.len() - k,
                    {
                        if k > 0 {
                            out.append(" and ");
                        }
                        emit_constraint(out, &f.constraints[k]);
                        proof {
                            assert(out@ =~= chead + (spec_constraints_prefix(
                                f.constraints@,
                                k as int,
                            ) + spec_constraint_at(f.constraints@, k as int)));
                        }
                        k = k + 1;
                    }
                    out.append(";\n");
                }
                proof {
                    assert(out@ =~= base + (spec_field_checks_prefix(
                        d.name@,
                        fs@,
                        d.convention,
                        i as int,
                    ) + spec_field_check_text(d.name@, fs@[i as int], d.convention)));
                }
                i = i + 1;
            }
        },
        TypeBody::Enum(vs) => {
        },
    }
}

} // verus!
