use vstd::prelude::*;

use crate::analyze::{check_model, spec_decl_names_ok, spec_has_decl, spec_model_ok, spec_model_resolves, GenError};
use crate::model::{Convention, FieldDecl, FunctionDecl, Model, TypeDecl};
use crate::schema::{emit_type_decl, spec_field_line, spec_type_decl_text};
use crate::signatures::{emit_function, spec_function_text};
use crate::validators::{emit_type_checks, spec_field_check_text, spec_type_checks_text};

verus! {

pub open spec fn spec_types_section_prefix(ts: Seq<TypeDecl>, i: int) -> Seq<char>
    decreases i,
{
    if i <= 0 {
        Seq::<char>::empty()
    } else {
        spec_types_section_prefix(ts, i - 1) + spec_type_decl_text(ts[i - 1])
    }
}

pub open spec fn spec_checks_section_prefix(ts: Seq<TypeDecl>, i: int) -> Seq<char>
    decreases i,
{
    if i <= 0 {
        Seq::<char>::empty()
    } else {
        spec_checks_section_prefix(ts, i - 1) + spec_type_checks_text(ts[i - 1])
    }
}

pub open spec fn spec_functions_section_prefix(fs: Seq<FunctionDecl>, i: int) -> Seq<char>
    decreases i,
{
    if i <= 0 {
        Seq::<char>::empty()
    } else {
        spec_functions_section_prefix(fs, i - 1) + spec_function_text(fs[i - 1])
    }
}

/// The whole emitted artifact: every type declaration in model order, then
/// every validator, then every callable signature.
pub open spec fn spec_output(m: Model) -> Seq<char> {
    spec_types_section_prefix(m.types@, m.types@.len() as int) + spec_checks_section_prefix(
        m.types@,
        m.types@.len() as int,
    ) + spec_functions_section_prefix(m.functions@, m.functions@.len() as int)
}

/// Runs the generator: checks the model and, exactly when it is fit for
/// emission, renders the whole artifact. A fatal fault aborts with no
/// partial output.
pub fn generate(m: &Model) -> (r: Result<String, GenError>)
    ensures
        r is Ok <==> spec_model_ok(*m),
        r is Ok ==> r->Ok_0@ == spec_output(*m),
        r is Err ==> match r->Err_0 {
            GenError::UnresolvedType { decl, reference } => !spec_has_decl(m.types@, reference@)
                && !spec_model_resolves(*m),
            GenError::TagCollision { decl, tag } => exists|i: int|
                0 <= i < m.types@.len() && !spec_decl_names_ok(m.types@[i]),
        },
{
    match check_model(m) {
        Err(e) => {
            return Err(e);
        },
        Ok(()) => {
        },
    }
    let mut out = String::new();
    let mut i: usize = 0;
    while i < m.types.len()
        invariant
            0 <= i <= m.types.len(),
            out@ == spec_types_section_prefix(m.types@, i as int),
        decreases m.types.len() - i,
    {
        emit_type_decl(&mut out, &m.types[i]);
        i = i + 1;
    }
    let ghost types_section = out@;
    let mut k: usize = 0;
    while k < m.types.len()
        invariant
            0 <= k <= m.types.len(),
            out@ == types_section + spec_checks_section_prefix(m.types@, k as int),
            types_section == spec_types_section_prefix(m.types@, m.types@.len() as int),
        decreases m.types.len() - k,
    {
        emit_type_checks(&mut out, &m.types[k]);
        proof {
            assert(out@ =~= types_section + (spec_checks_section_prefix(m.types@, k as int)
                + spec_type_checks_text(m.types@[k as int])));
        }
        k = k + 1;
    }
    let ghost two_sections = out@;
    let mut n: usize = 0;
    while n < m.functions.len()
        invariant
            0 <= n <= m.functions.len(),
            out@ == two_sections + spec_functions_section_prefix(m.functions@, n as int),
            two_sections == spec_types_section_prefix(m.types@, m.types@.len() as int)
                + spec_checks_section_prefix(m.types@, m.types@.len() as int),
        decreases m.functions.len() - n,
    {
        emit_function(&mut out, &m.functions[n]);
        proof {
            assert(out@ =~= two_sections + (spec_functions_section_prefix(m.functions@, n as int)
                + spec_function_text(m.functions@[n as int])));
        }
        n = n + 1;
    }
    proof {
        assert(out@ =~= spec_output(*m));
    }
    Ok(out)
}

/// Determinism: the emitted artifact is a function of the declaration
/// model alone, so running the generator again on an unchanged model
/// produces byte-identical output.
pub proof fn lemma_deterministic(m1: Model, m2: Model)
    requires
        m1 == m2,
    ensures
        spec_output(m1) == spec_output(m2),
{
}

/// A field marked skip contributes nothing at all to the emitted schema of
/// its owning struct and nothing to its emitted validator: the field's
/// external name appears in neither.
pub proof fn lemma_skip_emits_nothing(owner: Seq<char>, f: FieldDecl, conv: Convention)
    requires
        f.skip,
    ensures
        spec_field_line(f, conv) == Seq::<char>::empty(),
        spec_field_check_text(owner, f, conv) == Seq::<char>::empty(),
{
}

} // verus!
