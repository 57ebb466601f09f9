use vstd::prelude::*;

use crate::model::{ChannelDecl, FunctionDecl, ParamDecl};
use crate::schema::{emit_type_ref, spec_type_text};
use vstd::string::StringExecFns;

verus! {

/// The shape a fallible call resolves to: exactly one of a success value or
/// a failure message, never both.
pub enum CallOutcome<T> {
    Success(T),
    Failure(String),
}

/// A call outcome is exactly one of success and failure: a caller holding a
/// failure can never also read a success payload.
pub proof fn lemma_outcome_exclusive<T>(o: CallOutcome<T>)
    ensures
        (o is Success) <==> !(o is Failure),
{
}

/// One parameter with its separator.
pub open spec fn spec_param_at(ps: Seq<ParamDecl>, i: int) -> Seq<char> {
    (if i == 0 {
        Seq::<char>::empty()
    } else {
        ", "@
    }) + ps[i].name@ + (if ps[i].optional {
        "?"@
    } else {
        Seq::<char>::empty()
    }) + ": "@ + spec_type_text(ps[i].ty)
}

pub open spec fn spec_params_prefix(ps: Seq<ParamDecl>, i: int) -> Seq<char>
    decreases i,
{
    if i <= 0 {
        Seq::<char>::empty()
    } else {
        spec_params_prefix(ps, i - 1) + spec_param_at(ps, i - 1)
    }
}

/// The result shape: the return type directly for an infallible call, and a
/// two-armed result whose failure arm always carries a message string for a
/// fallible one.
pub open spec fn spec_result_text(f: FunctionDecl) -> Seq<char> {
    let base = match f.ret {
        Some(t) => spec_type_text(t),
        None => "unit"@,
    };
    if f.fallible {
        "result<"@ + base + ", string>"@
    } else {
        base
    }
}

/// One subscription handle per streaming channel, in declared order.
pub open spec fn spec_channel_at(cs: Seq<ChannelDecl>, i: int) -> Seq<char> {
    " subscribe "@ + cs[i].name@ + ": "@ + spec_type_text(cs[i].elem)
}

pub open spec fn spec_channels_prefix(cs: Seq<ChannelDecl>, i: int) -> Seq<char>
    decreases i,
{
    if i <= 0 {
        Seq::<char>::empty()
    } else {
        spec_channels_prefix(cs, i - 1) + spec_channel_at(cs, i - 1)
    }
}

/// The emitted signature for one callable declaration.
pub open spec fn spec_function_text(f: FunctionDecl) -> Seq<char> {
    (if f.asynchronous {
        "async "@
    } else {
        Seq::<char>::empty()
    }) + "function "@ + f.name@ + "("@ + spec_params_prefix(f.params@, f.params@.len() as int)
        + "): "@ + spec_result_text(f) + spec_channels_prefix(
        f.channels@,
        f.channels@.len() as int,
    ) + ";\n"@
}

/// Appends the emitted signature for one callable declaration.
#[verifier::rlimit(60)]
pub fn emit_function(out: &mut String, f: &FunctionDecl)
    ensures
        final(out)@ == old(out)@ + spec_function_text(*f),
{
    if f.asynchronous {
        out.append("async ");
    }
    out.append("function ");
    out.append(f.name.as_str());
    out.append("(");
    let ghost header = out@;
    let mut i: usize = 0;
    while i < f.params.len()
        invariant
            0 <= i <= f.params.len(),
            out@ == header + spec_params_prefix(f.params@, i as int),
        decreases f.params.len() - i,
    {
        let p = &f.params[i];
        if i > 0 {
            out.append(", ");
        }
        out.append(p.name.as_str());
        if p.optional {
            out.append("?");
        }
        out.append(": ");
        emit_type_ref(out, &p.ty);
        proof {
            assert(out@ =~= header + (spec_params_prefix(f.params@, i as int) + spec_param_at(
                f.params@,
                i as int,
            )));
        }
        i = i + 1;
    }
    out.append("): ");
    if f.fallible {
        out.append("result<");
        match &f.ret {
            Some(t) => emit_type_ref(out, t),
            None => out.append("unit"),
        }
        out.append(", string>");
    } else {
        match &f.ret {
            Some(t) => emit_type_ref(out, t),
            None => out.append("unit"),
        }
    }
    let ghost mid = header + spec_params_prefix(f.params@, f.params@.len() as int) + "): "@
        + spec_result_text(*f);
    proof {
        assert(out@ =~= mid);
    }
    let mut k: usize = 0;
    while k < f.channels.len()
        invariant
            0 <= k <= f.channels.len(),
            out@ == mid + spec_channels_prefix(f.channels@, k as int),
        decreases f.channels.len() - k,
    {
        let c = &f.channels[k];
        out.append(" subscribe ");
        out.append(c.name.as_str());
        out.append(": ");
        emit_type_ref(out, &c.elem);
        proof {
            assert(out@ =~= mid + (spec_channels_prefix(f.channels@, k as int) + spec_channel_at(
                f.channels@,
                k as int,
            )));
        }
        k = k + 1;
    }
    out.append(";\n");
    proof {
        assert(out@ =~= old(out)@ + spec_function_text(*f));
    }
}

} // verus!
