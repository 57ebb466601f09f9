use vstd::prelude::*;

use crate::model::Convention;
use crate::text::{lower_char, spec_lower, spec_upper, str_chars, string_from_chars, upper_char};

verus! {

/// Does some underscore occur strictly before position `i`?
pub open spec fn has_underscore_before(s: Seq<char>, i: int) -> bool {
    exists|j: int| 0 <= j < i && s[j] == '_'
}

/// What the character at position `i` contributes to the camel-case form:
/// underscores vanish, the first word is lowercased, and the character
/// right after an underscore is capitalized.
pub open spec fn spec_camel_at(s: Seq<char>, i: int) -> Seq<char> {
    let c = s[i];
    if c == '_' {
        Seq::empty()
    } else if !has_underscore_before(s, i) {
        seq![spec_lower(c)]
    } else if s[i - 1] == '_' {
        seq![spec_upper(c)]
    } else {
        seq![c]
    }
}

pub open spec fn spec_camel_prefix(s: Seq<char>, i: int) -> Seq<char>
    decreases i,
{
    if i <= 0 {
        Seq::<char>::empty()
    } else {
        spec_camel_prefix(s, i - 1) + spec_camel_at(s, i - 1)
    }
}

/// The camel-case form of an underscore-delimited name.
pub open spec fn spec_camel(s: Seq<char>) -> Seq<char> {
    spec_camel_prefix(s, s.len() as int)
}

/// The screaming-snake form: every letter uppercased, underscores kept.
pub open spec fn spec_screaming(s: Seq<char>) -> Seq<char> {
    Seq::new(s.len(), |i: int| spec_upper(s[i]))
}

/// The convention applied to a declared name.
pub open spec fn spec_apply_convention(conv: Convention, s: Seq<char>) -> Seq<char> {
    match conv {
        Convention::AsDeclared => s,
        Convention::Camel => spec_camel(s),
        Convention::ScreamingSnake => spec_screaming(s),
    }
}

/// The effective external name: an explicit rename wins outright, otherwise
/// the convention is applied to the declared name.
pub open spec fn spec_ext_name(
    name: Seq<char>,
    rename: Option<Seq<char>>,
    conv: Convention,
) -> Seq<char> {
    match rename {
        Some(r) => r,
        None => spec_apply_convention(conv, name),
    }
}

/// An explicit rename override determines the external name outright,
/// whatever the owning declaration's naming convention says.
pub proof fn lemma_override_wins(name: Seq<char>, rename: Seq<char>, conv: Convention)
    ensures
        spec_ext_name(name, Some(rename), conv) == rename,
{
}

pub fn camel_chars(v: &Vec<char>) -> (r: Vec<char>)
    ensures
        r@ == spec_camel(v@),
{
    let mut out: Vec<char> = Vec::new();
    let mut seen: bool = false;
    let mut i: usize = 0;
    while i < v.len()
        invariant
            0 <= i <= v.len(),
            seen == has_underscore_before(v@, i as int),
            out@ == spec_camel_prefix(v@, i as int),
        decreases v.len() - i,
    {
        let c = v[i];
        if c == '_' {
            proof {
                assert(spec_camel_at(v@, i as int) =~= Seq::<char>::empty());
                assert(out@ + Seq::<char>::empty() =~= out@);
            }
        } else if !seen {
            out.push(lower_char(c));
        } else {
            proof {
                let j = choose|j: int| 0 <= j < i && v@[j] == '_';
                assert(i >= 1);
            }
            if v[i - 1] == '_' {
                out.push(upper_char(c));
            } else {
                out.push(c);
            }
        }
        proof {
            if seen || c == '_' {
                if c == '_' {
                    assert(v@[i as int] == '_');
                    assert(has_underscore_before(v@, i + 1));
                } else {
                    let j = choose|j: int| 0 <= j < i && v@[j] == '_';
                    assert(0 <= j < i + 1 && v@[j] == '_');
                    assert(has_underscore_before(v@, i + 1));
                }
            } else {
                assert(!has_underscore_before(v@, i + 1)) by {
                    if has_underscore_before(v@, i + 1) {
                        let j = choose|j: int| 0 <= j < i + 1 && v@[j] == '_';
                        if j < i {
                            assert(has_underscore_before(v@, i as int));
                        } else {
                            assert(v@[i as int] == '_');
                        }
                    }
                }
            }
        }
        seen = seen || c == '_';
        i = i + 1;
    }
    out
}

pub fn screaming_chars(v: &Vec<char>) -> (r: Vec<char>)
    ensures
        r@ == spec_screaming(v@),
{
    let mut out: Vec<char> = Vec::new();
    let mut i: usize = 0;
    while i < v.len()
        invariant
            0 <= i <= v.len(),
            out@.len() == i,
            forall|j: int| 0 <= j < i ==> out@[j] == spec_upper(v@[j]),
        decreases v.len() - i,
    {
        out.push(upper_char(v[i]));
        i = i + 1;
    }
    proof {
        assert(out@ =~= spec_screaming(v@));
    }
    out
}

/// Applies the convention to a declared name.
pub fn apply_convention(conv: Convention, name: &String) -> (r: String)
    ensures
        r@ == spec_apply_convention(conv, name@),
{
    match conv {
        Convention::AsDeclared => name.clone(),
        Convention::Camel => {
            let cs = str_chars(name.as_str());
            let t = camel_chars(&cs);
            string_from_chars(&t)
        },
        Convention::ScreamingSnake => {
            let cs = str_chars(name.as_str());
            let t = screaming_chars(&cs);
            string_from_chars(&t)
        },
    }
}

/// Computes the effective external name of a declared name under a
/// convention and an optional explicit rename.
pub fn external_name(name: &String, rename: &Option<String>, conv: Convention) -> (r: String)
    ensures
        r@ == spec_ext_name(name@, rename.deep_view(), conv),
        rename is Some ==> r@ == rename->0@,
{
    match rename {
        Some(r) => r.clone(),
        None => apply_convention(conv, name),
    }
}

} // verus!
