use vstd::prelude::*;

use crate::model::{Constraint, Convention, FieldDecl, MatchMode, Model, TypeBody, TypeDecl, TypeRef};
use crate::names::external_name;
use crate::schema::spec_field_ext;
use crate::text::{dec_u64, spec_dec_nat, str_chars, string_from_chars};
use vstd::string::StringExecFns;

verus! {

broadcast use vstd::seq::axiom_seq_index_decreases, vstd::std_specs::vec::axiom_vec_index_decreases;

/// Whether the regular expression engine accepts a pattern: a function of
/// the pattern text alone.
pub uninterp spec fn pattern_valid(pat: Seq<char>) -> bool;

/// Whether a pattern matches somewhere in a text: a function of the
/// pattern and the text alone.
pub uninterp spec fn pattern_matches(pat: Seq<char>, text: Seq<char>) -> bool;

/// Whether a string is a syntactically valid email address under the
/// address grammar the validation library documents (the HTML5 one).
pub uninterp spec fn email_valid(s: Seq<char>) -> bool;

#[verifier::external_type_specification]
#[verifier::external_body]
pub struct ExRegex(regex::Regex);

/// A compiled pattern: the engine's compiled form together with the
/// pattern text it was compiled from, so that contracts can speak of the
/// pattern.
pub struct CompiledPattern {
    pattern: String,
    engine: regex::Regex,
}

impl CompiledPattern {
    pub closed spec fn spec_pattern(&self) -> Seq<char> {
        self.pattern@
    }

    /// Relies on regex::Regex::new: whether a pattern compiles depends on
    /// the pattern text alone.
    #[verifier::external_body]
    pub(crate) fn compile(pat: &String) -> (r: Option<CompiledPattern>)
        ensures
            r is Some <==> pattern_valid(pat@),
            r is Some ==> r->0.spec_pattern() == pat@,
    {
        match regex::Regex::new(pat.as_str()) {
            Ok(engine) => Some(CompiledPattern { pattern: pat.clone(), engine }),
            Err(_) => None,
        }
    }

    /// Relies on regex::Regex::is_match: whether the pattern matches
    /// somewhere in the text depends on the pattern and the text alone.
    #[verifier::external_body]
    pub(crate) fn is_match(&self, text: &String) -> (r: bool)
        ensures
            r == pattern_matches(self.spec_pattern(), text@),
    {
        self.engine.is_match(text.as_str())
    }
}

/// Relies on validator's ValidateEmail for String: validity of an address
/// depends on its characters alone.
#[verifier::external_body]
fn email_check(s: &String) -> (r: bool)
    ensures
        r == email_valid(s@),
{
    validator::ValidateEmail::validate_email(s)
}

/// A plain value as it arrives from outside; absent stands for a member
/// that the input did not supply.
#[derive(Debug)]
pub enum Value {
    IntV(i64),
    TextV(String),
    BoolV(bool),
    ListV(Vec<Value>),
    RecordV(Vec<(String, Value)>),
    AbsentV,
}

/// One reported failure: the external name of the field at fault and a
/// message naming the violated bound.
#[derive(Debug)]
pub struct Violation {
    pub path: String,
    pub message: String,
}

/// A full-match check wraps the pattern in an anchored non-capturing
/// group.
pub open spec fn spec_anchored(p: Seq<char>) -> Seq<char> {
    "^(?:"@ + p + ")$"@
}

/// The pattern text a pattern constraint is checked with, per its declared
/// match mode.
pub open spec fn spec_effective_pattern(p: Seq<char>, mode: MatchMode) -> Seq<char> {
    match mode {
        MatchMode::Full => spec_anchored(p),
        MatchMode::Partial => p,
    }
}

/// Does a present value satisfy one constraint?
pub open spec fn spec_constraint_ok(c: Constraint, v: Value) -> bool {
    match c {
        Constraint::Range { min, max } => match v {
            Value::IntV(x) => (match min {
                Some(a) => a <= x,
                None => true,
            }) && (match max {
                Some(b) => x <= b,
                None => true,
            }),
            _ => false,
        },
        Constraint::Length { min, max } => match v {
            Value::TextV(s) => (match min {
                Some(a) => a <= s@.len(),
                None => true,
            }) && (match max {
                Some(b) => s@.len() <= b,
                None => true,
            }),
            Value::ListV(items) => (match min {
                Some(a) => a <= items@.len(),
                None => true,
            }) && (match max {
                Some(b) => items@.len() <= b,
                None => true,
            }),
            _ => false,
        },
        Constraint::Pattern { pattern, mode } => match v {
            Value::TextV(s) => pattern_valid(spec_effective_pattern(pattern@, mode))
                && pattern_matches(spec_effective_pattern(pattern@, mode), s@),
            _ => false,
        },
        Constraint::Email => match v {
            Value::TextV(s) => email_valid(s@),
            _ => false,
        },
    }
}

/// The message reported when a constraint is not satisfied, naming the
/// violated bound.
pub open spec fn spec_violation_msg(c: Constraint, v: Value) -> Seq<char> {
    match c {
        Constraint::Range { min, max } => match v {
            Value::IntV(x) => if min is Some && x < min->0 {
                "below the declared min"@
            } else {
                "above the declared max"@
            },
            _ => "value does not have the constrained shape"@,
        },
        Constraint::Length { min, max } => match v {
            Value::TextV(s) => if min is Some && s@.len() < min->0 {
                "shorter than the declared min length"@
            } else {
                "longer than the declared max length"@
            },
            Value::ListV(items) => if min is Some && items@.len() < min->0 {
                "shorter than the declared min length"@
            } else {
                "longer than the declared max length"@
            },
            _ => "value does not have the constrained shape"@,
        },
        Constraint::Pattern { pattern, mode } => match v {
            Value::TextV(s) => if !pattern_valid(spec_effective_pattern(pattern@, mode)) {
                "pattern does not compile"@
            } else {
                "does not match the declared pattern"@
            },
            _ => "value does not have the constrained shape"@,
        },
        Constraint::Email => match v {
            Value::TextV(s) => "not a valid email address"@,
            _ => "value does not have the constrained shape"@,
        },
    }
}

fn in_u64_bounds(n: usize, min: &Option<u64>, max: &Option<u64>) -> (r: bool)
    ensures
        r == ((match min {
            Some(a) => *a <= n as nat,
            None => true,
        }) && (match max {
            Some(b) => n as nat <= *b,
            None => true,
        })),
{
    let lo_ok = match min {
        Some(a) => *a <= n as u64,
        None => true,
    };
    let hi_ok = match max {
        Some(b) => n as u64 <= *b,
        None => true,
    };
    lo_ok && hi_ok
}

fn below_u64_min(n: usize, min: &Option<u64>) -> (r: bool)
    ensures
        r == (min is Some && (n as nat) < min->0),
{
    match min {
        Some(a) => (n as u64) < *a,
        None => false,
    }
}

/// Checks one constraint against a present value, returning the violation
/// message if it is not satisfied.
pub fn check_constraint(c: &Constraint, v: &Value) -> (r: Option<String>)
    ensures
        r is None <==> spec_constraint_ok(*c, *v),
        r is Some ==> r->0@ == spec_violation_msg(*c, *v),
{
    match c {
        Constraint::Range { min, max } => match v {
            Value::IntV(x) => {
                let lo_ok = match min {
                    Some(a) => *a <= *x,
                    None => true,
                };
                let hi_ok = match max {
                    Some(b) => *x <= *b,
                    None => true,
                };
                if lo_ok && hi_ok {
                    None
                } else if !lo_ok {
                    Some(("below the declared min").to_owned())
                } else {
                    Some(("above the declared max").to_owned())
                }
            },
            _ => Some(("value does not have the constrained shape").to_owned()),
        },
        Constraint::Length { min, max } => match v {
            Value::TextV(s) => {
                let chars = str_chars(s.as_str());
                if in_u64_bounds(chars.len(), min, max) {
                    None
                } else if below_u64_min(chars.len(), min) {
                    Some(("shorter than the declared min length").to_owned())
                } else {
                    Some(("longer than the declared max length").to_owned())
                }
            },
            Value::ListV(items) => {
                if in_u64_bounds(items.len(), min, max) {
                    None
                } else if below_u64_min(items.len(), min) {
                    Some(("shorter than the declared min length").to_owned())
                } else {
                    Some(("longer than the declared max length").to_owned())
                }
            },
            _ => Some(("value does not have the constrained shape").to_owned()),
        },
        Constraint::Pattern { pattern, mode } => match v {
            Value::TextV(s) => {
                let effective: String = match mode {
                    MatchMode::Full => {
                        let mut p = String::new();
                        p.append("^(?:");
                        p.append(pattern.as_str());
                        p.append(")$");
                        proof {
                            assert(p@ =~= spec_anchored(pattern@));
                        }
                        p
                    },
                    MatchMode::Partial => pattern.clone(),
                };
                match CompiledPattern::compile(&effective) {
                    None => Some(("pattern does not compile").to_owned()),
                    Some(cp) => {
                        if cp.is_match(s) {
                            None
                        } else {
                            Some(("does not match the declared pattern").to_owned())
                        }
                    },
                }
            },
            _ => Some(("value does not have the constrained shape").to_owned()),
        },
        Constraint::Email => match v {
            Value::TextV(s) => {
                if email_check(s) {
                    None
                } else {
                    Some(("not a valid email address").to_owned())
                }
            },
            _ => Some(("value does not have the constrained shape").to_owned()),
        },
    }
}

/// The view of a violation list: pairs of field path and message.
pub open spec fn spec_viol_views(r: Seq<Violation>) -> Seq<(Seq<char>, Seq<char>)> {
    Seq::new(r.len(), |i: int| (r[i].path@, r[i].message@))
}

/// What one field's check reports for its first `i` constraints: the
/// field's external name paired with the message of each violated one.
pub open spec fn spec_field_report_prefix(
    f: FieldDecl,
    conv: Convention,
    v: Value,
    i: int,
) -> Seq<(Seq<char>, Seq<char>)>
    decreases i,
{
    if i <= 0 {
        Seq::<(Seq<char>, Seq<char>)>::empty()
    } else {
        spec_field_report_prefix(f, conv, v, i - 1) + (if spec_constraint_ok(
            f.constraints@[i - 1],
            v,
        ) {
            Seq::<(Seq<char>, Seq<char>)>::empty()
        } else {
            seq![(spec_field_ext(f, conv), spec_violation_msg(f.constraints@[i - 1], v))]
        })
    }
}

/// What one field's check reports: nothing for an absent optional value,
/// one entry for an absent required value, and otherwise one entry per
/// violated constraint, all under the field's external name.
pub open spec fn spec_field_report(f: FieldDecl, conv: Convention, v: Value) -> Seq<
    (Seq<char>, Seq<char>),
> {
    if v is AbsentV {
        if f.optional {
            Seq::<(Seq<char>, Seq<char>)>::empty()
        } else {
            seq![(spec_field_ext(f, conv), "required value is absent"@)]
        }
    } else {
        spec_field_report_prefix(f, conv, v, f.constraints@.len() as int)
    }
}

/// Checks every constraint of one field against the value supplied for it,
/// collecting all failures rather than stopping at the first.
pub fn check_field(f: &FieldDecl, conv: Convention, v: &Value) -> (r: Vec<Violation>)
    ensures
        spec_viol_views(r@) == spec_field_report(*f, conv, *v),
{
    let mut out: Vec<Violation> = Vec::new();
    let ext = external_name(&f.name, &f.rename, conv);
    if matches!(v, Value::AbsentV) {
        if !f.optional {
            out.push(Violation { path: ext, message: ("required value is absent").to_owned() });
        }
        proof {
            assert(spec_viol_views(out@) =~= spec_field_report(*f, conv, *v));
        }
        return out;
    }
    let mut k: usize = 0;
    while k < f.constraints.len()
        invariant
            0 <= k <= f.constraints.len(),
            !(v is AbsentV),
            ext@ == spec_field_ext(*f, conv),
            spec_viol_views(out@) == spec_field_report_prefix(*f, conv, *v, k as int),
        decreases f.constraints.len() - k,
    {
        match check_constraint(&f.constraints[k], v) {
            Some(msg) => {
                out.push(Violation { path: ext.clone(), message: msg });
            },
            None => {
            },
        }
        proof {
            assert(spec_viol_views(out@) =~= spec_field_report_prefix(*f, conv, *v, k + 1));
        }
        k = k + 1;
    }
    out
}

/// The value supplied for a key: the first entry bearing it, absent if
/// none does.
pub open spec fn spec_lookup(entries: Seq<(String, Value)>, key: Seq<char>) -> Value
    decreases entries.len(),
{
    if entries.len() == 0 {
        Value::AbsentV
    } else if entries[0].0@ == key {
        entries[0].1
    } else {
        spec_lookup(entries.drop_first(), key)
    }
}

proof fn lemma_lookup_found(entries: Seq<(String, Value)>, key: Seq<char>, i: int)
    requires
        0 <= i < entries.len(),
        entries[i].0@ == key,
        forall|j: int| 0 <= j < i ==> (#[trigger] entries[j]).0@ != key,
    ensures
        spec_lookup(entries, key) == entries[i].1,
    decreases i,
{
    if i > 0 {
        assert(entries[0].0@ != key);
        let rest = entries.drop_first();
        assert forall|j: int| 0 <= j < i - 1 implies (#[trigger] rest[j]).0@ != key by {
            assert(rest[j] == entries[j + 1]);
        }
        assert(rest[i - 1] == entries[i]);
        lemma_lookup_found(rest, key, i - 1);
    }
}

proof fn lemma_lookup_absent(entries: Seq<(String, Value)>, key: Seq<char>)
    requires
        forall|j: int| 0 <= j < entries.len() ==> (#[trigger] entries[j]).0@ != key,
    ensures
        spec_lookup(entries, key) is AbsentV,
    decreases entries.len(),
{
    if entries.len() > 0 {
        let rest = entries.drop_first();
        assert forall|j: int| 0 <= j < rest.len() implies (#[trigger] rest[j]).0@ != key by {
            assert(rest[j] == entries[j + 1]);
        }
        lemma_lookup_absent(rest, key);
    }
}

fn lookup_index(entries: &Vec<(String, Value)>, key: &String) -> (r: Option<usize>)
    ensures
        match r {
            Some(ix) => ix < entries@.len() && spec_lookup(entries@, key@) == entries@[ix as int].1
                && ix as int == spec_lookup_index(entries@, key@),
            None => spec_lookup(entries@, key@) is AbsentV && spec_lookup_index(entries@, key@)
                < 0,
        },
{
    let mut i: usize = 0;
    while i < entries.len()
        invariant
            0 <= i <= entries.len(),
            forall|j: int| 0 <= j < i ==> (#[trigger] entries@[j]).0@ != key@,
        decreases entries.len() - i,
    {
        if entries[i].0.eq(key) {
            proof {
                lemma_lookup_found(entries@, key@, i as int);
                lemma_lookup_index_found(entries@, key@, i as int);
            }
            return Some(i);
        }
        i = i + 1;
    }
    proof {
        lemma_lookup_absent(entries@, key@);
        lemma_lookup_index_none(entries@, key@);
    }
    None
}

/// What a whole struct's check reports for its first `i` fields: skipped
/// fields contribute nothing; every other field is checked against the
/// value supplied under its external name.
pub open spec fn spec_struct_report_prefix(
    fs: Seq<FieldDecl>,
    conv: Convention,
    entries: Seq<(String, Value)>,
    i: int,
) -> Seq<(Seq<char>, Seq<char>)>
    decreases i,
{
    if i <= 0 {
        Seq::<(Seq<char>, Seq<char>)>::empty()
    } else {
        spec_struct_report_prefix(fs, conv, entries, i - 1) + (if fs[i - 1].skip {
            Seq::<(Seq<char>, Seq<char>)>::empty()
        } else {
            spec_field_report(
                fs[i - 1],
                conv,
                spec_lookup(entries, spec_field_ext(fs[i - 1], conv)),
            )
        })
    }
}

/// What a whole struct's check reports; an empty report means the input is
/// valid.
pub open spec fn spec_struct_report(
    fs: Seq<FieldDecl>,
    conv: Convention,
    entries: Seq<(String, Value)>,
) -> Seq<(Seq<char>, Seq<char>)> {
    spec_struct_report_prefix(fs, conv, entries, fs.len() as int)
}

/// The aggregate validator of one struct: checks every non-skipped field
/// against the entries supplied from outside, keyed by external name, and
/// collects all failures rather than stopping at the first.
pub fn check_struct(fs: &Vec<FieldDecl>, conv: Convention, entries: &Vec<(String, Value)>) -> (r:
    Vec<Violation>)
    ensures
        spec_viol_views(r@) == spec_struct_report(fs@, conv, entries@),
{
    let absent = Value::AbsentV;
    let mut out: Vec<Violation> = Vec::new();
    let mut i: usize = 0;
    while i < fs.len()
        invariant
            0 <= i <= fs.len(),
            absent is AbsentV,
            spec_viol_views(out@) == spec_struct_report_prefix(fs@, conv, entries@, i as int),
        decreases fs.len() - i,
    {
        let f = &fs[i];
        if !f.skip {
            let ext = external_name(&f.name, &f.rename, conv);
            let v: &Value = match lookup_index(entries, &ext) {
                Some(ix) => &entries[ix].1,
                None => &absent,
            };
            let mut sub = check_field(f, conv, v);
            let ghost pre = out@;
            let ghost subv = sub@;
            out.append(&mut sub);
            proof {
                assert forall|n: int|
                    0 <= n < out@.len() implies #[trigger] spec_viol_views(out@)[n] == (
                spec_viol_views(pre) + spec_viol_views(subv))[n] by {
                    if n < pre.len() {
                        assert(out@[n] == pre[n]);
                    } else {
                        assert(out@[n] == subv[n - pre.len()]);
                    }
                }
                assert(spec_viol_views(out@) =~= spec_viol_views(pre) + spec_viol_views(subv));
                assert(spec_viol_views(out@) =~= spec_struct_report_prefix(
                    fs@,
                    conv,
                    entries@,
                    i + 1,
                ));
            }
        }
        i = i + 1;
    }
    out
}

proof fn lemma_field_report_props(f: FieldDecl, conv: Convention, v: Value, i: int)
    requires
        0 <= i <= f.constraints@.len(),
        !(v is AbsentV),
    ensures
        (spec_field_report_prefix(f, conv, v, i).len() == 0 <==> (forall|k: int|
            0 <= k < i ==> spec_constraint_ok(#[trigger] f.constraints@[k], v))),
        forall|n: int|
            0 <= n < spec_field_report_prefix(f, conv, v, i).len() ==> (
            #[trigger] spec_field_report_prefix(f, conv, v, i)[n]).0 == spec_field_ext(f, conv),
        forall|k: int|
            0 <= k < i && !spec_constraint_ok(#[trigger] f.constraints@[k], v) ==> exists|n: int|
                0 <= n < spec_field_report_prefix(f, conv, v, i).len()
                    && spec_field_report_prefix(f, conv, v, i)[n] == (
                spec_field_ext(f, conv),
                spec_violation_msg(f.constraints@[k], v),
                ),
    decreases i,
{
    if i > 0 {
        lemma_field_report_props(f, conv, v, i - 1);
        let prev = spec_field_report_prefix(f, conv, v, i - 1);
        let cur = spec_field_report_prefix(f, conv, v, i);
        assert forall|k: int|
            0 <= k < i && !spec_constraint_ok(#[trigger] f.constraints@[k], v) implies exists|
        n: int|
            0 <= n < cur.len() && cur[n] == (
            spec_field_ext(f, conv),
            spec_violation_msg(f.constraints@[k], v),
            ) by {
            if k < i - 1 {
                let n = choose|n: int|
                    0 <= n < prev.len() && prev[n] == (
                    spec_field_ext(f, conv),
                    spec_violation_msg(f.constraints@[k], v),
                    );
                assert(cur[n] == prev[n]);
            } else {
                assert(cur[cur.len() - 1] == (
                    spec_field_ext(f, conv),
                    spec_violation_msg(f.constraints@[k], v),
                ));
            }
        }
    }
}

/// Round trip of the constraint semantics: a present value satisfying
/// every constraint on a field yields an empty report, and a value
/// violating a constraint yields a report entry naming the field's
/// external name and carrying the violated bound's message.
pub proof fn lemma_round_trip(f: FieldDecl, conv: Convention, v: Value)
    requires
        !(v is AbsentV),
    ensures
        (spec_field_report(f, conv, v).len() == 0 <==> (forall|k: int|
            0 <= k < f.constraints@.len() ==> spec_constraint_ok(#[trigger] f.constraints@[k], v))),
        forall|n: int|
            0 <= n < spec_field_report(f, conv, v).len() ==> (#[trigger] spec_field_report(
                f,
                conv,
                v,
            )[n]).0 == spec_field_ext(f, conv),
        forall|k: int|
            0 <= k < f.constraints@.len() && !spec_constraint_ok(#[trigger] f.constraints@[k], v)
                ==> exists|n: int|
                0 <= n < spec_field_report(f, conv, v).len() && spec_field_report(f, conv, v)[n]
                    == (spec_field_ext(f, conv), spec_violation_msg(f.constraints@[k], v)),
{
    lemma_field_report_props(f, conv, v, f.constraints@.len() as int);
    let rep = spec_field_report_prefix(f, conv, v, f.constraints@.len() as int);
    assert(spec_field_report(f, conv, v) == rep);
    assert forall|k: int|
        0 <= k < f.constraints@.len() && !spec_constraint_ok(
            #[trigger] f.constraints@[k],
            v,
        ) implies exists|n: int|
        0 <= n < spec_field_report(f, conv, v).len() && spec_field_report(f, conv, v)[n] == (
        spec_field_ext(f, conv),
        spec_violation_msg(f.constraints@[k], v),
        ) by {
        let n = choose|n: int|
            0 <= n < rep.len() && rep[n] == (
            spec_field_ext(f, conv),
            spec_violation_msg(f.constraints@[k], v),
            );
        assert(0 <= n < spec_field_report(f, conv, v).len() && spec_field_report(f, conv, v)[n]
            == (spec_field_ext(f, conv), spec_violation_msg(f.constraints@[k], v)));
    }
}


/// Is `i` the position of the first declaration bearing this name?
pub open spec fn spec_first_decl(ts: Seq<TypeDecl>, name: Seq<char>, i: int) -> bool {
    &&& 0 <= i < ts.len()
    &&& ts[i].name@ == name
    &&& forall|j: int| 0 <= j < i ==> (#[trigger] ts[j]).name@ != name
}

/// The aggregate validator addressable by a declaration's name: looks the
/// struct up in the model and checks the supplied entries against it.
/// Nothing is returned for a name that is not declared, or is declared as
/// an enum, which carries no member constraints.
pub fn validate_by_name(m: &Model, name: &String, entries: &Vec<(String, Value)>) -> (r: Option<
    Vec<Violation>,
>)
    ensures
        r is Some ==> exists|i: int|
            #[trigger] spec_first_decl(m.types@, name@, i) && m.types@[i].body is Struct
                && spec_viol_views(r->0@) == spec_struct_report(
                m.types@[i].body->Struct_0@,
                m.types@[i].convention,
                entries@,
            ),
        r is None ==> forall|i: int|
            #[trigger] spec_first_decl(m.types@, name@, i) ==> !(m.types@[i].body is Struct),
{
    let mut i: usize = 0;
    while i < m.types.len()
        invariant
            0 <= i <= m.types.len(),
            forall|j: int| 0 <= j < i ==> (#[trigger] m.types@[j]).name@ != name@,
        decreases m.types.len() - i,
    {
        if m.types[i].name.eq(name) {
            proof {
                assert(spec_first_decl(m.types@, name@, i as int));
                assert(forall|k: int|
                    #[trigger] spec_first_decl(m.types@, name@, k) ==> k == i as int);
            }
            match &m.types[i].body {
                TypeBody::Struct(fs) => {
                    return Some(check_struct(fs, m.types[i].convention, entries));
                },
                TypeBody::Enum(vs) => {
                    return None;
                },
            }
        }
        i = i + 1;
    }
    proof {
        assert(forall|k: int| !spec_first_decl(m.types@, name@, k));
    }
    None
}


/// A report with every path prefixed by the containing member's name or
/// index.
pub open spec fn spec_prefixed(prefix: Seq<char>, rep: Seq<(Seq<char>, Seq<char>)>) -> Seq<
    (Seq<char>, Seq<char>),
> {
    Seq::new(rep.len(), |n: int| (prefix + rep[n].0, rep[n].1))
}

/// A reference with its optional layers taken off: an optional member is
/// checked, when present, as its element type.
pub open spec fn spec_strip_optionals(t: TypeRef) -> TypeRef
    decreases t,
{
    match t {
        TypeRef::OptionalOf(inner) => spec_strip_optionals(*inner),
        _ => t,
    }
}

/// The position of the first entry bearing a key, or -1.
pub open spec fn spec_lookup_index(entries: Seq<(String, Value)>, key: Seq<char>) -> int
    decreases entries.len(),
{
    if entries.len() == 0 {
        -1
    } else if entries[0].0@ == key {
        0
    } else {
        let r = spec_lookup_index(entries.drop_first(), key);
        if r < 0 {
            -1
        } else {
            r + 1
        }
    }
}

proof fn lemma_lookup_index_props(entries: Seq<(String, Value)>, key: Seq<char>)
    ensures
        spec_lookup_index(entries, key) >= 0 ==> {
            let ix = spec_lookup_index(entries, key);
            &&& 0 <= ix < entries.len()
            &&& entries[ix].0@ == key
            &&& spec_lookup(entries, key) == entries[ix].1
        },
        spec_lookup_index(entries, key) < 0 ==> spec_lookup(entries, key) is AbsentV,
    decreases entries.len(),
{
    if entries.len() > 0 && entries[0].0@ != key {
        lemma_lookup_index_props(entries.drop_first(), key);
    }
}

proof fn lemma_lookup_index_found(entries: Seq<(String, Value)>, key: Seq<char>, i: int)
    requires
        0 <= i < entries.len(),
        entries[i].0@ == key,
        forall|j: int| 0 <= j < i ==> (#[trigger] entries[j]).0@ != key,
    ensures
        spec_lookup_index(entries, key) == i,
    decreases i,
{
    if i > 0 {
        let rest = entries.drop_first();
        assert forall|j: int| 0 <= j < i - 1 implies (#[trigger] rest[j]).0@ != key by {
            assert(rest[j] == entries[j + 1]);
        }
        assert(rest[i - 1] == entries[i]);
        lemma_lookup_index_found(rest, key, i - 1);
    }
}

proof fn lemma_lookup_index_none(entries: Seq<(String, Value)>, key: Seq<char>)
    requires
        forall|j: int| 0 <= j < entries.len() ==> (#[trigger] entries[j]).0@ != key,
    ensures
        spec_lookup_index(entries, key) < 0,
    decreases entries.len(),
{
    if entries.len() > 0 {
        let rest = entries.drop_first();
        assert forall|j: int| 0 <= j < rest.len() implies (#[trigger] rest[j]).0@ != key by {
            assert(rest[j] == entries[j + 1]);
        }
        lemma_lookup_index_none(rest, key);
    }
}

/// The first declaration bearing a name, if any.
pub open spec fn spec_decl_of(ts: Seq<TypeDecl>, name: Seq<char>) -> Option<TypeDecl>
    decreases ts.len(),
{
    if ts.len() == 0 {
        None
    } else if ts[0].name@ == name {
        Some(ts[0])
    } else {
        spec_decl_of(ts.drop_first(), name)
    }
}

proof fn lemma_decl_of_found(ts: Seq<TypeDecl>, name: Seq<char>, i: int)
    requires
        0 <= i < ts.len(),
        ts[i].name@ == name,
        forall|j: int| 0 <= j < i ==> (#[trigger] ts[j]).name@ != name,
    ensures
        spec_decl_of(ts, name) == Some(ts[i]),
    decreases i,
{
    if i > 0 {
        let rest = ts.drop_first();
        assert forall|j: int| 0 <= j < i - 1 implies (#[trigger] rest[j]).name@ != name by {
            assert(rest[j] == ts[j + 1]);
        }
        assert(rest[i - 1] == ts[i]);
        lemma_decl_of_found(rest, name, i - 1);
    }
}

proof fn lemma_decl_of_none(ts: Seq<TypeDecl>, name: Seq<char>)
    requires
        forall|j: int| 0 <= j < ts.len() ==> (#[trigger] ts[j]).name@ != name,
    ensures
        spec_decl_of(ts, name) is None,
    decreases ts.len(),
{
    if ts.len() > 0 {
        let rest = ts.drop_first();
        assert forall|j: int| 0 <= j < rest.len() implies (#[trigger] rest[j]).name@ != name by {
            assert(rest[j] == ts[j + 1]);
        }
        lemma_decl_of_none(rest, name);
    }
}

/// Every violation found anywhere inside a value of the given type:
/// constraints of nested declarations apply to the members supplied for
/// them, and each sub-result's path is prefixed with the member's external
/// name, or with the index for a sequence element.
pub open spec fn spec_value_report(ts: Seq<TypeDecl>, t: TypeRef, v: Value) -> Seq<
    (Seq<char>, Seq<char>),
>
    decreases v, 1int, 0int,
{
    if v is AbsentV {
        Seq::<(Seq<char>, Seq<char>)>::empty()
    } else {
        match spec_strip_optionals(t) {
            TypeRef::Decl(n) => {
                if v is RecordV {
                    match spec_decl_of(ts, n@) {
                        Some(d) => match d.body {
                            TypeBody::Struct(fs) => spec_record_report(
                                ts,
                                fs@,
                                d.convention,
                                v,
                                fs@.len() as int,
                            ),
                            TypeBody::Enum(vs) => Seq::<(Seq<char>, Seq<char>)>::empty(),
                        },
                        None => Seq::<(Seq<char>, Seq<char>)>::empty(),
                    }
                } else {
                    Seq::<(Seq<char>, Seq<char>)>::empty()
                }
            },
            TypeRef::SequenceOf(et) => {
                if v is ListV {
                    spec_list_report(ts, *et, v, v->ListV_0@.len() as int)
                } else {
                    Seq::<(Seq<char>, Seq<char>)>::empty()
                }
            },
            TypeRef::MapOf(et) => {
                if v is RecordV {
                    spec_map_report(ts, *et, v, v->RecordV_0@.len() as int)
                } else {
                    Seq::<(Seq<char>, Seq<char>)>::empty()
                }
            },
            _ => Seq::<(Seq<char>, Seq<char>)>::empty(),
        }
    }
}

/// The deep report of a record's first `i` fields: each non-skipped field
/// contributes its own constraint report and, when its member was
/// supplied, the member's nested report prefixed with the field's external
/// name.
pub open spec fn spec_record_report(
    ts: Seq<TypeDecl>,
    fs: Seq<FieldDecl>,
    conv: Convention,
    v: Value,
    i: int,
) -> Seq<(Seq<char>, Seq<char>)>
    decreases v, 0int, i,
    via spec_record_report_decreases
{
    if i <= 0 || i > fs.len() || !(v is RecordV) {
        Seq::<(Seq<char>, Seq<char>)>::empty()
    } else {
        spec_record_report(ts, fs, conv, v, i - 1) + (if fs[i - 1].skip {
            Seq::<(Seq<char>, Seq<char>)>::empty()
        } else {
            let entries = v->RecordV_0@;
            let ext = spec_field_ext(fs[i - 1], conv);
            let ix = spec_lookup_index(entries, ext);
            let member = if ix >= 0 {
                entries[ix].1
            } else {
                Value::AbsentV
            };
            spec_field_report(fs[i - 1], conv, member) + (if ix >= 0 {
                spec_prefixed(ext + "."@, spec_value_report(ts, fs[i - 1].ty, entries[ix].1))
            } else {
                Seq::<(Seq<char>, Seq<char>)>::empty()
            })
        })
    }
}

#[via_fn]
proof fn spec_record_report_decreases(
    ts: Seq<TypeDecl>,
    fs: Seq<FieldDecl>,
    conv: Convention,
    v: Value,
    i: int,
) {
    if !(i <= 0 || i > fs.len() || !(v is RecordV)) && !fs[i - 1].skip {
        let entries = v->RecordV_0@;
        let ext = spec_field_ext(fs[i - 1], conv);
        let ix = spec_lookup_index(entries, ext);
        if ix >= 0 {
            lemma_lookup_index_props(entries, ext);
            assert(decreases_to!(v => v->RecordV_0));
            assert(decreases_to!(v->RecordV_0 => v->RecordV_0[ix]));
            assert(v->RecordV_0[ix] == entries[ix]);
            assert(decreases_to!(v => entries[ix].1));
        }
    }
}

/// The deep report of a sequence's first `i` elements, each prefixed with
/// its index.
pub open spec fn spec_list_report(ts: Seq<TypeDecl>, et: TypeRef, v: Value, i: int) -> Seq<
    (Seq<char>, Seq<char>),
>
    decreases v, 0int, i,
{
    if i <= 0 || !(v is ListV) || i > v->ListV_0@.len() {
        Seq::<(Seq<char>, Seq<char>)>::empty()
    } else {
        spec_list_report(ts, et, v, i - 1) + spec_prefixed(
            "["@ + spec_dec_nat((i - 1) as nat) + "]."@,
            spec_value_report(ts, et, v->ListV_0@[i - 1]),
        )
    }
}

/// The deep report of a string-keyed mapping's first `i` entries, each
/// prefixed with its key.
pub open spec fn spec_map_report(ts: Seq<TypeDecl>, et: TypeRef, v: Value, i: int) -> Seq<
    (Seq<char>, Seq<char>),
>
    decreases v, 0int, i,
{
    if i <= 0 || !(v is RecordV) || i > v->RecordV_0@.len() {
        Seq::<(Seq<char>, Seq<char>)>::empty()
    } else {
        spec_map_report(ts, et, v, i - 1) + spec_prefixed(
            v->RecordV_0@[i - 1].0@ + "."@,
            spec_value_report(ts, et, v->RecordV_0@[i - 1].1),
        )
    }
}


fn append_report(out: &mut Vec<Violation>, sub: Vec<Violation>)
    ensures
        spec_viol_views(final(out)@) == spec_viol_views(old(out)@) + spec_viol_views(sub@),
{
    let ghost pre = out@;
    let ghost subv = sub@;
    let mut s = sub;
    out.append(&mut s);
    proof {
        assert forall|n: int|
            0 <= n < out@.len() implies #[trigger] spec_viol_views(out@)[n] == (spec_viol_views(pre)
            + spec_viol_views(subv))[n] by {
            if n < pre.len() {
                assert(out@[n] == pre[n]);
            } else {
                assert(out@[n] == subv[n - pre.len()]);
            }
        }
        assert(spec_viol_views(out@) =~= spec_viol_views(pre) + spec_viol_views(subv));
    }
}

/// Takes the optional layers off a reference.
fn strip_optionals(t: &TypeRef) -> (r: &TypeRef)
    ensures
        *r == spec_strip_optionals(*t),
    decreases *t,
{
    match t {
        TypeRef::OptionalOf(inner) => strip_optionals(&**inner),
        _ => t,
    }
}

/// Copies a report with every path prefixed.
fn prefix_violations(prefix: &String, items: &Vec<Violation>) -> (r: Vec<Violation>)
    ensures
        spec_viol_views(r@) == spec_prefixed(prefix@, spec_viol_views(items@)),
{
    let mut out: Vec<Violation> = Vec::new();
    let mut i: usize = 0;
    while i < items.len()
        invariant
            0 <= i <= items.len(),
            out@.len() == i,
            forall|j: int|
                0 <= j < i ==> (#[trigger] out@[j]).path@ == prefix@ + items@[j].path@
                    && out@[j].message@ == items@[j].message@,
        decreases items.len() - i,
    {
        let mut p = prefix.clone();
        p.append(items[i].path.as_str());
        out.push(Violation { path: p, message: items[i].message.clone() });
        i = i + 1;
    }
    proof {
        assert(spec_viol_views(out@) =~= spec_prefixed(prefix@, spec_viol_views(items@)));
    }
    out
}

fn find_decl_index(ts: &Vec<TypeDecl>, name: &String) -> (r: Option<usize>)
    ensures
        match r {
            Some(ix) => ix < ts@.len() && spec_decl_of(ts@, name@) == Some(ts@[ix as int]),
            None => spec_decl_of(ts@, name@) is None,
        },
{
    let mut i: usize = 0;
    while i < ts.len()
        invariant
            0 <= i <= ts.len(),
            forall|j: int| 0 <= j < i ==> (#[trigger] ts@[j]).name@ != name@,
        decreases ts.len() - i,
    {
        if ts[i].name.eq(name) {
            proof {
                lemma_decl_of_found(ts@, name@, i as int);
            }
            return Some(i);
        }
        i = i + 1;
    }
    proof {
        lemma_decl_of_none(ts@, name@);
    }
    None
}

/// Checks a value in depth against the type it was supplied for: every
/// nested declaration's field constraints apply to the members supplied
/// for them, and each sub-result's path carries the member's external name
/// or index as a prefix.
#[verifier::rlimit(60)]
pub fn check_value(m: &Model, t: &TypeRef, v: &Value) -> (r: Vec<Violation>)
    ensures
        spec_viol_views(r@) == spec_value_report(m.types@, *t, *v),
    decreases *v,
{
    let empty: Vec<Violation> = Vec::new();
    proof {
        assert(spec_viol_views(empty@) =~= Seq::<(Seq<char>, Seq<char>)>::empty());
    }
    if matches!(v, Value::AbsentV) {
        return empty;
    }
    let t2 = strip_optionals(t);
    match t2 {
        TypeRef::Decl(n) => {
            match v {
                Value::RecordV(entries) => {
                    match find_decl_index(&m.types, n) {
                        Some(di) => {
                            let conv = m.types[di].convention;
                            match &m.types[di].body {
                                TypeBody::Struct(fs) => {
                                    let absent = Value::AbsentV;
                                    let mut out: Vec<Violation> = Vec::new();
                                    let mut j: usize = 0;
                                    while j < fs.len()
                                        invariant
                                            0 <= j <= fs.len(),
                                            absent is AbsentV,
                                            *v is RecordV,
                                            v->RecordV_0 == *entries,
                                            spec_viol_views(out@) == spec_record_report(
                                                m.types@,
                                                fs@,
                                                conv,
                                                *v,
                                                j as int,
                                            ),
                                        decreases fs.len() - j,
                                    {
                                        let f = &fs[j];
                                        if !f.skip {
                                            let ext = external_name(&f.name, &f.rename, conv);
                                            let ixo = lookup_index(entries, &ext);
                                            let member: &Value = match ixo {
                                                Some(ix) => &entries[ix].1,
                                                None => &absent,
                                            };
                                            let own = check_field(f, conv, member);
                                            append_report(&mut out, own);
                                            match ixo {
                                                Some(ix) => {
                                                    proof {
                                                        assert(decreases_to!(*v => v->RecordV_0));
                                                        assert(decreases_to!(v->RecordV_0 =>
                                                        v->RecordV_0[ix as int]));
                                                        assert(v->RecordV_0[ix as int]
                                                            == entries@[ix as int]);
                                                    }
                                                    let sub = check_value(
                                                        m,
                                                        &f.ty,
                                                        &entries[ix].1,
                                                    );
                                                    let mut pfx = ext.clone();
                                                    pfx.append(".");
                                                    let subp = prefix_violations(&pfx, &sub);
                                                    append_report(&mut out, subp);
                                                },
                                                None => {
                                                },
                                            }
                                        }
                                        proof {
                                            assert(spec_viol_views(out@) =~= spec_record_report(
                                                m.types@,
                                                fs@,
                                                conv,
                                                *v,
                                                j + 1,
                                            ));
                                        }
                                        j = j + 1;
                                    }
                                    out
                                },
                                TypeBody::Enum(vs) => empty,
                            }
                        },
                        None => empty,
                    }
                },
                _ => empty,
            }
        },
        TypeRef::SequenceOf(et) => {
            match v {
                Value::ListV(items) => {
                    let mut out: Vec<Violation> = Vec::new();
                    let mut i: usize = 0;
                    while i < items.len()
                        invariant
                            0 <= i <= items.len(),
                            *v is ListV,
                            v->ListV_0 == *items,
                            *t2 == spec_strip_optionals(*t),
                            t2 is SequenceOf,
                            t2->SequenceOf_0 == *et,
                            spec_viol_views(out@) == spec_list_report(
                                m.types@,
                                *(*et),
                                *v,
                                i as int,
                            ),
                        decreases items.len() - i,
                    {
                        proof {
                            assert(decreases_to!(*v => v->ListV_0));
                            assert(decreases_to!(v->ListV_0 => v->ListV_0[i as int]));
                            assert(v->ListV_0[i as int] == items@[i as int]);
                        }
                        let sub = check_value(m, &**et, &items[i]);
                        let mut pfx = String::new();
                        pfx.append("[");
                        let digits = dec_u64(i as u64);
                        let ds = string_from_chars(&digits);
                        pfx.append(ds.as_str());
                        pfx.append("].");
                        proof {
                            assert(pfx@ =~= "["@ + spec_dec_nat(i as nat) + "]."@);
                        }
                        let subp = prefix_violations(&pfx, &sub);
                        append_report(&mut out, subp);
                        proof {
                            assert(spec_viol_views(out@) =~= spec_list_report(
                                m.types@,
                                *(*et),
                                *v,
                                i + 1,
                            ));
                        }
                        i = i + 1;
                    }
                    out
                },
                _ => empty,
            }
        },
        TypeRef::MapOf(et) => {
            match v {
                Value::RecordV(entries) => {
                    let mut out: Vec<Violation> = Vec::new();
                    let mut i: usize = 0;
                    while i < entries.len()
                        invariant
                            0 <= i <= entries.len(),
                            *v is RecordV,
                            v->RecordV_0 == *entries,
                            *t2 == spec_strip_optionals(*t),
                            t2 is MapOf,
                            t2->MapOf_0 == *et,
                            spec_viol_views(out@) == spec_map_report(
                                m.types@,
                                *(*et),
                                *v,
                                i as int,
                            ),
                        decreases entries.len() - i,
                    {
                        proof {
                            assert(decreases_to!(*v => v->RecordV_0));
                            assert(decreases_to!(v->RecordV_0 => v->RecordV_0[i as int]));
                            assert(v->RecordV_0[i as int] == entries@[i as int]);
                        }
                        let sub = check_value(m, &**et, &entries[i].1);
                        let mut pfx = entries[i].0.clone();
                        pfx.append(".");
                        let subp = prefix_violations(&pfx, &sub);
                        append_report(&mut out, subp);
                        proof {
                            assert(spec_viol_views(out@) =~= spec_map_report(
                                m.types@,
                                *(*et),
                                *v,
                                i + 1,
                            ));
                        }
                        i = i + 1;
                    }
                    out
                },
                _ => empty,
            }
        },
        _ => empty,
    }
}


} // verus!
