//! Properties of the declaration pass, stated over its model
//! [`check_state`], which `check_prog` is proved to follow.
use crate::cmm::ast::{CFunc, CProgElem, CProto, CVarDecl};
use crate::cmm::checker::{check_state, check_step, initial_state, Conflict};
use vstd::prelude::*;

verus! {

/// The element declares a variable named `x`.
pub open spec fn declares_var(e: CProgElem, x: Seq<char>) -> bool {
    match e {
        CProgElem::VarDecl(d) => d.name@ == x,
        _ => false,
    }
}

/// How often `c` occurs in `cs`.
pub open spec fn count_conflict(cs: Seq<Conflict>, c: Conflict) -> nat
    decreases cs.len(),
{
    if cs.len() == 0 {
        0
    } else {
        count_conflict(cs.drop_last(), c) + if cs.last() == c {
            1nat
        } else {
            0nat
        }
    }
}

proof fn lemma_count_push(cs: Seq<Conflict>, d: Conflict, c: Conflict)
    ensures
        count_conflict(cs.push(d), c) == count_conflict(cs, c) + if d == c {
            1nat
        } else {
            0nat
        },
{
    assert(cs.push(d).drop_last() =~= cs);
}

proof fn lemma_state_push(p: Seq<CProgElem>, e: CProgElem)
    ensures
        check_state(p.push(e)) == check_step(check_state(p), e),
{
    assert(p.push(e).drop_last() =~= p);
}

/// Elements that declare no variable `x` leave the binding of `x` and the
/// number of redeclarations of `x` as they were.
proof fn lemma_var_untouched(p: Seq<CProgElem>, q: Seq<CProgElem>, x: Seq<char>)
    requires
        forall|i: int| 0 <= i < q.len() ==> !declares_var(#[trigger] q[i], x),
    ensures
        check_state(p + q).vars.contains_key(x) == check_state(p).vars.contains_key(x),
        check_state(p + q).vars[x] == check_state(p).vars[x],
        count_conflict(check_state(p + q).conflicts, Conflict::VarDeclared(x)) == count_conflict(
            check_state(p).conflicts,
            Conflict::VarDeclared(x),
        ),
    decreases q.len(),
{
    if q.len() == 0 {
        assert(p + q =~= p);
    } else {
        let r = q.drop_last();
        lemma_var_untouched(p, r, x);
        assert(p + q =~= (p + r).push(q.last()));
        lemma_state_push(p + r, q.last());
        assert(!declares_var(q[q.len() - 1], x));
        let s = check_state(p + r);
        match q.last() {
            CProgElem::VarDecl(d) => {
                lemma_count_push(s.conflicts, Conflict::VarDeclared(d.name@), Conflict::VarDeclared(x));
            },
            CProgElem::Proto(f) => {
                lemma_count_push(s.conflicts, Conflict::FuncDefined(f.name@), Conflict::VarDeclared(x));
            },
            CProgElem::Func(f) => {
                lemma_count_push(
                    s.conflicts,
                    Conflict::FuncDeclared(f.proto.name@),
                    Conflict::VarDeclared(x),
                );
            },
            CProgElem::Error => {},
        }
    }
}

/// An empty program is accepted: checking it finds no conflict.
pub proof fn lemma_empty_program()
    ensures
        check_state(Seq::<CProgElem>::empty()) == initial_state(),
        check_state(Seq::<CProgElem>::empty()).conflicts.len() == 0,
{
}

/// A variable declared twice, with no other declaration of it before,
/// between or after, is reported exactly once, and the program is rejected.
/// The table keeps the later declaration, which is the earlier one exactly
/// when the two declarations are the same.
pub proof fn lemma_var_declared_twice(
    a: Seq<CProgElem>,
    first: CVarDecl,
    b: Seq<CProgElem>,
    second: CVarDecl,
    c: Seq<CProgElem>,
)
    requires
        first.name@ == second.name@,
        forall|i: int| 0 <= i < a.len() ==> !declares_var(#[trigger] a[i], first.name@),
        forall|i: int| 0 <= i < b.len() ==> !declares_var(#[trigger] b[i], first.name@),
        forall|i: int| 0 <= i < c.len() ==> !declares_var(#[trigger] c[i], first.name@),
    ensures
        ({
            let s = check_state(
                a + seq![CProgElem::VarDecl(first)] + b + seq![CProgElem::VarDecl(second)] + c,
            );
            &&& count_conflict(s.conflicts, Conflict::VarDeclared(first.name@)) == 1
            &&& s.conflicts.len() > 0
            &&& s.vars[first.name@] == second
            &&& first == second ==> s.vars[first.name@] == first
        }),
{
    let x = first.name@;
    let v = Conflict::VarDeclared(x);
    let e1 = CProgElem::VarDecl(first);
    let e2 = CProgElem::VarDecl(second);
    let empty = Seq::<CProgElem>::empty();
    lemma_var_untouched(empty, a, x);
    assert(empty + a =~= a);
    let s0 = check_state(a);
    assert(!s0.vars.contains_key(x));
    assert(count_conflict(s0.conflicts, v) == 0);

    lemma_state_push(a, e1);
    let p1 = a.push(e1);
    let s1 = check_state(p1);
    assert(s1.conflicts == s0.conflicts);
    assert(s1.vars.contains_key(x) && s1.vars[x] == first);

    lemma_var_untouched(p1, b, x);
    let p2 = p1 + b;
    let s2 = check_state(p2);

    lemma_state_push(p2, e2);
    let p3 = p2.push(e2);
    let s3 = check_state(p3);
    assert(s3.conflicts == s2.conflicts.push(v));
    lemma_count_push(s2.conflicts, v, v);
    assert(count_conflict(s3.conflicts, v) == 1);
    assert(s3.vars[x] == second);

    lemma_var_untouched(p3, c, x);
    assert(a + seq![e1] + b + seq![e2] + c =~= p3 + c);
    let s = check_state(p3 + c);
    if s.conflicts.len() == 0 {
        assert(s.conflicts =~= Seq::<Conflict>::empty());
    }
}

/// A prototype followed by a definition of the same name, where the name
/// had no entry yet, adds no conflict and leaves the name bound to the
/// definition's prototype and body.
pub proof fn lemma_proto_then_definition(p: Seq<CProgElem>, proto: CProto, func: CFunc)
    requires
        proto.name@ == func.proto.name@,
        !check_state(p).funcs.contains_key(proto.name@),
    ensures
        ({
            let s = check_state(p.push(CProgElem::Proto(proto)).push(CProgElem::Func(func)));
            &&& s.conflicts == check_state(p).conflicts
            &&& s.funcs[proto.name@] == (func.proto, Some(func))
        }),
{
    let p1 = p.push(CProgElem::Proto(proto));
    lemma_state_push(p, CProgElem::Proto(proto));
    lemma_state_push(p1, CProgElem::Func(func));
}

/// A second prototype right after a first one of the same name is reported
/// as already defined, although neither has a body.
pub proof fn lemma_proto_twice(p: Seq<CProgElem>, first: CProto, second: CProto)
    requires
        first.name@ == second.name@,
    ensures
        check_state(p.push(CProgElem::Proto(first)).push(CProgElem::Proto(second))).conflicts
            == check_state(p.push(CProgElem::Proto(first))).conflicts.push(
            Conflict::FuncDefined(first.name@),
        ),
{
    let p1 = p.push(CProgElem::Proto(first));
    lemma_state_push(p, CProgElem::Proto(first));
    lemma_state_push(p1, CProgElem::Proto(second));
}

/// A second definition right after a first one of the same name is reported
/// as already declared.
pub proof fn lemma_definition_twice(p: Seq<CProgElem>, first: CFunc, second: CFunc)
    requires
        first.proto.name@ == second.proto.name@,
    ensures
        check_state(p.push(CProgElem::Func(first)).push(CProgElem::Func(second))).conflicts
            == check_state(p.push(CProgElem::Func(first))).conflicts.push(
            Conflict::FuncDeclared(first.proto.name@),
        ),
{
    let p1 = p.push(CProgElem::Func(first));
    lemma_state_push(p, CProgElem::Func(first));
    lemma_state_push(p1, CProgElem::Func(second));
}

/// A definition of a name that has no entry yet adds no conflict and binds
/// the name to the definition's prototype and body.
pub proof fn lemma_single_definition(p: Seq<CProgElem>, func: CFunc)
    requires
        !check_state(p).funcs.contains_key(func.proto.name@),
    ensures
        check_state(p.push(CProgElem::Func(func))).conflicts == check_state(p).conflicts,
        check_state(p.push(CProgElem::Func(func))).funcs[func.proto.name@] == (
            func.proto,
            Some(func),
        ),
{
    lemma_state_push(p, CProgElem::Func(func));
}

/// A malformed element, wherever it stands, changes neither the tables nor
/// the conflicts.
pub proof fn lemma_malformed_ignored(before: Seq<CProgElem>, after: Seq<CProgElem>)
    ensures
        check_state(before + seq![CProgElem::Error] + after) == check_state(before + after),
    decreases after.len(),
{
    if after.len() == 0 {
        assert(before + seq![CProgElem::Error] + after =~= before.push(CProgElem::Error));
        assert(before + after =~= before);
        lemma_state_push(before, CProgElem::Error);
    } else {
        let r = after.drop_last();
        lemma_malformed_ignored(before, r);
        assert(before + seq![CProgElem::Error] + after =~= (before + seq![CProgElem::Error]
            + r).push(after.last()));
        assert(before + after =~= (before + r).push(after.last()));
        lemma_state_push(before + seq![CProgElem::Error] + r, after.last());
        lemma_state_push(before + r, after.last());
    }
}

/// A program made of malformed elements only is accepted.
pub proof fn lemma_only_malformed(p: Seq<CProgElem>)
    requires
        forall|i: int| 0 <= i < p.len() ==> #[trigger] p[i] == CProgElem::Error,
    ensures
        check_state(p) == initial_state(),
        check_state(p).conflicts.len() == 0,
    decreases p.len(),
{
    if p.len() > 0 {
        lemma_only_malformed(p.drop_last());
    }
}

} // verus!
