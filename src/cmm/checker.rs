//! The declaration pass: one walk over a program's top-level elements that
//! keeps a variable table and a function table and reports every
//! conflicting declaration.
use crate::cmm::ast::{CFunc, CProg, CProgElem, CProto, CVarDecl};
use crate::env::Environment;
use vstd::prelude::*;

verus! {

/// One reported problem, as a human-readable message.
#[derive(Debug)]
pub struct CheckErr {
    message: String,
}

impl View for CheckErr {
    type V = Seq<char>;

    closed spec fn view(&self) -> Seq<char> {
        self.message@
    }
}

impl CheckErr {
    pub fn new(message: String) -> (r: CheckErr)
        ensures
            r@ == message@,
    {
        CheckErr { message }
    }

    /// The message.
    pub fn description(&self) -> (r: &str)
        ensures
            r@ == self@,
    {
        self.message.as_str()
    }
}

/// A conflict between declarations, with the identifier it is about.
pub enum Conflict {
    /// A variable declared a second time.
    VarDeclared(Seq<char>),
    /// A prototype for a function that already has an entry.
    FuncDefined(Seq<char>),
    /// A definition for a function that already has a body.
    FuncDeclared(Seq<char>),
}

impl Conflict {
    /// The message that reports the conflict.
    pub open spec fn message(self) -> Seq<char> {
        match self {
            Conflict::VarDeclared(n) => "variable \""@ + n + "\" already declared"@,
            Conflict::FuncDefined(n) => "function \""@ + n + "\" already defined"@,
            Conflict::FuncDeclared(n) => "function \""@ + n + "\" already declared"@,
        }
    }
}

/// What the pass knows after a prefix of the program: each variable's
/// declaration, each function's prototype and body (if it has one yet), and
/// the conflicts found so far, in source order.
pub struct CheckState {
    pub vars: Map<Seq<char>, CVarDecl>,
    pub funcs: Map<Seq<char>, (CProto, Option<CFunc>)>,
    pub conflicts: Seq<Conflict>,
}

pub open spec fn initial_state() -> CheckState {
    CheckState { vars: Map::empty(), funcs: Map::empty(), conflicts: Seq::empty() }
}

/// The effect of one element. A variable may be declared once. A prototype
/// conflicts with any earlier entry for its name. A definition conflicts
/// only with an earlier body, and otherwise fulfils an earlier prototype.
/// Each declaration takes the name's place in its table, and a malformed
/// element changes nothing.
pub open spec fn check_step(s: CheckState, e: CProgElem) -> CheckState {
    match e {
        CProgElem::VarDecl(d) => CheckState {
            vars: s.vars.insert(d.name@, d),
            funcs: s.funcs,
            conflicts: if s.vars.contains_key(d.name@) {
                s.conflicts.push(Conflict::VarDeclared(d.name@))
            } else {
                s.conflicts
            },
        },
        CProgElem::Proto(p) => CheckState {
            vars: s.vars,
            funcs: s.funcs.insert(p.name@, (p, None)),
            conflicts: if s.funcs.contains_key(p.name@) {
                s.conflicts.push(Conflict::FuncDefined(p.name@))
            } else {
                s.conflicts
            },
        },
        CProgElem::Func(f) => CheckState {
            vars: s.vars,
            funcs: s.funcs.insert(f.proto.name@, (f.proto, Some(f))),
            conflicts: if s.funcs.contains_key(f.proto.name@) && s.funcs[f.proto.name@].1 is Some {
                s.conflicts.push(Conflict::FuncDeclared(f.proto.name@))
            } else {
                s.conflicts
            },
        },
        CProgElem::Error => s,
    }
}

/// The state after the elements of `p`, taken in order.
pub open spec fn check_state(p: Seq<CProgElem>) -> CheckState
    decreases p.len(),
{
    if p.len() == 0 {
        initial_state()
    } else {
        check_step(check_state(p.drop_last()), p.last())
    }
}

pub open spec fn messages(errs: Seq<CheckErr>) -> Seq<Seq<char>> {
    errs.map_values(|e: CheckErr| e@)
}

pub open spec fn conflict_messages(cs: Seq<Conflict>) -> Seq<Seq<char>> {
    cs.map_values(|c: Conflict| c.message())
}

/// The variable table: each name to the position of its declaration.
pub type SymTab = Environment<String, usize>;

/// The function table: each name to the position of the element that gave
/// its prototype, and the position of its definition once it has one.
pub type FuncTab = Environment<String, (usize, Option<usize>)>;

/// The prototype that an element carries.
pub open spec fn proto_of(e: CProgElem) -> Option<CProto> {
    match e {
        CProgElem::Proto(p) => Some(p),
        CProgElem::Func(f) => Some(f.proto),
        _ => None,
    }
}

/// The variable table's top frame stands for `vars`, by positions in `p`
/// before `n`.
spec fn vars_agree(
    p: Seq<CProgElem>,
    n: int,
    t: Map<Seq<char>, usize>,
    vars: Map<Seq<char>, CVarDecl>,
) -> bool {
    &&& t.dom() == vars.dom()
    &&& forall|k: Seq<char>| #[trigger]
        t.contains_key(k) ==> t[k] < n && p[t[k] as int] == CProgElem::VarDecl(vars[k])
}

/// The function table's top frame stands for `funcs`, by positions in `p`
/// before `n`.
spec fn funcs_agree(
    p: Seq<CProgElem>,
    n: int,
    t: Map<Seq<char>, (usize, Option<usize>)>,
    funcs: Map<Seq<char>, (CProto, Option<CFunc>)>,
) -> bool {
    &&& t.dom() == funcs.dom()
    &&& forall|k: Seq<char>| #[trigger]
        t.contains_key(k) ==> {
            &&& t[k].0 < n
            &&& proto_of(p[t[k].0 as int]) == Some(funcs[k].0)
            &&& (t[k].1 is Some <==> funcs[k].1 is Some)
            &&& t[k].1 is Some ==> t[k].1.unwrap() < n && p[t[k].1.unwrap() as int]
                == CProgElem::Func(funcs[k].1.unwrap())
        }
}

proof fn lemma_report(
    base: Seq<Seq<char>>,
    errs: Seq<CheckErr>,
    cs: Seq<Conflict>,
    e: CheckErr,
    c: Conflict,
)
    requires
        messages(errs) == base + conflict_messages(cs),
        e@ == c.message(),
    ensures
        messages(errs.push(e)) == base + conflict_messages(cs.push(c)),
{
    assert(messages(errs.push(e)) =~= messages(errs).push(e@));
    assert(conflict_messages(cs.push(c)) =~= conflict_messages(cs).push(c.message()));
    assert(messages(errs.push(e)) =~= base + conflict_messages(cs.push(c)));
}

fn conflict_message(prefix: &str, name: &String, suffix: &str) -> (r: String)
    ensures
        r@ == prefix@ + name@ + suffix@,
{
    String::from_str(prefix).concat(name.as_str()).concat(suffix)
}

/// Checks the top-level declarations of `ast` in source order, appends one
/// message to `errors` for each conflict, and succeeds when `errors` is
/// empty afterwards.
pub fn check_prog(errors: &mut Vec<CheckErr>, ast: &CProg) -> (r: Result<(), ()>)
    ensures
        messages(final(errors)@) == messages(old(errors)@) + conflict_messages(
            check_state(ast@).conflicts,
        ),
        r is Ok <==> final(errors)@.len() == 0,
{
    let mut funcs: FuncTab = Environment::new();
    funcs.push_frame();
    let mut syms: SymTab = Environment::new();
    syms.push_frame();

    let mut i: usize = 0;
    assert(ast@.take(0) =~= Seq::<CProgElem>::empty());
    assert(messages(errors@) =~= messages(old(errors)@) + conflict_messages(Seq::empty()));
    while i < ast.len()
        invariant
            syms.wf(),
            funcs.wf(),
            syms@.len() == 1,
            funcs@.len() == 1,
            i <= ast@.len(),
            vars_agree(ast@, i as int, syms@[0], check_state(ast@.take(i as int)).vars),
            funcs_agree(ast@, i as int, funcs@[0], check_state(ast@.take(i as int)).funcs),
            messages(errors@) == messages(old(errors)@) + conflict_messages(
                check_state(ast@.take(i as int)).conflicts,
            ),
        decreases ast.len() - i,
    {
        let ghost s = check_state(ast@.take(i as int));
        let ghost errs = errors@;
        assert(ast@.take(i + 1).drop_last() =~= ast@.take(i as int));
        let ghost s2 = check_state(ast@.take(i + 1));
        assert(s2 == check_step(s, ast@[i as int]));
        // Both tables hold one frame from here on, so no insert fails.
        match &ast[i] {
            CProgElem::VarDecl(decl) => {
                match syms.insert(decl.name.clone(), i) {
                    Ok(Some(_)) => {
                        let msg = conflict_message("variable \"", &decl.name, "\" already declared");
                        let err = CheckErr::new(msg);
                        proof {
                            lemma_report(messages(old(errors)@), errs, s.conflicts, err,
                                Conflict::VarDeclared(decl.name@));
                        }
                        errors.push(err);
                    },
                    Ok(None) => {},
                    Err(_) => {
                        assert(false);
                    },
                }
            },
            CProgElem::Func(func) => {
                match funcs.insert(func.proto.name.clone(), (i, Some(i))) {
                    Ok(Some((_, None))) => {},
                    Ok(Some((_, Some(_)))) => {
                        let msg = conflict_message(
                            "function \"",
                            &func.proto.name,
                            "\" already declared",
                        );
                        let err = CheckErr::new(msg);
                        proof {
                            lemma_report(messages(old(errors)@), errs, s.conflicts, err,
                                Conflict::FuncDeclared(func.proto.name@));
                        }
                        errors.push(err);
                    },
                    Ok(None) => {},
                    Err(_) => {
                        assert(false);
                    },
                }
            },
            CProgElem::Proto(proto) => {
                match funcs.insert(proto.name.clone(), (i, None)) {
                    Ok(Some(_)) => {
                        let msg = conflict_message("function \"", &proto.name, "\" already defined");
                        let err = CheckErr::new(msg);
                        proof {
                            lemma_report(messages(old(errors)@), errs, s.conflicts, err,
                                Conflict::FuncDefined(proto.name@));
                        }
                        errors.push(err);
                    },
                    Ok(None) => {},
                    Err(_) => {
                        assert(false);
                    },
                }
            },
            CProgElem::Error => {},
        }
        i = i + 1;
    }
    assert(ast@.take(ast@.len() as int) =~= ast@);
    if errors.len() == 0 {
        Ok(())
    } else {
        Err(())
    }
}

} // verus!
