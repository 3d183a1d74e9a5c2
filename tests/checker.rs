use declcheck::cmm::ast::{CExpr, CFunc, CLoc, COp, CProgElem, CProto, CStmt, CType, CVarDecl};
use declcheck::cmm::checker::{check_prog, CheckErr};

fn loc() -> CLoc {
    CLoc { line: 1, column: 1 }
}

fn var(ty: CType, name: &str) -> CProgElem {
    CProgElem::VarDecl(CVarDecl { loc: loc(), ty, name: name.to_string() })
}

fn proto_of(name: &str, params: Vec<CType>) -> CProto {
    CProto { loc: loc(), ret: Some(CType::Int), name: name.to_string(), params }
}

fn proto(name: &str) -> CProgElem {
    CProgElem::Proto(proto_of(name, vec![CType::Int]))
}

fn func(name: &str) -> CProgElem {
    CProgElem::Func(CFunc {
        loc: loc(),
        proto: proto_of(name, vec![CType::Int]),
        params: vec!["a".to_string()],
        decls: vec![(CType::Char, vec!["c".to_string(), "d".to_string()])],
        body: vec![CStmt::Assign(
            "c".to_string(),
            Box::new(CExpr::BinOp(
                Box::new(CExpr::Ident("a".to_string())),
                COp::Add,
                Box::new(CExpr::Number(1)),
            )),
        )],
    })
}

fn run(prog: Vec<CProgElem>) -> (Result<(), ()>, Vec<String>) {
    let mut errors: Vec<CheckErr> = Vec::new();
    let r = check_prog(&mut errors, &prog);
    (r, errors.iter().map(|e| e.description().to_string()).collect())
}

#[test]
fn empty_program_is_accepted() {
    let (r, msgs) = run(vec![]);
    assert_eq!(r, Ok(()));
    assert!(msgs.is_empty());
}

#[test]
fn distinct_declarations_are_accepted() {
    let (r, msgs) = run(vec![var(CType::Int, "x"), var(CType::Char, "y"), proto("f"), func("g")]);
    assert_eq!(r, Ok(()));
    assert!(msgs.is_empty());
}

#[test]
fn variable_declared_twice_is_reported_once() {
    let (r, msgs) = run(vec![var(CType::Int, "x"), var(CType::Int, "y"), var(CType::Char, "x")]);
    assert_eq!(r, Err(()));
    assert_eq!(msgs, vec!["variable \"x\" already declared".to_string()]);
}

#[test]
fn variable_declared_three_times_is_reported_twice() {
    let (r, msgs) = run(vec![var(CType::Int, "x"), var(CType::Int, "x"), var(CType::Int, "x")]);
    assert_eq!(r, Err(()));
    assert_eq!(msgs.len(), 2);
}

#[test]
fn variables_and_functions_have_separate_namespaces() {
    let (r, msgs) = run(vec![var(CType::Int, "f"), func("f")]);
    assert_eq!(r, Ok(()));
    assert!(msgs.is_empty());
}

#[test]
fn prototype_then_definition_is_accepted() {
    let (r, msgs) = run(vec![proto("f"), func("f")]);
    assert_eq!(r, Ok(()));
    assert!(msgs.is_empty());
}

#[test]
fn definition_with_other_signature_fulfils_prototype() {
    let p = CProgElem::Proto(proto_of("f", vec![CType::Char, CType::Char]));
    let (r, msgs) = run(vec![p, func("f")]);
    assert_eq!(r, Ok(()));
    assert!(msgs.is_empty());
}

#[test]
fn prototype_twice_is_already_defined() {
    let (r, msgs) = run(vec![proto("f"), proto("f")]);
    assert_eq!(r, Err(()));
    assert_eq!(msgs, vec!["function \"f\" already defined".to_string()]);
}

#[test]
fn prototype_after_definition_is_already_defined() {
    let (r, msgs) = run(vec![func("f"), proto("f")]);
    assert_eq!(r, Err(()));
    assert_eq!(msgs, vec!["function \"f\" already defined".to_string()]);
}

#[test]
fn definition_twice_is_already_declared() {
    let (r, msgs) = run(vec![func("f"), func("f")]);
    assert_eq!(r, Err(()));
    assert_eq!(msgs, vec!["function \"f\" already declared".to_string()]);
}

#[test]
fn single_definition_is_accepted() {
    let (r, msgs) = run(vec![func("f")]);
    assert_eq!(r, Ok(()));
    assert!(msgs.is_empty());
}

#[test]
fn prototype_definition_definition_reports_once() {
    let (r, msgs) = run(vec![proto("f"), func("f"), func("f")]);
    assert_eq!(r, Err(()));
    assert_eq!(msgs, vec!["function \"f\" already declared".to_string()]);
}

#[test]
fn malformed_only_program_is_accepted() {
    let (r, msgs) = run(vec![CProgElem::Error, CProgElem::Error, CProgElem::Error]);
    assert_eq!(r, Ok(()));
    assert!(msgs.is_empty());
}

#[test]
fn malformed_element_keeps_surrounding_state() {
    let (r, msgs) = run(vec![proto("f"), CProgElem::Error, func("f"), var(CType::Int, "x"), CProgElem::Error]);
    assert_eq!(r, Ok(()));
    assert!(msgs.is_empty());
    let (r, msgs) = run(vec![var(CType::Int, "x"), CProgElem::Error, var(CType::Int, "x")]);
    assert_eq!(r, Err(()));
    assert_eq!(msgs, vec!["variable \"x\" already declared".to_string()]);
}

#[test]
fn conflicts_are_reported_in_source_order() {
    let (r, msgs) = run(vec![
        func("g"),
        var(CType::Int, "b"),
        proto("f"),
        proto("f"),
        var(CType::Int, "b"),
        func("g"),
    ]);
    assert_eq!(r, Err(()));
    assert_eq!(
        msgs,
        vec![
            "function \"f\" already defined".to_string(),
            "variable \"b\" already declared".to_string(),
            "function \"g\" already declared".to_string(),
        ]
    );
}

#[test]
fn earlier_errors_in_the_sink_reject() {
    let mut errors = vec![CheckErr::new("earlier".to_string())];
    let r = check_prog(&mut errors, &vec![var(CType::Int, "x")]);
    assert_eq!(r, Err(()));
    assert_eq!(errors.len(), 1);
    assert_eq!(errors[0].description(), "earlier");
}

#[test]
fn messages_are_appended_after_earlier_ones() {
    let mut errors = vec![CheckErr::new("earlier".to_string())];
    let r = check_prog(&mut errors, &vec![proto("h"), proto("h")]);
    assert_eq!(r, Err(()));
    assert_eq!(errors.len(), 2);
    assert_eq!(errors[1].description(), "function \"h\" already defined");
}

#[test]
fn check_err_keeps_its_message() {
    let e = CheckErr::new("some message".to_string());
    assert_eq!(e.description(), "some message");
}
