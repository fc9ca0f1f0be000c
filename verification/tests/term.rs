use closure_ir::operators::{BinOp, UnOp};
use closure_ir::syntax::{Lit, VarDecl, Variant, VariantBody};
use closure_ir::term::{
    clone_nodes, decls_are_resolved, is_slot, names_are_distinct, nodes_are_resolved, Closure,
    FunDef, TaggedTerm, Term, TypeDef, TypeKind,
};
use closure_ir::types::{Scheme, Type};

fn int_scheme() -> Scheme {
    Scheme::con("Int")
}

fn decl(name: &str) -> VarDecl {
    VarDecl(name.to_string(), int_scheme())
}

fn lit(n: i32) -> Box<TaggedTerm> {
    Box::new(TaggedTerm::new(int_scheme(), Term::Lit(Lit::Int(n))))
}

fn var(name: &str) -> Box<TaggedTerm> {
    Box::new(TaggedTerm::new(int_scheme(), Term::Var(name.to_string())))
}

fn unresolved() -> Box<TaggedTerm> {
    Box::new(TaggedTerm::new(Scheme::Slot, Term::Lit(Lit::Int(0))))
}

fn tagged(term: Term) -> TaggedTerm {
    TaggedTerm::new(int_scheme(), term)
}

fn fun(params: Vec<VarDecl>, freevars: Vec<VarDecl>, body: TaggedTerm) -> FunDef {
    FunDef::new("f".to_string(), Scheme::arrow(Type::Void, Type::Void), params, freevars, body)
}

#[test]
fn type_defs_compare_by_their_parts() {
    let a = TypeDef::new("T".to_string(), vec!["a".to_string()], TypeKind::Alias(Box::new(int_scheme())));
    let b = TypeDef::new("T".to_string(), vec!["a".to_string()], TypeKind::Alias(Box::new(int_scheme())));
    let c = TypeDef::new(
        "T".to_string(),
        vec!["a".to_string()],
        TypeKind::Algebra(vec![Variant { name: "V".to_string(), body: VariantBody::Unit }]),
    );
    assert_eq!(a, b);
    assert_ne!(a, c);
}

#[test]
fn tagged_term_gives_its_scheme_and_term() {
    let t = TaggedTerm::new(Scheme::con("Bool"), Term::Lit(Lit::Bool(true)));
    assert_eq!(*t.ref_scheme(), Scheme::con("Bool"));
    assert_eq!(*t.body(), Term::Lit(Lit::Bool(true)));
}

#[test]
fn closure_gives_its_entry_and_captured_variables() {
    let c = Closure::new("f".to_string(), vec!["x".to_string(), "y".to_string()]);
    assert_eq!(c.entry(), "f");
    assert_eq!(c.fv(), vec!["x".to_string(), "y".to_string()]);
    assert_eq!(c.arity(), 2);
    assert_eq!(c.clone(), c);
    assert_eq!(Closure::new("g".to_string(), vec![]).arity(), 0);
}

#[test]
fn fun_def_gives_its_parts() {
    let body = tagged(Term::Var("x".to_string()));
    let ty = Scheme::arrow(Type::Con("Int".to_string()), Type::Con("Int".to_string()));
    let d = FunDef::new(
        "inc".to_string(),
        ty,
        vec![decl("x")],
        vec![decl("y"), decl("z")],
        tagged(Term::Var("x".to_string())),
    );
    assert_eq!(d.name(), "inc");
    assert_eq!(*d.parameters(), vec![decl("x")]);
    assert_eq!(*d.fv(), vec![decl("y"), decl("z")]);
    assert_eq!(*d.body(), body);
    assert_eq!(
        *d.ref_type(),
        Type::Arr(Box::new(Type::Con("Int".to_string())), Box::new(Type::Con("Int".to_string())))
    );
}

#[test]
fn fun_def_ref_type_of_a_poly_scheme_is_its_body() {
    let ty = Scheme::Poly(vec!["a".to_string()], Box::new(Type::Var("a".to_string())));
    let d = FunDef::new("id".to_string(), ty, vec![], vec![], tagged(Term::Lit(Lit::Int(0))));
    assert_eq!(*d.ref_type(), Type::Var("a".to_string()));
}

#[test]
fn is_slot_tells_the_placeholder() {
    assert!(is_slot(&Scheme::Slot));
    assert!(!is_slot(&int_scheme()));
    assert!(!is_slot(&Scheme::Poly(vec![], Box::new(Type::Void))));
}

#[test]
fn binders_are_resolved_where_none_is_a_placeholder() {
    assert!(decls_are_resolved(&vec![]));
    assert!(decls_are_resolved(&vec![decl("a"), decl("b")]));
    assert!(!decls_are_resolved(&vec![decl("a"), VarDecl("b".to_string(), Scheme::Slot)]));
    assert!(!decls_are_resolved(&vec![VarDecl("a".to_string(), Scheme::Slot), decl("b")]));
}

#[test]
fn leaves_are_resolved_by_their_own_scheme() {
    assert!(lit(1).is_resolved());
    assert!(var("x").is_resolved());
    assert!(!unresolved().is_resolved());
    assert!(Term::Lit(Lit::Int(1)).is_resolved());
}

#[test]
fn a_placeholder_anywhere_below_makes_a_term_unresolved() {
    let slot = || VarDecl("v".to_string(), Scheme::Slot);
    let closure = || Box::new(Closure::new("f".to_string(), vec![]));
    let good: Vec<Term> = vec![
        Term::List(vec![lit(1), lit(2)]),
        Term::Block(vec![]),
        Term::MakeCls(decl("c"), closure(), lit(1)),
        Term::ApplyCls(var("c"), vec![lit(1)]),
        Term::ApplyDir(decl("g"), vec![lit(1), var("x")]),
        Term::Binary(BinOp::Add, lit(1), lit(2)),
        Term::Unary(UnOp::Neg, lit(1)),
        Term::Let(decl("x"), lit(1), var("x")),
        Term::If(lit(1), lit(2), lit(3)),
    ];
    for t in good {
        assert!(t.is_resolved());
        assert!(tagged(t).is_resolved());
    }
    let bad: Vec<Term> = vec![
        Term::List(vec![lit(1), unresolved()]),
        Term::Block(vec![unresolved(), lit(1)]),
        Term::MakeCls(slot(), closure(), lit(1)),
        Term::MakeCls(decl("c"), closure(), unresolved()),
        Term::ApplyCls(unresolved(), vec![lit(1)]),
        Term::ApplyCls(var("c"), vec![lit(1), unresolved()]),
        Term::ApplyDir(slot(), vec![lit(1)]),
        Term::ApplyDir(decl("g"), vec![unresolved()]),
        Term::Binary(BinOp::Add, unresolved(), lit(2)),
        Term::Binary(BinOp::Add, lit(1), unresolved()),
        Term::Unary(UnOp::Not, unresolved()),
        Term::Let(slot(), lit(1), var("x")),
        Term::Let(decl("x"), unresolved(), var("x")),
        Term::Let(decl("x"), lit(1), unresolved()),
        Term::If(unresolved(), lit(2), lit(3)),
        Term::If(lit(1), unresolved(), lit(3)),
        Term::If(lit(1), lit(2), unresolved()),
    ];
    for t in bad {
        assert!(!t.is_resolved());
        assert!(!tagged(t).is_resolved());
    }
}

#[test]
fn a_placeholder_deep_below_is_found() {
    let deep = Term::If(
        lit(1),
        Box::new(tagged(Term::List(vec![Box::new(tagged(Term::Unary(UnOp::Neg, unresolved())))]))),
        lit(3),
    );
    assert!(!deep.is_resolved());
    assert!(!nodes_are_resolved(&vec![lit(1), Box::new(tagged(deep))]));
    assert!(nodes_are_resolved(&vec![lit(1), lit(2)]));
}

#[test]
fn a_term_with_a_placeholder_scheme_is_unresolved_whatever_is_below() {
    let t = TaggedTerm::new(Scheme::Slot, Term::Binary(BinOp::Add, lit(1), lit(2)));
    assert!(!t.is_resolved());
}

#[test]
fn fun_def_is_resolved_where_all_its_schemes_are() {
    assert!(fun(vec![decl("a")], vec![decl("b")], tagged(Term::Var("a".to_string()))).is_resolved());
    let slot = || VarDecl("v".to_string(), Scheme::Slot);
    assert!(!fun(vec![slot()], vec![], *lit(1)).is_resolved());
    assert!(!fun(vec![], vec![decl("b"), slot()], *lit(1)).is_resolved());
    assert!(!fun(vec![], vec![], *unresolved()).is_resolved());
    let no_type = FunDef::new("f".to_string(), Scheme::Slot, vec![], vec![], *lit(1));
    assert!(!no_type.is_resolved());
}

#[test]
fn binders_are_distinct_where_no_name_is_bound_twice() {
    assert!(names_are_distinct(&vec![], &vec![]));
    assert!(names_are_distinct(&vec![decl("a"), decl("b")], &vec![decl("c")]));
    assert!(names_are_distinct(&vec![], &vec![decl("c"), decl("d")]));
    assert!(!names_are_distinct(&vec![decl("a"), decl("a")], &vec![]));
    assert!(!names_are_distinct(&vec![decl("a"), decl("b"), decl("a")], &vec![decl("c")]));
    assert!(!names_are_distinct(&vec![decl("a"), decl("b")], &vec![decl("b")]));
    assert!(!names_are_distinct(&vec![decl("a")], &vec![decl("c"), decl("d"), decl("c")]));
    assert!(!names_are_distinct(&vec![], &vec![decl("c"), decl("c")]));
    let other_scheme = VarDecl("a".to_string(), Scheme::Slot);
    assert!(!names_are_distinct(&vec![decl("a")], &vec![other_scheme]));
}

#[test]
fn fun_def_binders_are_its_parameters_and_free_variables() {
    assert!(fun(vec![decl("a"), decl("b")], vec![decl("x")], *lit(1)).has_distinct_binders());
    assert!(!fun(vec![decl("a"), decl("b")], vec![decl("a")], *lit(1)).has_distinct_binders());
    assert!(!fun(vec![decl("a"), decl("a")], vec![], *lit(1)).has_distinct_binders());
    assert!(fun(vec![], vec![], *lit(1)).has_distinct_binders());
}

#[test]
fn clones_of_terms_equal_them() {
    let closure = Box::new(Closure::new("f".to_string(), vec!["x".to_string()]));
    let t = Term::Let(
        decl("x"),
        Box::new(tagged(Term::List(vec![lit(1), var("y")]))),
        Box::new(tagged(Term::MakeCls(
            decl("c"),
            closure,
            Box::new(tagged(Term::If(
                Box::new(tagged(Term::Binary(BinOp::Lt, var("x"), lit(2)))),
                Box::new(tagged(Term::ApplyCls(var("c"), vec![lit(3)]))),
                Box::new(tagged(Term::ApplyDir(decl("g"), vec![Box::new(tagged(Term::Unary(UnOp::Neg, lit(4))))]))),
            ))),
        ))),
    );
    assert_eq!(t.clone(), t);
    let tagged_term = TaggedTerm::new(Scheme::con("Bool"), Term::Block(vec![Box::new(tagged(t))]));
    assert_eq!(tagged_term.clone(), tagged_term);
    let nodes = vec![lit(1), Box::new(tagged_term)];
    assert_eq!(clone_nodes(&nodes), nodes);
    let d = fun(vec![decl("a")], vec![decl("b")], *var("a"));
    assert_eq!(d.clone(), d);
    let td = TypeDef::new(
        "T".to_string(),
        vec!["a".to_string()],
        TypeKind::Algebra(vec![Variant { name: "V".to_string(), body: VariantBody::Unit }]),
    );
    assert_eq!(td.clone(), td);
}
