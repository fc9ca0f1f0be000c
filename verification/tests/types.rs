use closure_ir::types::{clone_names, same_names, Scheme, Type};
use std::collections::HashSet;

fn con(name: &str) -> Type {
    Type::Con(name.to_string())
}

fn var(name: &str) -> Type {
    Type::Var(name.to_string())
}

fn prod(a: Type, b: Type) -> Type {
    Type::Prod(Box::new(a), Box::new(b))
}

#[test]
fn product_of_two_types() {
    assert_eq!(Type::product(con("Int"), con("Bool")), prod(con("Int"), con("Bool")));
}

#[test]
fn compose_applies_callee_to_argument() {
    assert_eq!(
        Type::compose(con("List"), con("Int")),
        Type::Comp(Box::new(con("List")), Box::new(con("Int")))
    );
}

#[test]
fn product_n_of_three_nests_to_the_right() {
    let t = Type::product_n(vec![con("a"), con("b"), con("c")]);
    assert_eq!(t, prod(con("a"), prod(con("b"), con("c"))));
}

#[test]
fn product_n_of_two_is_one_product() {
    assert_eq!(Type::product_n(vec![con("a"), con("b")]), prod(con("a"), con("b")));
}

#[test]
fn product_n_of_one_is_that_type() {
    assert_eq!(Type::product_n(vec![con("Int")]), con("Int"));
}

#[test]
fn product_n_keeps_a_product_in_last_place() {
    let last = prod(con("x"), con("y"));
    let t = Type::product_n(vec![con("a"), last.clone()]);
    assert_eq!(t, prod(con("a"), last));
}

#[test]
fn product_n_has_depth_n_minus_one() {
    let n: usize = 5;
    let parts: Vec<Type> = (0..n).map(|i| con(&format!("t{}", i))).collect();
    let mut cur = Type::product_n(parts);
    let mut depth = 0;
    while let Type::Prod(_, rest) = cur {
        depth += 1;
        cur = *rest;
    }
    assert_eq!(depth, n - 1);
    assert_eq!(cur, con("t4"));
}

#[test]
fn split_product_gives_back_the_components() {
    let parts = vec![con("a"), Type::Void, con("c"), var("d")];
    let t = Type::product_n(parts.clone());
    assert_eq!(t.split_product(4), parts);
}

#[test]
fn split_product_of_one_component_is_the_type() {
    let t = prod(con("a"), con("b"));
    assert_eq!(t.clone().split_product(1), vec![t.clone()]);
    assert_eq!(t.clone().split_product(0), vec![t]);
}

#[test]
fn split_product_stops_where_nesting_ends() {
    let t = prod(con("a"), con("b"));
    assert_eq!(t.split_product(5), vec![con("a"), con("b")]);
}

#[test]
fn split_product_leaves_deeper_nesting_in_the_last_component() {
    let t = prod(con("a"), prod(con("b"), con("c")));
    assert_eq!(t.split_product(2), vec![con("a"), prod(con("b"), con("c"))]);
}

#[test]
fn scheme_slot_is_the_placeholder() {
    assert_eq!(Scheme::slot(), Scheme::Slot);
}

#[test]
fn scheme_con_is_the_mono_scheme_of_the_named_type() {
    assert_eq!(Scheme::con("Int"), Scheme::Mono(Box::new(con("Int"))));
}

#[test]
fn scheme_arrow_is_the_mono_scheme_of_the_function_type() {
    assert_eq!(
        Scheme::arrow(con("Int"), con("Bool")),
        Scheme::Mono(Box::new(Type::Arr(Box::new(con("Int")), Box::new(con("Bool")))))
    );
}

#[test]
fn scheme_body_of_mono_is_its_type() {
    let m = Scheme::Mono(Box::new(con("Int")));
    assert_eq!(*m.body(), con("Int"));
}

#[test]
fn scheme_body_of_poly_is_its_type() {
    let t = Type::Arr(Box::new(var("a")), Box::new(var("a")));
    let p = Scheme::Poly(vec!["a".to_string()], Box::new(t.clone()));
    assert_eq!(*p.body(), t);
}

#[test]
fn type_equality_is_structural() {
    assert_eq!(prod(con("a"), var("b")), prod(con("a"), var("b")));
    assert_ne!(prod(con("a"), var("b")), prod(var("b"), con("a")));
    assert_ne!(con("a"), var("a"));
    assert_ne!(con("a"), con("b"));
    assert_ne!(Type::Void, con("Void"));
    assert_ne!(
        Type::Arr(Box::new(con("a")), Box::new(con("b"))),
        Type::Comp(Box::new(con("a")), Box::new(con("b")))
    );
    assert_eq!(Type::Void, Type::Void);
}

#[test]
fn scheme_equality_is_structural() {
    let t = con("Int");
    assert_eq!(Scheme::Mono(Box::new(t.clone())), Scheme::Mono(Box::new(t.clone())));
    assert_ne!(Scheme::Mono(Box::new(t.clone())), Scheme::Poly(vec![], Box::new(t.clone())));
    assert_ne!(
        Scheme::Poly(vec!["a".to_string()], Box::new(t.clone())),
        Scheme::Poly(vec!["b".to_string()], Box::new(t.clone()))
    );
    assert_ne!(
        Scheme::Poly(vec!["a".to_string()], Box::new(t.clone())),
        Scheme::Poly(vec!["a".to_string(), "b".to_string()], Box::new(t.clone()))
    );
    assert_ne!(Scheme::Slot, Scheme::Mono(Box::new(t)));
    assert_eq!(Scheme::Slot, Scheme::Slot);
}

#[test]
fn equal_types_hash_alike() {
    let mut seen: HashSet<Type> = HashSet::new();
    assert!(seen.insert(prod(con("a"), con("b"))));
    assert!(!seen.insert(prod(con("a"), con("b"))));
    assert!(seen.insert(prod(con("b"), con("a"))));
}

#[test]
fn clone_of_a_type_equals_it() {
    let t = Type::Arr(Box::new(prod(con("a"), var("b"))), Box::new(Type::Void));
    assert_eq!(t.clone(), t);
    let s = Scheme::Poly(vec!["a".to_string(), "b".to_string()], Box::new(t));
    assert_eq!(s.clone(), s);
}

#[test]
fn names_are_copied_and_compared_in_order() {
    let names = vec!["x".to_string(), "y".to_string()];
    let copy = clone_names(&names);
    assert_eq!(copy, names);
    assert!(same_names(&names, &copy));
    assert!(!same_names(&names, &vec!["y".to_string(), "x".to_string()]));
    assert!(!same_names(&names, &vec!["x".to_string()]));
    assert!(same_names(&vec![], &vec![]));
}
