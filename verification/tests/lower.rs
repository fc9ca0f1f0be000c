use closure_ir::backend::call::{Call, Op};
use closure_ir::backend::handles::{
    LLVMBasicBlock, LLVMBuilder, LLVMContext, LLVMFunction, LLVMFunctionPassManager, LLVMModule,
    LLVMType, LLVMWrapper,
};
use closure_ir::backend::trace::Trace;
use closure_ir::lower::{
    accept, check_closure, check_resolved, declare, finish, join, pack_environment,
    unpack_environment, LowerError,
};
use closure_ir::syntax::{Lit, VarDecl};
use closure_ir::term::{Closure, FunDef, TaggedTerm, Term};
use closure_ir::types::{Scheme, Type};

fn plain(op: Op, args: Vec<usize>) -> Call {
    Call { op, args, list: vec![], blocks: vec![], text: String::new(), number: 0, flag: false }
}

fn named(op: Op, args: Vec<usize>, text: &str) -> Call {
    Call { text: text.to_string(), ..plain(op, args) }
}

fn decl(name: &str) -> VarDecl {
    VarDecl(name.to_string(), Scheme::con("Int"))
}

fn lit(n: i32) -> Box<TaggedTerm> {
    Box::new(TaggedTerm::new(Scheme::con("Int"), Term::Lit(Lit::Int(n))))
}

fn var(name: &str) -> Box<TaggedTerm> {
    Box::new(TaggedTerm::new(Scheme::con("Int"), Term::Var(name.to_string())))
}

fn fun(name: &str, params: Vec<&str>, freevars: Vec<&str>, body: TaggedTerm) -> FunDef {
    let int = Type::Con("Int".to_string());
    FunDef::new(
        name.to_string(),
        Scheme::arrow(int.clone(), int),
        params.into_iter().map(decl).collect(),
        freevars.into_iter().map(decl).collect(),
        body,
    )
}

/// Context 0, module 1, `i32` 2, pointer to `i32` 3, builder 4.
fn session() -> (Trace, LLVMContext, LLVMModule, LLVMType, LLVMType, LLVMBuilder) {
    let mut t = Trace::new();
    let ctx = LLVMContext::new(&mut t);
    let module = LLVMModule::in_ctx(&mut t, "m", &ctx);
    let i32t = ctx.get_int32_type(&mut t);
    let env = i32t.get_ptr(&mut t, 0);
    let builder = LLVMBuilder::in_ctx(&mut t, &ctx);
    (t, ctx, module, i32t, env, builder)
}

#[test]
fn a_resolved_function_passes_the_check() {
    assert_eq!(check_resolved(&fun("f", vec!["a"], vec!["b"], *var("a"))), Ok(()));
}

#[test]
fn an_unresolved_function_is_rejected() {
    let body = TaggedTerm::new(Scheme::Slot, Term::Var("a".to_string()));
    assert_eq!(check_resolved(&fun("f", vec!["a"], vec![], body)), Err(LowerError::UnresolvedScheme));
    let no_type = FunDef::new("f".to_string(), Scheme::Slot, vec![], vec![], *lit(1));
    assert_eq!(check_resolved(&no_type), Err(LowerError::UnresolvedScheme));
}

#[test]
fn a_closure_that_captures_each_free_variable_passes_the_check() {
    let target = fun("f", vec!["a"], vec!["x", "y"], *var("a"));
    let closure = Closure::new("f".to_string(), vec!["p".to_string(), "q".to_string()]);
    assert_eq!(check_closure(&closure, &target), Ok(()));
    let none = Closure::new("g".to_string(), vec![]);
    assert_eq!(check_closure(&none, &fun("g", vec![], vec![], *lit(1))), Ok(()));
}

#[test]
fn a_closure_of_another_arity_is_rejected() {
    let target = fun("f", vec!["a"], vec!["x", "y"], *var("a"));
    let fewer = Closure::new("f".to_string(), vec!["p".to_string()]);
    assert_eq!(check_closure(&fewer, &target), Err(LowerError::ArityMismatch));
    let more = Closure::new("f".to_string(), vec!["p".to_string(), "q".to_string(), "r".to_string()]);
    assert_eq!(check_closure(&more, &target), Err(LowerError::ArityMismatch));
    let some = Closure::new("g".to_string(), vec!["p".to_string()]);
    assert_eq!(check_closure(&some, &fun("g", vec![], vec![], *lit(1))), Err(LowerError::ArityMismatch));
}

#[test]
fn a_function_without_free_variables_gets_no_environment_parameter() {
    let (mut t, _ctx, module, i32t, env, _builder) = session();
    let def = fun("add", vec!["a", "b"], vec![], *var("a"));
    let at = t.len();
    let f = declare(&module, &mut t, &def, &i32t, &vec![i32t, i32t], &env);
    assert_eq!(t.len(), at + 2);
    assert_eq!(*t.call(at), Call { list: vec![2, 2], ..plain(Op::FunctionType, vec![2]) });
    assert_eq!(*t.call(at + 1), named(Op::AddFunction, vec![1, at], "add"));
    assert_eq!(f.to_ref(), at + 1);
    assert!(t.well_formed());
}

#[test]
fn a_function_with_free_variables_gets_one_trailing_environment_parameter() {
    let (mut t, _ctx, module, i32t, env, _builder) = session();
    let def = fun("inc", vec!["a"], vec!["x", "y", "z"], *var("a"));
    let at = t.len();
    let f = declare(&module, &mut t, &def, &i32t, &vec![i32t], &env);
    assert_eq!(*t.call(at), Call { list: vec![2, 3], ..plain(Op::FunctionType, vec![2]) });
    assert_eq!(*t.call(at + 1), named(Op::AddFunction, vec![1, at], "inc"));
    assert_eq!(f.to_ref(), at + 1);
    assert!(t.well_formed());
}

#[test]
fn the_same_name_gives_the_same_symbol() {
    let (mut t, _ctx, module, i32t, env, _builder) = session();
    let def = fun("stable_name", vec![], vec![], *lit(1));
    let a = declare(&module, &mut t, &def, &i32t, &vec![], &env);
    let b = declare(&module, &mut t, &def, &i32t, &vec![], &env);
    assert_eq!(t.call(a.to_ref()).text, "stable_name");
    assert_eq!(t.call(a.to_ref()).text, t.call(b.to_ref()).text);
}

#[test]
fn no_free_variables_unpack_nothing() {
    let (mut t, _ctx, module, i32t, env, builder) = session();
    let def = fun("add", vec!["a", "b"], vec![], *var("a"));
    let f = declare(&module, &mut t, &def, &i32t, &vec![i32t, i32t], &env);
    let at = t.len();
    let vals = unpack_environment(&builder, &mut t, &f, &def);
    assert_eq!(vals, vec![]);
    assert_eq!(t.len(), at);
    assert!(t.well_formed());
}

#[test]
fn free_variables_are_loaded_in_their_order() {
    let (mut t, _ctx, module, i32t, env, builder) = session();
    let def = fun("inc", vec!["a", "b"], vec!["x", "y", "z"], *var("a"));
    let f = declare(&module, &mut t, &def, &i32t, &vec![i32t, i32t], &env);
    let at = t.len();
    let vals = unpack_environment(&builder, &mut t, &f, &def);
    let expected = vec![
        Call { number: 2, ..plain(Op::GetParam, vec![f.to_ref()]) },
        Call { number: 0, ..named(Op::BuildStructGep, vec![4, at], "x") },
        named(Op::BuildLoad, vec![4, at + 1], "x"),
        Call { number: 1, ..named(Op::BuildStructGep, vec![4, at], "y") },
        named(Op::BuildLoad, vec![4, at + 3], "y"),
        Call { number: 2, ..named(Op::BuildStructGep, vec![4, at], "z") },
        named(Op::BuildLoad, vec![4, at + 5], "z"),
    ];
    let recorded: Vec<&Call> = (at..t.len()).map(|i| t.call(i)).collect();
    assert_eq!(recorded, expected.iter().collect::<Vec<_>>());
    let positions: Vec<usize> = vals.iter().map(|v| v.to_ref()).collect();
    assert_eq!(positions, vec![at + 2, at + 4, at + 6]);
    let loads = recorded.iter().filter(|c| c.op == Op::BuildLoad).count();
    assert_eq!(loads, 3);
    assert!(t.well_formed());
}

#[test]
fn a_free_variable_with_a_zero_byte_in_its_name_is_not_well_formed() {
    let (mut t, _ctx, module, i32t, env, builder) = session();
    let def = fun("f", vec![], vec!["x\0"], *lit(1));
    let f = declare(&module, &mut t, &def, &i32t, &vec![], &env);
    assert!(t.well_formed());
    unpack_environment(&builder, &mut t, &f, &def);
    assert!(!t.well_formed());
}

#[test]
fn join_attaches_the_two_arms() {
    let (mut t, ctx, module, i32t, env, builder) = session();
    let def = fun("f", vec![], vec![], *lit(1));
    let f = declare(&module, &mut t, &def, &i32t, &vec![], &env);
    let then_block = ctx.append_basic_block(&mut t, &f, "then");
    let else_block = ctx.append_basic_block(&mut t, &f, "else");
    let one = ctx.get_int32_const(&mut t, 1);
    let zero = ctx.get_int32_const(&mut t, 0);
    let at = t.len();
    let phi = join(&builder, &mut t, &i32t, (one, then_block), (zero, else_block), "if");
    assert_eq!(phi.to_ref(), at);
    assert_eq!(t.len(), at + 2);
    assert_eq!(*t.call(at), named(Op::BuildPhi, vec![4, 2], "if"));
    let add = t.call(at + 1);
    assert_eq!(add.op, Op::AddIncoming);
    assert_eq!(add.args, vec![at]);
    assert_eq!(add.list.len(), 2);
    assert_eq!(add.blocks.len(), 2);
    assert_eq!(add.list, vec![one.to_ref(), zero.to_ref()]);
    assert_eq!(add.blocks, vec![then_block.to_ref(), else_block.to_ref()]);
    assert!(t.well_formed());
}

#[test]
fn join_pairs_do_not_depend_on_the_order_of_the_arms() {
    let pairs = |then_first: bool| -> Vec<(usize, usize)> {
        let (mut t, ctx, module, i32t, env, builder) = session();
        let def = fun("f", vec![], vec![], *lit(1));
        let f = declare(&module, &mut t, &def, &i32t, &vec![], &env);
        let then_block = ctx.append_basic_block(&mut t, &f, "then");
        let else_block = ctx.append_basic_block(&mut t, &f, "else");
        let one = ctx.get_int32_const(&mut t, 1);
        let zero = ctx.get_int32_const(&mut t, 0);
        let phi = if then_first {
            join(&builder, &mut t, &i32t, (one, then_block), (zero, else_block), "if")
        } else {
            join(&builder, &mut t, &i32t, (zero, else_block), (one, then_block), "if")
        };
        let add = t.call(phi.to_ref() + 1);
        let mut pairs: Vec<(usize, usize)> =
            add.list.iter().cloned().zip(add.blocks.iter().cloned()).collect();
        pairs.sort();
        pairs
    };
    assert_eq!(pairs(true), pairs(false));
    assert_eq!(pairs(true).len(), 2);
}

#[test]
fn finish_runs_the_pipeline_once_and_then_verifies() {
    let (mut t, _ctx, module, i32t, env, _builder) = session();
    let def = fun("f", vec![], vec![], *lit(1));
    let f = declare(&module, &mut t, &def, &i32t, &vec![], &env);
    let fpm = LLVMFunctionPassManager::init_for_module(&mut t, &module);
    let at = t.len();
    let status = finish(&fpm, &mut t, &f);
    assert_eq!(t.len(), at + 2);
    assert_eq!(*t.call(at), plain(Op::RunFunctionPassManager, vec![fpm.to_ref(), f.to_ref()]));
    assert_eq!(*t.call(at + 1), Call { number: 2, ..plain(Op::VerifyFunction, vec![f.to_ref()]) });
    assert_eq!(status.to_ref(), at + 1);
    assert!(t.well_formed());
}

#[test]
fn a_verified_function_is_accepted_and_a_failed_one_rejected() {
    assert_eq!(accept(0), Ok(()));
    assert_eq!(accept(1), Err(LowerError::VerificationFailed));
    assert_eq!(accept(usize::MAX), Err(LowerError::VerificationFailed));
}

#[test]
fn a_let_bound_conditional_joins_the_variable_and_the_constant() {
    // let x = 1 in if true then x else 0
    let x = decl("x");
    let body = Term::Let(
        x,
        lit(1),
        Box::new(TaggedTerm::new(
            Scheme::con("Int"),
            Term::If(
                Box::new(TaggedTerm::new(Scheme::con("Bool"), Term::Lit(Lit::Bool(true)))),
                var("x"),
                lit(0),
            ),
        )),
    );
    let def = fun("main", vec![], vec![], TaggedTerm::new(Scheme::con("Int"), body));
    assert_eq!(check_resolved(&def), Ok(()));

    let (mut t, ctx, module, i32t, env, builder) = session();
    let f = declare(&module, &mut t, &def, &i32t, &vec![], &env);
    assert_eq!(t.call(f.to_ref() - 1).list, vec![]);
    let entry = ctx.append_basic_block(&mut t, &f, "entry");
    builder.set_position_at_end(&mut t, &entry);
    assert_eq!(unpack_environment(&builder, &mut t, &f, &def), vec![]);
    let slot = builder.alloca(&mut t, &i32t, "x");
    let one = ctx.get_int32_const(&mut t, 1);
    builder.store(&mut t, &one, &slot);
    let cond = ctx.get_int1_const(&mut t, 1);
    let then_block = ctx.append_basic_block(&mut t, &f, "then");
    let else_block = ctx.append_basic_block(&mut t, &f, "else");
    let merge = ctx.append_basic_block(&mut t, &f, "merge");
    builder.cond_br(&mut t, &cond, &then_block, &else_block);
    builder.set_position_at_end(&mut t, &then_block);
    let x_val = builder.load(&mut t, &slot, "x");
    builder.br(&mut t, &merge);
    builder.set_position_at_end(&mut t, &else_block);
    let zero = ctx.get_int32_const(&mut t, 0);
    builder.br(&mut t, &merge);
    builder.set_position_at_end(&mut t, &merge);
    let phi = join(&builder, &mut t, &i32t, (x_val, then_block), (zero, else_block), "if");
    let ret = builder.ret(&mut t, &phi);
    let fpm = LLVMFunctionPassManager::init_for_module(&mut t, &module);
    let status = finish(&fpm, &mut t, &f);

    let add = t.call(phi.to_ref() + 1);
    assert_eq!(add.list, vec![x_val.to_ref(), zero.to_ref()]);
    assert_eq!(add.blocks, vec![then_block.to_ref(), else_block.to_ref()]);
    assert_eq!(*t.call(ret.to_ref()), plain(Op::BuildRet, vec![4, phi.to_ref()]));
    assert_eq!(status.to_ref(), t.len() - 1);
    assert!(t.well_formed());
    assert_eq!(accept(0), Ok(()));
}

#[test]
fn a_closure_over_one_variable_enters_a_function_that_loads_it() {
    // f has the free variable y and the body add(y, 1); a closure of f captures concrete_y.
    let add = VarDecl("add".to_string(), Scheme::con("Int"));
    let body = Term::ApplyDir(add, vec![var("y"), lit(1)]);
    let def = fun("f", vec![], vec!["y"], TaggedTerm::new(Scheme::con("Int"), body));
    assert_eq!(check_resolved(&def), Ok(()));
    let closure = Closure::new("f".to_string(), vec!["concrete_y".to_string()]);
    assert_eq!(closure.entry(), def.name());
    assert_eq!(check_closure(&closure, &def), Ok(()));

    let (mut t, ctx, module, i32t, env, builder) = session();
    let env_type = ctx.get_struct_type(&mut t, &vec![i32t], false);
    let made = builder.alloca(&mut t, &env_type, "env");
    let concrete_y = ctx.get_int32_const(&mut t, 41);
    let packed_at = t.len();
    assert_eq!(pack_environment(&builder, &mut t, &made, &closure, &def, &vec![concrete_y]), Ok(()));
    assert_eq!(t.call(packed_at).number, 0);
    assert_eq!(*t.call(packed_at + 1), plain(Op::BuildStore, vec![4, concrete_y.to_ref(), packed_at]));
    let f = declare(&module, &mut t, &def, &i32t, &vec![], &env);
    assert_eq!(t.call(f.to_ref() - 1).list, vec![env.to_ref()]);
    let entry = ctx.append_basic_block(&mut t, &f, "entry");
    builder.set_position_at_end(&mut t, &entry);
    let at = t.len();
    let loaded = unpack_environment(&builder, &mut t, &f, &def);
    assert_eq!(loaded.len(), 1);
    assert_eq!(*t.call(at), plain(Op::GetParam, vec![f.to_ref()]));
    assert_eq!(*t.call(at + 1), named(Op::BuildStructGep, vec![4, at], "y"));
    assert_eq!(*t.call(at + 2), named(Op::BuildLoad, vec![4, at + 1], "y"));
    assert_eq!(loaded[0].to_ref(), at + 2);

    let add_def = fun("add", vec!["a", "b"], vec![], *var("a"));
    let add_fn = declare(&module, &mut t, &add_def, &i32t, &vec![i32t, i32t], &env);
    let one = ctx.get_int32_const(&mut t, 1);
    let mut args = vec![loaded[0], one];
    let sum = builder.call(&mut t, &add_fn, &mut args, "sum");
    builder.ret(&mut t, &sum);
    assert_eq!(t.call(sum.to_ref()).list, vec![at + 2, one.to_ref()]);
    assert!(t.well_formed());
    let _ = (LLVMFunction::from_ref(0), LLVMBasicBlock::from_ref(0));
}

#[test]
fn captured_values_are_stored_in_the_order_of_the_free_variables() {
    let (mut t, ctx, _module, i32t, _env, builder) = session();
    let target = fun("f", vec!["a"], vec!["x", "y"], *var("a"));
    let closure = Closure::new("f".to_string(), vec!["p".to_string(), "q".to_string()]);
    let env_type = ctx.get_struct_type(&mut t, &vec![i32t, i32t], false);
    let env = builder.alloca(&mut t, &env_type, "env");
    let p = ctx.get_int32_const(&mut t, 10);
    let q = ctx.get_int32_const(&mut t, 20);
    let at = t.len();
    assert_eq!(pack_environment(&builder, &mut t, &env, &closure, &target, &vec![p, q]), Ok(()));
    let expected = vec![
        Call { number: 0, ..named(Op::BuildStructGep, vec![4, env.to_ref()], "x") },
        plain(Op::BuildStore, vec![4, p.to_ref(), at]),
        Call { number: 1, ..named(Op::BuildStructGep, vec![4, env.to_ref()], "y") },
        plain(Op::BuildStore, vec![4, q.to_ref(), at + 2]),
    ];
    let recorded: Vec<&Call> = (at..t.len()).map(|i| t.call(i)).collect();
    assert_eq!(recorded, expected.iter().collect::<Vec<_>>());
    assert!(t.well_formed());
}

#[test]
fn a_closure_of_another_arity_packs_nothing() {
    let (mut t, ctx, _module, i32t, _env, builder) = session();
    let target = fun("f", vec![], vec!["x", "y"], *lit(1));
    let closure = Closure::new("f".to_string(), vec!["p".to_string()]);
    let env = builder.alloca(&mut t, &i32t, "env");
    let p = ctx.get_int32_const(&mut t, 10);
    let at = t.len();
    assert_eq!(
        pack_environment(&builder, &mut t, &env, &closure, &target, &vec![p]),
        Err(LowerError::ArityMismatch)
    );
    assert_eq!(t.len(), at);
    let none = Closure::new("g".to_string(), vec![]);
    let g = fun("g", vec![], vec![], *lit(1));
    assert_eq!(pack_environment(&builder, &mut t, &env, &none, &g, &vec![]), Ok(()));
    assert_eq!(t.len(), at);
}

#[test]
fn what_is_packed_in_a_field_is_loaded_from_that_field() {
    let (mut t, ctx, module, i32t, env_ptr_type, builder) = session();
    let target = fun("f", vec![], vec!["x", "y", "z"], *lit(1));
    let closure = Closure::new(
        "f".to_string(),
        vec!["a".to_string(), "b".to_string(), "c".to_string()],
    );
    let env = builder.alloca(&mut t, &i32t, "env");
    let values: Vec<_> = (0..3).map(|n| ctx.get_int32_const(&mut t, n)).collect();
    let packed_at = t.len();
    assert_eq!(pack_environment(&builder, &mut t, &env, &closure, &target, &values), Ok(()));
    let f = declare(&module, &mut t, &target, &i32t, &vec![], &env_ptr_type);
    let unpacked_at = t.len();
    let loaded = unpack_environment(&builder, &mut t, &f, &target);
    for i in 0..3 {
        let gep_in = t.call(packed_at + 2 * i);
        let store = t.call(packed_at + 2 * i + 1);
        let gep_out = t.call(unpacked_at + 1 + 2 * i);
        let load = t.call(loaded[i].to_ref());
        assert_eq!(gep_in.number, i as u64);
        assert_eq!(gep_out.number, i as u64);
        assert_eq!(gep_in.text, gep_out.text);
        assert_eq!(store.args, vec![4, values[i].to_ref(), packed_at + 2 * i]);
        assert_eq!(load.args, vec![4, unpacked_at + 1 + 2 * i]);
        assert_eq!(load.text, gep_out.text);
    }
    assert!(t.well_formed());
}
