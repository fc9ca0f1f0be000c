//! What lowering a global function to the backend rests on: the checks that
//! the program must pass, the shape of the native function, the unpacking of
//! the captured environment in its entry block, the joining of the two arms
//! of a conditional, and the acceptance of the finished function.

use crate::backend::builder::{add_incoming_call, build_struct_gep};
use crate::backend::call::{CallView, Kind, Op};
use crate::backend::context::type_of_list;
use crate::backend::handles::{
    references, LLVMBasicBlock, LLVMBuilder, LLVMContext, LLVMFunction,
    LLVMFunctionPassManager, LLVMModule, LLVMType, LLVMValue, LLVMWrapper, Pending,
};
use crate::backend::trace::{admissible, all_hold, c_text, holds, lemma_record, wf, Trace};
use crate::backend::value::{numbered, VerifierFailureAction};
use crate::term::{Closure, FunDef, FunDefView};
use crate::types::SchemeView;
use vstd::prelude::*;
use vstd::utf8::encode_utf8;

verus! {

/// Why a function cannot be lowered or is not accepted. Each is a defect of
/// an earlier phase, never of the program's author.
#[derive(Clone, Copy, PartialEq, Eq, Structural, Hash, Debug)]
pub enum LowerError {
    /// A scheme that can be reached from the function is not inferred.
    UnresolvedScheme,
    /// A closure captures another number of variables than the function that
    /// it enters has free variables.
    ArityMismatch,
    /// The finished function failed the check of its structure.
    VerificationFailed,
}

/// Checks that every scheme that can be reached from `def` is inferred.
pub fn check_resolved(def: &FunDef) -> (r: Result<(), LowerError>)
    ensures
        def@.resolved() ==> r is Ok,
        !def@.resolved() ==> r == Err::<(), LowerError>(LowerError::UnresolvedScheme),
{
    if def.is_resolved() {
        Ok(())
    } else {
        Err(LowerError::UnresolvedScheme)
    }
}

/// Checks that `closure` captures one variable for each free variable of
/// `target`, the function that it enters.
pub fn check_closure(closure: &Closure, target: &FunDef) -> (r: Result<(), LowerError>)
    ensures
        closure@.actual_fv.len() == target@.freevars.len() ==> r is Ok,
        closure@.actual_fv.len() != target@.freevars.len() ==> r == Err::<(), LowerError>(
            LowerError::ArityMismatch,
        ),
{
    if closure.arity() == target.fv().len() {
        Ok(())
    } else {
        Err(LowerError::ArityMismatch)
    }
}

/// The types of the parameters of the native function for `def`: the types
/// `params` of its own parameters, and after them the type `env` of the
/// pointer to the environment where the function has free variables.
pub open spec fn native_params(def: FunDefView, params: Seq<usize>, env: usize) -> Seq<usize> {
    if def.freevars.len() > 0 {
        params.push(env)
    } else {
        params
    }
}

/// Whether the native function for `def` can be declared after `calls`: the
/// record is well-formed, the module and the types are held, the parameters
/// with the environment are fewer than a 32-bit count, and the function's
/// name can be passed as a C string.
pub open spec fn declarable(
    calls: Seq<CallView>,
    module: usize,
    ret: usize,
    params: Seq<usize>,
    env: usize,
    def: FunDefView,
) -> bool {
    &&& wf(calls)
    &&& holds(calls, module, Kind::Module)
    &&& holds(calls, ret, Kind::Type)
    &&& holds(calls, env, Kind::Type)
    &&& all_hold(calls, params, Kind::Type)
    &&& params.len() < u32::MAX
    &&& c_text(def.name)
}

/// Records the declaration of the native function for `def` in `module`: the
/// making of its type, which returns `ret` and takes `params` and, where
/// `def` has free variables, a last parameter of type `env`; and the adding
/// of a function of that type under the name of `def`. Where the function
/// can be declared, the record stays well-formed and holds the function.
pub fn declare(
    module: &LLVMModule,
    trace: &mut Trace,
    def: &FunDef,
    ret: &LLVMType,
    params: &Vec<LLVMType>,
    env: &LLVMType,
) -> (f: LLVMFunction)
    ensures
        final(trace)@ == old(trace)@.push(
            type_of_list(
                Op::FunctionType,
                ret@,
                native_params(def@, references(params@), env@),
                false,
            ),
        ).push(
            CallView::named(Op::AddFunction, seq![module@, old(trace)@.len() as usize], def@.name),
        ),
        f@ == old(trace)@.len() + 1,
        declarable(old(trace)@, module@, ret@, references(params@), env@, def@) ==> wf(
            final(trace)@,
        ) && holds(final(trace)@, f@, Kind::Value),
{
    let ghost sound = declarable(old(trace)@, module@, ret@, references(params@), env@, def@);
    let mut all: Vec<LLVMType> = Vec::new();
    let mut i: usize = 0;
    while i < params.len()
        invariant
            i <= params.len(),
            all@ == params@.take(i as int),
        decreases params.len() - i,
    {
        all.push(params[i]);
        i = i + 1;
        assert(all@ =~= params@.take(i as int));
    }
    assert(params@.take(params.len() as int) =~= params@);
    if def.fv().len() > 0 {
        all.push(*env);
    }
    assert(references(all@) =~= native_params(def@, references(params@), env@));
    let fty = LLVMContext::get_function_type(trace, ret, &all, false);
    let ghost between = trace@;
    let name = def.name();
    let f = module.add_function(trace, name.as_str(), &fty);
    proof {
        if sound {
            let list = native_params(def@, references(params@), env@);
            let make = type_of_list(Op::FunctionType, ret@, list, false);
            assert(make.op.takes() =~= seq![Kind::Type]);
            assert(all_hold(old(trace)@, list, Kind::Type)) by {
                assert forall|m: int| 0 <= m < list.len() implies holds(
                    old(trace)@,
                    #[trigger] list[m],
                    Kind::Type,
                ) by {
                    if m < params.len() {
                        assert(list[m] == references(params@)[m]);
                    }
                }
            }
            assert(admissible(make, old(trace)@)) by {
                assert(encode_utf8(make.text) =~= Seq::<u8>::empty());
            }
            lemma_record(old(trace)@, make);
            let add = CallView::named(
                Op::AddFunction,
                seq![module@, old(trace)@.len() as usize],
                def@.name,
            );
            assert(add.op.takes() =~= seq![Kind::Module, Kind::Type]);
            assert(admissible(add, between));
            lemma_record(between, add);
        }
    }
    f
}

/// The call that stands at place `j` among the calls that unpack the
/// environment `env` into the variables `freevars`: at the even places the
/// address of the next field, at the odd places the load from the address
/// built just before, both named after the variable.
pub open spec fn unpack_step(
    builder: usize,
    env: usize,
    freevars: Seq<(Seq<char>, SchemeView)>,
    j: int,
) -> CallView {
    if j % 2 == 0 {
        build_struct_gep(builder, env, (j / 2) as u64, freevars[j / 2].0)
    } else {
        CallView::named(Op::BuildLoad, seq![builder, (env + j) as usize], freevars[j / 2].0)
    }
}

/// The calls that unpack the environment of `def` at the entry of the native
/// function `fun`, where the first of them stands at position `at`. None for
/// a function without free variables. Else the request for the parameter
/// after the function's own, which points to the environment, and then for
/// each free variable in order the address of its field and the load from it.
pub open spec fn unpacking(builder: usize, fun: usize, def: FunDefView, at: usize) -> Seq<
    CallView,
> {
    if def.freevars.len() == 0 {
        Seq::empty()
    } else {
        seq![numbered(Op::GetParam, fun, def.params.len() as u64)] + Seq::new(
            2 * def.freevars.len(),
            |j: int| unpack_step(builder, at, def.freevars, j),
        )
    }
}

/// Whether the names and numbers of `def` fit the calls that unpack its
/// environment: the number of its parameters and each index of a free
/// variable fit in 32 bits, and the name of each free variable can be passed
/// as a C string.
pub open spec fn fits_unpacking(def: FunDefView) -> bool {
    &&& def.params.len() <= u32::MAX
    &&& def.freevars.len() <= u32::MAX
    &&& forall|i: int| 0 <= i < def.freevars.len() ==> c_text((#[trigger] def.freevars[i]).0)
}

/// Whether the environment of `def` can be unpacked after `calls`: the record
/// is well-formed, the builder and the function are held, and the names and
/// numbers of `def` fit.
pub open spec fn unpackable(calls: Seq<CallView>, builder: usize, fun: usize, def: FunDefView) -> bool {
    &&& wf(calls)
    &&& holds(calls, builder, Kind::Builder)
    &&& holds(calls, fun, Kind::Value)
    &&& fits_unpacking(def)
}

/// Records the unpacking of the environment of `def` at the entry of the
/// native function `fun`, and gives the loaded values, one for each free variable
/// in order. Nothing is recorded for a function without free variables. Where
/// the environment can be unpacked, the record stays well-formed and holds
/// the loaded values.
pub fn unpack_environment(
    builder: &LLVMBuilder,
    trace: &mut Trace,
    fun: &LLVMFunction,
    def: &FunDef,
) -> (vals: Vec<LLVMValue>)
    ensures
        final(trace)@ == old(trace)@ + unpacking(builder@, fun@, def@, old(trace)@.len() as usize),
        vals.len() == def@.freevars.len(),
        forall|i: int| 0 <= i < vals.len() ==> (#[trigger] vals[i])@ == old(trace)@.len() + 2 + 2 * i,
        unpackable(old(trace)@, builder@, fun@, def@) ==> wf(final(trace)@) && holds(
            final(trace)@,
            builder@,
            Kind::Builder,
        ) && all_hold(final(trace)@, references(vals@), Kind::Value),
{
    let ghost sound = unpackable(old(trace)@, builder@, fun@, def@);
    let mut vals: Vec<LLVMValue> = Vec::new();
    let vars = def.fv();
    let k = vars.len();
    if k == 0 {
        assert(trace@ =~= old(trace)@ + unpacking(builder@, fun@, def@, old(trace)@.len() as usize));
        return vals;
    }
    let ghost start = old(trace)@;
    let ghost at = old(trace)@.len() as usize;
    let env = fun.get_param(trace, def.parameters().len());
    let ghost head = start.push(numbered(Op::GetParam, fun@, def@.params.len() as u64));
    assert(trace@ == head);
    proof {
        if sound {
            let c = numbered(Op::GetParam, fun@, def@.params.len() as u64);
            assert(c.op.takes() =~= seq![Kind::Value]);
            assert(admissible(c, start)) by {
                assert(encode_utf8(c.text) =~= Seq::<u8>::empty());
            }
            lemma_record(start, c);
        }
    }
    let mut i: usize = 0;
    while i < k
        invariant
            i <= k,
            k == vars.len(),
            vars.deep_view() == def@.freevars,
            env@ == at,
            at == start.len(),
            head == start.push(numbered(Op::GetParam, fun@, def@.params.len() as u64)),
            trace@ == head + Seq::new(
                2 * i as nat,
                |j: int| unpack_step(builder@, at, def@.freevars, j),
            ),
            vals.len() == i,
            forall|m: int| 0 <= m < i ==> (#[trigger] vals[m])@ == at + 2 + 2 * m,
            sound ==> fits_unpacking(def@) && wf(trace@) && holds(trace@, builder@, Kind::Builder)
                && holds(trace@, at, Kind::Value) && all_hold(
                trace@,
                references(vals@),
                Kind::Value,
            ),
        decreases k - i,
    {
        let name = vars[i].0.as_str();
        assert(name@ == def@.freevars[i as int].0) by {
            assert(vars.deep_view()[i as int] == vars[i as int]@);
        }
        let ghost before = trace@;
        let ghost loaded = vals@;
        let ptr = builder.struct_field_ptr(trace, &env, i, name);
        let ghost between = trace@;
        let val = builder.load(trace, &ptr, name);
        vals.push(val);
        proof {
            if sound {
                let gep = build_struct_gep(builder@, at, i as u64, name@);
                assert(c_text(def@.freevars[i as int].0));
                assert(admissible(gep, before));
                lemma_record(before, gep);
                let load = CallView::named(Op::BuildLoad, seq![builder@, ptr@], name@);
                assert(admissible(load, between));
                lemma_record(between, load);
                assert forall|m: int| 0 <= m < vals@.len() implies holds(
                    trace@,
                    #[trigger] references(vals@)[m],
                    Kind::Value,
                ) by {
                    if m < i {
                        assert(holds(before, references(loaded)[m], Kind::Value));
                        assert(holds(between, references(loaded)[m], Kind::Value));
                    }
                }
            }
        }
        proof {
            assert(ptr@ == at + 1 + 2 * i);
            assert(unpack_step(builder@, at, def@.freevars, 2 * i) == build_struct_gep(
                builder@,
                at,
                i as u64,
                name@,
            ));
            assert(unpack_step(builder@, at, def@.freevars, 2 * i + 1) == CallView::named(
                Op::BuildLoad,
                seq![builder@, ptr@],
                name@,
            ));
            assert(trace@ =~= head + Seq::new(
                2 * (i + 1) as nat,
                |j: int| unpack_step(builder@, at, def@.freevars, j),
            ));
        }
        i = i + 1;
    }
    assert(trace@ =~= start + unpacking(builder@, fun@, def@, at));
    vals
}

/// The call that stands at place `j` among the calls that pack the values
/// `values` into the environment `env`: at the even places the address of the
/// next field, named after the free variable that the field is for, and at
/// the odd places the store of the next value to the address built just
/// before.
pub open spec fn pack_step(
    builder: usize,
    env: usize,
    freevars: Seq<(Seq<char>, SchemeView)>,
    values: Seq<usize>,
    at: usize,
    j: int,
) -> CallView {
    if j % 2 == 0 {
        build_struct_gep(builder, env, (j / 2) as u64, freevars[j / 2].0)
    } else {
        CallView::plain(Op::BuildStore, seq![builder, values[j / 2], (at + j - 1) as usize])
    }
}

/// The calls that pack the values `values` of the captured variables into
/// the environment `env` of a closure of `target`, where the first of them
/// stands at position `at`: for each value in order the address of its field
/// and the store to it.
pub open spec fn packing(
    builder: usize,
    env: usize,
    target: FunDefView,
    values: Seq<usize>,
    at: usize,
) -> Seq<CallView> {
    Seq::new(2 * values.len(), |j: int| pack_step(builder, env, target.freevars, values, at, j))
}

/// Whether the values `values` can be packed after `calls` into the
/// environment `env` of a closure of `target`: the record is well-formed, the
/// builder, the environment and the values are held, and the names and
/// numbers of `target` fit.
pub open spec fn packable(
    calls: Seq<CallView>,
    builder: usize,
    env: usize,
    target: FunDefView,
    values: Seq<usize>,
) -> bool {
    &&& wf(calls)
    &&& holds(calls, builder, Kind::Builder)
    &&& holds(calls, env, Kind::Value)
    &&& all_hold(calls, values, Kind::Value)
    &&& fits_unpacking(target)
}

/// Records the packing of the environment of `closure`, a closure of
/// `target`, where the closure is made: for each captured variable in order
/// the address of its field in the environment that `env` points to, and the
/// store of its value, the one of `values` in the same place. A closure that
/// captures another number of variables than `target` has free variables is
/// rejected, and nothing is recorded. Where the values can be packed, the
/// record stays well-formed.
pub fn pack_environment(
    builder: &LLVMBuilder,
    trace: &mut Trace,
    env: &LLVMValue,
    closure: &Closure,
    target: &FunDef,
    values: &Vec<LLVMValue>,
) -> (r: Result<(), LowerError>)
    requires
        values.len() == closure@.actual_fv.len(),
    ensures
        closure@.actual_fv.len() == target@.freevars.len() ==> r is Ok && final(trace)@ == old(
            trace,
        )@ + packing(builder@, env@, target@, references(values@), old(trace)@.len() as usize),
        closure@.actual_fv.len() != target@.freevars.len() ==> r == Err::<(), LowerError>(
            LowerError::ArityMismatch,
        ) && final(trace)@ == old(trace)@,
        r is Ok && packable(old(trace)@, builder@, env@, target@, references(values@)) ==> wf(
            final(trace)@,
        ) && holds(final(trace)@, builder@, Kind::Builder),
{
    let ghost sound = packable(old(trace)@, builder@, env@, target@, references(values@));
    let ghost start = old(trace)@;
    let at = trace.len();
    let ghost vals = references(values@);
    let vars = target.fv();
    let k = vars.len();
    if closure.arity() != k {
        return Err(LowerError::ArityMismatch);
    }
    let mut i: usize = 0;
    assert(trace@ =~= start + Seq::new(
        0,
        |j: int| pack_step(builder@, env@, target@.freevars, vals, at, j),
    ));
    while i < k
        invariant
            i <= k,
            k == vars.len(),
            k == values.len(),
            vars.deep_view() == target@.freevars,
            vals == references(values@),
            at == start.len(),
            trace@ == start + Seq::new(
                2 * i as nat,
                |j: int| pack_step(builder@, env@, target@.freevars, vals, at, j),
            ),
            sound ==> fits_unpacking(target@) && wf(trace@) && holds(trace@, builder@, Kind::Builder)
                && holds(trace@, env@, Kind::Value) && all_hold(trace@, vals, Kind::Value),
        decreases k - i,
    {
        let name = vars[i].0.as_str();
        assert(name@ == target@.freevars[i as int].0) by {
            assert(vars.deep_view()[i as int] == vars[i as int]@);
        }
        let ghost before = trace@;
        let ptr = builder.struct_field_ptr(trace, env, i, name);
        let ghost between = trace@;
        let val = values[i];
        assert(val@ == vals[i as int]);
        builder.store(trace, &val, &ptr);
        proof {
            assert(ptr@ == at + 2 * i);
            let gep = build_struct_gep(builder@, env@, i as u64, name@);
            let store = CallView::plain(Op::BuildStore, seq![builder@, val@, ptr@]);
            assert(pack_step(builder@, env@, target@.freevars, vals, at, 2 * i) == gep);
            assert(pack_step(builder@, env@, target@.freevars, vals, at, 2 * i + 1) == store);
            assert(trace@ =~= start + Seq::new(
                2 * (i + 1) as nat,
                |j: int| pack_step(builder@, env@, target@.freevars, vals, at, j),
            ));
            if sound {
                assert(c_text(target@.freevars[i as int].0));
                assert(admissible(gep, before));
                lemma_record(before, gep);
                assert(holds(between, vals[i as int], Kind::Value));
                assert(store.op.takes() =~= seq![Kind::Builder, Kind::Value, Kind::Value]);
                assert(admissible(store, between)) by {
                    assert(encode_utf8(store.text) =~= Seq::<u8>::empty());
                }
                lemma_record(between, store);
                assert forall|m: int| 0 <= m < vals.len() implies holds(
                    trace@,
                    #[trigger] vals[m],
                    Kind::Value,
                ) by {
                    assert(holds(before, vals[m], Kind::Value));
                    assert(holds(between, vals[m], Kind::Value));
                }
            }
        }
        i = i + 1;
    }
    assert(trace@ =~= start + packing(builder@, env@, target@, vals, at));
    Ok(())
}

/// Packing and unpacking agree on the fields: the value of the captured
/// variable in place `i` is stored to field `i` of the environment, and the
/// free variable in place `i` is loaded from field `i`, both under the name
/// of that free variable.
pub proof fn lemma_packing_matches_unpacking(
    builder: usize,
    env: usize,
    fun: usize,
    target: FunDefView,
    values: Seq<usize>,
    packed_at: usize,
    unpacked_at: usize,
    i: int,
)
    requires
        values.len() == target.freevars.len(),
        0 <= i < values.len(),
    ensures
        packing(builder, env, target, values, packed_at)[2 * i] == build_struct_gep(
            builder,
            env,
            i as u64,
            target.freevars[i].0,
        ),
        packing(builder, env, target, values, packed_at)[2 * i + 1] == CallView::plain(
            Op::BuildStore,
            seq![builder, values[i], (packed_at + 2 * i) as usize],
        ),
        unpacking(builder, fun, target, unpacked_at)[1 + 2 * i] == build_struct_gep(
            builder,
            unpacked_at,
            i as u64,
            target.freevars[i].0,
        ),
        unpacking(builder, fun, target, unpacked_at)[2 + 2 * i] == CallView::named(
            Op::BuildLoad,
            seq![builder, (unpacked_at + 1 + 2 * i) as usize],
            target.freevars[i].0,
        ),
{
    let p = packing(builder, env, target, values, packed_at);
    assert(p[2 * i] == pack_step(builder, env, target.freevars, values, packed_at, 2 * i));
    assert(p[2 * i + 1] == pack_step(builder, env, target.freevars, values, packed_at, 2 * i + 1));
    lemma_unpacking_follows_freevars(builder, fun, target, Seq::empty(), 0, unpacked_at);
}

/// A function without free variables gets no parameter for an environment
/// and no call that unpacks one. A function with `k` free variables gets one
/// parameter more than its own, and after the request for that parameter
/// exactly `k` loads: the load for free variable `i` stands at place
/// `2 + 2 * i`, bears the variable's name and loads from the address, built
/// just before it, of field `i` of the environment.
pub proof fn lemma_unpacking_follows_freevars(
    builder: usize,
    fun: usize,
    def: FunDefView,
    params: Seq<usize>,
    env: usize,
    at: usize,
)
    ensures
        def.freevars.len() == 0 ==> native_params(def, params, env) == params && unpacking(
            builder,
            fun,
            def,
            at,
        ).len() == 0,
        def.freevars.len() > 0 ==> native_params(def, params, env).len() == params.len() + 1
            && native_params(def, params, env).last() == env && unpacking(
            builder,
            fun,
            def,
            at,
        ).len() == 1 + 2 * def.freevars.len(),
        forall|i: int|
            0 <= i < def.freevars.len() ==> {
                &&& unpacking(builder, fun, def, at)[1 + 2 * i] == build_struct_gep(
                    builder,
                    at,
                    i as u64,
                    def.freevars[i].0,
                )
                &&& #[trigger] unpacking(builder, fun, def, at)[2 + 2 * i] == CallView::named(
                    Op::BuildLoad,
                    seq![builder, (at + 1 + 2 * i) as usize],
                    def.freevars[i].0,
                )
            },
        forall|j: int|
            0 <= j < unpacking(builder, fun, def, at).len() ==> ((#[trigger] unpacking(
                builder,
                fun,
                def,
                at,
            )[j]).op == Op::BuildLoad <==> j >= 2 && j % 2 == 0),
{
    let u = unpacking(builder, fun, def, at);
    assert forall|i: int| 0 <= i < def.freevars.len() implies {
        &&& u[1 + 2 * i] == build_struct_gep(builder, at, i as u64, def.freevars[i].0)
        &&& #[trigger] u[2 + 2 * i] == CallView::named(
            Op::BuildLoad,
            seq![builder, (at + 1 + 2 * i) as usize],
            def.freevars[i].0,
        )
    } by {
        assert(u[1 + 2 * i] == unpack_step(builder, at, def.freevars, 2 * i));
        assert(u[2 + 2 * i] == unpack_step(builder, at, def.freevars, 2 * i + 1));
    }
    assert forall|j: int| 0 <= j < u.len() implies ((#[trigger] u[j]).op == Op::BuildLoad <==> j
        >= 2 && j % 2 == 0) by {
        if j >= 1 {
            assert(u[j] == unpack_step(builder, at, def.freevars, j - 1));
        }
    }
}

/// The pairs of a value and a block that the call `c` attaches to a phi node.
pub open spec fn attached(c: CallView) -> Set<(usize, usize)> {
    Set::new(
        |p: (usize, usize)|
            exists|i: int|
                0 <= i < c.list.len() && i < c.blocks.len() && p == (
                    #[trigger] c.list[i],
                    c.blocks[i],
                ),
    )
}

/// Joining two arms attaches exactly two pairs to the phi node, each the
/// value of one arm beside the block that the arm ends in, whichever arm is
/// given first.
pub proof fn lemma_join_attaches_both(
    phi: usize,
    then_arm: (LLVMValue, LLVMBasicBlock),
    else_arm: (LLVMValue, LLVMBasicBlock),
)
    ensures
        add_incoming_call(phi, seq![then_arm, else_arm]).list == seq![then_arm.0@, else_arm.0@],
        add_incoming_call(phi, seq![then_arm, else_arm]).blocks == seq![then_arm.1@, else_arm.1@],
        attached(add_incoming_call(phi, seq![then_arm, else_arm])) == set![
            (then_arm.0@, then_arm.1@),
            (else_arm.0@, else_arm.1@),
        ],
        attached(add_incoming_call(phi, seq![then_arm, else_arm])) == attached(
            add_incoming_call(phi, seq![else_arm, then_arm]),
        ),
{
    let a = add_incoming_call(phi, seq![then_arm, else_arm]);
    let b = add_incoming_call(phi, seq![else_arm, then_arm]);
    assert(a.list =~= seq![then_arm.0@, else_arm.0@]);
    assert(a.blocks =~= seq![then_arm.1@, else_arm.1@]);
    assert(b.list =~= seq![else_arm.0@, then_arm.0@]);
    assert(b.blocks =~= seq![else_arm.1@, then_arm.1@]);
    let both = set![(then_arm.0@, then_arm.1@), (else_arm.0@, else_arm.1@)];
    assert forall|p: (usize, usize)| attached(a).contains(p) <==> both.contains(p) by {
        if both.contains(p) {
            if p == (then_arm.0@, then_arm.1@) {
                assert(p == (a.list[0], a.blocks[0]));
            } else {
                assert(p == (a.list[1], a.blocks[1]));
            }
        }
    }
    assert forall|p: (usize, usize)| attached(b).contains(p) <==> both.contains(p) by {
        if both.contains(p) {
            if p == (then_arm.0@, then_arm.1@) {
                assert(p == (b.list[1], b.blocks[1]));
            } else {
                assert(p == (b.list[0], b.blocks[0]));
            }
        }
    }
    assert(attached(a) =~= both);
    assert(attached(b) =~= both);
}

/// Whether two arms can be joined after `calls`: the record is well-formed,
/// the builder, the type and the value and block of each arm are held, and
/// the name can be passed as a C string.
pub open spec fn joinable(
    calls: Seq<CallView>,
    builder: usize,
    ty: usize,
    then_arm: (LLVMValue, LLVMBasicBlock),
    else_arm: (LLVMValue, LLVMBasicBlock),
    dest: Seq<char>,
) -> bool {
    &&& wf(calls)
    &&& holds(calls, builder, Kind::Builder)
    &&& holds(calls, ty, Kind::Type)
    &&& holds(calls, then_arm.0@, Kind::Value)
    &&& holds(calls, then_arm.1@, Kind::Block)
    &&& holds(calls, else_arm.0@, Kind::Value)
    &&& holds(calls, else_arm.1@, Kind::Block)
    &&& c_text(dest)
}

/// Records the joining of the two arms of a conditional in the block where
/// the builder stands: the building of a phi node of type `ty` named `dest`,
/// and the attaching of the value of each arm with the block that the arm
/// ends in. Where the arms can be joined, the record stays well-formed and
/// holds the phi node.
pub fn join(
    builder: &LLVMBuilder,
    trace: &mut Trace,
    ty: &LLVMType,
    then_arm: (LLVMValue, LLVMBasicBlock),
    else_arm: (LLVMValue, LLVMBasicBlock),
    dest: &str,
) -> (v: LLVMValue)
    ensures
        final(trace)@ == old(trace)@.push(
            CallView::named(Op::BuildPhi, seq![builder@, ty@], dest@),
        ).push(add_incoming_call(old(trace)@.len() as usize, seq![then_arm, else_arm])),
        v@ == old(trace)@.len(),
        joinable(old(trace)@, builder@, ty@, then_arm, else_arm, dest@) ==> wf(final(trace)@)
            && holds(final(trace)@, v@, Kind::Value),
{
    let ghost sound = joinable(old(trace)@, builder@, ty@, then_arm, else_arm, dest@);
    let mut incoming: Vec<(LLVMValue, LLVMBasicBlock)> = Vec::new();
    incoming.push(then_arm);
    incoming.push(else_arm);
    assert(incoming@ =~= seq![then_arm, else_arm]);
    let v = builder.phi_node(trace, ty, &incoming, dest);
    proof {
        if sound {
            let phi = CallView::named(Op::BuildPhi, seq![builder@, ty@], dest@);
            assert(phi.op.takes() =~= seq![Kind::Builder, Kind::Type]);
            assert(admissible(phi, old(trace)@));
            lemma_record(old(trace)@, phi);
            let between = old(trace)@.push(phi);
            let add = add_incoming_call(old(trace)@.len() as usize, seq![then_arm, else_arm]);
            lemma_join_attaches_both(old(trace)@.len() as usize, then_arm, else_arm);
            assert(add.op.takes() =~= seq![Kind::Value]);
            assert(admissible(add, between)) by {
                assert(encode_utf8(add.text) =~= Seq::<u8>::empty());
            }
            lemma_record(between, add);
        }
    }
    v
}

/// Records what ends the lowering of the function `fun`: one run of the
/// optimization pipeline on it, and then the check of its structure, which
/// replies with a status and prints nothing. Whether the function is
/// accepted is known from the reply: see [`accept`].
pub fn finish(fpm: &LLVMFunctionPassManager, trace: &mut Trace, fun: &LLVMFunction) -> (status:
    Pending)
    ensures
        final(trace)@ == old(trace)@.push(
            CallView::plain(Op::RunFunctionPassManager, seq![fpm@, fun@]),
        ).push(numbered(Op::VerifyFunction, fun@, VerifierFailureAction::ReturnStatus.code())),
        status@ == old(trace)@.len() + 1,
        wf(old(trace)@) && holds(old(trace)@, fpm@, Kind::PassManager) && holds(
            old(trace)@,
            fun@,
            Kind::Value,
        ) ==> wf(final(trace)@),
{
    let ghost sound = wf(old(trace)@) && holds(old(trace)@, fpm@, Kind::PassManager) && holds(
        old(trace)@,
        fun@,
        Kind::Value,
    );
    fpm.run(trace, fun);
    let ghost between = trace@;
    let status = fun.verify(trace, VerifierFailureAction::ReturnStatus);
    proof {
        if sound {
            let run = CallView::plain(Op::RunFunctionPassManager, seq![fpm@, fun@]);
            assert(run.op.takes() =~= seq![Kind::PassManager, Kind::Value]);
            assert(admissible(run, old(trace)@)) by {
                assert(encode_utf8(run.text) =~= Seq::<u8>::empty());
            }
            lemma_record(old(trace)@, run);
            let check = numbered(
                Op::VerifyFunction,
                fun@,
                VerifierFailureAction::ReturnStatus.code(),
            );
            assert(check.op.takes() =~= seq![Kind::Value]);
            assert(admissible(check, between)) by {
                assert(encode_utf8(check.text) =~= Seq::<u8>::empty());
            }
            lemma_record(between, check);
        }
    }
    status
}

/// Accepts or rejects a finished function, given the status `reply` that the
/// check of its structure replied with.
pub fn accept(reply: usize) -> (r: Result<(), LowerError>)
    ensures
        reply == 0 ==> r is Ok,
        reply != 0 ==> r == Err::<(), LowerError>(LowerError::VerificationFailed),
{
    if LLVMFunction::verified(reply) {
        Ok(())
    } else {
        Err(LowerError::VerificationFailed)
    }
}

} // verus!
