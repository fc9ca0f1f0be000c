//! Typed handles on the objects of the backend.
//!
//! A handle wraps the position of the call that replies with its object. The
//! handles on a context, a module, a builder and a pass manager own their
//! object: they cannot be copied, and releasing the object consumes them.
//! The handles on a type, a value, a function and a basic block are views:
//! copying one copies the reference, not the object.

use crate::backend::call::{Call, CallView, Op};
use vstd::prelude::*;

verus! {

/// A handle that wraps a reference of type `T`.
pub trait LLVMWrapper<T>: Sized {
    /// The reference that the handle wraps.
    spec fn reference(&self) -> T;

    /// The handle on `ptr`.
    fn from_ref(ptr: T) -> (w: Self)
        ensures
            w.reference() == ptr,
    ;

    /// The reference that the handle wraps.
    fn to_ref(&self) -> (ptr: T)
        ensures
            ptr == self.reference(),
    ;
}

/// The owning handle on a context.
#[derive(Debug)]
pub struct LLVMContext(usize);

/// The owning handle on a module.
#[derive(Debug)]
pub struct LLVMModule(usize);

/// The owning handle on a function pass manager.
#[derive(Debug)]
pub struct LLVMFunctionPassManager(usize);

/// The owning handle on an instruction builder.
#[derive(Debug)]
pub struct LLVMBuilder(usize);

/// A view of a value.
#[derive(Clone, Copy, PartialEq, Eq, Structural, Hash, Debug)]
pub struct LLVMValue(usize);

/// A view of a value that is a function.
#[derive(Clone, Copy, PartialEq, Eq, Structural, Hash, Debug)]
pub struct LLVMFunction(usize);

/// A view of a type.
#[derive(Clone, Copy, PartialEq, Eq, Structural, Hash, Debug)]
pub struct LLVMType(usize);

/// A view of a basic block.
#[derive(Clone, Copy, PartialEq, Eq, Structural, Hash, Debug)]
pub struct LLVMBasicBlock(usize);

/// The place of a number that a call replies with: a count or a status,
/// known once the call is made.
#[derive(Clone, Copy, PartialEq, Eq, Structural, Hash, Debug)]
pub struct Pending(usize);

/// The place of a function that was looked up by name, known to exist or
/// not once the call is made.
#[derive(Clone, Copy, PartialEq, Eq, Structural, Hash, Debug)]
pub struct Lookup(usize);

impl View for LLVMContext {
    type V = usize;

    closed spec fn view(&self) -> usize {
        self.0
    }
}

impl View for LLVMModule {
    type V = usize;

    closed spec fn view(&self) -> usize {
        self.0
    }
}

impl View for LLVMFunctionPassManager {
    type V = usize;

    closed spec fn view(&self) -> usize {
        self.0
    }
}

impl View for LLVMBuilder {
    type V = usize;

    closed spec fn view(&self) -> usize {
        self.0
    }
}

impl View for LLVMValue {
    type V = usize;

    closed spec fn view(&self) -> usize {
        self.0
    }
}

impl View for LLVMFunction {
    type V = usize;

    closed spec fn view(&self) -> usize {
        self.0
    }
}

impl View for LLVMType {
    type V = usize;

    closed spec fn view(&self) -> usize {
        self.0
    }
}

impl View for LLVMBasicBlock {
    type V = usize;

    closed spec fn view(&self) -> usize {
        self.0
    }
}

impl View for Pending {
    type V = usize;

    closed spec fn view(&self) -> usize {
        self.0
    }
}

impl View for Lookup {
    type V = usize;

    closed spec fn view(&self) -> usize {
        self.0
    }
}

impl LLVMWrapper<usize> for LLVMContext {
    open spec fn reference(&self) -> usize {
        self@
    }

    fn from_ref(ptr: usize) -> (w: LLVMContext) {
        LLVMContext(ptr)
    }

    fn to_ref(&self) -> (ptr: usize) {
        self.0
    }
}

impl LLVMWrapper<usize> for LLVMModule {
    open spec fn reference(&self) -> usize {
        self@
    }

    fn from_ref(ptr: usize) -> (w: LLVMModule) {
        LLVMModule(ptr)
    }

    fn to_ref(&self) -> (ptr: usize) {
        self.0
    }
}

impl LLVMWrapper<usize> for LLVMFunctionPassManager {
    open spec fn reference(&self) -> usize {
        self@
    }

    fn from_ref(ptr: usize) -> (w: LLVMFunctionPassManager) {
        LLVMFunctionPassManager(ptr)
    }

    fn to_ref(&self) -> (ptr: usize) {
        self.0
    }
}

impl LLVMWrapper<usize> for LLVMBuilder {
    open spec fn reference(&self) -> usize {
        self@
    }

    fn from_ref(ptr: usize) -> (w: LLVMBuilder) {
        LLVMBuilder(ptr)
    }

    fn to_ref(&self) -> (ptr: usize) {
        self.0
    }
}

impl LLVMWrapper<usize> for LLVMValue {
    open spec fn reference(&self) -> usize {
        self@
    }

    fn from_ref(ptr: usize) -> (w: LLVMValue) {
        LLVMValue(ptr)
    }

    fn to_ref(&self) -> (ptr: usize) {
        self.0
    }
}

impl LLVMWrapper<usize> for LLVMFunction {
    open spec fn reference(&self) -> usize {
        self@
    }

    fn from_ref(ptr: usize) -> (w: LLVMFunction) {
        LLVMFunction(ptr)
    }

    fn to_ref(&self) -> (ptr: usize) {
        self.0
    }
}

impl LLVMWrapper<usize> for LLVMType {
    open spec fn reference(&self) -> usize {
        self@
    }

    fn from_ref(ptr: usize) -> (w: LLVMType) {
        LLVMType(ptr)
    }

    fn to_ref(&self) -> (ptr: usize) {
        self.0
    }
}

impl LLVMWrapper<usize> for LLVMBasicBlock {
    open spec fn reference(&self) -> usize {
        self@
    }

    fn from_ref(ptr: usize) -> (w: LLVMBasicBlock) {
        LLVMBasicBlock(ptr)
    }

    fn to_ref(&self) -> (ptr: usize) {
        self.0
    }
}

impl LLVMWrapper<usize> for Pending {
    open spec fn reference(&self) -> usize {
        self@
    }

    fn from_ref(ptr: usize) -> (w: Pending) {
        Pending(ptr)
    }

    fn to_ref(&self) -> (ptr: usize) {
        self.0
    }
}

impl LLVMWrapper<usize> for Lookup {
    open spec fn reference(&self) -> usize {
        self@
    }

    fn from_ref(ptr: usize) -> (w: Lookup) {
        Lookup(ptr)
    }

    fn to_ref(&self) -> (ptr: usize) {
        self.0
    }
}

/// The references that the handles `ws` wrap, in order.
pub open spec fn references<W: LLVMWrapper<usize>>(ws: Seq<W>) -> Seq<usize> {
    Seq::new(ws.len(), |i: int| ws[i].reference())
}

/// The references that the handles `ws` wrap, in order.
pub fn to_refs<W: LLVMWrapper<usize>>(ws: &Vec<W>) -> (ids: Vec<usize>)
    ensures
        ids@ == references(ws@),
{
    let mut ids: Vec<usize> = Vec::new();
    let mut i: usize = 0;
    while i < ws.len()
        invariant
            i <= ws.len(),
            ids.len() == i,
            forall|k: int| 0 <= k < i ==> ids[k] == ws[k].reference(),
        decreases ws.len() - i,
    {
        ids.push(ws[i].to_ref());
        i = i + 1;
    }
    assert(ids@ =~= references(ws@));
    ids
}

/// The operands `a`.
pub(crate) fn one(a: usize) -> (v: Vec<usize>)
    ensures
        v@ == seq![a],
{
    let v = vec![a];
    assert(v@ =~= seq![a]);
    v
}

/// The operands `a` and `b`.
pub(crate) fn two(a: usize, b: usize) -> (v: Vec<usize>)
    ensures
        v@ == seq![a, b],
{
    let v = vec![a, b];
    assert(v@ =~= seq![a, b]);
    v
}

/// The operands `a`, `b` and `c`.
pub(crate) fn three(a: usize, b: usize, c: usize) -> (v: Vec<usize>)
    ensures
        v@ == seq![a, b, c],
{
    let v = vec![a, b, c];
    assert(v@ =~= seq![a, b, c]);
    v
}

/// The operands `a`, `b`, `c` and `d`.
pub(crate) fn four(a: usize, b: usize, c: usize, d: usize) -> (v: Vec<usize>)
    ensures
        v@ == seq![a, b, c, d],
{
    let v = vec![a, b, c, d];
    assert(v@ =~= seq![a, b, c, d]);
    v
}

/// Whether `after` is `before` with the call `c` added, and `id` the
/// position of that call.
pub open spec fn issued(before: Seq<CallView>, after: Seq<CallView>, c: CallView, id: usize) -> bool {
    after == before.push(c) && id == before.len()
}

impl Call {
    /// The call of `op` on `args`, with no array, text, number or flag.
    pub fn plain(op: Op, args: Vec<usize>) -> (c: Call)
        ensures
            c@ == CallView::plain(op, args@),
            c.args == args,
    {
        let c = Call {
            op,
            args,
            list: Vec::new(),
            blocks: Vec::new(),
            text: String::new(),
            number: 0,
            flag: false,
        };
        assert(c@.list =~= Seq::<usize>::empty());
        assert(c@.blocks =~= Seq::<usize>::empty());
        c
    }

    /// The call of `op` on `args` with the name `text`.
    pub fn named(op: Op, args: Vec<usize>, text: &str) -> (c: Call)
        ensures
            c@ == CallView::named(op, args@, text@),
    {
        let mut c = Call::plain(op, args);
        c.text = text.to_owned();
        c
    }
}

} // verus!
