//! The program after closure conversion: global functions with explicit
//! free variables, closures that capture them, and terms that carry their
//! resolved type schemes.

use crate::operators::{BinOp, UnOp};
use crate::syntax::model::{clone_decls, clone_variants, LitView, VariantView};
use crate::syntax::{Lit, VarDecl, Variant};
use crate::types::{clone_names, Name, Scheme, SchemeView, Type};
use vstd::prelude::*;

verus! {

/// The identifier of a variable or of a global function.
pub type Id = String;

/// A term on the heap: a node of the term tree.
pub type Node = Box<TaggedTerm>;

/// What a type definition stands for.
#[derive(Debug, PartialEq)]
pub enum TypeKind {
    /// Another name for a type scheme.
    Alias(Box<Scheme>),
    /// An algebraic data type, given by its variants.
    Algebra(Vec<Variant>),
}

/// The mathematical value of a [`TypeKind`].
pub enum TypeKindView {
    Alias(SchemeView),
    Algebra(Seq<VariantView>),
}

impl View for TypeKind {
    type V = TypeKindView;

    open spec fn view(&self) -> TypeKindView {
        match self {
            TypeKind::Alias(s) => TypeKindView::Alias(s@),
            TypeKind::Algebra(vs) => TypeKindView::Algebra(vs.deep_view()),
        }
    }
}

impl Clone for TypeKind {
    /// A copy with the same value.
    fn clone(&self) -> (res: TypeKind)
        ensures
            res@ == self@,
    {
        match self {
            TypeKind::Alias(s) => TypeKind::Alias(Box::new((&**s).clone())),
            TypeKind::Algebra(vs) => TypeKind::Algebra(clone_variants(vs)),
        }
    }
}

/// A named type definition with its type parameters.
#[derive(Debug, PartialEq)]
pub struct TypeDef {
    name: Name,
    params: Vec<Name>,
    body: TypeKind,
}

/// The mathematical value of a [`TypeDef`].
pub struct TypeDefView {
    pub name: Seq<char>,
    pub params: Seq<Seq<char>>,
    pub body: TypeKindView,
}

impl View for TypeDef {
    type V = TypeDefView;

    closed spec fn view(&self) -> TypeDefView {
        TypeDefView { name: self.name@, params: self.params.deep_view(), body: self.body@ }
    }
}

impl Clone for TypeDef {
    /// A copy with the same value.
    fn clone(&self) -> (res: TypeDef)
        ensures
            res@ == self@,
    {
        TypeDef {
            name: self.name.clone(),
            params: clone_names(&self.params),
            body: self.body.clone(),
        }
    }
}

impl TypeDef {
    /// The definition of the type `name` over `params` as `body`.
    pub fn new(name: String, params: Vec<Name>, body: TypeKind) -> (d: TypeDef)
        ensures
            d@ == (TypeDefView { name: name@, params: params.deep_view(), body: body@ }),
    {
        TypeDef { name, params, body }
    }
}

/// A closure: the global function that it enters and the variables that it
/// captures where it is made, one for each free variable of that function
/// and in the same order.
#[derive(Debug, PartialEq)]
pub struct Closure {
    entry: Id,
    actual_fv: Vec<Id>,
}

/// The mathematical value of a [`Closure`].
pub struct ClosureView {
    /// The name of the function that is entered.
    pub entry: Seq<char>,
    /// The captured variables, in the order of the function's free variables.
    pub actual_fv: Seq<Seq<char>>,
}

impl View for Closure {
    type V = ClosureView;

    closed spec fn view(&self) -> ClosureView {
        ClosureView { entry: self.entry@, actual_fv: self.actual_fv.deep_view() }
    }
}

impl Clone for Closure {
    /// A copy with the same value.
    fn clone(&self) -> (res: Closure)
        ensures
            res@ == self@,
    {
        Closure { entry: self.entry.clone(), actual_fv: clone_names(&self.actual_fv) }
    }
}

impl Closure {
    /// The closure that enters `entry` with the captured variables `actual_fv`.
    pub fn new(entry: Id, actual_fv: Vec<Id>) -> (c: Closure)
        ensures
            c@ == (ClosureView { entry: entry@, actual_fv: actual_fv.deep_view() }),
    {
        Closure { entry, actual_fv }
    }

    /// The number of captured variables.
    pub fn arity(&self) -> (n: usize)
        ensures
            n == self@.actual_fv.len(),
    {
        self.actual_fv.len()
    }

    /// The captured variables.
    pub fn fv(&self) -> (ids: Vec<Id>)
        ensures
            ids.deep_view() == self@.actual_fv,
    {
        clone_names(&self.actual_fv)
    }

    /// The name of the function that is entered.
    pub fn entry(&self) -> (id: Id)
        ensures
            id@ == self@.entry,
    {
        self.entry.clone()
    }
}

/// A term together with its type scheme.
#[derive(Debug, PartialEq)]
pub struct TaggedTerm {
    ty: Scheme,
    node: Term,
}

/// A term of the closure-converted program.
#[derive(Debug, PartialEq)]
pub enum Term {
    /// Literal value
    Lit(Lit),
    /// Identifier (binding/definition)
    Var(Id),
    /// List (array), e.g. `[a, b]`
    List(Vec<Node>),
    /// Block (statement sequence), e.g. `{ print(a); print(b); 1 }`
    Block(Vec<Node>),
    /// Makes the closure, binds it to the variable and evaluates the term
    /// with that binding.
    MakeCls(VarDecl, Box<Closure>, Node),
    /// Applies a closure value to arguments.
    ApplyCls(Node, Vec<Node>),
    /// Applies a global function without free variables to arguments.
    ApplyDir(VarDecl, Vec<Node>),
    /// Binary operator expression, e.g. `a + b`
    Binary(BinOp, Node, Node),
    /// Unary operator expression, e.g. `!a` or `-b`
    Unary(UnOp, Node),
    /// Let-in expression, e.g. `let a = b in a + 1`
    Let(VarDecl, Node, Node),
    /// Conditional expression, e.g. `if (a == b) 1 else 0`
    If(Node, Node, Node),
}

/// The mathematical value of a [`TaggedTerm`].
pub struct TaggedTermView {
    pub scheme: SchemeView,
    pub term: TermView,
}

/// The mathematical value of a [`Term`].
pub enum TermView {
    Lit(LitView),
    Var(Seq<char>),
    List(Seq<TaggedTermView>),
    Block(Seq<TaggedTermView>),
    MakeCls((Seq<char>, SchemeView), ClosureView, Box<TaggedTermView>),
    ApplyCls(Box<TaggedTermView>, Seq<TaggedTermView>),
    ApplyDir((Seq<char>, SchemeView), Seq<TaggedTermView>),
    Binary(BinOp, Box<TaggedTermView>, Box<TaggedTermView>),
    Unary(UnOp, Box<TaggedTermView>),
    Let((Seq<char>, SchemeView), Box<TaggedTermView>, Box<TaggedTermView>),
    If(Box<TaggedTermView>, Box<TaggedTermView>, Box<TaggedTermView>),
}

/// The value of the tagged term `t`.
pub closed spec fn tagged_view(t: TaggedTerm) -> TaggedTermView
    decreases t,
{
    TaggedTermView { scheme: t.ty@, term: term_view(t.node) }
}

/// The values of the terms `nodes`, in order.
pub open spec fn nodes_view(nodes: Seq<Node>) -> Seq<TaggedTermView>
    decreases nodes,
{
    Seq::new(
        nodes.len(),
        |i: int|
            if 0 <= i < nodes.len() {
                tagged_view(*nodes[i])
            } else {
                arbitrary()
            },
    )
}

/// The value of the term `t`.
pub open spec fn term_view(t: Term) -> TermView
    decreases t,
{
    match t {
        Term::Lit(l) => TermView::Lit(l@),
        Term::Var(id) => TermView::Var(id@),
        Term::List(nodes) => TermView::List(nodes_view(nodes@)),
        Term::Block(nodes) => TermView::Block(nodes_view(nodes@)),
        Term::MakeCls(decl, closure, body) => TermView::MakeCls(
            decl@,
            closure@,
            Box::new(tagged_view(*body)),
        ),
        Term::ApplyCls(callee, args) => TermView::ApplyCls(
            Box::new(tagged_view(*callee)),
            nodes_view(args@),
        ),
        Term::ApplyDir(decl, args) => TermView::ApplyDir(decl@, nodes_view(args@)),
        Term::Binary(op, left, right) => TermView::Binary(
            op,
            Box::new(tagged_view(*left)),
            Box::new(tagged_view(*right)),
        ),
        Term::Unary(op, operand) => TermView::Unary(op, Box::new(tagged_view(*operand))),
        Term::Let(decl, bound, body) => TermView::Let(
            decl@,
            Box::new(tagged_view(*bound)),
            Box::new(tagged_view(*body)),
        ),
        Term::If(cond, then, el) => TermView::If(
            Box::new(tagged_view(*cond)),
            Box::new(tagged_view(*then)),
            Box::new(tagged_view(*el)),
        ),
    }
}

impl View for TaggedTerm {
    type V = TaggedTermView;

    open spec fn view(&self) -> TaggedTermView {
        tagged_view(*self)
    }
}

impl View for Term {
    type V = TermView;

    open spec fn view(&self) -> TermView {
        term_view(*self)
    }
}

/// Whether the scheme of each of the binders `decls` is inferred.
pub open spec fn decls_resolved(decls: Seq<(Seq<char>, SchemeView)>) -> bool {
    forall|i: int| 0 <= i < decls.len() ==> !((#[trigger] decls[i]).1 is Slot)
}

/// Whether every scheme in the terms `nodes` and below them is inferred.
pub open spec fn nodes_resolved(nodes: Seq<TaggedTermView>) -> bool
    decreases nodes,
{
    forall|i: int| 0 <= i < nodes.len() ==> (#[trigger] nodes[i]).resolved()
}

impl TaggedTermView {
    /// Whether every scheme in the term and below it is inferred.
    pub open spec fn resolved(self) -> bool
        decreases self,
    {
        !(self.scheme is Slot) && self.term.resolved()
    }
}

impl TermView {
    /// Whether every scheme in the term is inferred: those of its binders
    /// and those of the terms below it.
    pub open spec fn resolved(self) -> bool
        decreases self,
    {
        match self {
            TermView::Lit(_) => true,
            TermView::Var(_) => true,
            TermView::List(nodes) => nodes_resolved(nodes),
            TermView::Block(nodes) => nodes_resolved(nodes),
            TermView::MakeCls(decl, _, body) => !(decl.1 is Slot) && body.resolved(),
            TermView::ApplyCls(callee, args) => callee.resolved() && nodes_resolved(args),
            TermView::ApplyDir(decl, args) => !(decl.1 is Slot) && nodes_resolved(args),
            TermView::Binary(_, left, right) => left.resolved() && right.resolved(),
            TermView::Unary(_, operand) => operand.resolved(),
            TermView::Let(decl, bound, body) => !(decl.1 is Slot) && bound.resolved()
                && body.resolved(),
            TermView::If(cond, then, el) => cond.resolved() && then.resolved() && el.resolved(),
        }
    }
}

/// Whether `scheme` is the placeholder of a scheme that is not inferred yet.
pub fn is_slot(scheme: &Scheme) -> (b: bool)
    ensures
        b == (scheme is Slot),
        b == (scheme@ is Slot),
{
    match scheme {
        Scheme::Slot => true,
        _ => false,
    }
}

/// Whether the scheme of each of the binders `decls` is inferred.
pub fn decls_are_resolved(decls: &Vec<VarDecl>) -> (b: bool)
    ensures
        b == decls_resolved(decls.deep_view()),
{
    let mut i: usize = 0;
    while i < decls.len()
        invariant
            i <= decls.len(),
            forall|k: int| 0 <= k < i ==> !((#[trigger] decls.deep_view()[k]).1 is Slot),
        decreases decls.len() - i,
    {
        if is_slot(&decls[i].1) {
            assert(decls.deep_view()[i as int].1 is Slot);
            return false;
        }
        assert(!(decls.deep_view()[i as int].1 is Slot));
        i = i + 1;
    }
    true
}

/// Whether every scheme in the terms `nodes` and below them is inferred.
pub fn nodes_are_resolved(nodes: &Vec<Node>) -> (b: bool)
    ensures
        b == nodes_resolved(nodes_view(nodes@)),
    decreases nodes,
{
    let mut i: usize = 0;
    while i < nodes.len()
        invariant
            i <= nodes.len(),
            forall|k: int| 0 <= k < i ==> (#[trigger] nodes_view(nodes@)[k]).resolved(),
        decreases nodes.len() - i,
    {
        if !(&*nodes[i]).is_resolved() {
            assert(!nodes_view(nodes@)[i as int].resolved());
            return false;
        }
        assert(nodes_view(nodes@)[i as int].resolved());
        i = i + 1;
    }
    true
}

/// A copy of a list of terms.
pub fn clone_nodes(nodes: &Vec<Node>) -> (res: Vec<Node>)
    ensures
        nodes_view(res@) == nodes_view(nodes@),
    decreases nodes,
{
    let mut res: Vec<Node> = Vec::new();
    let mut i: usize = 0;
    while i < nodes.len()
        invariant
            i <= nodes.len(),
            res.len() == i,
            forall|k: int| 0 <= k < i ==> tagged_view(*res[k]) == tagged_view(*nodes[k]),
        decreases nodes.len() - i,
    {
        res.push(Box::new((&*nodes[i]).clone()));
        i = i + 1;
    }
    assert(nodes_view(res@) =~= nodes_view(nodes@));
    res
}

impl Clone for TaggedTerm {
    /// A copy with the same value.
    fn clone(&self) -> (res: TaggedTerm)
        ensures
            res@ == self@,
        decreases self,
    {
        TaggedTerm { ty: self.ty.clone(), node: self.node.clone() }
    }
}

impl Clone for Term {
    /// A copy with the same value.
    fn clone(&self) -> (res: Term)
        ensures
            res@ == self@,
        decreases self,
    {
        match self {
            Term::Lit(l) => Term::Lit(l.clone()),
            Term::Var(id) => Term::Var(id.clone()),
            Term::List(nodes) => Term::List(clone_nodes(nodes)),
            Term::Block(nodes) => Term::Block(clone_nodes(nodes)),
            Term::MakeCls(decl, closure, body) => Term::MakeCls(
                decl.clone(),
                Box::new((&**closure).clone()),
                Box::new((&**body).clone()),
            ),
            Term::ApplyCls(callee, args) => Term::ApplyCls(
                Box::new((&**callee).clone()),
                clone_nodes(args),
            ),
            Term::ApplyDir(decl, args) => Term::ApplyDir(decl.clone(), clone_nodes(args)),
            Term::Binary(op, left, right) => Term::Binary(
                *op,
                Box::new((&**left).clone()),
                Box::new((&**right).clone()),
            ),
            Term::Unary(op, operand) => Term::Unary(*op, Box::new((&**operand).clone())),
            Term::Let(decl, bound, body) => Term::Let(
                decl.clone(),
                Box::new((&**bound).clone()),
                Box::new((&**body).clone()),
            ),
            Term::If(cond, then, el) => Term::If(
                Box::new((&**cond).clone()),
                Box::new((&**then).clone()),
                Box::new((&**el).clone()),
            ),
        }
    }
}

impl TaggedTerm {
    /// The term `node` with the type scheme `ty`.
    pub fn new(ty: Scheme, node: Term) -> (t: TaggedTerm)
        ensures
            t@ == (TaggedTermView { scheme: ty@, term: node@ }),
    {
        TaggedTerm { ty, node }
    }

    /// The term's type scheme.
    pub fn ref_scheme(&self) -> (s: &Scheme)
        ensures
            s@ == self@.scheme,
    {
        &self.ty
    }

    /// The term itself.
    pub fn body(&self) -> (t: &Term)
        ensures
            t@ == self@.term,
    {
        &self.node
    }

    /// Whether every scheme in the term and below it is inferred.
    pub fn is_resolved(&self) -> (b: bool)
        ensures
            b == self@.resolved(),
        decreases self,
    {
        !is_slot(&self.ty) && self.node.is_resolved()
    }
}

impl Term {
    /// Whether every scheme in the term is inferred: those of its binders
    /// and those of the terms below it.
    pub fn is_resolved(&self) -> (b: bool)
        ensures
            b == self@.resolved(),
        decreases self,
    {
        match self {
            Term::Lit(_) => true,
            Term::Var(_) => true,
            Term::List(nodes) => nodes_are_resolved(nodes),
            Term::Block(nodes) => nodes_are_resolved(nodes),
            Term::MakeCls(decl, _, body) => !is_slot(&decl.1) && (&**body).is_resolved(),
            Term::ApplyCls(callee, args) => (&**callee).is_resolved() && nodes_are_resolved(args),
            Term::ApplyDir(decl, args) => !is_slot(&decl.1) && nodes_are_resolved(args),
            Term::Binary(_, left, right) => (&**left).is_resolved() && (&**right).is_resolved(),
            Term::Unary(_, operand) => (&**operand).is_resolved(),
            Term::Let(decl, bound, body) => !is_slot(&decl.1) && (&**bound).is_resolved() && (
            &**body).is_resolved(),
            Term::If(cond, then, el) => (&**cond).is_resolved() && (&**then).is_resolved() && (
            &**el).is_resolved(),
        }
    }
}

/// A global function after lambda lifting: its parameters, the variables that
/// its body takes from the place where a closure of it is made, its body and
/// its type.
#[derive(Debug, PartialEq)]
pub struct FunDef {
    name: Id,
    params: Vec<VarDecl>,
    freevars: Vec<VarDecl>,
    body: Node,
    ty: Scheme,
}

/// The mathematical value of a [`FunDef`].
pub struct FunDefView {
    pub name: Seq<char>,
    pub params: Seq<(Seq<char>, SchemeView)>,
    pub freevars: Seq<(Seq<char>, SchemeView)>,
    pub body: TaggedTermView,
    pub ty: SchemeView,
}

impl View for FunDef {
    type V = FunDefView;

    closed spec fn view(&self) -> FunDefView {
        FunDefView {
            name: self.name@,
            params: self.params.deep_view(),
            freevars: self.freevars.deep_view(),
            body: tagged_view(*self.body),
            ty: self.ty@,
        }
    }
}

impl FunDefView {
    /// Whether the function's parameters and free variables all have names
    /// of their own.
    pub open spec fn binders_distinct(self) -> bool {
        names_distinct(self.params + self.freevars)
    }

    /// Whether every scheme that can be reached from the function is
    /// inferred: its own, those of its parameters and free variables, and
    /// those in its body.
    pub open spec fn resolved(self) -> bool {
        &&& !(self.ty is Slot)
        &&& decls_resolved(self.params)
        &&& decls_resolved(self.freevars)
        &&& self.body.resolved()
    }
}

/// Whether no two of the binders `decls` bind the same name.
pub open spec fn names_distinct(decls: Seq<(Seq<char>, SchemeView)>) -> bool {
    forall|i: int, j: int|
        0 <= i < j < decls.len() ==> (#[trigger] decls[i]).0 != (#[trigger] decls[j]).0
}

/// Whether one of the first `upto` binders of `decls` binds `name`.
fn name_among(name: &Name, decls: &Vec<VarDecl>, upto: usize) -> (b: bool)
    requires
        upto <= decls.len(),
    ensures
        b == exists|k: int| 0 <= k < upto && (#[trigger] decls.deep_view()[k]).0 == name@,
{
    let mut i: usize = 0;
    while i < upto
        invariant
            i <= upto,
            upto <= decls.len(),
            forall|k: int| 0 <= k < i ==> (#[trigger] decls.deep_view()[k]).0 != name@,
        decreases upto - i,
    {
        assert(decls.deep_view()[i as int].0 == decls[i as int].0@);
        if decls[i].0 == *name {
            return true;
        }
        i = i + 1;
    }
    false
}

/// Whether no two of the binders `first` and `second` together bind the same
/// name.
pub fn names_are_distinct(first: &Vec<VarDecl>, second: &Vec<VarDecl>) -> (b: bool)
    ensures
        b == names_distinct(first.deep_view() + second.deep_view()),
{
    let ghost all = first.deep_view() + second.deep_view();
    let n = first.len();
    let mut j: usize = 0;
    while j < n
        invariant
            j <= n,
            n == first.len(),
            all == first.deep_view() + second.deep_view(),
            forall|a: int, b: int| 0 <= a < b < j ==> (#[trigger] all[a]).0 != (#[trigger] all[b]).0,
        decreases n - j,
    {
        assert(first.deep_view()[j as int].0 == first[j as int].0@);
        if name_among(&first[j].0, first, j) {
            let ghost k = choose|k: int|
                0 <= k < j && (#[trigger] first.deep_view()[k]).0 == first[j as int].0@;
            assert(all[k].0 == all[j as int].0);
            return false;
        }
        assert forall|a: int| 0 <= a < j implies (#[trigger] all[a]).0 != all[j as int].0 by {
            assert(all[a] == first.deep_view()[a]);
        }
        j = j + 1;
    }
    let m = second.len();
    let mut j: usize = 0;
    while j < m
        invariant
            j <= m,
            n == first.len(),
            m == second.len(),
            all == first.deep_view() + second.deep_view(),
            forall|a: int, b: int|
                0 <= a < b < n + j ==> (#[trigger] all[a]).0 != (#[trigger] all[b]).0,
        decreases m - j,
    {
        assert(second.deep_view()[j as int].0 == second[j as int].0@);
        assert(all[n + j] == second.deep_view()[j as int]);
        if name_among(&second[j].0, first, n) {
            let ghost k = choose|k: int|
                0 <= k < n && (#[trigger] first.deep_view()[k]).0 == second[j as int].0@;
            assert(all[k].0 == all[n + j].0);
            return false;
        }
        if name_among(&second[j].0, second, j) {
            let ghost k = choose|k: int|
                0 <= k < j && (#[trigger] second.deep_view()[k]).0 == second[j as int].0@;
            assert(all[n + k] == second.deep_view()[k]);
            assert(all[n + k].0 == all[n + j].0);
            return false;
        }
        assert forall|a: int| 0 <= a < n + j implies (#[trigger] all[a]).0 != all[n + j].0 by {
            if a < n {
                assert(all[a] == first.deep_view()[a]);
            } else {
                assert(all[a] == second.deep_view()[a - n]);
            }
        }
        j = j + 1;
    }
    true
}

impl Clone for FunDef {
    /// A copy with the same value.
    fn clone(&self) -> (res: FunDef)
        ensures
            res@ == self@,
    {
        FunDef {
            name: self.name.clone(),
            params: clone_decls(&self.params),
            freevars: clone_decls(&self.freevars),
            body: Box::new((&*self.body).clone()),
            ty: self.ty.clone(),
        }
    }
}

impl FunDef {
    /// The function `name` of type `ty` that takes `params`, captures
    /// `freevars` and evaluates `body`.
    pub fn new(
        name: Id,
        ty: Scheme,
        params: Vec<VarDecl>,
        freevars: Vec<VarDecl>,
        body: TaggedTerm,
    ) -> (d: FunDef)
        ensures
            d@ == (FunDefView {
                name: name@,
                params: params.deep_view(),
                freevars: freevars.deep_view(),
                body: body@,
                ty: ty@,
            }),
    {
        FunDef { ty, name, params, freevars, body: Box::new(body) }
    }

    /// The function's name.
    pub fn name(&self) -> (id: Id)
        ensures
            id@ == self@.name,
    {
        self.name.clone()
    }

    /// The function's free variables, in the order in which a closure
    /// captures them.
    pub fn fv(&self) -> (vars: &Vec<VarDecl>)
        ensures
            vars.deep_view() == self@.freevars,
    {
        &self.freevars
    }

    /// The function's body.
    pub fn body(&self) -> (t: &TaggedTerm)
        ensures
            t@ == self@.body,
    {
        &*self.body
    }

    /// The function's type. A function whose scheme is not inferred yet has
    /// none.
    pub fn ref_type(&self) -> (t: &Type)
        requires
            !(self@.ty is Slot),
        ensures
            t@ == self@.ty.body(),
    {
        self.ty.body()
    }

    /// The function's parameters, without the variables that it captures.
    pub fn parameters(&self) -> (vars: &Vec<VarDecl>)
        ensures
            vars.deep_view() == self@.params,
    {
        &self.params
    }

    /// Whether the function's parameters and free variables all have names
    /// of their own.
    pub fn has_distinct_binders(&self) -> (b: bool)
        ensures
            b == self@.binders_distinct(),
    {
        names_are_distinct(&self.params, &self.freevars)
    }

    /// Whether every scheme that can be reached from the function is
    /// inferred.
    pub fn is_resolved(&self) -> (b: bool)
        ensures
            b == self@.resolved(),
    {
        !is_slot(&self.ty) && decls_are_resolved(&self.params) && decls_are_resolved(
            &self.freevars,
        ) && (&*self.body).is_resolved()
    }
}

} // verus!
