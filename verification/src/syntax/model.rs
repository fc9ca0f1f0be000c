//! The mathematical values of the syntax tree: names and texts as sequences
//! of characters, lists as sequences.

use crate::operators::{BinOp, UnOp};
use crate::syntax::{
    Def, Expr, Field, Form, FormTag, Item, Lambda, Lit, Pos, VarDecl, Variant, VariantBody, E,
};
use crate::types::{Scheme, SchemeView, TypeView};
use vstd::prelude::*;

verus! {

/// The mathematical value of a [`Lit`].
pub enum LitView {
    Int(i32),
    Float(u64),
    Str(Seq<char>),
    Bool(bool),
}

impl View for Lit {
    type V = LitView;

    open spec fn view(&self) -> LitView {
        match self {
            Lit::Int(i) => LitView::Int(*i),
            Lit::Float(bits) => LitView::Float(*bits),
            Lit::Str(s) => LitView::Str(s@),
            Lit::Bool(b) => LitView::Bool(*b),
        }
    }
}

/// The mathematical value of an optional scheme.
pub open spec fn option_view(s: Option<Scheme>) -> Option<SchemeView> {
    match s {
        Some(s) => Some(s@),
        None => None,
    }
}

/// The mathematical value of a [`FormTag`].
pub struct FormTagView {
    pub pos: Pos,
    pub ty: SchemeView,
    pub annotate: Option<SchemeView>,
}

impl View for FormTag {
    type V = FormTagView;

    open spec fn view(&self) -> FormTagView {
        FormTagView { pos: self.pos, ty: self.ty@, annotate: option_view(self.annotate) }
    }
}

/// The mathematical value of a [`Form`].
pub struct FormView {
    pub node: ExprView,
    pub tag: FormTagView,
}

/// The mathematical value of a [`Lambda`].
pub struct LambdaView {
    pub param: Seq<(Seq<char>, SchemeView)>,
    pub body: Box<FormView>,
}

/// The mathematical value of an [`Expr`].
pub enum ExprView {
    Lit(LitView),
    Var(Seq<char>),
    List(Seq<FormView>),
    Block(Seq<FormView>),
    Apply(Box<FormView>, Seq<FormView>),
    Abs(LambdaView),
    Binary(BinOp, Box<FormView>, Box<FormView>),
    Unary(UnOp, Box<FormView>),
    Let((Seq<char>, SchemeView), Box<FormView>, Box<FormView>),
    If(Box<FormView>, Box<FormView>, Box<FormView>),
}

/// The value of the form `f`.
pub open spec fn form_view(f: Form) -> FormView
    decreases f,
{
    FormView { node: expr_view(f.node), tag: f.tag@ }
}

/// The values of the forms `fs`, in order.
pub open spec fn forms_view(fs: Seq<E>) -> Seq<FormView>
    decreases fs,
{
    Seq::new(
        fs.len(),
        |i: int|
            if 0 <= i < fs.len() {
                form_view(*fs[i])
            } else {
                arbitrary()
            },
    )
}

/// The value of the expression `e`.
pub open spec fn expr_view(e: Expr) -> ExprView
    decreases e,
{
    match e {
        Expr::Lit(l) => ExprView::Lit(l@),
        Expr::Var(n) => ExprView::Var(n@),
        Expr::List(fs) => ExprView::List(forms_view(fs@)),
        Expr::Block(fs) => ExprView::Block(forms_view(fs@)),
        Expr::Apply(callee, args) => ExprView::Apply(
            Box::new(form_view(*callee)),
            forms_view(args@),
        ),
        Expr::Abs(lambda) => ExprView::Abs(
            LambdaView { param: lambda.param.deep_view(), body: Box::new(form_view(*lambda.body)) },
        ),
        Expr::Binary(op, left, right) => ExprView::Binary(
            op,
            Box::new(form_view(*left)),
            Box::new(form_view(*right)),
        ),
        Expr::Unary(op, operand) => ExprView::Unary(op, Box::new(form_view(*operand))),
        Expr::Let(decl, bound, body) => ExprView::Let(
            decl@,
            Box::new(form_view(*bound)),
            Box::new(form_view(*body)),
        ),
        Expr::If(cond, then, el) => ExprView::If(
            Box::new(form_view(*cond)),
            Box::new(form_view(*then)),
            Box::new(form_view(*el)),
        ),
    }
}

impl View for Form {
    type V = FormView;

    open spec fn view(&self) -> FormView {
        form_view(*self)
    }
}

impl View for Expr {
    type V = ExprView;

    open spec fn view(&self) -> ExprView {
        expr_view(*self)
    }
}

impl View for Lambda {
    type V = LambdaView;

    open spec fn view(&self) -> LambdaView {
        LambdaView { param: self.param.deep_view(), body: Box::new(form_view(*self.body)) }
    }
}

/// The mathematical value of a [`Field`].
pub struct FieldView {
    pub pos: Pos,
    pub name: Option<Seq<char>>,
    pub ty: TypeView,
}

impl View for Field {
    type V = FieldView;

    open spec fn view(&self) -> FieldView {
        FieldView {
            pos: self.pos,
            name: match self.name {
                Some(n) => Some(n@),
                None => None,
            },
            ty: self.ty@,
        }
    }
}

impl DeepView for Field {
    type V = FieldView;

    open spec fn deep_view(&self) -> FieldView {
        self.view()
    }
}

/// The mathematical value of a [`VariantBody`].
pub enum VariantBodyView {
    Struct(Seq<FieldView>),
    Tuple(Seq<FieldView>),
    Unit,
}

impl View for VariantBody {
    type V = VariantBodyView;

    open spec fn view(&self) -> VariantBodyView {
        match self {
            VariantBody::Struct(fs) => VariantBodyView::Struct(fs.deep_view()),
            VariantBody::Tuple(fs) => VariantBodyView::Tuple(fs.deep_view()),
            VariantBody::Unit => VariantBodyView::Unit,
        }
    }
}

/// The mathematical value of a [`Variant`].
pub struct VariantView {
    pub name: Seq<char>,
    pub body: VariantBodyView,
}

impl View for Variant {
    type V = VariantView;

    open spec fn view(&self) -> VariantView {
        VariantView { name: self.name@, body: self.body@ }
    }
}

impl DeepView for Variant {
    type V = VariantView;

    open spec fn deep_view(&self) -> VariantView {
        self.view()
    }
}

/// The mathematical value of an [`Item`].
pub enum ItemView {
    Form(FormView),
    Alias(SchemeView),
    Alg(Seq<VariantView>),
}

impl View for Item {
    type V = ItemView;

    open spec fn view(&self) -> ItemView {
        match self {
            Item::Form(f) => ItemView::Form(form_view(**f)),
            Item::Alias(s) => ItemView::Alias(s@),
            Item::Alg(vs) => ItemView::Alg(vs.deep_view()),
        }
    }
}

/// The mathematical value of a [`Def`].
pub struct DefView {
    pub ident: Seq<char>,
    pub node: ItemView,
    pub pos: Pos,
}

impl View for Def {
    type V = DefView;

    open spec fn view(&self) -> DefView {
        DefView { ident: self.ident@, node: self.node@, pos: self.pos }
    }
}

/// A copy of a list of binders.
pub fn clone_decls(decls: &Vec<VarDecl>) -> (res: Vec<VarDecl>)
    ensures
        res.deep_view() == decls.deep_view(),
{
    let mut res: Vec<VarDecl> = Vec::new();
    let mut i: usize = 0;
    while i < decls.len()
        invariant
            i <= decls.len(),
            res.len() == i,
            forall|k: int| 0 <= k < i ==> res[k]@ == decls[k]@,
        decreases decls.len() - i,
    {
        res.push(decls[i].clone());
        i = i + 1;
    }
    assert(res.deep_view() =~= decls.deep_view());
    res
}

/// A copy of a list of forms.
pub fn clone_forms(forms: &Vec<E>) -> (res: Vec<E>)
    ensures
        forms_view(res@) == forms_view(forms@),
    decreases forms,
{
    let mut res: Vec<E> = Vec::new();
    let mut i: usize = 0;
    while i < forms.len()
        invariant
            i <= forms.len(),
            res.len() == i,
            forall|k: int| 0 <= k < i ==> form_view(*res[k]) == form_view(*forms[k]),
        decreases forms.len() - i,
    {
        res.push(Box::new((&*forms[i]).clone()));
        i = i + 1;
    }
    assert(forms_view(res@) =~= forms_view(forms@));
    res
}

impl Clone for Lit {
    /// A copy with the same value.
    fn clone(&self) -> (res: Lit)
        ensures
            res@ == self@,
    {
        match self {
            Lit::Int(i) => Lit::Int(*i),
            Lit::Float(bits) => Lit::Float(*bits),
            Lit::Str(s) => Lit::Str(s.clone()),
            Lit::Bool(b) => Lit::Bool(*b),
        }
    }
}

impl Clone for FormTag {
    /// A copy with the same value.
    fn clone(&self) -> (res: FormTag)
        ensures
            res@ == self@,
    {
        FormTag {
            pos: self.pos,
            ty: self.ty.clone(),
            annotate: match &self.annotate {
                Some(s) => Some(s.clone()),
                None => None,
            },
        }
    }
}

impl Clone for Lambda {
    /// A copy with the same value.
    fn clone(&self) -> (res: Lambda)
        ensures
            res@ == self@,
        decreases self,
    {
        Lambda { param: clone_decls(&self.param), body: Box::new((&*self.body).clone()) }
    }
}

impl Clone for Form {
    /// A copy with the same value.
    fn clone(&self) -> (res: Form)
        ensures
            res@ == self@,
        decreases self,
    {
        Form { node: self.node.clone(), tag: self.tag.clone() }
    }
}

impl Clone for Expr {
    /// A copy with the same value.
    fn clone(&self) -> (res: Expr)
        ensures
            res@ == self@,
        decreases self,
    {
        match self {
            Expr::Lit(l) => Expr::Lit(l.clone()),
            Expr::Var(n) => Expr::Var(n.clone()),
            Expr::List(fs) => Expr::List(clone_forms(fs)),
            Expr::Block(fs) => Expr::Block(clone_forms(fs)),
            Expr::Apply(callee, args) => Expr::Apply(
                Box::new((&**callee).clone()),
                clone_forms(args),
            ),
            Expr::Abs(lambda) => Expr::Abs(lambda.clone()),
            Expr::Binary(op, left, right) => Expr::Binary(
                *op,
                Box::new((&**left).clone()),
                Box::new((&**right).clone()),
            ),
            Expr::Unary(op, operand) => Expr::Unary(*op, Box::new((&**operand).clone())),
            Expr::Let(decl, bound, body) => Expr::Let(
                decl.clone(),
                Box::new((&**bound).clone()),
                Box::new((&**body).clone()),
            ),
            Expr::If(cond, then, el) => Expr::If(
                Box::new((&**cond).clone()),
                Box::new((&**then).clone()),
                Box::new((&**el).clone()),
            ),
        }
    }
}

impl Clone for Field {
    /// A copy with the same value.
    fn clone(&self) -> (res: Field)
        ensures
            res@ == self@,
    {
        Field {
            pos: self.pos,
            name: match &self.name {
                Some(n) => Some(n.clone()),
                None => None,
            },
            ty: Box::new((&*self.ty).clone()),
        }
    }
}

/// A copy of a list of fields.
pub fn clone_fields(fields: &Vec<Field>) -> (res: Vec<Field>)
    ensures
        res.deep_view() == fields.deep_view(),
{
    let mut res: Vec<Field> = Vec::new();
    let mut i: usize = 0;
    while i < fields.len()
        invariant
            i <= fields.len(),
            res.len() == i,
            forall|k: int| 0 <= k < i ==> res[k]@ == fields[k]@,
        decreases fields.len() - i,
    {
        res.push(fields[i].clone());
        i = i + 1;
    }
    assert(res.deep_view() =~= fields.deep_view());
    res
}

impl Clone for VariantBody {
    /// A copy with the same value.
    fn clone(&self) -> (res: VariantBody)
        ensures
            res@ == self@,
    {
        match self {
            VariantBody::Struct(fs) => VariantBody::Struct(clone_fields(fs)),
            VariantBody::Tuple(fs) => VariantBody::Tuple(clone_fields(fs)),
            VariantBody::Unit => VariantBody::Unit,
        }
    }
}

impl Clone for Variant {
    /// A copy with the same value.
    fn clone(&self) -> (res: Variant)
        ensures
            res@ == self@,
    {
        Variant { name: self.name.clone(), body: self.body.clone() }
    }
}

/// A copy of a list of variants.
pub fn clone_variants(variants: &Vec<Variant>) -> (res: Vec<Variant>)
    ensures
        res.deep_view() == variants.deep_view(),
{
    let mut res: Vec<Variant> = Vec::new();
    let mut i: usize = 0;
    while i < variants.len()
        invariant
            i <= variants.len(),
            res.len() == i,
            forall|k: int| 0 <= k < i ==> res[k]@ == variants[k]@,
        decreases variants.len() - i,
    {
        res.push(variants[i].clone());
        i = i + 1;
    }
    assert(res.deep_view() =~= variants.deep_view());
    res
}

impl Clone for Item {
    /// A copy with the same value.
    fn clone(&self) -> (res: Item)
        ensures
            res@ == self@,
    {
        match self {
            Item::Form(f) => Item::Form(Box::new((&**f).clone())),
            Item::Alias(s) => Item::Alias(Box::new((&**s).clone())),
            Item::Alg(vs) => Item::Alg(clone_variants(vs)),
        }
    }
}

impl Clone for Def {
    /// A copy with the same value.
    fn clone(&self) -> (res: Def)
        ensures
            res@ == self@,
    {
        Def { ident: self.ident.clone(), node: self.node.clone(), pos: self.pos }
    }
}

} // verus!
