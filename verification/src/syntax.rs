//! The surface syntax tree: definitions, forms and expressions, each form
//! tagged with its position and its type scheme.

use crate::operators::{BinOp, UnOp};
use crate::types::{Name, Scheme, SchemeView, Type, TypeView};
use vstd::prelude::*;

pub mod model;

verus! {

/// A form on the heap: a node of the syntax tree.
pub type E = Box<Form>;

/// A position in the source text.
#[derive(Clone, Copy, PartialEq, Eq, Structural, Hash, Debug)]
pub struct Pos {
    line: usize,
    col: usize,
}

impl View for Pos {
    type V = (usize, usize);

    /// The line and the column.
    closed spec fn view(&self) -> (usize, usize) {
        (self.line, self.col)
    }
}

impl Pos {
    /// The position at line `l`, column `c`.
    pub fn new(l: usize, c: usize) -> (p: Pos)
        ensures
            p@ == (l, c),
    {
        Pos { line: l, col: c }
    }
}

/// A binder: a name with its type scheme.
#[derive(Debug, PartialEq)]
pub struct VarDecl(pub Name, pub Scheme);

impl View for VarDecl {
    type V = (Seq<char>, SchemeView);

    open spec fn view(&self) -> (Seq<char>, SchemeView) {
        (self.0@, self.1@)
    }
}

impl DeepView for VarDecl {
    type V = (Seq<char>, SchemeView);

    open spec fn deep_view(&self) -> (Seq<char>, SchemeView) {
        self.view()
    }
}

impl Clone for VarDecl {
    /// A copy with the same value.
    fn clone(&self) -> (res: VarDecl)
        ensures
            res@ == self@,
    {
        VarDecl(self.0.clone(), self.1.clone())
    }
}

impl VarDecl {
    /// The name that is bound.
    pub fn name(&self) -> (n: Name)
        ensures
            n@ == self@.0,
    {
        self.0.clone()
    }
}

/// A literal value.
#[derive(PartialEq, Debug)]
pub enum Lit {
    /// A 32-bit signed integer.
    Int(i32),
    /// A double-precision number, held as its IEEE 754 bit pattern.
    Float(u64),
    /// A string.
    Str(String),
    /// A truth value.
    Bool(bool),
}

impl Lit {
    /// The name of the primitive type that the literal belongs to.
    pub open spec fn primitive(self) -> Seq<char> {
        match self {
            Lit::Int(_) => seq!['I', 'n', 't'],
            Lit::Float(_) => seq!['F', 'l', 'o', 'a', 't'],
            Lit::Str(_) => seq!['S', 't', 'r', 'i', 'n', 'g'],
            Lit::Bool(_) => seq!['B', 'o', 'o', 'l'],
        }
    }

    /// The primitive type of the literal.
    pub fn lit_type(&self) -> (t: Type)
        ensures
            t@ == TypeView::Con(self.primitive()),
    {
        proof {
            reveal_strlit("Int");
            reveal_strlit("Float");
            reveal_strlit("String");
            reveal_strlit("Bool");
        }
        let ty_str = match *self {
            Lit::Int(_) => "Int",
            Lit::Float(_) => "Float",
            Lit::Str(_) => "String",
            Lit::Bool(_) => "Bool",
        };
        assert(ty_str@ =~= self.primitive());
        Type::Con(ty_str.to_owned())
    }
}

/// What is known of a form besides its expression.
#[derive(Debug, PartialEq, Eq, Hash)]
pub struct FormTag {
    /// Position in source
    pub pos: Pos,
    /// Type of node
    pub ty: Scheme,
    /// Annotate type
    pub annotate: Option<Scheme>,
}

impl FormTag {
    /// Sets the form's type to the monomorphic scheme of `ty`.
    pub fn set_type(&mut self, ty: Type)
        ensures
            final(self).ty == Scheme::Mono(Box::new(ty)),
            final(self).pos == old(self).pos,
            final(self).annotate == old(self).annotate,
    {
        self.ty = Scheme::Mono(Box::new(ty));
    }

    /// Sets the form's type scheme.
    pub fn set_scheme(&mut self, scm: Scheme)
        ensures
            final(self).ty == scm,
            final(self).pos == old(self).pos,
            final(self).annotate == old(self).annotate,
    {
        self.ty = scm;
    }

    /// The form's type. A form whose scheme is not inferred yet has none.
    pub fn ref_type(&self) -> (t: &Type)
        requires
            !(self.ty is Slot),
        ensures
            self.ty matches Scheme::Mono(b) ==> *t == *b,
            self.ty matches Scheme::Poly(_, b) ==> *t == *b,
            t@ == self.ty@.body(),
    {
        self.ty.body()
    }

    /// A copy of the form's type. A form whose scheme is not inferred yet
    /// has none.
    pub fn clone_type(&self) -> (t: Type)
        requires
            !(self.ty is Slot),
        ensures
            t@ == self.ty@.body(),
    {
        self.ty.body().clone()
    }

    /// The form's type scheme.
    pub fn ref_scheme(&self) -> (s: &Scheme)
        ensures
            *s == self.ty,
    {
        &self.ty
    }
}

/// A form: an expression with its tag.
#[derive(Debug, PartialEq)]
pub struct Form {
    /// Expression content
    pub node: Expr,
    /// Form tag
    pub tag: FormTag,
}

impl Form {
    /// The form of `exp` at `pos`, its type not inferred yet.
    pub fn new(pos: Pos, exp: Expr) -> (f: Form)
        ensures
            f == (Form { node: exp, tag: FormTag { pos: pos, ty: Scheme::Slot, annotate: None } }),
    {
        Form { node: exp, tag: FormTag { pos: pos, ty: Scheme::slot(), annotate: None } }
    }

    /// The form of `exp` at `pos` with the type scheme `ty`.
    pub fn typed(pos: Pos, ty: Scheme, exp: Expr) -> (f: Form)
        ensures
            f == (Form { node: exp, tag: FormTag { pos: pos, ty: ty, annotate: None } }),
    {
        Form { node: exp, tag: FormTag { pos, ty, annotate: None } }
    }

    /// The form of `exp` at `pos`, annotated with `anno`, its type not
    /// inferred yet.
    pub fn annotated(pos: Pos, anno: Scheme, exp: Expr) -> (f: Form)
        ensures
            f == (Form {
                node: exp,
                tag: FormTag { pos: pos, ty: Scheme::Slot, annotate: Some(anno) },
            }),
    {
        Form { node: exp, tag: FormTag { pos, ty: Scheme::slot(), annotate: Some(anno) } }
    }

    /// The form at `pos` of the function that takes `params` to `to`, its
    /// type not inferred yet.
    pub fn abs(pos: Pos, params: Vec<VarDecl>, to: Box<Form>) -> (f: Form)
        ensures
            f == (Form {
                node: Expr::Abs(Lambda { param: params, body: to }),
                tag: FormTag { pos: pos, ty: Scheme::Slot, annotate: None },
            }),
    {
        Form {
            node: Expr::Abs(Lambda { param: params, body: to }),
            tag: FormTag { pos: pos, ty: Scheme::slot(), annotate: None },
        }
    }
}

/// An expression that evaluates to a value.
#[derive(Debug, PartialEq)]
pub enum Expr {
    /// Literal value
    Lit(Lit),
    /// Identifier (binding/definition)
    Var(Name),
    /// List (array), e.g. `[a, b]`
    List(Vec<E>),
    /// Block (statement sequence), e.g. `{ print(a); print(b); 1 }`
    Block(Vec<E>),
    /// Function application, e.g. `f(a, 1)`
    Apply(E, Vec<E>),
    /// Abstraction (function), e.g. `(a, b) -> a + b`
    Abs(Lambda),
    /// Binary operator expression, e.g. `a + b`
    Binary(BinOp, E, E),
    /// Unary operator expression, e.g. `!a` or `-b`
    Unary(UnOp, E),
    /// Let-in expression, e.g. `let a = b in a + 1`
    Let(VarDecl, E, E),
    /// Conditional expression, e.g. `if (a == b) 1 else 0`
    If(E, E, E),
}

/// A function written in place: its parameters and its body.
#[derive(Debug, PartialEq)]
pub struct Lambda {
    pub param: Vec<VarDecl>,
    pub body: E,
}

/// A field of a variant of a `data` type.
#[derive(Debug, PartialEq, Eq, Hash)]
pub struct Field {
    pub pos: Pos,
    pub name: Option<Name>,
    pub ty: Box<Type>,
}

/// The contents of a variant of a `data` type.
#[derive(Debug, PartialEq, Eq, Hash)]
pub enum VariantBody {
    Struct(Vec<Field>),
    Tuple(Vec<Field>),
    Unit,
}

/// A variant of a `data` type.
#[derive(Debug, PartialEq, Eq, Hash)]
pub struct Variant {
    pub name: Name,
    pub body: VariantBody,
}

/// What a top-level definition defines.
#[derive(Debug, PartialEq)]
pub enum Item {
    /// A value, given by a form.
    Form(E),
    /// Another name for a type scheme.
    Alias(Box<Scheme>),
    /// An algebraic data type, given by its variants.
    Alg(Vec<Variant>),
}

/// A top-level definition: `def`, `data` or `type`.
#[derive(Debug, PartialEq)]
pub struct Def {
    pub ident: Name,
    pub node: Item,
    pub pos: Pos,
}

impl Def {
    /// The definition at `pos` of the value `name` as the form `body`.
    pub fn value(pos: Pos, name: &str, body: E) -> (d: Box<Def>)
        ensures
            d.ident@ == name@,
            d.node == Item::Form(body),
            d.pos == pos,
    {
        Box::new(Def { ident: name.to_owned(), node: Item::Form(body), pos })
    }

    /// Whether a value is defined.
    pub fn is_form(&self) -> (b: bool)
        ensures
            b == (self.node is Form),
    {
        match self.node {
            Item::Form(_) => true,
            _ => false,
        }
    }

    /// Sets the type scheme of the form of a value definition, and leaves the
    /// rest as it is.
    pub fn set_form_scheme(&mut self, scm: Scheme)
        requires
            old(self).node is Form,
        ensures
            final(self).node == Item::Form(
                Box::new(
                    Form {
                        node: old(self).node->Form_0.node,
                        tag: FormTag {
                            pos: old(self).node->Form_0.tag.pos,
                            ty: scm,
                            annotate: old(self).node->Form_0.tag.annotate,
                        },
                    },
                ),
            ),
            final(self).ident == old(self).ident,
            final(self).pos == old(self).pos,
    {
        match &mut self.node {
            Item::Form(f) => {
                f.tag.set_scheme(scm);
            },
            _ => {},
        }
    }

    /// The type scheme of the form of a value definition.
    pub fn form_type(&self) -> (s: &Scheme)
        requires
            self.node is Form,
        ensures
            *s == self.node->Form_0.tag.ty,
    {
        match &self.node {
            Item::Form(f) => f.tag.ref_scheme(),
            _ => vstd::pervasive::unreached(),
        }
    }

    /// The form of a value definition, to be changed in place.
    pub fn form_body_mut(&mut self) -> (f: &mut Form)
        requires
            old(self).node is Form,
        ensures
            *f == *old(self).node->Form_0,
            final(self).node == Item::Form(Box::new(*final(f))),
            final(self).ident == old(self).ident,
            final(self).pos == old(self).pos,
    {
        match &mut self.node {
            Item::Form(f) => &mut **f,
            _ => vstd::pervasive::unreached(),
        }
    }
}

} // verus!
