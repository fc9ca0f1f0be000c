//! Types and type schemes.

use vstd::prelude::*;
use vstd::std_specs::cmp::PartialEqSpecImpl;

verus! {

/// A name in the source program: a variable, a type constructor or a type variable.
pub type Name = String;

/// A type of the language.
#[derive(Debug, Eq, Hash)]
pub enum Type {
    /// The type without values.
    Void,
    /// A type variable that inference has not resolved yet.
    Var(Name),
    /// A named primitive or nominal type.
    Con(Name),
    /// The function type from the first type to the second.
    Arr(Box<Type>, Box<Type>),
    /// The binary product of two types.
    Prod(Box<Type>, Box<Type>),
    /// The first type applied to the second as its argument.
    Comp(Box<Type>, Box<Type>),
}

/// The mathematical value of a [`Type`]: names are sequences of characters.
pub enum TypeView {
    Void,
    Var(Seq<char>),
    Con(Seq<char>),
    Arr(Box<TypeView>, Box<TypeView>),
    Prod(Box<TypeView>, Box<TypeView>),
    Comp(Box<TypeView>, Box<TypeView>),
}

impl View for Type {
    type V = TypeView;

    open spec fn view(&self) -> TypeView
        decreases self,
    {
        match self {
            Type::Void => TypeView::Void,
            Type::Var(n) => TypeView::Var(n@),
            Type::Con(n) => TypeView::Con(n@),
            Type::Arr(a, b) => TypeView::Arr(Box::new((**a).view()), Box::new((**b).view())),
            Type::Prod(a, b) => TypeView::Prod(Box::new((**a).view()), Box::new((**b).view())),
            Type::Comp(a, b) => TypeView::Comp(Box::new((**a).view()), Box::new((**b).view())),
        }
    }
}

impl DeepView for Type {
    type V = TypeView;

    open spec fn deep_view(&self) -> TypeView {
        self.view()
    }
}

impl Clone for Type {
    /// A copy with the same value.
    fn clone(&self) -> (res: Type)
        ensures
            res@ == self@,
        decreases self,
    {
        match self {
            Type::Void => Type::Void,
            Type::Var(n) => Type::Var(n.clone()),
            Type::Con(n) => Type::Con(n.clone()),
            Type::Arr(a, b) => Type::Arr(Box::new((&**a).clone()), Box::new((&**b).clone())),
            Type::Prod(a, b) => Type::Prod(Box::new((&**a).clone()), Box::new((&**b).clone())),
            Type::Comp(a, b) => Type::Comp(Box::new((&**a).clone()), Box::new((&**b).clone())),
        }
    }
}

impl PartialEq for Type {
    /// Structural equality: the same constructors over the same names.
    fn eq(&self, other: &Type) -> (r: bool)
        decreases self,
    {
        match (self, other) {
            (Type::Void, Type::Void) => true,
            (Type::Var(n), Type::Var(m)) => *n == *m,
            (Type::Con(n), Type::Con(m)) => *n == *m,
            (Type::Arr(a, b), Type::Arr(c, d)) => (&**a).eq(&**c) && (&**b).eq(&**d),
            (Type::Prod(a, b), Type::Prod(c, d)) => (&**a).eq(&**c) && (&**b).eq(&**d),
            (Type::Comp(a, b), Type::Comp(c, d)) => (&**a).eq(&**c) && (&**b).eq(&**d),
            _ => false,
        }
    }
}

impl PartialEqSpecImpl for Type {
    open spec fn obeys_eq_spec() -> bool {
        true
    }

    open spec fn eq_spec(&self, other: &Type) -> bool {
        self@ == other@
    }
}

impl Type {
    /// The product of `left` and `right`.
    pub fn product(left: Type, right: Type) -> (t: Type)
        ensures
            t == Type::Prod(Box::new(left), Box::new(right)),
            t@ == TypeView::Prod(Box::new(left@), Box::new(right@)),
    {
        Type::Prod(Box::new(left), Box::new(right))
    }

    /// The application of `callee` to the argument `arg`.
    pub fn compose(callee: Type, arg: Type) -> (t: Type)
        ensures
            t == Type::Comp(Box::new(callee), Box::new(arg)),
            t@ == TypeView::Comp(Box::new(callee@), Box::new(arg@)),
    {
        Type::Comp(Box::new(callee), Box::new(arg))
    }

    /// The product of one or more types, nested to the right:
    /// `[a, b, c]` gives `Prod(a, Prod(b, c))`, and `[a]` gives `a`.
    pub fn product_n(ts: Vec<Type>) -> (t: Type)
        requires
            ts.len() >= 1,
        ensures
            t@ == product_of(ts.deep_view()),
    {
        let ghost all = ts.deep_view();
        let mut rest = ts;
        let mut res = rest.pop().unwrap();
        proof {
            assert(rest.deep_view() =~= all.drop_last());
            lemma_product_onto_last(all);
        }
        while rest.len() > 0
            invariant
                product_onto(rest.deep_view(), res@) == product_of(all),
            decreases rest.len(),
        {
            let ghost before = rest.deep_view();
            let ghost tail = res@;
            let ty = rest.pop().unwrap();
            proof {
                assert(rest.deep_view() =~= before.drop_last());
                assert(before.last() == ty@);
                lemma_product_onto_snoc(before, tail);
            }
            res = Type::Prod(Box::new(ty), Box::new(res));
        }
        res
    }

    /// Takes a right-nested product apart from the left into at most `n`
    /// components: the inverse of [`Type::product_n`] on `n` types.
    pub fn split_product(self, n: usize) -> (parts: Vec<Type>)
        ensures
            parts.deep_view() == components(self@, n as nat),
    {
        let ghost whole = self@;
        let mut parts: Vec<Type> = Vec::new();
        let mut cur = self;
        let mut left: usize = n;
        while left > 1
            invariant
                parts.deep_view() + components(cur@, left as nat) == components(whole, n as nat),
            decreases left,
        {
            let ghost done = parts.deep_view();
            let ghost here = cur@;
            match cur {
                Type::Prod(a, b) => {
                    parts.push(*a);
                    cur = *b;
                    left = left - 1;
                    proof {
                        assert(parts.deep_view() =~= done.push(parts@.last()@));
                        assert(parts.deep_view() + components(cur@, left as nat) =~= done
                            + components(here, (left + 1) as nat));
                    }
                },
                other => {
                    cur = other;
                    left = 1;
                },
            }
        }
        proof {
            let done = parts.deep_view();
            assert(components(cur@, left as nat) =~= seq![cur@]);
        }
        let ghost done = parts.deep_view();
        parts.push(cur);
        proof {
            assert(parts.deep_view() =~= done.push(parts@.last()@));
            assert(parts.deep_view() =~= done + seq![parts@.last()@]);
        }
        parts
    }
}

/// The right-nested product of `ts` over the last component `tail`:
/// `product_onto([a, b], c)` is `Prod(a, Prod(b, c))`.
pub open spec fn product_onto(ts: Seq<TypeView>, tail: TypeView) -> TypeView
    decreases ts.len(),
{
    if ts.len() == 0 {
        tail
    } else {
        TypeView::Prod(Box::new(ts[0]), Box::new(product_onto(ts.skip(1), tail)))
    }
}

/// The right-nested product of the types `ts`: `Prod(ts[0], Prod(ts[1], ..))`,
/// ending in the last of them. Meaningful for one type or more.
pub open spec fn product_of(ts: Seq<TypeView>) -> TypeView
    recommends
        ts.len() >= 1,
    decreases ts.len(),
{
    if ts.len() <= 1 {
        ts[0]
    } else {
        TypeView::Prod(Box::new(ts[0]), Box::new(product_of(ts.skip(1))))
    }
}

/// Whether `t` is a product nested to the right at least `depth` times.
pub open spec fn nested_right(t: TypeView, depth: nat) -> bool
    decreases depth,
{
    depth == 0 || (t matches TypeView::Prod(_, rest) && nested_right(*rest, (depth - 1) as nat))
}

/// The components of `t` read from the left, `n` of them where `t` is nested
/// deep enough: `components(Prod(a, Prod(b, c)), 3)` is `[a, b, c]`.
pub open spec fn components(t: TypeView, n: nat) -> Seq<TypeView>
    decreases n,
{
    if n <= 1 {
        seq![t]
    } else {
        match t {
            TypeView::Prod(first, rest) => seq![*first] + components(*rest, (n - 1) as nat),
            _ => seq![t],
        }
    }
}

proof fn lemma_product_onto_last(ts: Seq<TypeView>)
    requires
        ts.len() >= 1,
    ensures
        product_onto(ts.drop_last(), ts.last()) == product_of(ts),
    decreases ts.len(),
{
    if ts.len() > 1 {
        lemma_product_onto_last(ts.skip(1));
        assert(ts.skip(1).drop_last() =~= ts.drop_last().skip(1));
    }
}

proof fn lemma_product_onto_snoc(ts: Seq<TypeView>, tail: TypeView)
    requires
        ts.len() >= 1,
    ensures
        product_onto(ts.drop_last(), TypeView::Prod(Box::new(ts.last()), Box::new(tail)))
            == product_onto(ts, tail),
    decreases ts.len(),
{
    if ts.len() > 1 {
        lemma_product_onto_snoc(ts.skip(1), tail);
        assert(ts.skip(1).drop_last() =~= ts.drop_last().skip(1));
        assert(ts.skip(1).last() == ts.last());
        assert(ts.drop_last()[0] == ts[0]);
    } else {
        assert(product_onto(ts.skip(1), tail) == tail);
    }
}

/// The product of `n` types is nested to the right `n - 1` times, and read
/// from the left it gives back the `n` types it was built from.
pub proof fn lemma_product_round_trip(ts: Seq<TypeView>)
    requires
        ts.len() >= 1,
    ensures
        nested_right(product_of(ts), (ts.len() - 1) as nat),
        components(product_of(ts), ts.len()) == ts,
    decreases ts.len(),
{
    if ts.len() > 1 {
        lemma_product_round_trip(ts.skip(1));
        assert(seq![ts[0]] + ts.skip(1) =~= ts);
    } else {
        assert(seq![ts[0]] =~= ts);
    }
}

/// A type, possibly generalized over type variables, or not yet inferred.
#[derive(Debug, Eq, Hash)]
pub enum Scheme {
    /// A type without quantified variables.
    Mono(Box<Type>),
    /// A type quantified over the listed type variables.
    Poly(Vec<Name>, Box<Type>),
    /// The place of a scheme that inference has not filled in yet.
    Slot,
}

/// The mathematical value of a [`Scheme`].
pub enum SchemeView {
    Mono(TypeView),
    Poly(Seq<Seq<char>>, TypeView),
    Slot,
}

impl SchemeView {
    /// The type that a resolved scheme encloses.
    pub open spec fn body(self) -> TypeView
        recommends
            !(self is Slot),
    {
        match self {
            SchemeView::Mono(t) => t,
            SchemeView::Poly(_, t) => t,
            SchemeView::Slot => TypeView::Void,
        }
    }
}

impl View for Scheme {
    type V = SchemeView;

    open spec fn view(&self) -> SchemeView {
        match self {
            Scheme::Mono(t) => SchemeView::Mono(t@),
            Scheme::Poly(ns, t) => SchemeView::Poly(ns.deep_view(), t@),
            Scheme::Slot => SchemeView::Slot,
        }
    }
}

impl DeepView for Scheme {
    type V = SchemeView;

    open spec fn deep_view(&self) -> SchemeView {
        self.view()
    }
}

/// A copy of a list of names.
pub fn clone_names(names: &Vec<Name>) -> (res: Vec<Name>)
    ensures
        res.deep_view() == names.deep_view(),
{
    let mut res: Vec<Name> = Vec::new();
    let mut i: usize = 0;
    while i < names.len()
        invariant
            i <= names.len(),
            res.len() == i,
            forall|k: int| 0 <= k < i ==> res[k]@ == names[k]@,
        decreases names.len() - i,
    {
        res.push(names[i].clone());
        i = i + 1;
    }
    assert(res.deep_view() =~= names.deep_view());
    res
}

/// Whether two lists of names hold the same names in the same order.
pub fn same_names(left: &Vec<Name>, right: &Vec<Name>) -> (r: bool)
    ensures
        r == (left.deep_view() == right.deep_view()),
{
    if left.len() != right.len() {
        assert(left.deep_view().len() != right.deep_view().len());
        return false;
    }
    let mut i: usize = 0;
    while i < left.len()
        invariant
            i <= left.len(),
            left.len() == right.len(),
            forall|k: int| 0 <= k < i ==> left[k]@ == right[k]@,
        decreases left.len() - i,
    {
        if left[i] != right[i] {
            assert(left.deep_view()[i as int] != right.deep_view()[i as int]);
            return false;
        }
        i = i + 1;
    }
    assert(left.deep_view() =~= right.deep_view());
    true
}

impl Clone for Scheme {
    /// A copy with the same value.
    fn clone(&self) -> (res: Scheme)
        ensures
            res@ == self@,
    {
        match self {
            Scheme::Mono(t) => Scheme::Mono(Box::new((&**t).clone())),
            Scheme::Poly(ns, t) => Scheme::Poly(clone_names(ns), Box::new((&**t).clone())),
            Scheme::Slot => Scheme::Slot,
        }
    }
}

impl PartialEq for Scheme {
    /// Structural equality: the same form over the same names and type.
    fn eq(&self, other: &Scheme) -> (r: bool) {
        match (self, other) {
            (Scheme::Mono(t), Scheme::Mono(u)) => (&**t).eq(&**u),
            (Scheme::Poly(ns, t), Scheme::Poly(ms, u)) => same_names(ns, ms) && (&**t).eq(&**u),
            (Scheme::Slot, Scheme::Slot) => true,
            _ => false,
        }
    }
}

impl PartialEqSpecImpl for Scheme {
    open spec fn obeys_eq_spec() -> bool {
        true
    }

    open spec fn eq_spec(&self, other: &Scheme) -> bool {
        self@ == other@
    }
}

impl Scheme {
    /// The placeholder for a scheme that is not inferred yet.
    pub fn slot() -> (s: Scheme)
        ensures
            s == Scheme::Slot,
            s@ == SchemeView::Slot,
    {
        Scheme::Slot
    }

    /// The monomorphic scheme of the named type.
    pub fn con(name: &str) -> (s: Scheme)
        ensures
            s@ == SchemeView::Mono(TypeView::Con(name@)),
    {
        Scheme::Mono(Box::new(Type::Con(name.to_owned())))
    }

    /// The type that a resolved scheme encloses. A scheme that is still a
    /// placeholder has none.
    pub fn body(&self) -> (t: &Type)
        requires
            !(self is Slot),
        ensures
            self matches Scheme::Mono(b) ==> *t == **b,
            self matches Scheme::Poly(_, b) ==> *t == **b,
            t@ == self@.body(),
    {
        match self {
            Scheme::Mono(t) => &**t,
            Scheme::Poly(_, t) => &**t,
            Scheme::Slot => vstd::pervasive::unreached(),
        }
    }

    /// The monomorphic scheme of the function type from `from` to `to`.
    pub fn arrow(from: Type, to: Type) -> (s: Scheme)
        ensures
            s == Scheme::Mono(Box::new(Type::Arr(Box::new(from), Box::new(to)))),
            s@ == SchemeView::Mono(TypeView::Arr(Box::new(from@), Box::new(to@))),
    {
        Scheme::Mono(Box::new(Type::Arr(Box::new(from), Box::new(to))))
    }
}

} // verus!
