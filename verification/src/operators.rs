//! Binary and unary operators and their symbols.

use vstd::prelude::*;
use vstd::string::StrSliceExecFns;

verus! {

/// A binary operator.
#[derive(Clone, Copy, PartialEq, Eq, Structural, Hash, Debug)]
pub enum BinOp {
    /// The `+` operator (addition)
    Add,
    /// The `-` operator (subtraction)
    Sub,
    /// The `*` operator (multiplication)
    Mul,
    /// The `/` operator (division)
    Div,
    /// The `%` operator (modulus)
    Rem,
    /// The `&&` operator (logical and)
    And,
    /// The `||` operator (logical or)
    Or,
    /// The `^` operator (bitwise xor)
    BitXor,
    /// The `&` operator (bitwise and)
    BitAnd,
    /// The `|` operator (bitwise or)
    BitOr,
    /// The `<<` operator (shift left)
    Shl,
    /// The `>>` operator (shift right)
    Shr,
    /// The `==` operator (equality)
    Eq,
    /// The `<` operator (less than)
    Lt,
    /// The `<=` operator (less than or equal to)
    Le,
    /// The `!=` operator (not equal to)
    Ne,
    /// The `>=` operator (greater than or equal to)
    Ge,
    /// The `>` operator (greater than)
    Gt,
}

impl BinOp {
    /// The characters that the operator is written with.
    pub open spec fn symbol(self) -> Seq<char> {
        match self {
            BinOp::Add => seq!['+'],
            BinOp::Sub => seq!['-'],
            BinOp::Mul => seq!['*'],
            BinOp::Div => seq!['/'],
            BinOp::Rem => seq!['%'],
            BinOp::And => seq!['&', '&'],
            BinOp::Or => seq!['|', '|'],
            BinOp::BitXor => seq!['^'],
            BinOp::BitAnd => seq!['&'],
            BinOp::BitOr => seq!['|'],
            BinOp::Shl => seq!['<', '<'],
            BinOp::Shr => seq!['>', '>'],
            BinOp::Eq => seq!['=', '='],
            BinOp::Lt => seq!['<'],
            BinOp::Le => seq!['<', '='],
            BinOp::Ne => seq!['!', '='],
            BinOp::Ge => seq!['>', '='],
            BinOp::Gt => seq!['>'],
        }
    }

    /// Whether the operator is arithmetic or a comparison: the operators that
    /// are read back from their symbols.
    pub open spec fn is_read(self) -> bool {
        match self {
            BinOp::Add | BinOp::Sub | BinOp::Mul | BinOp::Div | BinOp::Rem => true,
            BinOp::Lt | BinOp::Le | BinOp::Ne | BinOp::Ge | BinOp::Gt | BinOp::Eq => true,
            _ => false,
        }
    }

    /// The arithmetic or comparison operator that is written `s`, if there is one.
    pub open spec fn read(s: Seq<char>) -> Option<BinOp> {
        if s.len() == 1 {
            if s[0] == '+' {
                Some(BinOp::Add)
            } else if s[0] == '-' {
                Some(BinOp::Sub)
            } else if s[0] == '*' {
                Some(BinOp::Mul)
            } else if s[0] == '/' {
                Some(BinOp::Div)
            } else if s[0] == '%' {
                Some(BinOp::Rem)
            } else if s[0] == '<' {
                Some(BinOp::Lt)
            } else if s[0] == '>' {
                Some(BinOp::Gt)
            } else {
                None
            }
        } else if s.len() == 2 && s[1] == '=' {
            if s[0] == '<' {
                Some(BinOp::Le)
            } else if s[0] == '!' {
                Some(BinOp::Ne)
            } else if s[0] == '>' {
                Some(BinOp::Ge)
            } else if s[0] == '=' {
                Some(BinOp::Eq)
            } else {
                None
            }
        } else {
            None
        }
    }

    /// The operator's symbol.
    pub fn as_str(&self) -> (s: &'static str)
        ensures
            s@ == self.symbol(),
    {
        proof {
            reveal_strlit("+");
            reveal_strlit("-");
            reveal_strlit("*");
            reveal_strlit("/");
            reveal_strlit("%");
            reveal_strlit("&&");
            reveal_strlit("||");
            reveal_strlit("^");
            reveal_strlit("&");
            reveal_strlit("|");
            reveal_strlit("<<");
            reveal_strlit(">>");
            reveal_strlit("==");
            reveal_strlit("<");
            reveal_strlit("<=");
            reveal_strlit("!=");
            reveal_strlit(">=");
            reveal_strlit(">");
        }
        let s = match *self {
            BinOp::Add => "+",
            BinOp::Sub => "-",
            BinOp::Mul => "*",
            BinOp::Div => "/",
            BinOp::Rem => "%",
            BinOp::And => "&&",
            BinOp::Or => "||",
            BinOp::BitXor => "^",
            BinOp::BitAnd => "&",
            BinOp::BitOr => "|",
            BinOp::Shl => "<<",
            BinOp::Shr => ">>",
            BinOp::Eq => "==",
            BinOp::Lt => "<",
            BinOp::Le => "<=",
            BinOp::Ne => "!=",
            BinOp::Ge => ">=",
            BinOp::Gt => ">",
        };
        assert(s@ =~= self.symbol());
        s
    }

    /// The arithmetic or comparison operator written `op_str`, or `None`
    /// where `op_str` is the symbol of no such operator.
    pub fn find(op_str: &str) -> (r: Option<BinOp>)
        ensures
            r == BinOp::read(op_str@),
    {
        let n = op_str.unicode_len();
        if n == 1 {
            let c = op_str.get_char(0);
            if c == '+' {
                Some(BinOp::Add)
            } else if c == '-' {
                Some(BinOp::Sub)
            } else if c == '*' {
                Some(BinOp::Mul)
            } else if c == '/' {
                Some(BinOp::Div)
            } else if c == '%' {
                Some(BinOp::Rem)
            } else if c == '<' {
                Some(BinOp::Lt)
            } else if c == '>' {
                Some(BinOp::Gt)
            } else {
                None
            }
        } else if n == 2 {
            let c = op_str.get_char(0);
            let d = op_str.get_char(1);
            if d != '=' {
                None
            } else if c == '<' {
                Some(BinOp::Le)
            } else if c == '!' {
                Some(BinOp::Ne)
            } else if c == '>' {
                Some(BinOp::Ge)
            } else if c == '=' {
                Some(BinOp::Eq)
            } else {
                None
            }
        } else {
            None
        }
    }

    /// The arithmetic or comparison operator written `op_str`.
    pub fn take(op_str: &str) -> (op: BinOp)
        requires
            BinOp::read(op_str@) is Some,
        ensures
            BinOp::read(op_str@) == Some(op),
            op.symbol() == op_str@,
            op.is_read(),
    {
        proof {
            lemma_read_gives_symbol(op_str@);
        }
        BinOp::find(op_str).unwrap()
    }
}

/// An operator that is read from `s` is arithmetic or a comparison, and `s`
/// is its symbol.
pub proof fn lemma_read_gives_symbol(s: Seq<char>)
    requires
        BinOp::read(s) is Some,
    ensures
        BinOp::read(s)->0.symbol() == s,
        BinOp::read(s)->0.is_read(),
{
    assert(BinOp::read(s)->0.symbol() =~= s);
}

/// The symbol of an arithmetic or comparison operator reads back as that
/// operator.
pub proof fn lemma_symbol_reads_back(op: BinOp)
    requires
        op.is_read(),
    ensures
        BinOp::read(op.symbol()) == Some(op),
{
}

/// A unary operator.
#[derive(Clone, Copy, PartialEq, Eq, Structural, Hash, Debug)]
pub enum UnOp {
    /// The `!` operator for logical inversion
    Not,
    /// The `-` operator for negation
    Neg,
}

impl UnOp {
    /// The characters that the operator is written with.
    pub open spec fn symbol(self) -> Seq<char> {
        match self {
            UnOp::Not => seq!['!'],
            UnOp::Neg => seq!['-'],
        }
    }

    /// The operator's symbol.
    pub fn to_string(op: UnOp) -> (s: &'static str)
        ensures
            s@ == op.symbol(),
    {
        proof {
            reveal_strlit("!");
            reveal_strlit("-");
        }
        let s = match op {
            UnOp::Not => "!",
            UnOp::Neg => "-",
        };
        assert(s@ =~= op.symbol());
        s
    }
}

} // verus!
