use closure_ir::operators::{BinOp, UnOp};

#[test]
fn as_str_gives_each_symbol() {
    assert_eq!(BinOp::Add.as_str(), "+");
    assert_eq!(BinOp::Sub.as_str(), "-");
    assert_eq!(BinOp::Mul.as_str(), "*");
    assert_eq!(BinOp::Div.as_str(), "/");
    assert_eq!(BinOp::Rem.as_str(), "%");
    assert_eq!(BinOp::And.as_str(), "&&");
    assert_eq!(BinOp::Or.as_str(), "||");
    assert_eq!(BinOp::BitXor.as_str(), "^");
    assert_eq!(BinOp::BitAnd.as_str(), "&");
    assert_eq!(BinOp::BitOr.as_str(), "|");
    assert_eq!(BinOp::Shl.as_str(), "<<");
    assert_eq!(BinOp::Shr.as_str(), ">>");
    assert_eq!(BinOp::Eq.as_str(), "==");
    assert_eq!(BinOp::Lt.as_str(), "<");
    assert_eq!(BinOp::Le.as_str(), "<=");
    assert_eq!(BinOp::Ne.as_str(), "!=");
    assert_eq!(BinOp::Ge.as_str(), ">=");
    assert_eq!(BinOp::Gt.as_str(), ">");
}

#[test]
fn take_reads_arithmetic_and_comparisons() {
    assert_eq!(BinOp::take("+"), BinOp::Add);
    assert_eq!(BinOp::take("-"), BinOp::Sub);
    assert_eq!(BinOp::take("*"), BinOp::Mul);
    assert_eq!(BinOp::take("/"), BinOp::Div);
    assert_eq!(BinOp::take("%"), BinOp::Rem);
    assert_eq!(BinOp::take("<"), BinOp::Lt);
    assert_eq!(BinOp::take("<="), BinOp::Le);
    assert_eq!(BinOp::take("!="), BinOp::Ne);
    assert_eq!(BinOp::take(">="), BinOp::Ge);
    assert_eq!(BinOp::take(">"), BinOp::Gt);
    assert_eq!(BinOp::take("=="), BinOp::Eq);
}

#[test]
fn take_reads_back_what_as_str_writes() {
    let read = [
        BinOp::Add,
        BinOp::Sub,
        BinOp::Mul,
        BinOp::Div,
        BinOp::Rem,
        BinOp::Lt,
        BinOp::Le,
        BinOp::Ne,
        BinOp::Ge,
        BinOp::Gt,
        BinOp::Eq,
    ];
    for op in read {
        assert_eq!(BinOp::take(op.as_str()), op);
        assert_eq!(BinOp::find(op.as_str()), Some(op));
    }
}

#[test]
fn find_knows_no_logical_or_bitwise_operator() {
    for op in [BinOp::And, BinOp::Or, BinOp::BitXor, BinOp::BitAnd, BinOp::BitOr, BinOp::Shl, BinOp::Shr] {
        assert_eq!(BinOp::find(op.as_str()), None);
    }
}

#[test]
fn find_knows_no_other_text() {
    assert_eq!(BinOp::find(""), None);
    assert_eq!(BinOp::find("="), None);
    assert_eq!(BinOp::find("!"), None);
    assert_eq!(BinOp::find("+="), None);
    assert_eq!(BinOp::find("<=="), None);
    assert_eq!(BinOp::find("<>"), None);
    assert_eq!(BinOp::find(" +"), None);
    assert_eq!(BinOp::find("plus"), None);
    assert_eq!(BinOp::find("\u{e9}"), None);
    assert_eq!(BinOp::find("\u{e9}="), None);
}

#[test]
fn unary_operators_have_their_symbols() {
    assert_eq!(UnOp::to_string(UnOp::Not), "!");
    assert_eq!(UnOp::to_string(UnOp::Neg), "-");
}
