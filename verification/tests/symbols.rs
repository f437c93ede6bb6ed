use rustex::error::LatexError;
use rustex::symbols::{is_op, Symbols};

#[test]
fn getting_symbols() {
    assert_eq!(Symbols::get_symbol("==".to_string()), Ok(Symbols::Equals));
    assert_eq!(Symbols::get_symbol("=".to_string()), Ok(Symbols::Equals));
    assert_eq!(Symbols::get_symbol(">=".to_string()), Ok(Symbols::MoreOrEquals));
    assert_eq!(Symbols::get_symbol("<=".to_string()), Ok(Symbols::LessOrEquals));
    assert_eq!(Symbols::get_symbol("<".to_string()), Ok(Symbols::Less));
    assert_eq!(Symbols::get_symbol(">".to_string()), Ok(Symbols::More));
    assert_eq!(Symbols::get_symbol("!=".to_string()), Ok(Symbols::Diff));
    assert_eq!(Symbols::get_symbol("<>".to_string()), Ok(Symbols::Diff));
}

#[test]
fn getting_strings() {
    assert_eq!(Symbols::get_string(&Symbols::Equals), "=");
    assert_eq!(Symbols::get_string(&Symbols::More), ">");
    assert_eq!(Symbols::get_string(&Symbols::MoreOrEquals), ">=");
    assert_eq!(Symbols::get_string(&Symbols::LessOrEquals), "<=");
    assert_eq!(Symbols::get_string(&Symbols::Less), "<");
    assert_eq!(Symbols::get_string(&Symbols::Diff), "!=");
}

#[test]
fn unknown_token_is_invalid() {
    for token in ["", "a", "=<", "===", " =", "<<", "!"] {
        assert_eq!(Symbols::get_symbol(token.to_string()), Err(LatexError::InvalidToken));
    }
}

#[test]
fn latex_code_of_each_symbol() {
    assert_eq!(Symbols::Equals.latex_code(), " = ");
    assert_eq!(Symbols::LessOrEquals.latex_code(), " \\leq ");
    assert_eq!(Symbols::Less.latex_code(), " < ");
    assert_eq!(Symbols::MoreOrEquals.latex_code(), " \\geq ");
    assert_eq!(Symbols::More.latex_code(), " > ");
    assert_eq!(Symbols::Diff.latex_code(), " \\neq ");
}

#[test]
fn is_op_holds_of_the_eight_tokens_only() {
    for token in ["=", "==", "<=", "<", ">=", ">", "!=", "<>"] {
        assert!(is_op(&token.to_string()));
    }
    for token in ["", "a", "=<", "=>", "===", " =", "= ", "<<", "!", "\\leq"] {
        assert!(!is_op(&token.to_string()));
    }
}

#[test]
fn written_token_is_read_back_as_the_same_symbol() {
    let all = [
        Symbols::Equals,
        Symbols::LessOrEquals,
        Symbols::Less,
        Symbols::MoreOrEquals,
        Symbols::More,
        Symbols::Diff,
    ];
    for s in all {
        assert!(is_op(&s.get_string().to_string()));
        assert_eq!(Symbols::get_symbol(s.get_string().to_string()), Ok(s));
    }
}
