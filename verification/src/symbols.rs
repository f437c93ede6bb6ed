//! The relation symbols of equations and the tokens that stand for them.

use vstd::prelude::*;
use vstd::string::StringExecFns;
use crate::error::LatexError;

verus! {

/// The relations an equation can state between two of its sides.
#[derive(Debug, PartialEq, Eq, Clone, Copy, Structural)]
pub enum Symbols {
    /// =
    Equals,
    /// <=
    LessOrEquals,
    /// <
    Less,
    /// >=
    MoreOrEquals,
    /// >
    More,
    /// !=
    Diff,
}

/// Whether `s` is one of the eight tokens that stand for a symbol.
pub open spec fn is_op_token(s: Seq<char>) -> bool {
    s == "=="@ || s == "="@ || s == "<"@ || s == "<="@ || s == ">"@ || s == ">="@ || s == "!="@
        || s == "<>"@
}

impl Symbols {
    /// The symbol a token stands for, if it stands for one.
    pub open spec fn of_token(s: Seq<char>) -> Option<Symbols> {
        if s == "="@ || s == "=="@ {
            Some(Symbols::Equals)
        } else if s == "<="@ {
            Some(Symbols::LessOrEquals)
        } else if s == "<"@ {
            Some(Symbols::Less)
        } else if s == ">="@ {
            Some(Symbols::MoreOrEquals)
        } else if s == ">"@ {
            Some(Symbols::More)
        } else if s == "!="@ || s == "<>"@ {
            Some(Symbols::Diff)
        } else {
            None
        }
    }

    /// The token a symbol is written back as.
    pub open spec fn token(self) -> Seq<char> {
        match self {
            Symbols::Equals => "="@,
            Symbols::LessOrEquals => "<="@,
            Symbols::Less => "<"@,
            Symbols::MoreOrEquals => ">="@,
            Symbols::More => ">"@,
            Symbols::Diff => "!="@,
        }
    }

    /// The LaTeX text of a symbol, with a space on either side.
    pub open spec fn code(self) -> Seq<char> {
        match self {
            Symbols::Equals => " = "@,
            Symbols::LessOrEquals => " \\leq "@,
            Symbols::Less => " < "@,
            Symbols::MoreOrEquals => " \\geq "@,
            Symbols::More => " > "@,
            Symbols::Diff => " \\neq "@,
        }
    }

    /// Returns the symbol that `symb` stands for, and rejects every other
    /// string as an invalid token.
    pub fn get_symbol(symb: String) -> (r: Result<Symbols, LatexError>)
        ensures
            r == match Symbols::of_token(symb@) {
                Some(s) => Ok::<Symbols, LatexError>(s),
                None => Err(LatexError::InvalidToken),
            },
    {
        if same_text(&symb, "=") || same_text(&symb, "==") {
            Ok(Symbols::Equals)
        } else if same_text(&symb, "<=") {
            Ok(Symbols::LessOrEquals)
        } else if same_text(&symb, "<") {
            Ok(Symbols::Less)
        } else if same_text(&symb, ">=") {
            Ok(Symbols::MoreOrEquals)
        } else if same_text(&symb, ">") {
            Ok(Symbols::More)
        } else if same_text(&symb, "!=") || same_text(&symb, "<>") {
            Ok(Symbols::Diff)
        } else {
            Err(LatexError::InvalidToken)
        }
    }

    /// Returns the token the symbol is written back as.
    pub fn get_string(&self) -> (r: &'static str)
        ensures
            r@ == self.token(),
    {
        match self {
            Symbols::Equals => "=",
            Symbols::LessOrEquals => "<=",
            Symbols::Less => "<",
            Symbols::MoreOrEquals => ">=",
            Symbols::More => ">",
            Symbols::Diff => "!=",
        }
    }

    /// Returns the LaTeX text of the symbol.
    pub fn latex_code(&self) -> (r: String)
        ensures
            r@ == self.code(),
    {
        let x = match self {
            Symbols::Equals => " = ",
            Symbols::LessOrEquals => " \\leq ",
            Symbols::Less => " < ",
            Symbols::MoreOrEquals => " \\geq ",
            Symbols::More => " > ",
            Symbols::Diff => " \\neq ",
        };
        String::from_str(x)
    }
}

/// Whether `s` holds exactly the characters of `lit`.
fn same_text(s: &String, lit: &str) -> (r: bool)
    ensures
        r == (s@ == lit@),
{
    let other = String::from_str(lit);
    *s == other
}

/// Tells whether `s` is a token that stands for a symbol.
pub fn is_op(s: &String) -> (r: bool)
    ensures
        r == is_op_token(s@),
{
    same_text(s, "==") || same_text(s, "=") || same_text(s, "<") || same_text(s, "<=")
        || same_text(s, ">") || same_text(s, ">=") || same_text(s, "!=") || same_text(s, "<>")
}

/// A string stands for a symbol exactly when it is one of the eight tokens.
pub proof fn lemma_symbol_tokens(s: Seq<char>)
    ensures
        Symbols::of_token(s) is Some <==> is_op_token(s),
{
}

/// The token a symbol is written back as stands for that same symbol.
pub proof fn lemma_token_round_trip(sym: Symbols)
    ensures
        is_op_token(sym.token()),
        Symbols::of_token(sym.token()) == Some(sym),
{
    reveal_strlit("=");
    reveal_strlit("==");
    reveal_strlit("<=");
    reveal_strlit("<");
    reveal_strlit(">=");
    reveal_strlit(">");
    reveal_strlit("!=");
    reveal_strlit("<>");
    // A token differs from those of the other symbols in length or in its
    // first character.
    assert("="@.len() == 1 && "="@[0] == '=');
    assert("<"@.len() == 1 && "<"@[0] == '<');
    assert(">"@.len() == 1 && ">"@[0] == '>');
    assert("=="@.len() == 2 && "=="@[0] == '=');
    assert("<="@.len() == 2 && "<="@[0] == '<');
    assert(">="@.len() == 2 && ">="@[0] == '>');
    assert("!="@.len() == 2 && "!="@[0] == '!');
    assert("<>"@.len() == 2 && "<>"@[0] == '<');
}

/// Reading a token, writing the symbol back and reading it again changes
/// nothing: the second reading gives the symbol of the first.
pub proof fn lemma_symbol_idempotent(s: Seq<char>)
    requires
        is_op_token(s),
    ensures
        Symbols::of_token(s) matches Some(sym) && Symbols::of_token(sym.token()) == Some(sym),
{
    lemma_token_round_trip(Symbols::of_token(s).unwrap());
}

} // verus!
