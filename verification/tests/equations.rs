use rustex::displays::frac;
use rustex::equations::{new_equation, EquationElements};
use rustex::latex_file::new_latex_file;
use rustex::symbols::Symbols;
use rustex::writable::Writable;

const PROLOGUE: &str = "\\documentclass[a4paper,11pt]{article}\n\\date{}\n\\begin{document}\n";
const EPILOGUE: &str = "\\end{document}\n";

#[test]
fn strings_to_equation() {
    let vec = vec!["a", "!=", "b"];
    let eq = new_equation(&vec);
    assert_eq!(eq.len(), 3);
}

#[test]
fn simple_write() {
    let mut f = new_latex_file("./tests_results/equations/simple_eq.tex");
    f.begin_document();
    let vec = vec!["a", "=", "b"];
    let eq = new_equation(&vec);
    eq.write_latex(&mut f);
    f.write_footer();
    assert_eq!(
        f.content().as_str(),
        format!(
            "{}\\begin{{equation}}\n\\displaystyle a  =  b \n\\end{{equation}}\n{}",
            PROLOGUE, EPILOGUE
        )
    );
}

#[test]
fn multiple_equals() {
    let mut f = new_latex_file("./tests_results/equations/multiple_equals.tex");
    f.begin_document();
    let eq = new_equation(&vec!["1", ">=", "0", "=", "x"]);
    eq.write_latex(&mut f);
    f.write_footer();
    assert_eq!(
        f.content().as_str(),
        format!(
            "{}\\begin{{equation}}\n\\displaystyle 1  \\geq  0  =  x \n\\end{{equation}}\n{}",
            PROLOGUE, EPILOGUE
        )
    );
}

#[test]
fn multiple_frac() {
    let mut f = new_latex_file("./tests_results/equations/frac.tex");
    f.begin_document();
    let v = vec![frac("4", "2"), "=".to_string(), "2".to_string()];
    let eq = new_equation(&v);
    eq.write_latex(&mut f);
    f.write_footer();
    assert_eq!(
        f.content().as_str(),
        format!(
            "{}\\begin{{equation}}\n\\displaystyle \\frac{{4}}{{2}}  =  2 \n\\end{{equation}}\n{}",
            PROLOGUE, EPILOGUE
        )
    );
}

#[test]
fn new_equation_reads_each_token_in_place() {
    let eq = new_equation(&vec!["a", "!=", "b", "<>", "=", "c"]);
    assert_eq!(
        eq,
        vec![
            EquationElements::Text("a".to_string()),
            EquationElements::Symb(Symbols::Diff),
            EquationElements::Text("b".to_string()),
            EquationElements::Symb(Symbols::Diff),
            EquationElements::Symb(Symbols::Equals),
            EquationElements::Text("c".to_string()),
        ]
    );
}

#[test]
fn every_symbol_token_is_read_as_its_symbol() {
    let expected = [
        ("=", Symbols::Equals),
        ("==", Symbols::Equals),
        ("<=", Symbols::LessOrEquals),
        ("<", Symbols::Less),
        (">=", Symbols::MoreOrEquals),
        (">", Symbols::More),
        ("!=", Symbols::Diff),
        ("<>", Symbols::Diff),
    ];
    for (token, symbol) in expected {
        assert_eq!(EquationElements::get_enum(token.to_string()), EquationElements::Symb(symbol));
    }
}

#[test]
fn reading_a_symbol_twice_gives_the_same_symbol() {
    for token in ["=", "==", "<=", "<", ">=", ">", "!=", "<>"] {
        let first = EquationElements::get_enum(token.to_string());
        let again = match &first {
            EquationElements::Symb(s) => EquationElements::get_enum(s.get_string().to_string()),
            other => panic!("{:?} is no symbol", other),
        };
        assert_eq!(first, again);
    }
}

#[test]
fn any_other_token_is_text() {
    for token in ["", " ", "a", "= ", " =", "===", "=<", "=>", "><", "!", "!==", "\\leq", "≤"] {
        assert_eq!(
            EquationElements::get_enum(token.to_string()),
            EquationElements::Text(token.to_string())
        );
    }
}

#[test]
fn empty_equation_has_only_its_frame() {
    let none: Vec<&str> = Vec::new();
    let eq = new_equation(&none);
    let mut out = String::new();
    eq.write_to_buffer(&mut out);
    assert_eq!(out, "\\begin{equation}\n\\displaystyle \n\\end{equation}\n");
}

#[test]
fn element_is_followed_by_one_space() {
    let mut out = String::new();
    EquationElements::Text("x".to_string()).write_to_buffer(&mut out);
    EquationElements::Symb(Symbols::LessOrEquals).write_to_buffer(&mut out);
    assert_eq!(out, "x  \\leq  ");
}
