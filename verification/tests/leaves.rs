use rustex::content::Core;
use rustex::content_from_file::Code;
use rustex::displays::{frac, texttt, two_args};
use rustex::error::LatexError;
use rustex::expressions::Expression;
use rustex::into_tab::IntoTab;
use rustex::latex_file::new_latex_file;
use rustex::math_mode::MathContent;
use rustex::str_or_string::StrOrString;
use rustex::tabular::Tabular;
use rustex::tag::SingleTag;
use rustex::writable::Writable;

fn written<W: Writable>(w: &W) -> String {
    let mut out = String::from("<");
    w.write_to_buffer(&mut out);
    out.push('>');
    out
}

#[test]
fn frac_of_two_texts() {
    assert_eq!(frac("4", "2"), "\\frac{4}{2}");
    assert_eq!(frac(String::from("a+b"), ""), "\\frac{a+b}{}");
}

#[test]
fn texttt_of_text() {
    assert_eq!(texttt("code"), "\\texttt{code}");
    assert_eq!(texttt(""), "\\texttt{}");
}

#[test]
fn two_args_of_texts() {
    assert_eq!(two_args("includegraphics", "scale=2", "a.png"), "\\includegraphics[scale=2]{a.png}");
    assert_eq!(two_args("", "", ""), "\\[]{}");
}

#[test]
fn convert_string_copies_the_text() {
    assert_eq!("abc".convert_string(), "abc");
    assert_eq!(String::from("hé €").convert_string(), "hé €");
    assert_eq!("".convert_string(), "");
}

#[test]
fn string_writes_itself() {
    assert_eq!(written(&String::from("plain")), "<plain>");
}

#[test]
fn math_content_between_dollars() {
    let m = MathContent::new("a^2".to_string());
    assert_eq!(written(&m), "<$a^2$>");
    assert_eq!(m.clone(), m);
}

#[test]
fn code_listing_line() {
    let c = Code::new("main.rs".to_string(), "Rust".to_string());
    assert_eq!(written(&c), "<\\lstinputlisting[language=Rust]{main.rs}\n>");
    assert_eq!(c.clone(), c);
    let mut f = new_latex_file("a.tex");
    c.write_latex(&mut f);
    assert_eq!(
        f.content().as_str(),
        "\\documentclass[a4paper,11pt]{article}\n\\lstinputlisting[language=Rust]{main.rs}\n"
    );
}

#[test]
fn expression_as_text() {
    assert_eq!(Expression::Str("x + 1".to_string()).to_string(), "x + 1");
    assert_eq!(Expression::Int(42).to_string(), "42");
    assert_eq!(Expression::Int(-7).to_string(), "-7");
    assert_eq!(Expression::Int(i32::MIN).to_string(), "-2147483648");
}

#[test]
fn tag_with_any_name() {
    let t = SingleTag::new("caption".to_string(), Core::text("A figure"));
    assert_eq!(written(&t), "<\\caption A figure\n>");
    let i = SingleTag::item(Core::math("x"));
    assert_eq!(written(&i), "<\\item $x$\n>");
    assert_eq!(i.clone(), i);
}

#[test]
fn one_row_from_a_flat_vector() {
    let flat = vec![Core::text("a"), Core::text("b")];
    let grid = flat.into_tab();
    assert_eq!(grid, vec![vec![Core::text("a"), Core::text("b")]]);
    let none: Vec<Core> = Vec::new();
    assert_eq!(none.into_tab(), vec![Vec::<Core>::new()]);
}

#[test]
fn rows_from_a_vector_of_rows() {
    let rows = vec![vec![Core::text("a")], vec![], vec![Core::text("b"), Core::math("c")]];
    assert_eq!(rows.into_tab(), rows);
}

#[test]
fn column_specification_counts_the_first_row_only() {
    let ragged = vec![
        vec![Core::text("a"), Core::text("b")],
        vec![Core::text("c")],
        vec![Core::text("d"), Core::text("e"), Core::text("f")],
    ];
    let t = Tabular::new(&ragged).unwrap();
    assert_eq!(t.align(), "| c | c |");
    assert_eq!(t.align().len(), 1 + 4 * ragged[0].len());
    assert_eq!(
        written(&t),
        "<\\begin{tabular}{| c | c |}\n\\hline\na & b  \\\\\n\\hline\nc  \\\\\n\\hline\nd & e & f  \\\\\n\\hline\n\\end{tabular}\n>"
    );
    let same_first = vec![vec![Core::text("a"), Core::text("b")]];
    assert_eq!(Tabular::new(&same_first).unwrap().align(), t.align());
}

#[test]
fn column_specification_of_several_widths() {
    let none: Vec<Core> = Vec::new();
    assert_eq!(Tabular::new(&none).unwrap().align(), "|");
    let mut row = Vec::new();
    let mut expected = String::from("|");
    for n in 0..7 {
        row.push(Core::text(n.to_string()));
        expected.push_str(" c |");
        assert_eq!(Tabular::new(&row).unwrap().align(), expected);
    }
}

#[test]
fn table_without_rows_is_rejected() {
    let none: Vec<Vec<Core>> = Vec::new();
    assert_eq!(Tabular::new(&none), Err(LatexError::InvalidConstructionArgument));
}

#[test]
fn row_without_cells_has_only_its_frame() {
    let rows = vec![vec![], vec![Core::text("x")]];
    let t = Tabular::new(&rows).unwrap();
    assert_eq!(
        written(&t),
        "<\\begin{tabular}{|}\n\\hline\n  \\\\\n\\hline\nx  \\\\\n\\hline\n\\end{tabular}\n>"
    );
}

#[test]
fn table_clone_is_equal() {
    let rows = vec![vec![Core::text("x")], vec![Core::math("y"), Core::text("z")]];
    let t = Tabular::new(&rows).unwrap();
    assert_eq!(t.clone(), t);
    assert_eq!(written(&t.clone()), written(&t));
}
