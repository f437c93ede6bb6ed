use rustex::bloc::Bloc;
use rustex::content::Core;
use rustex::latex_file::new_latex_file;
use rustex::writable::Writable;

const PROLOGUE: &str = "\\documentclass[a4paper,11pt]{article}\n\\date{}\n\\begin{document}\n";
const EPILOGUE: &str = "\\end{document}\n";

#[test]
fn creation_bloc_new_empty() {
    let _ = Bloc::new_empty("center");
}

#[test]
fn creation_bloc_new() {
    let _ = Bloc::new("center", vec![Core::bloc("verbatim")]);
}

#[test]
fn test_add() {
    let mut b = Bloc::new_empty("center");
    assert_eq!(b.content().len(), 0);
    b.add(Core::bloc("verbatim"));
    assert_eq!(b.content().len(), 1);
}

#[test]
fn test_add_core() {
    let mut b = Core::bloc("center");
    assert_eq!(b.add(Core::bloc("verbatim")), Ok(()));
}

#[test]
fn test_write_simple_bloc_empty() {
    let mut f = new_latex_file("./tests_results/bloc/bloc_simple_test_empty.tex");
    f.begin_document();
    let b = Bloc::new_empty("center");
    b.write_latex(&mut f);
    f.write_footer();
    assert_eq!(
        f.content().as_str(),
        format!("{}\\begin{{center}}\n\\end{{center}}\n{}", PROLOGUE, EPILOGUE)
    );
}

#[test]
fn test_write_simple_bloc_non_empty() {
    let mut f = new_latex_file("./tests_results/bloc/bloc_simple_test_non_empty.tex");
    f.begin_document();
    let mut b = Bloc::new_empty("center");
    b.add(Core::text("This is supposed to be centered"));
    b.write_latex(&mut f);
    f.write_footer();
    assert_eq!(
        f.content().as_str(),
        format!(
            "{}\\begin{{center}}\nThis is supposed to be centered\\end{{center}}\n{}",
            PROLOGUE, EPILOGUE
        )
    );
}

#[test]
fn test_write_nested_bloc_non_empty() {
    let mut f = new_latex_file("./tests_results/bloc/bloc_nested_test_non_empty.tex");
    f.begin_document();
    let mut b = Bloc::new_empty("center");
    let mut b2 = Bloc::new_empty("verbatim");
    b2.add(Core::text("To be or not to be"));
    b.add(Core::Bloc(b2));
    b.write_latex(&mut f);
    f.write_footer();
    assert_eq!(
        f.content().as_str(),
        format!(
            "{}\\begin{{center}}\n\\begin{{verbatim}}\nTo be or not to be\\end{{verbatim}}\n\\end{{center}}\n{}",
            PROLOGUE, EPILOGUE
        )
    );
}

#[test]
fn bloc_new_keeps_given_content_in_order() {
    let b = Bloc::new("itemize", vec![Core::item(Core::text("a")), Core::item(Core::text("b"))]);
    assert_eq!(b.content().len(), 2);
    let mut out = String::new();
    b.write_to_buffer(&mut out);
    assert_eq!(out, "\\begin{itemize}\n\\item a\n\\item b\n\\end{itemize}\n");
}

#[test]
fn bloc_kind_is_echoed_verbatim() {
    let b = Bloc::new_empty(String::from("no such environment"));
    let mut out = String::new();
    b.write_to_buffer(&mut out);
    assert_eq!(out, "\\begin{no such environment}\n\\end{no such environment}\n");
}

#[test]
fn bloc_clone_renders_alike() {
    let mut b = Bloc::new_empty("center");
    b.add(Core::math("x"));
    let c = b.clone();
    assert_eq!(b, c);
    let mut out = String::new();
    c.write_to_buffer(&mut out);
    assert_eq!(out, "\\begin{center}\n$x$\\end{center}\n");
}
