use rustex::latex_file::new_latex_file;

const CLASS: &str = "\\documentclass[a4paper,11pt]{article}\n";

#[test]
fn new_file_holds_its_name_and_the_document_class() {
    let f = new_latex_file("out/letter.tex");
    assert_eq!(f.filename(), "out/letter.tex");
    assert_eq!(f.content(), CLASS);
    let g = new_latex_file(String::from("x.tex"));
    assert_eq!(g.filename(), "x.tex");
}

#[test]
fn bare_document_has_a_date_and_no_title_block() {
    let mut f = new_latex_file("a.tex");
    f.begin_document();
    assert_eq!(f.content().as_str(), format!("{}\\date{{}}\n\\begin{{document}}\n", CLASS));
}

#[test]
fn title_alone_asks_for_the_title_block() {
    let mut f = new_latex_file("a.tex");
    f.title("T");
    f.begin_document();
    assert_eq!(
        f.content().as_str(),
        format!("{}\\title{{T}}\n\\date{{}}\n\\begin{{document}}\n\\maketitle\n", CLASS)
    );
}

#[test]
fn author_alone_asks_for_the_title_block() {
    let mut f = new_latex_file("a.tex");
    f.author("A");
    f.begin_document();
    assert_eq!(
        f.content().as_str(),
        format!("{}\\author{{A}}\n\\date{{}}\n\\begin{{document}}\n\\maketitle\n", CLASS)
    );
}

#[test]
fn removed_title_and_author_are_not_written() {
    let mut f = new_latex_file("a.tex");
    f.title("T");
    f.author("A");
    f.remove_title();
    f.begin_document();
    assert_eq!(
        f.content().as_str(),
        format!("{}\\author{{A}}\n\\date{{}}\n\\begin{{document}}\n\\maketitle\n", CLASS)
    );
    let mut g = new_latex_file("a.tex");
    g.title("T");
    g.author("A");
    g.remove_author();
    g.remove_title();
    g.begin_document();
    assert_eq!(g.content().as_str(), format!("{}\\date{{}}\n\\begin{{document}}\n", CLASS));
}

#[test]
fn later_title_replaces_earlier() {
    let mut f = new_latex_file("a.tex");
    f.title("one");
    f.title("two");
    f.begin_document();
    assert_eq!(
        f.content().as_str(),
        format!("{}\\title{{two}}\n\\date{{}}\n\\begin{{document}}\n\\maketitle\n", CLASS)
    );
}

#[test]
fn packages_come_first_in_the_order_given() {
    let mut f = new_latex_file("a.tex");
    f.add_package("graphicx");
    f.add_package_list(vec!["amsmath", "listings"]);
    f.add_package(String::from("hyperref"));
    f.title("T");
    f.author("A");
    f.begin_document();
    assert_eq!(
        f.content().as_str(),
        format!(
            "{}\\usepackage{{graphicx}}\n\\usepackage{{amsmath}}\n\\usepackage{{listings}}\n\\usepackage{{hyperref}}\n\\title{{T}}\n\\author{{A}}\n\\date{{}}\n\\begin{{document}}\n\\maketitle\n",
            CLASS
        )
    );
}

#[test]
fn empty_package_list_adds_nothing() {
    let mut f = new_latex_file("a.tex");
    let none: Vec<&str> = Vec::new();
    f.add_package_list(none);
    f.begin_document();
    assert_eq!(f.content().as_str(), format!("{}\\date{{}}\n\\begin{{document}}\n", CLASS));
}

#[test]
fn single_lines_are_written_at_the_end() {
    let mut f = new_latex_file("a.tex");
    f.write_package("babel");
    f.write_in_file("raw");
    f.write_footer();
    f.write_header_article();
    assert_eq!(
        f.content().as_str(),
        format!("{}\\usepackage{{babel}}\nraw\\end{{document}}\n{}", CLASS, CLASS)
    );
}

#[test]
fn settings_do_not_write_anything() {
    let mut f = new_latex_file("a.tex");
    f.title("T");
    f.author("A");
    f.add_package("p");
    f.remove_title();
    assert_eq!(f.content(), CLASS);
    assert_eq!(f.filename(), "a.tex");
}
