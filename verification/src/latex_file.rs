//! The document as a whole: what is known about it and the text written
//! so far.

use vstd::prelude::*;
use vstd::string::StringExecFns;
use crate::str_or_string::StrOrString;

verus! {

/// What a [`LatexFile`] stands for: where the document is to be stored, what
/// is known about it, and the text written so far.
pub struct LatexFileView {
    pub filename: Seq<char>,
    pub title: Option<Seq<char>>,
    pub author: Option<Seq<char>>,
    pub packages: Seq<Seq<char>>,
    pub content: Seq<char>,
}

/// The first line of an article.
pub open spec fn header_article() -> Seq<char> {
    "\\documentclass[a4paper,11pt]{article}\n"@
}

/// The line that ends a document.
pub open spec fn footer() -> Seq<char> {
    "\\end{document}\n"@
}

/// The line that loads one package.
pub open spec fn package_line(package: Seq<char>) -> Seq<char> {
    "\\usepackage{"@ + package + "}\n"@
}

/// The lines that load the given packages, in their order.
pub open spec fn package_lines(packages: Seq<Seq<char>>) -> Seq<char>
    decreases packages.len(),
{
    if packages.len() == 0 {
        Seq::empty()
    } else {
        package_lines(packages.drop_last()) + package_line(packages.last())
    }
}

/// The line that states the title, if there is one.
pub open spec fn title_line(title: Option<Seq<char>>) -> Seq<char> {
    match title {
        Some(t) => "\\title{"@ + t + "}\n"@,
        None => Seq::empty(),
    }
}

/// The line that states the author, if there is one.
pub open spec fn author_line(author: Option<Seq<char>>) -> Seq<char> {
    match author {
        Some(a) => "\\author{"@ + a + "}\n"@,
        None => Seq::empty(),
    }
}

impl LatexFileView {
    /// The document with `text` written at its end.
    pub open spec fn emit(self, text: Seq<char>) -> LatexFileView {
        LatexFileView {
            filename: self.filename,
            title: self.title,
            author: self.author,
            packages: self.packages,
            content: self.content + text,
        }
    }

    /// What stands between the document class and the body: the packages,
    /// the title and the author where they are set, an empty date, the start
    /// of the body, and the title block if a title or an author is set.
    pub open spec fn preamble(self) -> Seq<char> {
        package_lines(self.packages) + title_line(self.title) + author_line(self.author)
            + "\\date{}\n"@ + "\\begin{document}\n"@ + if self.title is Some || self.author is Some {
            "\\maketitle\n"@
        } else {
            Seq::empty()
        }
    }
}

/// The characters of each string of a sequence.
pub open spec fn texts_of(packages: Seq<String>) -> Seq<Seq<char>> {
    packages.map_values(|p: String| p@)
}

/// A LaTeX document under construction, held in memory: the name of the file
/// it is meant for, its title, author and packages, and the text written so
/// far.
#[derive(Debug, PartialEq)]
pub struct LatexFile {
    /// The name of the file the document is meant for
    filename: String,
    /// The title of the document
    title: Option<String>,
    /// The name of the authors
    author: Option<String>,
    /// The names of the packages
    packages: Vec<String>,
    /// Everything written so far
    content: String,
}

impl View for LatexFile {
    type V = LatexFileView;

    closed spec fn view(&self) -> LatexFileView {
        LatexFileView {
            filename: self.filename@,
            title: match self.title {
                Some(t) => Some(t@),
                None => None,
            },
            author: match self.author {
                Some(a) => Some(a@),
                None => None,
            },
            packages: texts_of(self.packages@),
            content: self.content@,
        }
    }
}

impl LatexFile {
    /// Returns the name of the file the document is meant for.
    pub fn filename(&self) -> (r: &String)
        ensures
            r@ == self@.filename,
    {
        &self.filename
    }

    /// Returns everything written so far.
    pub fn content(&self) -> (r: &String)
        ensures
            r@ == self@.content,
    {
        &self.content
    }

    /// Writes raw text in the file
    pub fn write_in_file(&mut self, line: &str)
        ensures
            final(self)@ == old(self)@.emit(line@),
    {
        self.content.append(line);
    }

    /// Writes the document class if it is an article
    pub fn write_header_article(&mut self)
        ensures
            final(self)@ == old(self)@.emit(header_article()),
    {
        self.write_in_file("\\documentclass[a4paper,11pt]{article}\n");
    }

    /// Writes the footer of the class
    pub fn write_footer(&mut self)
        ensures
            final(self)@ == old(self)@.emit(footer()),
    {
        self.write_in_file("\\end{document}\n");
    }

    /// Writes a package in the file
    pub fn write_package<T: StrOrString>(&mut self, package: T)
        ensures
            final(self)@ == old(self)@.emit(package_line(package.text())),
    {
        let mut line = String::from_str("\\usepackage{");
        line.append(package.convert_string().as_str());
        line.append("}\n");
        self.write_in_file(line.as_str());
    }

    /// Change the title of the document
    pub fn title<T: StrOrString>(&mut self, new_title: T)
        ensures
            final(self)@ == (LatexFileView { title: Some(new_title.text()), ..old(self)@ }),
    {
        self.title = Some(new_title.convert_string());
    }

    /// Change the author of the document
    pub fn author<T: StrOrString>(&mut self, new_author: T)
        ensures
            final(self)@ == (LatexFileView { author: Some(new_author.text()), ..old(self)@ }),
    {
        self.author = Some(new_author.convert_string());
    }

    /// Removes the title of the document
    pub fn remove_title(&mut self)
        ensures
            final(self)@ == (LatexFileView { title: None, ..old(self)@ }),
    {
        self.title = None;
    }

    /// Removes the author of the document
    pub fn remove_author(&mut self)
        ensures
            final(self)@ == (LatexFileView { author: None, ..old(self)@ }),
    {
        self.author = None;
    }

    /// Adds a package
    pub fn add_package<T: StrOrString>(&mut self, package: T)
        ensures
            final(self)@ == (LatexFileView {
                packages: old(self)@.packages.push(package.text()),
                ..old(self)@
            }),
    {
        self.packages.push(package.convert_string());
        proof {
            assert(texts_of(self.packages@) =~= texts_of(old(self).packages@).push(package.text()));
        }
    }

    /// Adds a list of packages
    pub fn add_package_list<T: StrOrString>(&mut self, packages: Vec<T>)
        ensures
            final(self)@ == (LatexFileView {
                packages: old(self)@.packages + packages@.map_values(|p: T| p.text()),
                ..old(self)@
            }),
    {
        let ghost added = packages@.map_values(|p: T| p.text());
        let mut i: usize = 0;
        while i < packages.len()
            invariant
                i <= packages.len(),
                added == packages@.map_values(|p: T| p.text()),
                self@ == (LatexFileView {
                    packages: old(self)@.packages + added.take(i as int),
                    ..old(self)@
                }),
            decreases packages.len() - i,
        {
            let ghost held = self.packages@;
            self.packages.push(packages[i].convert_string());
            proof {
                assert(texts_of(self.packages@) =~= texts_of(held).push(packages[i as int].text()));
                assert(old(self)@.packages + added.take(i + 1) =~= (old(self)@.packages
                    + added.take(i as int)).push(packages[i as int].text()));
            }
            i = i + 1;
        }
        proof {
            assert(added.take(i as int) =~= added);
        }
    }

    /// Writes the title, authors, packages, ... and begin the document
    pub fn begin_document(&mut self)
        ensures
            final(self)@ == old(self)@.emit(old(self)@.preamble()),
    {
        let ghost before = self@;
        let mut buf = String::new();
        let mut i: usize = 0;
        while i < self.packages.len()
            invariant
                i <= self.packages.len(),
                self@ == before,
                buf@ == package_lines(before.packages.take(i as int)),
            decreases self.packages.len() - i,
        {
            buf.append("\\usepackage{");
            buf.append(self.packages[i].as_str());
            buf.append("}\n");
            proof {
                assert(before.packages.take(i + 1).drop_last() =~= before.packages.take(i as int));
            }
            i = i + 1;
        }
        proof {
            assert(before.packages.take(i as int) =~= before.packages);
        }
        match &self.title {
            None => {},
            Some(t) => {
                buf.append("\\title{");
                buf.append(t.as_str());
                buf.append("}\n");
            },
        }
        match &self.author {
            None => {},
            Some(auth) => {
                buf.append("\\author{");
                buf.append(auth.as_str());
                buf.append("}\n");
            },
        }
        buf.append("\\date{}\n");
        buf.append("\\begin{document}\n");
        if self.title.is_some() || self.author.is_some() {
            buf.append("\\maketitle\n");
        }
        proof {
            assert(buf@ =~= before.preamble());
        }
        self.write_in_file(buf.as_str());
    }
}

/// Returns a new document meant for the file `filename`, with the document
/// class written and nothing else set.
pub fn new_latex_file<T: StrOrString>(filename: T) -> (r: LatexFile)
    ensures
        r@ == (LatexFileView {
            filename: filename.text(),
            title: None,
            author: None,
            packages: Seq::empty(),
            content: header_article(),
        }),
{
    let mut ltx_file = LatexFile {
        filename: filename.convert_string(),
        title: None,
        author: None,
        packages: Vec::new(),
        content: String::new(),
    };
    proof {
        assert(texts_of(ltx_file.packages@) =~= Seq::<Seq<char>>::empty());
    }
    ltx_file.write_header_article();
    ltx_file
}

} // verus!
