use pandoc::options::Tld;
use pandoc::{
    DocumentClass, EmailObfuscation, InputFormat, InputKind, MarkdownExtension, OutputFormat,
    OutputKind, Pandoc, PandocError, PandocOption, PandocOutput, TrackChanges,
};

fn strings(v: &[&str]) -> Vec<String> {
    v.iter().map(|s| s.to_string()).collect()
}

const TEX_DIRS: &str = "/usr/local/bin:/usr/local/texlive/2015/bin/i386-linux";

#[test]
fn format_names() {
    assert_eq!(OutputFormat::OpenDocument.to_string(), "open_document");
    assert_eq!(OutputFormat::Html5.to_string(), "html5");
    assert_eq!(OutputFormat::MarkdownGithub.to_string(), "markdown_github");
    assert_eq!(InputFormat::T2t.to_string(), "t2t");
    assert_eq!(InputFormat::DocBook.to_string(), "docbook");
    assert_eq!(MarkdownExtension::MmdTitleBlock.to_string(), "Mmd_title_block");
    assert_eq!(MarkdownExtension::ListsWithoutPrecedingBlankline.to_string(), "lists_without_preceding_blankline");
    assert_eq!(DocumentClass::Article.to_string(), "article");
    assert_eq!(pandoc::Book.to_string(), "book");
    assert_eq!(TrackChanges::All.to_string(), "all");
    assert_eq!(EmailObfuscation::NoObfuscation.to_string(), "none");
    assert_eq!(EmailObfuscation::Javascript.to_string(), "javascript");
}

#[test]
fn option_arguments() {
    assert_eq!(PandocOption::NumberOffset(vec![1, 22, 333]).args(), strings(&["--number-offset=1, 22, 333"]));
    assert_eq!(PandocOption::NumberOffset(vec![7]).args(), strings(&["--number-offset=7"]));
    assert_eq!(PandocOption::NumberOffset(vec![]).args(), strings(&["--number-offset="]));
    assert_eq!(PandocOption::TabStop(4).args(), strings(&["--tab-stop=4"]));
    assert_eq!(PandocOption::Columns(0).args(), strings(&["--columns=0"]));
    assert_eq!(PandocOption::SlideLevel(4294967295).args(), strings(&["--slide-level=4294967295"]));
    assert_eq!(PandocOption::EpubChapterLevel(10).args(), strings(&["--epub-chapter-level=10"]));
    assert_eq!(
        PandocOption::Meta("title".to_string(), Some("A Book".to_string())).args(),
        strings(&["-M", "title:A Book"])
    );
    assert_eq!(PandocOption::Meta("draft".to_string(), None).args(), strings(&["-M", "draft"]));
    assert_eq!(PandocOption::Var("x".to_string(), None).args(), strings(&["-V", "x"]));
    assert_eq!(
        PandocOption::ReferenceDocx("ref.docx".to_string()).args(),
        strings(&["--reference-docx=ref.docx"])
    );
    assert_eq!(PandocOption::TopLevelDivision(Tld::Part).args(), strings(&["--top-level-division=part"]));
    assert_eq!(
        PandocOption::TrackChanges(TrackChanges::Reject).args(),
        strings(&["--track-changes=reject"])
    );
    assert_eq!(
        PandocOption::EmailObfuscation(EmailObfuscation::NoObfuscation).args(),
        strings(&["--email-obfuscation=none"])
    );
    assert_eq!(PandocOption::MathJax(None).args(), strings(&["--mathjax"]));
    assert_eq!(
        PandocOption::MathJax(Some("https://cdn/mj.js".to_string())).args(),
        strings(&["--mathjax=https://cdn/mj.js"])
    );
    assert_eq!(PandocOption::Standalone.args(), strings(&["--standalone"]));
    assert_eq!(PandocOption::GladTex.args(), strings(&["--gladtex"]));
    assert_eq!(PandocOption::DataDir("/data".to_string()).args(), strings(&["--data-dir=/data"]));
}

#[test]
fn duplicate_keeps_the_arguments() {
    let opts = vec![
        PandocOption::NumberOffset(vec![3, 4]),
        PandocOption::Meta("k".to_string(), Some("v".to_string())),
        PandocOption::Katex(Some("u".to_string())),
        PandocOption::TopLevelDivision(Tld::Section),
    ];
    for o in &opts {
        assert_eq!(o.duplicate().args(), o.args());
    }
}

#[test]
fn full_command_line() {
    let mut p: Pandoc = pandoc::new();
    p.set_input_format(InputFormat::Markdown, vec![MarkdownExtension::Footnotes, MarkdownExtension::Citations])
        .add_input("a.md")
        .add_input("b.md")
        .set_output(OutputKind::File("out.html".to_string()))
        .set_output_format(OutputFormat::Html5, vec![])
        .set_toc()
        .set_variable("k", "v");
    let inv = p.invocation("/usr/bin:/bin").unwrap();
    assert_eq!(
        inv.args,
        strings(&[
            "-f",
            "markdown+footnotes+citations",
            "a.md",
            "b.md",
            "-o",
            "out.html",
            "-t",
            "html5",
            "--table-of-contents",
            "-V",
            "k:v"
        ])
    );
    assert_eq!(inv.path, format!("/usr/bin:/bin:{}", TEX_DIRS));
    assert!(inv.stdin.is_none());
    assert!(!inv.capture_stdout);
    assert!(!inv.show_cmdline);
}

#[test]
fn missing_output_is_reported_first() {
    let p: Pandoc = Pandoc::new();
    assert!(matches!(p.invocation("/bin"), Err(PandocError::NoOutputSpecified)));
    let mut p: Pandoc = Pandoc::new();
    p.add_input("in.md");
    assert!(matches!(p.invocation("/bin"), Err(PandocError::NoOutputSpecified)));
}

#[test]
fn missing_input_is_reported() {
    let mut p: Pandoc = Pandoc::new();
    p.set_output(OutputKind::Pipe);
    assert!(matches!(p.invocation("/bin"), Err(PandocError::NoInputSpecified)));
}

#[test]
fn standard_input_and_output() {
    let mut p: Pandoc = pandoc::new();
    p.set_input(InputKind::Pipe("**very** _important".to_string()))
        .set_output(OutputKind::Pipe)
        .set_output_format(OutputFormat::Latex, vec![MarkdownExtension::RawTex]);
    let inv = p.invocation("/bin").unwrap();
    assert_eq!(inv.args, strings(&["-t", "latex+raw_tex"]));
    assert_eq!(inv.stdin.as_deref(), Some("**very** _important"));
    assert!(inv.capture_stdout);
}

#[test]
fn set_input_overrides_files() {
    let mut p: Pandoc = pandoc::new();
    p.add_input("a.md").add_input("b.md");
    p.set_input(InputKind::Files(vec!["c.md".to_string()]));
    p.add_input("d.md").set_output(OutputKind::Pipe);
    assert_eq!(p.invocation("/bin").unwrap().args, strings(&["c.md", "d.md"]));
}

#[test]
fn hints_are_searched_first() {
    let mut p: Pandoc = pandoc::new();
    p.add_pandoc_path_hint("/opt/pandoc")
        .add_latex_path_hint("/opt/tex")
        .add_latex_path_hint("/opt/tex2");
    assert_eq!(p.search_path("/usr/bin"), format!("/opt/tex:/opt/tex2:/opt/pandoc:/usr/bin:{}", TEX_DIRS));
    let q: Pandoc = pandoc::new();
    assert_eq!(q.search_path("/usr/bin"), format!("/usr/bin:{}", TEX_DIRS));
    assert_eq!(q.search_path(""), format!(":{}", TEX_DIRS));
}

#[test]
fn show_cmdline_flag() {
    let mut p: Pandoc = pandoc::new();
    p.add_input("a.md").set_output(OutputKind::Pipe).set_show_cmdline(true);
    assert!(p.invocation("/bin").unwrap().show_cmdline);
    p.set_show_cmdline(false);
    assert!(!p.invocation("/bin").unwrap().show_cmdline);
}

#[test]
fn convenience_setters() {
    let mut p: Pandoc = pandoc::new();
    p.add_input("a.md")
        .set_output(OutputKind::Pipe)
        .set_doc_class(DocumentClass::Book)
        .set_bibliography("refs.bib")
        .set_csl("style.csl")
        .set_chapters()
        .set_number_sections()
        .set_latex_template("t.tex")
        .set_slide_level(2);
    assert_eq!(
        p.invocation("/bin").unwrap().args,
        strings(&[
            "a.md",
            "-V",
            "documentclass:book",
            "--bibliography=refs.bib",
            "--csl=style.csl",
            "--top-level-division=chapter",
            "--number-sections",
            "--template=t.tex",
            "--slide-level=2"
        ])
    );
}

#[test]
fn options_keep_their_order() {
    let mut p: Pandoc = pandoc::new();
    p.add_input("a.md").set_output(OutputKind::Pipe);
    p.add_option(PandocOption::Standalone);
    p.add_options(&[PandocOption::Columns(80), PandocOption::Var("a".to_string(), Some("b".to_string()))]);
    p.add_option(PandocOption::Smart);
    assert_eq!(
        p.invocation("/bin").unwrap().args,
        strings(&["a.md", "--standalone", "--columns=80", "-V", "a:b", "--smart"])
    );
}

#[test]
fn formats_are_overwritten() {
    let mut p: Pandoc = pandoc::new();
    p.add_input("a.md").set_output(OutputKind::File("x.pdf".to_string()));
    p.set_output_format(OutputFormat::Html, vec![]);
    p.set_output_format(OutputFormat::Latex, vec![]);
    p.set_input_format(InputFormat::Rst, vec![]);
    p.set_input_format(InputFormat::Org, vec![]);
    p.set_output(OutputKind::File("y.pdf".to_string()));
    assert_eq!(
        p.invocation("/bin").unwrap().args,
        strings(&["-f", "org", "a.md", "-o", "y.pdf", "-t", "latex"])
    );
}

#[test]
fn default_template_request() {
    let mut p: Pandoc = pandoc::new();
    p.set_output_format(OutputFormat::Latex, vec![MarkdownExtension::Footnotes, MarkdownExtension::RawTex]);
    p.set_input_format(InputFormat::Markdown, vec![]);
    p.request_default_template();
    p.set_output(OutputKind::Pipe).add_input("a.md");
    assert_eq!(
        p.invocation("/bin").unwrap().args,
        strings(&[
            "-f",
            "markdown",
            "--print-default-template=latex+footnotes+raw_tex",
            "a.md",
            "-t",
            "latex+footnotes+raw_tex"
        ])
    );
}

#[test]
fn default_builder_is_empty() {
    let p: Pandoc = Default::default();
    assert!(matches!(p.invocation("/bin"), Err(PandocError::NoOutputSpecified)));
    assert!(p.output_kind().is_none());
    let mut q: Pandoc = Pandoc::new();
    q.add_input("a.md").set_output(OutputKind::Pipe);
    let inv = q.invocation("/bin").unwrap();
    assert_eq!(inv.args, strings(&["a.md"]));
    assert!(!inv.show_cmdline);
}

#[test]
fn doc_class_is_overwritten() {
    let mut p: Pandoc = pandoc::new();
    p.add_input("a.md").set_output(OutputKind::Pipe);
    p.set_doc_class(DocumentClass::Article);
    p.add_option(PandocOption::Var("documentclass".to_string(), None));
    p.set_variable("fontsize", "12pt");
    p.set_doc_class(DocumentClass::Report);
    assert_eq!(
        p.invocation("/bin").unwrap().args,
        strings(&["a.md", "-V", "fontsize:12pt", "-V", "documentclass:report"])
    );
}

#[test]
fn lua_writer_names_its_path() {
    assert_eq!(OutputFormat::Lua("writers/custom.lua".to_string()).to_string(), "writers/custom.lua");
    let mut p: Pandoc = pandoc::new();
    p.add_input("a.md")
        .set_output(OutputKind::File("out.txt".to_string()))
        .set_output_format(OutputFormat::Lua("custom.lua".to_string()), vec![MarkdownExtension::Footnotes]);
    let inv = p.invocation("/bin").unwrap();
    assert_eq!(inv.args, strings(&["a.md", "-o", "out.txt", "-t", "custom.lua+footnotes"]));
    p.request_default_template();
    assert_eq!(
        p.invocation("/bin").unwrap().args,
        strings(&["--print-default-template=custom.lua+footnotes", "a.md", "-o", "out.txt", "-t", "custom.lua+footnotes"])
    );
}
