//! The options of the pandoc command line, and the arguments each one stands for.

use vstd::prelude::*;
use vstd::string::*;

use crate::formats::{EmailObfuscation, TrackChanges};
use crate::text::{decimal, number_list, number_list_string, push_decimal, views};

verus! {

broadcast use vstd::seq_lib::group_seq_properties;

/// A web address, as pandoc takes it on its command line.
pub type URL = String;

/// How `--top-level-division` treats the top-level headers.
#[derive(Clone, Debug)]
pub enum Tld {
    Chapter,
    Section,
    Part,
}

/// An option of the pandoc command line. A file or a directory is given by its
/// path, written as text.
#[derive(Clone, Debug)]
pub enum PandocOption {
    /// --data-dir=DIRECTORY
    DataDir(String),
    /// --strict
    Strict,
    /// -R --parse-raw
    ParseRaw,
    /// -S --smart
    Smart,
    /// --old-dashes
    OldDashes,
    /// --base-header-level=NUMBER
    BaseHeaderLevel(u32),
    /// --indented-code-classes=STRING
    IndentedCodeClasses(String),
    /// -F PROGRAM --filter=PROGRAM
    Filter(String),
    /// --normalize
    Normalize,
    /// -p --preserve-tabs
    PreserveTabs,
    /// --tab-stop=NUMBER
    TabStop(u32),
    /// --track-changes=accept|reject|all
    TrackChanges(TrackChanges),
    /// --extract-media=PATH
    ExtractMedia(String),
    /// -s --standalone
    Standalone,
    /// --template=FILENAME
    Template(String),
    /// -M KEY[:VALUE] --metadata=KEY[:VALUE]
    Meta(String, Option<String>),
    /// -V KEY[:VALUE] --variable=KEY[:VALUE]
    Var(String, Option<String>),
    /// -D FORMAT --print-default-template=FORMAT
    PrintDefaultTemplate(String),
    /// --print-default-data-file=FILE
    PrintDefaultDataFile(String),
    /// --no-wrap
    NoWrap,
    /// --columns=NUMBER
    Columns(u32),
    /// --toc, --table-of-contents
    TableOfContents,
    /// --toc-depth=NUMBER
    TableOfContentsDepth(u32),
    /// --no-highlight
    NoHighlight,
    /// --highlight-style=STYLE
    HighlightStyle(String),
    /// -H FILENAME --include-in-header=FILENAME
    IncludeInHeader(String),
    /// -B FILENAME --include-before-body=FILENAME
    IncludeBeforeBody(String),
    /// -A FILENAME --include-after-body=FILENAME
    IncludeAfterBody(String),
    /// --self-contained
    SelfContained,
    /// --offline
    Offline,
    /// -5 --html5
    Html5,
    /// --html-q-tags
    HtmlQTags,
    /// --ascii
    Ascii,
    /// --reference-links
    ReferenceLinks,
    /// --atx-headers
    AtxHeaders,
    /// --top-level-division=
    TopLevelDivision(Tld),
    /// -N --number-sections
    NumberSections,
    /// --number-offset=NUMBERS
    NumberOffset(Vec<u32>),
    /// --no-tex-ligatures
    NoTexLigatures,
    /// --listings
    Listings,
    /// -i --incremental
    Incremental,
    /// --slide-level=NUMBER
    SlideLevel(u32),
    /// --section-divs
    SectionDivs,
    /// --default-image-extension=extension
    DefaultImageExtension(String),
    /// --email-obfuscation=none|javascript|references
    EmailObfuscation(EmailObfuscation),
    /// --id-prefix=STRING
    IdPrefix(String),
    /// -T STRING --title-prefix=STRING
    TitlePrefix(String),
    /// -c URL --css=URL
    Css(URL),
    /// --reference-odt=FILENAME
    ReferenceOdt(String),
    /// --reference-docx=FILENAME
    ReferenceDocx(String),
    /// --epub-stylesheet=FILENAME
    EpubStylesheet(String),
    /// --epub-cover-image=FILENAME
    EpubCoverImage(String),
    /// --epub-metadata=FILENAME
    EpubMetadata(String),
    /// --epub-embed-font=FILE
    EpubEmbedFont(String),
    /// --epub-chapter-level=NUMBER
    EpubChapterLevel(u32),
    /// --pdf-engine=PROGRAM
    PdfEngine(String),
    /// --pdf-engine-opt=STRING
    PdfEngineOpt(String),
    /// --bibliography=FILE
    Bibliography(String),
    /// --csl=FILE
    Csl(String),
    /// --citation-abbreviations=FILE
    CitationAbbreviations(String),
    /// --natbib
    Natbib,
    /// --biblatex
    Biblatex,
    /// -m[URL] --latexmathml[=URL], --asciimathml[=URL]
    LatexMathML(Option<URL>),
    /// --asciimathml[=URL]
    AsciiMathML(Option<URL>),
    /// --mathml[=URL]
    MathML(Option<URL>),
    /// --mimetex[=URL]
    MimeTex(Option<URL>),
    /// --webtex[=URL]
    WebTex(Option<URL>),
    /// --jsmath[=URL]
    JsMath(Option<URL>),
    /// --mathjax[=URL]
    MathJax(Option<URL>),
    /// --katex[=URL]
    Katex(Option<URL>),
    /// --katex-stylesheet=URL
    KatexStylesheet(URL),
    /// --gladtex
    GladTex,
    /// --trace
    Trace,
    /// --dump-args
    DumpArgs,
    /// --ignore-args
    IgnoreArgs,
    /// --verbose
    Verbose,
}

impl PandocOption {
    /// The arguments of the pandoc command line that stand for this option, in order.
    pub open spec fn spec_args(&self) -> Seq<Seq<char>> {
        match self {
            PandocOption::NumberOffset(nums) => seq!["--number-offset="@ + number_list(nums@)],
            PandocOption::DataDir(dir) => seq!["--data-dir="@ + dir@],
            PandocOption::Strict => seq!["--strict"@],
            PandocOption::ParseRaw => seq!["--parse-raw"@],
            PandocOption::Smart => seq!["--smart"@],
            PandocOption::OldDashes => seq!["--old-dashes"@],
            PandocOption::BaseHeaderLevel(n) => seq!["--base-header-level="@ + decimal(*n as nat)],
            PandocOption::IndentedCodeClasses(s) => seq!["--indented-code-classes="@ + s@],
            PandocOption::Filter(program) => seq!["--filter="@ + program@],
            PandocOption::Normalize => seq!["--normalize"@],
            PandocOption::PreserveTabs => seq!["--preserve-tabs"@],
            PandocOption::TabStop(n) => seq!["--tab-stop="@ + decimal(*n as nat)],
            PandocOption::TrackChanges(v) => seq!["--track-changes="@ + v.spec_name()],
            PandocOption::ExtractMedia(p) => seq!["--extract-media="@ + p@],
            PandocOption::Standalone => seq!["--standalone"@],
            PandocOption::Template(p) => seq!["--template="@ + p@],
            PandocOption::Meta(k, Some(v)) => seq!["-M"@, k@ + ":"@ + v@],
            PandocOption::Meta(k, None) => seq!["-M"@, k@],
            PandocOption::Var(k, Some(v)) => seq!["-V"@, k@ + ":"@ + v@],
            PandocOption::Var(k, None) => seq!["-V"@, k@],
            PandocOption::PrintDefaultTemplate(f) => seq!["--print-default-template="@ + f@],
            PandocOption::PrintDefaultDataFile(f) => seq!["--print-default-data-file="@ + f@],
            PandocOption::NoWrap => seq!["--no-wrap"@],
            PandocOption::Columns(n) => seq!["--columns="@ + decimal(*n as nat)],
            PandocOption::TableOfContents => seq!["--table-of-contents"@],
            PandocOption::TableOfContentsDepth(d) => seq!["--toc-depth="@ + decimal(*d as nat)],
            PandocOption::NoHighlight => seq!["--no-highlight"@],
            PandocOption::HighlightStyle(s) => seq!["--highlight-style="@ + s@],
            PandocOption::IncludeInHeader(p) => seq!["--include-in-header="@ + p@],
            PandocOption::IncludeBeforeBody(p) => seq!["--include-before-body="@ + p@],
            PandocOption::IncludeAfterBody(p) => seq!["--include-after-body="@ + p@],
            PandocOption::SelfContained => seq!["--self-contained"@],
            PandocOption::Offline => seq!["--offline"@],
            PandocOption::Html5 => seq!["--html5"@],
            PandocOption::HtmlQTags => seq!["--html-q-tags"@],
            PandocOption::Ascii => seq!["--ascii"@],
            PandocOption::ReferenceLinks => seq!["--reference-links"@],
            PandocOption::AtxHeaders => seq!["--atx-headers"@],
            PandocOption::TopLevelDivision(Tld::Chapter) => seq!["--top-level-division=chapter"@],
            PandocOption::TopLevelDivision(Tld::Section) => seq!["--top-level-division=section"@],
            PandocOption::TopLevelDivision(Tld::Part) => seq!["--top-level-division=part"@],
            PandocOption::NumberSections => seq!["--number-sections"@],
            PandocOption::NoTexLigatures => seq!["--no-tex-ligatures"@],
            PandocOption::Listings => seq!["--listings"@],
            PandocOption::Incremental => seq!["--incremental"@],
            PandocOption::SlideLevel(n) => seq!["--slide-level="@ + decimal(*n as nat)],
            PandocOption::SectionDivs => seq!["--section-divs"@],
            PandocOption::DefaultImageExtension(s) => seq!["--default-image-extension="@ + s@],
            PandocOption::EmailObfuscation(o) => seq!["--email-obfuscation="@ + o.spec_name()],
            PandocOption::IdPrefix(s) => seq!["--id-prefix="@ + s@],
            PandocOption::TitlePrefix(s) => seq!["--title-prefix="@ + s@],
            PandocOption::Css(url) => seq!["--css="@ + url@],
            PandocOption::ReferenceOdt(file) => seq!["--reference-odt="@ + file@],
            PandocOption::ReferenceDocx(file) => seq!["--reference-docx="@ + file@],
            PandocOption::EpubStylesheet(file) => seq!["--epub-stylesheet="@ + file@],
            PandocOption::EpubCoverImage(file) => seq!["--epub-cover-image="@ + file@],
            PandocOption::EpubMetadata(file) => seq!["--epub-metadata="@ + file@],
            PandocOption::EpubEmbedFont(file) => seq!["--epub-embed-font="@ + file@],
            PandocOption::EpubChapterLevel(num) => seq!["--epub-chapter-level="@ + decimal(*num as nat)],
            PandocOption::PdfEngine(program) => seq!["--pdf-engine="@ + program@],
            PandocOption::PdfEngineOpt(s) => seq!["--pdf-engine-opt="@ + s@],
            PandocOption::Bibliography(file) => seq!["--bibliography="@ + file@],
            PandocOption::Csl(file) => seq!["--csl="@ + file@],
            PandocOption::CitationAbbreviations(f) => seq!["--citation-abbreviations="@ + f@],
            PandocOption::Natbib => seq!["--natbib"@],
            PandocOption::Biblatex => seq!["--biblatex"@],
            PandocOption::LatexMathML(Some(url)) => seq!["--latexmathml="@ + url@],
            PandocOption::AsciiMathML(Some(url)) => seq!["--asciimathml="@ + url@],
            PandocOption::MathML(Some(url)) => seq!["--mathml="@ + url@],
            PandocOption::MimeTex(Some(url)) => seq!["--mimetex="@ + url@],
            PandocOption::WebTex(Some(url)) => seq!["--webtex="@ + url@],
            PandocOption::JsMath(Some(url)) => seq!["--jsmath="@ + url@],
            PandocOption::MathJax(Some(url)) => seq!["--mathjax="@ + url@],
            PandocOption::Katex(Some(url)) => seq!["--katex="@ + url@],
            PandocOption::LatexMathML(None) => seq!["--latexmathml"@],
            PandocOption::AsciiMathML(None) => seq!["--asciimathml"@],
            PandocOption::MathML(None) => seq!["--mathml"@],
            PandocOption::MimeTex(None) => seq!["--mimetex"@],
            PandocOption::WebTex(None) => seq!["--webtex"@],
            PandocOption::JsMath(None) => seq!["--jsmath"@],
            PandocOption::MathJax(None) => seq!["--mathjax"@],
            PandocOption::Katex(None) => seq!["--katex"@],
            PandocOption::KatexStylesheet(url) => seq!["--katex-stylesheet="@ + url@],
            PandocOption::GladTex => seq!["--gladtex"@],
            PandocOption::Trace => seq!["--trace"@],
            PandocOption::DumpArgs => seq!["--dump-args"@],
            PandocOption::IgnoreArgs => seq!["--ignore-args"@],
            PandocOption::Verbose => seq!["--verbose"@],
        }
    }

    /// The arguments of the pandoc command line that stand for this option, in order.
    pub fn args(&self) -> (r: Vec<String>)
        ensures
            views(r@) == self.spec_args(),
    {
        match self {
            PandocOption::NumberOffset(nums) => with_text("--number-offset=", number_list_string(nums).as_str()),
            PandocOption::DataDir(dir) => with_text("--data-dir=", dir.as_str()),
            PandocOption::Strict => flag("--strict"),
            PandocOption::ParseRaw => flag("--parse-raw"),
            PandocOption::Smart => flag("--smart"),
            PandocOption::OldDashes => flag("--old-dashes"),
            PandocOption::BaseHeaderLevel(n) => with_number("--base-header-level=", *n),
            PandocOption::IndentedCodeClasses(s) => with_text("--indented-code-classes=", s.as_str()),
            PandocOption::Filter(program) => with_text("--filter=", program.as_str()),
            PandocOption::Normalize => flag("--normalize"),
            PandocOption::PreserveTabs => flag("--preserve-tabs"),
            PandocOption::TabStop(n) => with_number("--tab-stop=", *n),
            PandocOption::TrackChanges(v) => with_text("--track-changes=", v.to_string().as_str()),
            PandocOption::ExtractMedia(p) => with_text("--extract-media=", p.as_str()),
            PandocOption::Standalone => flag("--standalone"),
            PandocOption::Template(p) => with_text("--template=", p.as_str()),
            PandocOption::Meta(k, Some(v)) => flag_and_pair("-M", k.as_str(), v.as_str()),
            PandocOption::Meta(k, None) => flag_and_value("-M", k.as_str()),
            PandocOption::Var(k, Some(v)) => flag_and_pair("-V", k.as_str(), v.as_str()),
            PandocOption::Var(k, None) => flag_and_value("-V", k.as_str()),
            PandocOption::PrintDefaultTemplate(f) => with_text("--print-default-template=", f.as_str()),
            PandocOption::PrintDefaultDataFile(f) => with_text("--print-default-data-file=", f.as_str()),
            PandocOption::NoWrap => flag("--no-wrap"),
            PandocOption::Columns(n) => with_number("--columns=", *n),
            PandocOption::TableOfContents => flag("--table-of-contents"),
            PandocOption::TableOfContentsDepth(d) => with_number("--toc-depth=", *d),
            PandocOption::NoHighlight => flag("--no-highlight"),
            PandocOption::HighlightStyle(s) => with_text("--highlight-style=", s.as_str()),
            PandocOption::IncludeInHeader(p) => with_text("--include-in-header=", p.as_str()),
            PandocOption::IncludeBeforeBody(p) => with_text("--include-before-body=", p.as_str()),
            PandocOption::IncludeAfterBody(p) => with_text("--include-after-body=", p.as_str()),
            PandocOption::SelfContained => flag("--self-contained"),
            PandocOption::Offline => flag("--offline"),
            PandocOption::Html5 => flag("--html5"),
            PandocOption::HtmlQTags => flag("--html-q-tags"),
            PandocOption::Ascii => flag("--ascii"),
            PandocOption::ReferenceLinks => flag("--reference-links"),
            PandocOption::AtxHeaders => flag("--atx-headers"),
            PandocOption::TopLevelDivision(Tld::Chapter) => flag("--top-level-division=chapter"),
            PandocOption::TopLevelDivision(Tld::Section) => flag("--top-level-division=section"),
            PandocOption::TopLevelDivision(Tld::Part) => flag("--top-level-division=part"),
            PandocOption::NumberSections => flag("--number-sections"),
            PandocOption::NoTexLigatures => flag("--no-tex-ligatures"),
            PandocOption::Listings => flag("--listings"),
            PandocOption::Incremental => flag("--incremental"),
            PandocOption::SlideLevel(n) => with_number("--slide-level=", *n),
            PandocOption::SectionDivs => flag("--section-divs"),
            PandocOption::DefaultImageExtension(s) => with_text("--default-image-extension=", s.as_str()),
            PandocOption::EmailObfuscation(o) => with_text("--email-obfuscation=", o.to_string().as_str()),
            PandocOption::IdPrefix(s) => with_text("--id-prefix=", s.as_str()),
            PandocOption::TitlePrefix(s) => with_text("--title-prefix=", s.as_str()),
            PandocOption::Css(url) => with_text("--css=", url.as_str()),
            PandocOption::ReferenceOdt(file) => with_text("--reference-odt=", file.as_str()),
            PandocOption::ReferenceDocx(file) => with_text("--reference-docx=", file.as_str()),
            PandocOption::EpubStylesheet(file) => with_text("--epub-stylesheet=", file.as_str()),
            PandocOption::EpubCoverImage(file) => with_text("--epub-cover-image=", file.as_str()),
            PandocOption::EpubMetadata(file) => with_text("--epub-metadata=", file.as_str()),
            PandocOption::EpubEmbedFont(file) => with_text("--epub-embed-font=", file.as_str()),
            PandocOption::EpubChapterLevel(num) => with_number("--epub-chapter-level=", *num),
            PandocOption::PdfEngine(program) => with_text("--pdf-engine=", program.as_str()),
            PandocOption::PdfEngineOpt(s) => with_text("--pdf-engine-opt=", s.as_str()),
            PandocOption::Bibliography(file) => with_text("--bibliography=", file.as_str()),
            PandocOption::Csl(file) => with_text("--csl=", file.as_str()),
            PandocOption::CitationAbbreviations(f) => with_text("--citation-abbreviations=", f.as_str()),
            PandocOption::Natbib => flag("--natbib"),
            PandocOption::Biblatex => flag("--biblatex"),
            PandocOption::LatexMathML(Some(url)) => with_text("--latexmathml=", url.as_str()),
            PandocOption::AsciiMathML(Some(url)) => with_text("--asciimathml=", url.as_str()),
            PandocOption::MathML(Some(url)) => with_text("--mathml=", url.as_str()),
            PandocOption::MimeTex(Some(url)) => with_text("--mimetex=", url.as_str()),
            PandocOption::WebTex(Some(url)) => with_text("--webtex=", url.as_str()),
            PandocOption::JsMath(Some(url)) => with_text("--jsmath=", url.as_str()),
            PandocOption::MathJax(Some(url)) => with_text("--mathjax=", url.as_str()),
            PandocOption::Katex(Some(url)) => with_text("--katex=", url.as_str()),
            PandocOption::LatexMathML(None) => flag("--latexmathml"),
            PandocOption::AsciiMathML(None) => flag("--asciimathml"),
            PandocOption::MathML(None) => flag("--mathml"),
            PandocOption::MimeTex(None) => flag("--mimetex"),
            PandocOption::WebTex(None) => flag("--webtex"),
            PandocOption::JsMath(None) => flag("--jsmath"),
            PandocOption::MathJax(None) => flag("--mathjax"),
            PandocOption::Katex(None) => flag("--katex"),
            PandocOption::KatexStylesheet(url) => with_text("--katex-stylesheet=", url.as_str()),
            PandocOption::GladTex => flag("--gladtex"),
            PandocOption::Trace => flag("--trace"),
            PandocOption::DumpArgs => flag("--dump-args"),
            PandocOption::IgnoreArgs => flag("--ignore-args"),
            PandocOption::Verbose => flag("--verbose"),
        }
    }

    /// Whether `other` is the same option with the same values: the same
    /// variant, equal numbers and choices, and texts with the same characters.
    pub open spec fn same_as(&self, other: &PandocOption) -> bool {
        match (self, other) {
            (PandocOption::DataDir(a), PandocOption::DataDir(b)) => a@ == b@,
            (PandocOption::Strict, PandocOption::Strict) => true,
            (PandocOption::ParseRaw, PandocOption::ParseRaw) => true,
            (PandocOption::Smart, PandocOption::Smart) => true,
            (PandocOption::OldDashes, PandocOption::OldDashes) => true,
            (PandocOption::BaseHeaderLevel(a), PandocOption::BaseHeaderLevel(b)) => a == b,
            (PandocOption::IndentedCodeClasses(a), PandocOption::IndentedCodeClasses(b)) => a@ == b@,
            (PandocOption::Filter(a), PandocOption::Filter(b)) => a@ == b@,
            (PandocOption::Normalize, PandocOption::Normalize) => true,
            (PandocOption::PreserveTabs, PandocOption::PreserveTabs) => true,
            (PandocOption::TabStop(a), PandocOption::TabStop(b)) => a == b,
            (PandocOption::TrackChanges(a), PandocOption::TrackChanges(b)) => a == b,
            (PandocOption::ExtractMedia(a), PandocOption::ExtractMedia(b)) => a@ == b@,
            (PandocOption::Standalone, PandocOption::Standalone) => true,
            (PandocOption::Template(a), PandocOption::Template(b)) => a@ == b@,
            (PandocOption::Meta(k1, v1), PandocOption::Meta(k2, v2)) => k1@ == k2@ && opt_text(*v1) == opt_text(*v2),
            (PandocOption::Var(k1, v1), PandocOption::Var(k2, v2)) => k1@ == k2@ && opt_text(*v1) == opt_text(*v2),
            (PandocOption::PrintDefaultTemplate(a), PandocOption::PrintDefaultTemplate(b)) => a@ == b@,
            (PandocOption::PrintDefaultDataFile(a), PandocOption::PrintDefaultDataFile(b)) => a@ == b@,
            (PandocOption::NoWrap, PandocOption::NoWrap) => true,
            (PandocOption::Columns(a), PandocOption::Columns(b)) => a == b,
            (PandocOption::TableOfContents, PandocOption::TableOfContents) => true,
            (PandocOption::TableOfContentsDepth(a), PandocOption::TableOfContentsDepth(b)) => a == b,
            (PandocOption::NoHighlight, PandocOption::NoHighlight) => true,
            (PandocOption::HighlightStyle(a), PandocOption::HighlightStyle(b)) => a@ == b@,
            (PandocOption::IncludeInHeader(a), PandocOption::IncludeInHeader(b)) => a@ == b@,
            (PandocOption::IncludeBeforeBody(a), PandocOption::IncludeBeforeBody(b)) => a@ == b@,
            (PandocOption::IncludeAfterBody(a), PandocOption::IncludeAfterBody(b)) => a@ == b@,
            (PandocOption::SelfContained, PandocOption::SelfContained) => true,
            (PandocOption::Offline, PandocOption::Offline) => true,
            (PandocOption::Html5, PandocOption::Html5) => true,
            (PandocOption::HtmlQTags, PandocOption::HtmlQTags) => true,
            (PandocOption::Ascii, PandocOption::Ascii) => true,
            (PandocOption::ReferenceLinks, PandocOption::ReferenceLinks) => true,
            (PandocOption::AtxHeaders, PandocOption::AtxHeaders) => true,
            (PandocOption::TopLevelDivision(a), PandocOption::TopLevelDivision(b)) => a == b,
            (PandocOption::NumberSections, PandocOption::NumberSections) => true,
            (PandocOption::NumberOffset(a), PandocOption::NumberOffset(b)) => a@ == b@,
            (PandocOption::NoTexLigatures, PandocOption::NoTexLigatures) => true,
            (PandocOption::Listings, PandocOption::Listings) => true,
            (PandocOption::Incremental, PandocOption::Incremental) => true,
            (PandocOption::SlideLevel(a), PandocOption::SlideLevel(b)) => a == b,
            (PandocOption::SectionDivs, PandocOption::SectionDivs) => true,
            (PandocOption::DefaultImageExtension(a), PandocOption::DefaultImageExtension(b)) => a@ == b@,
            (PandocOption::EmailObfuscation(a), PandocOption::EmailObfuscation(b)) => a == b,
            (PandocOption::IdPrefix(a), PandocOption::IdPrefix(b)) => a@ == b@,
            (PandocOption::TitlePrefix(a), PandocOption::TitlePrefix(b)) => a@ == b@,
            (PandocOption::Css(a), PandocOption::Css(b)) => a@ == b@,
            (PandocOption::ReferenceOdt(a), PandocOption::ReferenceOdt(b)) => a@ == b@,
            (PandocOption::ReferenceDocx(a), PandocOption::ReferenceDocx(b)) => a@ == b@,
            (PandocOption::EpubStylesheet(a), PandocOption::EpubStylesheet(b)) => a@ == b@,
            (PandocOption::EpubCoverImage(a), PandocOption::EpubCoverImage(b)) => a@ == b@,
            (PandocOption::EpubMetadata(a), PandocOption::EpubMetadata(b)) => a@ == b@,
            (PandocOption::EpubEmbedFont(a), PandocOption::EpubEmbedFont(b)) => a@ == b@,
            (PandocOption::EpubChapterLevel(a), PandocOption::EpubChapterLevel(b)) => a == b,
            (PandocOption::PdfEngine(a), PandocOption::PdfEngine(b)) => a@ == b@,
            (PandocOption::PdfEngineOpt(a), PandocOption::PdfEngineOpt(b)) => a@ == b@,
            (PandocOption::Bibliography(a), PandocOption::Bibliography(b)) => a@ == b@,
            (PandocOption::Csl(a), PandocOption::Csl(b)) => a@ == b@,
            (PandocOption::CitationAbbreviations(a), PandocOption::CitationAbbreviations(b)) => a@ == b@,
            (PandocOption::Natbib, PandocOption::Natbib) => true,
            (PandocOption::Biblatex, PandocOption::Biblatex) => true,
            (PandocOption::LatexMathML(a), PandocOption::LatexMathML(b)) => opt_text(*a) == opt_text(*b),
            (PandocOption::AsciiMathML(a), PandocOption::AsciiMathML(b)) => opt_text(*a) == opt_text(*b),
            (PandocOption::MathML(a), PandocOption::MathML(b)) => opt_text(*a) == opt_text(*b),
            (PandocOption::MimeTex(a), PandocOption::MimeTex(b)) => opt_text(*a) == opt_text(*b),
            (PandocOption::WebTex(a), PandocOption::WebTex(b)) => opt_text(*a) == opt_text(*b),
            (PandocOption::JsMath(a), PandocOption::JsMath(b)) => opt_text(*a) == opt_text(*b),
            (PandocOption::MathJax(a), PandocOption::MathJax(b)) => opt_text(*a) == opt_text(*b),
            (PandocOption::Katex(a), PandocOption::Katex(b)) => opt_text(*a) == opt_text(*b),
            (PandocOption::KatexStylesheet(a), PandocOption::KatexStylesheet(b)) => a@ == b@,
            (PandocOption::GladTex, PandocOption::GladTex) => true,
            (PandocOption::Trace, PandocOption::Trace) => true,
            (PandocOption::DumpArgs, PandocOption::DumpArgs) => true,
            (PandocOption::IgnoreArgs, PandocOption::IgnoreArgs) => true,
            (PandocOption::Verbose, PandocOption::Verbose) => true,
            _ => false,
        }
    }

    /// A copy of this option.
    pub fn duplicate(&self) -> (r: PandocOption)
        ensures
            r.same_as(self),
    {
        match self {
            PandocOption::DataDir(a) => PandocOption::DataDir(a.clone()),
            PandocOption::Strict => PandocOption::Strict,
            PandocOption::ParseRaw => PandocOption::ParseRaw,
            PandocOption::Smart => PandocOption::Smart,
            PandocOption::OldDashes => PandocOption::OldDashes,
            PandocOption::BaseHeaderLevel(a) => PandocOption::BaseHeaderLevel(*a),
            PandocOption::IndentedCodeClasses(a) => PandocOption::IndentedCodeClasses(a.clone()),
            PandocOption::Filter(a) => PandocOption::Filter(a.clone()),
            PandocOption::Normalize => PandocOption::Normalize,
            PandocOption::PreserveTabs => PandocOption::PreserveTabs,
            PandocOption::TabStop(a) => PandocOption::TabStop(*a),
            PandocOption::TrackChanges(a) => PandocOption::TrackChanges(*a),
            PandocOption::ExtractMedia(a) => PandocOption::ExtractMedia(a.clone()),
            PandocOption::Standalone => PandocOption::Standalone,
            PandocOption::Template(a) => PandocOption::Template(a.clone()),
            PandocOption::Meta(k, v) => PandocOption::Meta(k.clone(), copy_opt_text(v)),
            PandocOption::Var(k, v) => PandocOption::Var(k.clone(), copy_opt_text(v)),
            PandocOption::PrintDefaultTemplate(a) => PandocOption::PrintDefaultTemplate(a.clone()),
            PandocOption::PrintDefaultDataFile(a) => PandocOption::PrintDefaultDataFile(a.clone()),
            PandocOption::NoWrap => PandocOption::NoWrap,
            PandocOption::Columns(a) => PandocOption::Columns(*a),
            PandocOption::TableOfContents => PandocOption::TableOfContents,
            PandocOption::TableOfContentsDepth(a) => PandocOption::TableOfContentsDepth(*a),
            PandocOption::NoHighlight => PandocOption::NoHighlight,
            PandocOption::HighlightStyle(a) => PandocOption::HighlightStyle(a.clone()),
            PandocOption::IncludeInHeader(a) => PandocOption::IncludeInHeader(a.clone()),
            PandocOption::IncludeBeforeBody(a) => PandocOption::IncludeBeforeBody(a.clone()),
            PandocOption::IncludeAfterBody(a) => PandocOption::IncludeAfterBody(a.clone()),
            PandocOption::SelfContained => PandocOption::SelfContained,
            PandocOption::Offline => PandocOption::Offline,
            PandocOption::Html5 => PandocOption::Html5,
            PandocOption::HtmlQTags => PandocOption::HtmlQTags,
            PandocOption::Ascii => PandocOption::Ascii,
            PandocOption::ReferenceLinks => PandocOption::ReferenceLinks,
            PandocOption::AtxHeaders => PandocOption::AtxHeaders,
            PandocOption::TopLevelDivision(a) => PandocOption::TopLevelDivision(a.duplicate()),
            PandocOption::NumberSections => PandocOption::NumberSections,
            PandocOption::NumberOffset(a) => PandocOption::NumberOffset(copy_numbers(a)),
            PandocOption::NoTexLigatures => PandocOption::NoTexLigatures,
            PandocOption::Listings => PandocOption::Listings,
            PandocOption::Incremental => PandocOption::Incremental,
            PandocOption::SlideLevel(a) => PandocOption::SlideLevel(*a),
            PandocOption::SectionDivs => PandocOption::SectionDivs,
            PandocOption::DefaultImageExtension(a) => PandocOption::DefaultImageExtension(a.clone()),
            PandocOption::EmailObfuscation(a) => PandocOption::EmailObfuscation(*a),
            PandocOption::IdPrefix(a) => PandocOption::IdPrefix(a.clone()),
            PandocOption::TitlePrefix(a) => PandocOption::TitlePrefix(a.clone()),
            PandocOption::Css(a) => PandocOption::Css(a.clone()),
            PandocOption::ReferenceOdt(a) => PandocOption::ReferenceOdt(a.clone()),
            PandocOption::ReferenceDocx(a) => PandocOption::ReferenceDocx(a.clone()),
            PandocOption::EpubStylesheet(a) => PandocOption::EpubStylesheet(a.clone()),
            PandocOption::EpubCoverImage(a) => PandocOption::EpubCoverImage(a.clone()),
            PandocOption::EpubMetadata(a) => PandocOption::EpubMetadata(a.clone()),
            PandocOption::EpubEmbedFont(a) => PandocOption::EpubEmbedFont(a.clone()),
            PandocOption::EpubChapterLevel(a) => PandocOption::EpubChapterLevel(*a),
            PandocOption::PdfEngine(a) => PandocOption::PdfEngine(a.clone()),
            PandocOption::PdfEngineOpt(a) => PandocOption::PdfEngineOpt(a.clone()),
            PandocOption::Bibliography(a) => PandocOption::Bibliography(a.clone()),
            PandocOption::Csl(a) => PandocOption::Csl(a.clone()),
            PandocOption::CitationAbbreviations(a) => PandocOption::CitationAbbreviations(a.clone()),
            PandocOption::Natbib => PandocOption::Natbib,
            PandocOption::Biblatex => PandocOption::Biblatex,
            PandocOption::LatexMathML(a) => PandocOption::LatexMathML(copy_opt_text(a)),
            PandocOption::AsciiMathML(a) => PandocOption::AsciiMathML(copy_opt_text(a)),
            PandocOption::MathML(a) => PandocOption::MathML(copy_opt_text(a)),
            PandocOption::MimeTex(a) => PandocOption::MimeTex(copy_opt_text(a)),
            PandocOption::WebTex(a) => PandocOption::WebTex(copy_opt_text(a)),
            PandocOption::JsMath(a) => PandocOption::JsMath(copy_opt_text(a)),
            PandocOption::MathJax(a) => PandocOption::MathJax(copy_opt_text(a)),
            PandocOption::Katex(a) => PandocOption::Katex(copy_opt_text(a)),
            PandocOption::KatexStylesheet(a) => PandocOption::KatexStylesheet(a.clone()),
            PandocOption::GladTex => PandocOption::GladTex,
            PandocOption::Trace => PandocOption::Trace,
            PandocOption::DumpArgs => PandocOption::DumpArgs,
            PandocOption::IgnoreArgs => PandocOption::IgnoreArgs,
            PandocOption::Verbose => PandocOption::Verbose,
        }
    }
}

/// The text of an optional string.
pub open spec fn opt_text(o: Option<String>) -> Option<Seq<char>> {
    match o {
        Some(s) => Some(s@),
        None => None,
    }
}

impl Tld {
    /// A copy of this value.
    pub fn duplicate(&self) -> (r: Tld)
        ensures
            r == *self,
    {
        match self {
            Tld::Chapter => Tld::Chapter,
            Tld::Section => Tld::Section,
            Tld::Part => Tld::Part,
        }
    }
}

fn copy_opt_text(o: &Option<String>) -> (r: Option<String>)
    ensures
        opt_text(r) == opt_text(*o),
{
    match o {
        Some(s) => Some(s.clone()),
        None => None,
    }
}

fn copy_numbers(v: &Vec<u32>) -> (r: Vec<u32>)
    ensures
        r@ == v@,
{
    let mut r: Vec<u32> = Vec::new();
    let mut i: usize = 0;
    while i < v.len()
        invariant
            i <= v.len(),
            r@ == v@.take(i as int),
        decreases v.len() - i,
    {
        r.push(v[i]);
        i += 1;
        assert(r@ =~= v@.take(i as int));
    }
    assert(v@.take(v.len() as int) =~= v@);
    r
}

/// One argument, written as it stands.
fn flag(text: &str) -> (r: Vec<String>)
    ensures
        views(r@) == seq![text@],
{
    let mut r = Vec::new();
    r.push(String::from_str(text));
    assert(views(r@) =~= seq![text@]);
    r
}

/// One argument: `prefix` followed by `value`.
fn with_text(prefix: &str, value: &str) -> (r: Vec<String>)
    ensures
        views(r@) == seq![prefix@ + value@],
{
    let mut s = String::from_str(prefix);
    s.append(value);
    let mut r = Vec::new();
    r.push(s);
    assert(views(r@) =~= seq![prefix@ + value@]);
    r
}

/// One argument: `prefix` followed by `n` in decimal.
fn with_number(prefix: &str, n: u32) -> (r: Vec<String>)
    ensures
        views(r@) == seq![prefix@ + decimal(n as nat)],
{
    let mut s = String::from_str(prefix);
    push_decimal(&mut s, n as u64);
    let mut r = Vec::new();
    r.push(s);
    assert(views(r@) =~= seq![prefix@ + decimal(n as nat)]);
    r
}

/// Two arguments: `flag`, then `value`.
fn flag_and_value(flag: &str, value: &str) -> (r: Vec<String>)
    ensures
        views(r@) == seq![flag@, value@],
{
    let mut r = Vec::new();
    r.push(String::from_str(flag));
    r.push(String::from_str(value));
    assert(views(r@) =~= seq![flag@, value@]);
    r
}

/// Two arguments: `flag`, then `key:value`.
fn flag_and_pair(flag: &str, key: &str, value: &str) -> (r: Vec<String>)
    ensures
        views(r@) == seq![flag@, key@ + ":"@ + value@],
{
    let mut s = String::from_str(key);
    s.append(":");
    s.append(value);
    let mut r = Vec::new();
    r.push(String::from_str(flag));
    r.push(s);
    assert(views(r@) =~= seq![flag@, key@ + ":"@ + value@]);
    r
}

/// Each option stands for the flag that its documentation names, followed,
/// for an option with a value, by `=` and the value (a path or a text as it
/// is, a number in decimal); `-M` and `-V` stand before `KEY` or `KEY:VALUE`.
pub proof fn law_option_arguments(option: PandocOption)
    ensures
        (match option {
            PandocOption::NumberOffset(nums) => option.spec_args() == seq!["--number-offset="@ + number_list(nums@)],
            PandocOption::DataDir(dir) => option.spec_args() == seq!["--data-dir="@ + dir@],
            PandocOption::Strict => option.spec_args() == seq!["--strict"@],
            PandocOption::ParseRaw => option.spec_args() == seq!["--parse-raw"@],
            PandocOption::Smart => option.spec_args() == seq!["--smart"@],
            PandocOption::OldDashes => option.spec_args() == seq!["--old-dashes"@],
            PandocOption::BaseHeaderLevel(n) => option.spec_args() == seq!["--base-header-level="@ + decimal(n as nat)],
            PandocOption::IndentedCodeClasses(s) => option.spec_args() == seq!["--indented-code-classes="@ + s@],
            PandocOption::Filter(program) => option.spec_args() == seq!["--filter="@ + program@],
            PandocOption::Normalize => option.spec_args() == seq!["--normalize"@],
            PandocOption::PreserveTabs => option.spec_args() == seq!["--preserve-tabs"@],
            PandocOption::TabStop(n) => option.spec_args() == seq!["--tab-stop="@ + decimal(n as nat)],
            PandocOption::TrackChanges(v) => option.spec_args() == seq!["--track-changes="@ + v.spec_name()],
            PandocOption::ExtractMedia(p) => option.spec_args() == seq!["--extract-media="@ + p@],
            PandocOption::Standalone => option.spec_args() == seq!["--standalone"@],
            PandocOption::Template(p) => option.spec_args() == seq!["--template="@ + p@],
            PandocOption::Meta(k, Some(v)) => option.spec_args() == seq!["-M"@, k@ + ":"@ + v@],
            PandocOption::Meta(k, None) => option.spec_args() == seq!["-M"@, k@],
            PandocOption::Var(k, Some(v)) => option.spec_args() == seq!["-V"@, k@ + ":"@ + v@],
            PandocOption::Var(k, None) => option.spec_args() == seq!["-V"@, k@],
            PandocOption::PrintDefaultTemplate(f) => option.spec_args() == seq!["--print-default-template="@ + f@],
            PandocOption::PrintDefaultDataFile(f) => option.spec_args() == seq!["--print-default-data-file="@ + f@],
            PandocOption::NoWrap => option.spec_args() == seq!["--no-wrap"@],
            PandocOption::Columns(n) => option.spec_args() == seq!["--columns="@ + decimal(n as nat)],
            PandocOption::TableOfContents => option.spec_args() == seq!["--table-of-contents"@],
            PandocOption::TableOfContentsDepth(d) => option.spec_args() == seq!["--toc-depth="@ + decimal(d as nat)],
            PandocOption::NoHighlight => option.spec_args() == seq!["--no-highlight"@],
            PandocOption::HighlightStyle(s) => option.spec_args() == seq!["--highlight-style="@ + s@],
            PandocOption::IncludeInHeader(p) => option.spec_args() == seq!["--include-in-header="@ + p@],
            PandocOption::IncludeBeforeBody(p) => option.spec_args() == seq!["--include-before-body="@ + p@],
            PandocOption::IncludeAfterBody(p) => option.spec_args() == seq!["--include-after-body="@ + p@],
            PandocOption::SelfContained => option.spec_args() == seq!["--self-contained"@],
            PandocOption::Offline => option.spec_args() == seq!["--offline"@],
            PandocOption::Html5 => option.spec_args() == seq!["--html5"@],
            PandocOption::HtmlQTags => option.spec_args() == seq!["--html-q-tags"@],
            PandocOption::Ascii => option.spec_args() == seq!["--ascii"@],
            PandocOption::ReferenceLinks => option.spec_args() == seq!["--reference-links"@],
            PandocOption::AtxHeaders => option.spec_args() == seq!["--atx-headers"@],
            PandocOption::TopLevelDivision(Tld::Chapter) => option.spec_args() == seq!["--top-level-division=chapter"@],
            PandocOption::TopLevelDivision(Tld::Section) => option.spec_args() == seq!["--top-level-division=section"@],
            PandocOption::TopLevelDivision(Tld::Part) => option.spec_args() == seq!["--top-level-division=part"@],
            PandocOption::NumberSections => option.spec_args() == seq!["--number-sections"@],
            PandocOption::NoTexLigatures => option.spec_args() == seq!["--no-tex-ligatures"@],
            PandocOption::Listings => option.spec_args() == seq!["--listings"@],
            PandocOption::Incremental => option.spec_args() == seq!["--incremental"@],
            PandocOption::SlideLevel(n) => option.spec_args() == seq!["--slide-level="@ + decimal(n as nat)],
            PandocOption::SectionDivs => option.spec_args() == seq!["--section-divs"@],
            PandocOption::DefaultImageExtension(s) => option.spec_args() == seq!["--default-image-extension="@ + s@],
            PandocOption::EmailObfuscation(o) => option.spec_args() == seq!["--email-obfuscation="@ + o.spec_name()],
            PandocOption::IdPrefix(s) => option.spec_args() == seq!["--id-prefix="@ + s@],
            PandocOption::TitlePrefix(s) => option.spec_args() == seq!["--title-prefix="@ + s@],
            PandocOption::Css(url) => option.spec_args() == seq!["--css="@ + url@],
            PandocOption::ReferenceOdt(file) => option.spec_args() == seq!["--reference-odt="@ + file@],
            PandocOption::ReferenceDocx(file) => option.spec_args() == seq!["--reference-docx="@ + file@],
            PandocOption::EpubStylesheet(file) => option.spec_args() == seq!["--epub-stylesheet="@ + file@],
            PandocOption::EpubCoverImage(file) => option.spec_args() == seq!["--epub-cover-image="@ + file@],
            PandocOption::EpubMetadata(file) => option.spec_args() == seq!["--epub-metadata="@ + file@],
            PandocOption::EpubEmbedFont(file) => option.spec_args() == seq!["--epub-embed-font="@ + file@],
            PandocOption::EpubChapterLevel(num) => option.spec_args() == seq!["--epub-chapter-level="@ + decimal(num as nat)],
            PandocOption::PdfEngine(program) => option.spec_args() == seq!["--pdf-engine="@ + program@],
            PandocOption::PdfEngineOpt(s) => option.spec_args() == seq!["--pdf-engine-opt="@ + s@],
            PandocOption::Bibliography(file) => option.spec_args() == seq!["--bibliography="@ + file@],
            PandocOption::Csl(file) => option.spec_args() == seq!["--csl="@ + file@],
            PandocOption::CitationAbbreviations(f) => option.spec_args() == seq!["--citation-abbreviations="@ + f@],
            PandocOption::Natbib => option.spec_args() == seq!["--natbib"@],
            PandocOption::Biblatex => option.spec_args() == seq!["--biblatex"@],
            PandocOption::LatexMathML(Some(url)) => option.spec_args() == seq!["--latexmathml="@ + url@],
            PandocOption::AsciiMathML(Some(url)) => option.spec_args() == seq!["--asciimathml="@ + url@],
            PandocOption::MathML(Some(url)) => option.spec_args() == seq!["--mathml="@ + url@],
            PandocOption::MimeTex(Some(url)) => option.spec_args() == seq!["--mimetex="@ + url@],
            PandocOption::WebTex(Some(url)) => option.spec_args() == seq!["--webtex="@ + url@],
            PandocOption::JsMath(Some(url)) => option.spec_args() == seq!["--jsmath="@ + url@],
            PandocOption::MathJax(Some(url)) => option.spec_args() == seq!["--mathjax="@ + url@],
            PandocOption::Katex(Some(url)) => option.spec_args() == seq!["--katex="@ + url@],
            PandocOption::LatexMathML(None) => option.spec_args() == seq!["--latexmathml"@],
            PandocOption::AsciiMathML(None) => option.spec_args() == seq!["--asciimathml"@],
            PandocOption::MathML(None) => option.spec_args() == seq!["--mathml"@],
            PandocOption::MimeTex(None) => option.spec_args() == seq!["--mimetex"@],
            PandocOption::WebTex(None) => option.spec_args() == seq!["--webtex"@],
            PandocOption::JsMath(None) => option.spec_args() == seq!["--jsmath"@],
            PandocOption::MathJax(None) => option.spec_args() == seq!["--mathjax"@],
            PandocOption::Katex(None) => option.spec_args() == seq!["--katex"@],
            PandocOption::KatexStylesheet(url) => option.spec_args() == seq!["--katex-stylesheet="@ + url@],
            PandocOption::GladTex => option.spec_args() == seq!["--gladtex"@],
            PandocOption::Trace => option.spec_args() == seq!["--trace"@],
            PandocOption::DumpArgs => option.spec_args() == seq!["--dump-args"@],
            PandocOption::IgnoreArgs => option.spec_args() == seq!["--ignore-args"@],
            PandocOption::Verbose => option.spec_args() == seq!["--verbose"@],
        }),
{
}

} // verus!
