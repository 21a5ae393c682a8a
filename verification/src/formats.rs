//! The closed vocabularies of the pandoc command line: formats, extensions
//! and the values of a few options, each with the word pandoc expects.

use vstd::prelude::*;
use vstd::string::*;

verus! {

/// How `--track-changes` treats insertions and deletions in docx input.
#[derive(Copy, Clone, Debug)]
pub enum TrackChanges {
    Accept,
    Reject,
    All,
}

impl TrackChanges {
    /// The word by which pandoc knows this value on its command line.
    pub open spec fn spec_name(&self) -> Seq<char> {
        match self {
            TrackChanges::Accept => "accept"@,
            TrackChanges::Reject => "reject"@,
            TrackChanges::All => "all"@,
        }
    }

    /// The word by which pandoc knows this value on its command line.
    pub fn to_string(&self) -> (s: String)
        ensures
            s@ == self.spec_name(),
    {
        match self {
            TrackChanges::Accept => String::from_str("accept"),
            TrackChanges::Reject => String::from_str("reject"),
            TrackChanges::All => String::from_str("all"),
        }
    }
}

/// How `--email-obfuscation` hides `mailto:` links in HTML output.
#[derive(Copy, Clone, Debug)]
pub enum EmailObfuscation {
    NoObfuscation,
    Javascript,
    References,
}

impl EmailObfuscation {
    /// The word by which pandoc knows this value on its command line.
    pub open spec fn spec_name(&self) -> Seq<char> {
        match self {
            EmailObfuscation::NoObfuscation => "none"@,
            EmailObfuscation::Javascript => "javascript"@,
            EmailObfuscation::References => "references"@,
        }
    }

    /// The word by which pandoc knows this value on its command line.
    pub fn to_string(&self) -> (s: String)
        ensures
            s@ == self.spec_name(),
    {
        match self {
            EmailObfuscation::NoObfuscation => String::from_str("none"),
            EmailObfuscation::Javascript => String::from_str("javascript"),
            EmailObfuscation::References => String::from_str("references"),
        }
    }
}

/// equivalent to the latex document class
#[derive(Debug, Clone)]
pub enum DocumentClass {
    /// compact form of report
    Article,
    /// abstract + chapters + custom page for title, abstract and toc
    Report,
    /// no abstract
    Book,
}

impl DocumentClass {
    /// The word by which pandoc knows this value on its command line.
    pub open spec fn spec_name(&self) -> Seq<char> {
        match self {
            DocumentClass::Article => "article"@,
            DocumentClass::Report => "report"@,
            DocumentClass::Book => "book"@,
        }
    }

    /// The word by which pandoc knows this value on its command line.
    pub fn to_string(&self) -> (s: String)
        ensures
            s@ == self.spec_name(),
    {
        match self {
            DocumentClass::Article => String::from_str("article"),
            DocumentClass::Report => String::from_str("report"),
            DocumentClass::Book => String::from_str("book"),
        }
    }
}

/// typesafe access to -t FORMAT, -w FORMAT, --to=FORMAT, --write=FORMAT
#[derive(Debug, Clone)]
pub enum OutputFormat {
    /// native Haskell
    Native,
    /// JSON version of native AST
    Json,
    /// Plain text
    Plain,
    /// pandoc’s extended markdown
    Markdown,
    /// original unextended markdown
    MarkdownStrict,
    /// PHP Markdown extra extended markdown
    MarkdownPhpextra,
    /// github extended markdown
    MarkdownGithub,
    /// CommonMark markdown
    Commonmark,
    /// reStructuredText
    Rst,
    /// XHTML 1
    Html,
    /// HTML 5
    Html5,
    /// LaTeX
    Latex,
    /// LaTeX beamer slide show
    Beamer,
    /// ConTeXt
    Context,
    /// Groff man
    Man,
    /// MediaWiki markup
    MediaWiki,
    /// DokuWiki markup
    Dokuwiki,
    /// Textile
    Textile,
    /// Emacs Org-Mode
    Org,
    /// GNU Texinfo
    Texinfo,
    /// OPML
    Opml,
    /// DocBook
    Docbook,
    /// Open Document
    OpenDocument,
    /// OpenOffice text document
    Odt,
    /// Word docx
    Docx,
    /// Haddock markup
    Haddock,
    /// Rich text format
    Rtf,
    /// EPUB v2 book
    Epub,
    /// EPUB v3
    Epub3,
    /// FictionBook2 e-book
    Fb2,
    /// AsciiDoc
    Asciidoc,
    /// InDesign ICML
    Icml,
    /// Slidy HTML and javascript slide show
    Slidy,
    /// Slideous HTML and javascript slide show
    Slideous,
    /// DZSlides HTML5 + javascript slide show
    Dzslides,
    /// reveal.js HTML5 + javascript slide show
    Revealjs,
    /// S5 HTML and javascript slide show
    S5,
    /// the path of a custom lua writer (see Custom writers)
    Lua(String),
}

impl OutputFormat {
    /// The word by which pandoc knows this value on its command line.
    pub open spec fn spec_name(&self) -> Seq<char> {
        match self {
            OutputFormat::Native => "native"@,
            OutputFormat::Json => "json"@,
            OutputFormat::Plain => "plain"@,
            OutputFormat::Markdown => "markdown"@,
            OutputFormat::MarkdownStrict => "markdown_strict"@,
            OutputFormat::MarkdownPhpextra => "markdown_phpextra"@,
            OutputFormat::MarkdownGithub => "markdown_github"@,
            OutputFormat::Commonmark => "commonmark"@,
            OutputFormat::Rst => "rst"@,
            OutputFormat::Html => "html"@,
            OutputFormat::Html5 => "html5"@,
            OutputFormat::Latex => "latex"@,
            OutputFormat::Beamer => "beamer"@,
            OutputFormat::Context => "context"@,
            OutputFormat::Man => "man"@,
            OutputFormat::MediaWiki => "mediawiki"@,
            OutputFormat::Dokuwiki => "dokuwiki"@,
            OutputFormat::Textile => "textile"@,
            OutputFormat::Org => "org"@,
            OutputFormat::Texinfo => "texinfo"@,
            OutputFormat::Opml => "opml"@,
            OutputFormat::Docbook => "docbook"@,
            OutputFormat::OpenDocument => "open_document"@,
            OutputFormat::Odt => "odt"@,
            OutputFormat::Docx => "docx"@,
            OutputFormat::Haddock => "haddock"@,
            OutputFormat::Rtf => "rtf"@,
            OutputFormat::Epub => "epub"@,
            OutputFormat::Epub3 => "epub3"@,
            OutputFormat::Fb2 => "fb2"@,
            OutputFormat::Asciidoc => "asciidoc"@,
            OutputFormat::Icml => "icml"@,
            OutputFormat::Slidy => "slidy"@,
            OutputFormat::Slideous => "slideous"@,
            OutputFormat::Dzslides => "dzslides"@,
            OutputFormat::Revealjs => "revealjs"@,
            OutputFormat::S5 => "s5"@,
            OutputFormat::Lua(path) => path@,
        }
    }

    /// The word by which pandoc knows this value on its command line.
    pub fn to_string(&self) -> (s: String)
        ensures
            s@ == self.spec_name(),
    {
        match self {
            OutputFormat::Native => String::from_str("native"),
            OutputFormat::Json => String::from_str("json"),
            OutputFormat::Plain => String::from_str("plain"),
            OutputFormat::Markdown => String::from_str("markdown"),
            OutputFormat::MarkdownStrict => String::from_str("markdown_strict"),
            OutputFormat::MarkdownPhpextra => String::from_str("markdown_phpextra"),
            OutputFormat::MarkdownGithub => String::from_str("markdown_github"),
            OutputFormat::Commonmark => String::from_str("commonmark"),
            OutputFormat::Rst => String::from_str("rst"),
            OutputFormat::Html => String::from_str("html"),
            OutputFormat::Html5 => String::from_str("html5"),
            OutputFormat::Latex => String::from_str("latex"),
            OutputFormat::Beamer => String::from_str("beamer"),
            OutputFormat::Context => String::from_str("context"),
            OutputFormat::Man => String::from_str("man"),
            OutputFormat::MediaWiki => String::from_str("mediawiki"),
            OutputFormat::Dokuwiki => String::from_str("dokuwiki"),
            OutputFormat::Textile => String::from_str("textile"),
            OutputFormat::Org => String::from_str("org"),
            OutputFormat::Texinfo => String::from_str("texinfo"),
            OutputFormat::Opml => String::from_str("opml"),
            OutputFormat::Docbook => String::from_str("docbook"),
            OutputFormat::OpenDocument => String::from_str("open_document"),
            OutputFormat::Odt => String::from_str("odt"),
            OutputFormat::Docx => String::from_str("docx"),
            OutputFormat::Haddock => String::from_str("haddock"),
            OutputFormat::Rtf => String::from_str("rtf"),
            OutputFormat::Epub => String::from_str("epub"),
            OutputFormat::Epub3 => String::from_str("epub3"),
            OutputFormat::Fb2 => String::from_str("fb2"),
            OutputFormat::Asciidoc => String::from_str("asciidoc"),
            OutputFormat::Icml => String::from_str("icml"),
            OutputFormat::Slidy => String::from_str("slidy"),
            OutputFormat::Slideous => String::from_str("slideous"),
            OutputFormat::Dzslides => String::from_str("dzslides"),
            OutputFormat::Revealjs => String::from_str("revealjs"),
            OutputFormat::S5 => String::from_str("s5"),
            OutputFormat::Lua(path) => path.clone(),
        }
    }
}

/// typesafe access to -f FORMAT, -r FORMAT, --from=FORMAT, --read=FORMAT
#[derive(Debug, Clone)]
pub enum InputFormat {
    /// native Haskell
    Native,
    /// JSON version of native AST
    Json,
    /// pandoc’s extended markdown
    Markdown,
    /// original unextended markdown
    MarkdownStrict,
    /// PHP Markdown extra extended markdown
    MarkdownPhpextra,
    /// github extended markdown
    MarkdownGithub,
    /// CommonMark markdown
    Commonmark,
    /// Textile
    Textile,
    /// reStructuredText
    Rst,
    /// HTML
    Html,
    /// DocBook
    DocBook,
    /// txt2tags
    T2t,
    /// Word docx
    Docx,
    /// EPUB
    Epub,
    /// OPML
    Opml,
    /// Emacs Org-Mode
    Org,
    /// MediaWiki markup
    MediaWiki,
    /// TWiki markup
    Twiki,
    /// Haddock markup
    Haddock,
    /// LaTeX
    Latex,
}

impl InputFormat {
    /// The word by which pandoc knows this value on its command line.
    pub open spec fn spec_name(&self) -> Seq<char> {
        match self {
            InputFormat::Native => "native"@,
            InputFormat::Json => "json"@,
            InputFormat::Markdown => "markdown"@,
            InputFormat::MarkdownStrict => "markdown_strict"@,
            InputFormat::MarkdownPhpextra => "markdown_phpextra"@,
            InputFormat::MarkdownGithub => "markdown_github"@,
            InputFormat::Commonmark => "commonmark"@,
            InputFormat::Textile => "textile"@,
            InputFormat::Rst => "rst"@,
            InputFormat::Html => "html"@,
            InputFormat::DocBook => "docbook"@,
            InputFormat::T2t => "t2t"@,
            InputFormat::Docx => "docx"@,
            InputFormat::Epub => "epub"@,
            InputFormat::Opml => "opml"@,
            InputFormat::Org => "org"@,
            InputFormat::MediaWiki => "mediawiki"@,
            InputFormat::Twiki => "twiki"@,
            InputFormat::Haddock => "haddock"@,
            InputFormat::Latex => "latex"@,
        }
    }

    /// The word by which pandoc knows this value on its command line.
    pub fn to_string(&self) -> (s: String)
        ensures
            s@ == self.spec_name(),
    {
        match self {
            InputFormat::Native => String::from_str("native"),
            InputFormat::Json => String::from_str("json"),
            InputFormat::Markdown => String::from_str("markdown"),
            InputFormat::MarkdownStrict => String::from_str("markdown_strict"),
            InputFormat::MarkdownPhpextra => String::from_str("markdown_phpextra"),
            InputFormat::MarkdownGithub => String::from_str("markdown_github"),
            InputFormat::Commonmark => String::from_str("commonmark"),
            InputFormat::Textile => String::from_str("textile"),
            InputFormat::Rst => String::from_str("rst"),
            InputFormat::Html => String::from_str("html"),
            InputFormat::DocBook => String::from_str("docbook"),
            InputFormat::T2t => String::from_str("t2t"),
            InputFormat::Docx => String::from_str("docx"),
            InputFormat::Epub => String::from_str("epub"),
            InputFormat::Opml => String::from_str("opml"),
            InputFormat::Org => String::from_str("org"),
            InputFormat::MediaWiki => String::from_str("mediawiki"),
            InputFormat::Twiki => String::from_str("twiki"),
            InputFormat::Haddock => String::from_str("haddock"),
            InputFormat::Latex => String::from_str("latex"),
        }
    }
}

/// An extension of the markdown reader or writer, added to a format with `+`.
#[derive(Debug, Clone)]
pub enum MarkdownExtension {
    EscapedLineBreaks,
    BlankBeforeHeader,
    HeaderAttributes,
    AutoIdentifiers,
    ImplicitHeaderReferences,
    BlankBeforeBlockQuote,
    FencedCodeBlocks,
    BacktickCodeBlocks,
    FencedCodeAttributes,
    LineBlocks,
    FancyLists,
    Startnum,
    DefinitionLists,
    ExampleLists,
    TableCaptions,
    SimpleTables,
    MultilineTables,
    GridTables,
    PipeTables,
    PandocTitleBlock,
    YamlMetadataBlock,
    AllSymbolsEscapable,
    IntrawordUnderscores,
    Strikeout,
    Superscript,
    Subscript,
    InlineCodeAttributes,
    TexMathDollars,
    RawHtml,
    MarkdownInHtmlBlocks,
    NativeDivs,
    NativeSpans,
    RawTex,
    LatexMacros,
    ShortcutReferenceLinks,
    ImplicitFigures,
    Footnotes,
    InlineNotes,
    Citations,
    ListsWithoutPrecedingBlankline,
    HardLineBreaks,
    IgnoreLineBreaks,
    TexMathSingleBackslash,
    TexMathDoubleBackslash,
    MarkdownAttribute,
    MmdTitleBlock,
    Abbreviations,
    AutolinkBareUris,
    AsciiIdentifiers,
    LinkAttributes,
    MmdHeaderIdentifiers,
    CompactDefinitionLists,
}

impl MarkdownExtension {
    /// The word by which pandoc knows this value on its command line.
    pub open spec fn spec_name(&self) -> Seq<char> {
        match self {
            MarkdownExtension::EscapedLineBreaks => "escaped_line_breaks"@,
            MarkdownExtension::BlankBeforeHeader => "blank_before_header"@,
            MarkdownExtension::HeaderAttributes => "header_attributes"@,
            MarkdownExtension::AutoIdentifiers => "auto_identifiers"@,
            MarkdownExtension::ImplicitHeaderReferences => "implicit_header_references"@,
            MarkdownExtension::BlankBeforeBlockQuote => "blank_before_block_quote"@,
            MarkdownExtension::FencedCodeBlocks => "fenced_code_blocks"@,
            MarkdownExtension::BacktickCodeBlocks => "backtick_code_blocks"@,
            MarkdownExtension::FencedCodeAttributes => "fenced_code_attributes"@,
            MarkdownExtension::LineBlocks => "line_blocks"@,
            MarkdownExtension::FancyLists => "fancy_lists"@,
            MarkdownExtension::Startnum => "startnum"@,
            MarkdownExtension::DefinitionLists => "definition_lists"@,
            MarkdownExtension::ExampleLists => "example_lists"@,
            MarkdownExtension::TableCaptions => "table_captions"@,
            MarkdownExtension::SimpleTables => "simple_tables"@,
            MarkdownExtension::MultilineTables => "multiline_tables"@,
            MarkdownExtension::GridTables => "grid_tables"@,
            MarkdownExtension::PipeTables => "pipe_tables"@,
            MarkdownExtension::PandocTitleBlock => "pandoc_title_block"@,
            MarkdownExtension::YamlMetadataBlock => "yaml_metadata_block"@,
            MarkdownExtension::AllSymbolsEscapable => "all_symbols_escapable"@,
            MarkdownExtension::IntrawordUnderscores => "intraword_underscores"@,
            MarkdownExtension::Strikeout => "strikeout"@,
            MarkdownExtension::Superscript => "superscript"@,
            MarkdownExtension::Subscript => "subscript"@,
            MarkdownExtension::InlineCodeAttributes => "inline_code_attributes"@,
            MarkdownExtension::TexMathDollars => "tex_math_dollars"@,
            MarkdownExtension::RawHtml => "raw_html"@,
            MarkdownExtension::MarkdownInHtmlBlocks => "markdown_in_html_blocks"@,
            MarkdownExtension::NativeDivs => "native_divs"@,
            MarkdownExtension::NativeSpans => "native_spans"@,
            MarkdownExtension::RawTex => "raw_tex"@,
            MarkdownExtension::LatexMacros => "latex_macros"@,
            MarkdownExtension::ShortcutReferenceLinks => "shortcut_reference_links"@,
            MarkdownExtension::ImplicitFigures => "implicit_figures"@,
            MarkdownExtension::Footnotes => "footnotes"@,
            MarkdownExtension::InlineNotes => "inline_notes"@,
            MarkdownExtension::Citations => "citations"@,
            MarkdownExtension::ListsWithoutPrecedingBlankline => "lists_without_preceding_blankline"@,
            MarkdownExtension::HardLineBreaks => "hard_line_breaks"@,
            MarkdownExtension::IgnoreLineBreaks => "ignore_line_breaks"@,
            MarkdownExtension::TexMathSingleBackslash => "tex_math_single_backslash"@,
            MarkdownExtension::TexMathDoubleBackslash => "tex_math_double_backslash"@,
            MarkdownExtension::MarkdownAttribute => "markdown_attribute"@,
            MarkdownExtension::MmdTitleBlock => "Mmd_title_block"@,
            MarkdownExtension::Abbreviations => "abbreviations"@,
            MarkdownExtension::AutolinkBareUris => "autolink_bare_uris"@,
            MarkdownExtension::AsciiIdentifiers => "ascii_identifiers"@,
            MarkdownExtension::LinkAttributes => "link_attributes"@,
            MarkdownExtension::MmdHeaderIdentifiers => "mmd_header_identifiers"@,
            MarkdownExtension::CompactDefinitionLists => "compact_definition_lists"@,
        }
    }

    /// The word by which pandoc knows this value on its command line.
    pub fn to_string(&self) -> (s: String)
        ensures
            s@ == self.spec_name(),
    {
        match self {
            MarkdownExtension::EscapedLineBreaks => String::from_str("escaped_line_breaks"),
            MarkdownExtension::BlankBeforeHeader => String::from_str("blank_before_header"),
            MarkdownExtension::HeaderAttributes => String::from_str("header_attributes"),
            MarkdownExtension::AutoIdentifiers => String::from_str("auto_identifiers"),
            MarkdownExtension::ImplicitHeaderReferences => String::from_str("implicit_header_references"),
            MarkdownExtension::BlankBeforeBlockQuote => String::from_str("blank_before_block_quote"),
            MarkdownExtension::FencedCodeBlocks => String::from_str("fenced_code_blocks"),
            MarkdownExtension::BacktickCodeBlocks => String::from_str("backtick_code_blocks"),
            MarkdownExtension::FencedCodeAttributes => String::from_str("fenced_code_attributes"),
            MarkdownExtension::LineBlocks => String::from_str("line_blocks"),
            MarkdownExtension::FancyLists => String::from_str("fancy_lists"),
            MarkdownExtension::Startnum => String::from_str("startnum"),
            MarkdownExtension::DefinitionLists => String::from_str("definition_lists"),
            MarkdownExtension::ExampleLists => String::from_str("example_lists"),
            MarkdownExtension::TableCaptions => String::from_str("table_captions"),
            MarkdownExtension::SimpleTables => String::from_str("simple_tables"),
            MarkdownExtension::MultilineTables => String::from_str("multiline_tables"),
            MarkdownExtension::GridTables => String::from_str("grid_tables"),
            MarkdownExtension::PipeTables => String::from_str("pipe_tables"),
            MarkdownExtension::PandocTitleBlock => String::from_str("pandoc_title_block"),
            MarkdownExtension::YamlMetadataBlock => String::from_str("yaml_metadata_block"),
            MarkdownExtension::AllSymbolsEscapable => String::from_str("all_symbols_escapable"),
            MarkdownExtension::IntrawordUnderscores => String::from_str("intraword_underscores"),
            MarkdownExtension::Strikeout => String::from_str("strikeout"),
            MarkdownExtension::Superscript => String::from_str("superscript"),
            MarkdownExtension::Subscript => String::from_str("subscript"),
            MarkdownExtension::InlineCodeAttributes => String::from_str("inline_code_attributes"),
            MarkdownExtension::TexMathDollars => String::from_str("tex_math_dollars"),
            MarkdownExtension::RawHtml => String::from_str("raw_html"),
            MarkdownExtension::MarkdownInHtmlBlocks => String::from_str("markdown_in_html_blocks"),
            MarkdownExtension::NativeDivs => String::from_str("native_divs"),
            MarkdownExtension::NativeSpans => String::from_str("native_spans"),
            MarkdownExtension::RawTex => String::from_str("raw_tex"),
            MarkdownExtension::LatexMacros => String::from_str("latex_macros"),
            MarkdownExtension::ShortcutReferenceLinks => String::from_str("shortcut_reference_links"),
            MarkdownExtension::ImplicitFigures => String::from_str("implicit_figures"),
            MarkdownExtension::Footnotes => String::from_str("footnotes"),
            MarkdownExtension::InlineNotes => String::from_str("inline_notes"),
            MarkdownExtension::Citations => String::from_str("citations"),
            MarkdownExtension::ListsWithoutPrecedingBlankline => String::from_str("lists_without_preceding_blankline"),
            MarkdownExtension::HardLineBreaks => String::from_str("hard_line_breaks"),
            MarkdownExtension::IgnoreLineBreaks => String::from_str("ignore_line_breaks"),
            MarkdownExtension::TexMathSingleBackslash => String::from_str("tex_math_single_backslash"),
            MarkdownExtension::TexMathDoubleBackslash => String::from_str("tex_math_double_backslash"),
            MarkdownExtension::MarkdownAttribute => String::from_str("markdown_attribute"),
            MarkdownExtension::MmdTitleBlock => String::from_str("Mmd_title_block"),
            MarkdownExtension::Abbreviations => String::from_str("abbreviations"),
            MarkdownExtension::AutolinkBareUris => String::from_str("autolink_bare_uris"),
            MarkdownExtension::AsciiIdentifiers => String::from_str("ascii_identifiers"),
            MarkdownExtension::LinkAttributes => String::from_str("link_attributes"),
            MarkdownExtension::MmdHeaderIdentifiers => String::from_str("mmd_header_identifiers"),
            MarkdownExtension::CompactDefinitionLists => String::from_str("compact_definition_lists"),
        }
    }
}

/// Distinct input formats have distinct names.
pub proof fn law_input_format_names_distinct(a: InputFormat, b: InputFormat)
    ensures
        a.spec_name() == b.spec_name() ==> a == b,
{
    reveal_strlit("native");
    reveal_strlit("json");
    reveal_strlit("markdown");
    reveal_strlit("markdown_strict");
    reveal_strlit("markdown_phpextra");
    reveal_strlit("markdown_github");
    reveal_strlit("commonmark");
    reveal_strlit("textile");
    reveal_strlit("rst");
    reveal_strlit("html");
    reveal_strlit("docbook");
    reveal_strlit("t2t");
    reveal_strlit("docx");
    reveal_strlit("epub");
    reveal_strlit("opml");
    reveal_strlit("org");
    reveal_strlit("mediawiki");
    reveal_strlit("twiki");
    reveal_strlit("haddock");
    reveal_strlit("latex");
    assert("docbook"@[0] == 'd');
    assert("docx"@[0] == 'd');
    assert("epub"@[0] == 'e');
    assert("haddock"@[0] == 'h');
    assert("html"@[0] == 'h');
    assert("json"@[0] == 'j');
    assert("latex"@[0] == 'l');
    assert("markdown_github"@[9] == 'g');
    assert("markdown_strict"@[9] == 's');
    assert("opml"@[0] == 'o');
    assert("org"@[0] == 'o');
    assert("rst"@[0] == 'r');
    assert("t2t"@[0] == 't');
    assert("textile"@[0] == 't');
    assert("twiki"@[0] == 't');
    assert("commonmark"@.len() == 10);
    assert("docbook"@.len() == 7);
    assert("docx"@.len() == 4);
    assert("epub"@.len() == 4);
    assert("haddock"@.len() == 7);
    assert("html"@.len() == 4);
    assert("json"@.len() == 4);
    assert("latex"@.len() == 5);
    assert("markdown"@.len() == 8);
    assert("markdown_github"@.len() == 15);
    assert("markdown_phpextra"@.len() == 17);
    assert("markdown_strict"@.len() == 15);
    assert("mediawiki"@.len() == 9);
    assert("native"@.len() == 6);
    assert("opml"@.len() == 4);
    assert("org"@.len() == 3);
    assert("rst"@.len() == 3);
    assert("t2t"@.len() == 3);
    assert("textile"@.len() == 7);
    assert("twiki"@.len() == 5);
}

/// Distinct output formats that are not custom writers have distinct names.
pub proof fn law_output_format_names_distinct(a: OutputFormat, b: OutputFormat)
    requires
        !(a is Lua) && !(b is Lua),
    ensures
        a.spec_name() == b.spec_name() ==> a == b,
{
    reveal_strlit("native");
    reveal_strlit("json");
    reveal_strlit("plain");
    reveal_strlit("markdown");
    reveal_strlit("markdown_strict");
    reveal_strlit("markdown_phpextra");
    reveal_strlit("markdown_github");
    reveal_strlit("commonmark");
    reveal_strlit("rst");
    reveal_strlit("html");
    reveal_strlit("html5");
    reveal_strlit("latex");
    reveal_strlit("beamer");
    reveal_strlit("context");
    reveal_strlit("man");
    reveal_strlit("mediawiki");
    reveal_strlit("dokuwiki");
    reveal_strlit("textile");
    reveal_strlit("org");
    reveal_strlit("texinfo");
    reveal_strlit("opml");
    reveal_strlit("docbook");
    reveal_strlit("open_document");
    reveal_strlit("odt");
    reveal_strlit("docx");
    reveal_strlit("haddock");
    reveal_strlit("rtf");
    reveal_strlit("epub");
    reveal_strlit("epub3");
    reveal_strlit("fb2");
    reveal_strlit("asciidoc");
    reveal_strlit("icml");
    reveal_strlit("slidy");
    reveal_strlit("slideous");
    reveal_strlit("dzslides");
    reveal_strlit("revealjs");
    reveal_strlit("s5");
    assert("asciidoc"@[0] == 'a');
    assert("beamer"@[0] == 'b');
    assert("context"@[0] == 'c');
    assert("docbook"@[0] == 'd');
    assert("docx"@[0] == 'd');
    assert("dokuwiki"@[0] == 'd');
    assert("dokuwiki"@[1] == 'o');
    assert("dzslides"@[0] == 'd');
    assert("dzslides"@[1] == 'z');
    assert("epub"@[0] == 'e');
    assert("epub3"@[0] == 'e');
    assert("fb2"@[0] == 'f');
    assert("haddock"@[0] == 'h');
    assert("html"@[0] == 'h');
    assert("html5"@[0] == 'h');
    assert("icml"@[0] == 'i');
    assert("json"@[0] == 'j');
    assert("latex"@[0] == 'l');
    assert("man"@[0] == 'm');
    assert("markdown"@[0] == 'm');
    assert("markdown_github"@[9] == 'g');
    assert("markdown_strict"@[9] == 's');
    assert("native"@[0] == 'n');
    assert("odt"@[0] == 'o');
    assert("odt"@[1] == 'd');
    assert("opml"@[0] == 'o');
    assert("org"@[0] == 'o');
    assert("org"@[1] == 'r');
    assert("plain"@[0] == 'p');
    assert("revealjs"@[0] == 'r');
    assert("rst"@[0] == 'r');
    assert("rst"@[1] == 's');
    assert("rtf"@[0] == 'r');
    assert("rtf"@[1] == 't');
    assert("slideous"@[0] == 's');
    assert("slidy"@[0] == 's');
    assert("texinfo"@[0] == 't');
    assert("texinfo"@[3] == 'i');
    assert("textile"@[0] == 't');
    assert("textile"@[3] == 't');
    assert("asciidoc"@.len() == 8);
    assert("beamer"@.len() == 6);
    assert("commonmark"@.len() == 10);
    assert("context"@.len() == 7);
    assert("docbook"@.len() == 7);
    assert("docx"@.len() == 4);
    assert("dokuwiki"@.len() == 8);
    assert("dzslides"@.len() == 8);
    assert("epub"@.len() == 4);
    assert("epub3"@.len() == 5);
    assert("fb2"@.len() == 3);
    assert("haddock"@.len() == 7);
    assert("html"@.len() == 4);
    assert("html5"@.len() == 5);
    assert("icml"@.len() == 4);
    assert("json"@.len() == 4);
    assert("latex"@.len() == 5);
    assert("man"@.len() == 3);
    assert("markdown"@.len() == 8);
    assert("markdown_github"@.len() == 15);
    assert("markdown_phpextra"@.len() == 17);
    assert("markdown_strict"@.len() == 15);
    assert("mediawiki"@.len() == 9);
    assert("native"@.len() == 6);
    assert("odt"@.len() == 3);
    assert("open_document"@.len() == 13);
    assert("opml"@.len() == 4);
    assert("org"@.len() == 3);
    assert("plain"@.len() == 5);
    assert("revealjs"@.len() == 8);
    assert("rst"@.len() == 3);
    assert("rtf"@.len() == 3);
    assert("s5"@.len() == 2);
    assert("slideous"@.len() == 8);
    assert("slidy"@.len() == 5);
    assert("texinfo"@.len() == 7);
    assert("textile"@.len() == 7);
}

/// Distinct markdown extensions have distinct names.
pub proof fn law_extension_names_distinct(a: MarkdownExtension, b: MarkdownExtension)
    ensures
        a.spec_name() == b.spec_name() ==> a == b,
{
    reveal_strlit("escaped_line_breaks");
    reveal_strlit("blank_before_header");
    reveal_strlit("header_attributes");
    reveal_strlit("auto_identifiers");
    reveal_strlit("implicit_header_references");
    reveal_strlit("blank_before_block_quote");
    reveal_strlit("fenced_code_blocks");
    reveal_strlit("backtick_code_blocks");
    reveal_strlit("fenced_code_attributes");
    reveal_strlit("line_blocks");
    reveal_strlit("fancy_lists");
    reveal_strlit("startnum");
    reveal_strlit("definition_lists");
    reveal_strlit("example_lists");
    reveal_strlit("table_captions");
    reveal_strlit("simple_tables");
    reveal_strlit("multiline_tables");
    reveal_strlit("grid_tables");
    reveal_strlit("pipe_tables");
    reveal_strlit("pandoc_title_block");
    reveal_strlit("yaml_metadata_block");
    reveal_strlit("all_symbols_escapable");
    reveal_strlit("intraword_underscores");
    reveal_strlit("strikeout");
    reveal_strlit("superscript");
    reveal_strlit("subscript");
    reveal_strlit("inline_code_attributes");
    reveal_strlit("tex_math_dollars");
    reveal_strlit("raw_html");
    reveal_strlit("markdown_in_html_blocks");
    reveal_strlit("native_divs");
    reveal_strlit("native_spans");
    reveal_strlit("raw_tex");
    reveal_strlit("latex_macros");
    reveal_strlit("shortcut_reference_links");
    reveal_strlit("implicit_figures");
    reveal_strlit("footnotes");
    reveal_strlit("inline_notes");
    reveal_strlit("citations");
    reveal_strlit("lists_without_preceding_blankline");
    reveal_strlit("hard_line_breaks");
    reveal_strlit("ignore_line_breaks");
    reveal_strlit("tex_math_single_backslash");
    reveal_strlit("tex_math_double_backslash");
    reveal_strlit("markdown_attribute");
    reveal_strlit("Mmd_title_block");
    reveal_strlit("abbreviations");
    reveal_strlit("autolink_bare_uris");
    reveal_strlit("ascii_identifiers");
    reveal_strlit("link_attributes");
    reveal_strlit("mmd_header_identifiers");
    reveal_strlit("compact_definition_lists");
    assert("Mmd_title_block"@[0] == 'M');
    assert("abbreviations"@[0] == 'a');
    assert("all_symbols_escapable"@[0] == 'a');
    assert("ascii_identifiers"@[0] == 'a');
    assert("auto_identifiers"@[0] == 'a');
    assert("autolink_bare_uris"@[0] == 'a');
    assert("blank_before_block_quote"@[0] == 'b');
    assert("blank_before_header"@[0] == 'b');
    assert("citations"@[0] == 'c');
    assert("compact_definition_lists"@[0] == 'c');
    assert("definition_lists"@[0] == 'd');
    assert("escaped_line_breaks"@[0] == 'e');
    assert("example_lists"@[0] == 'e');
    assert("fancy_lists"@[0] == 'f');
    assert("fenced_code_attributes"@[0] == 'f');
    assert("fenced_code_blocks"@[0] == 'f');
    assert("footnotes"@[0] == 'f');
    assert("grid_tables"@[0] == 'g');
    assert("hard_line_breaks"@[0] == 'h');
    assert("header_attributes"@[0] == 'h');
    assert("ignore_line_breaks"@[0] == 'i');
    assert("implicit_figures"@[0] == 'i');
    assert("inline_code_attributes"@[0] == 'i');
    assert("inline_notes"@[0] == 'i');
    assert("intraword_underscores"@[0] == 'i');
    assert("latex_macros"@[0] == 'l');
    assert("line_blocks"@[0] == 'l');
    assert("link_attributes"@[0] == 'l');
    assert("markdown_attribute"@[0] == 'm');
    assert("mmd_header_identifiers"@[0] == 'm');
    assert("multiline_tables"@[0] == 'm');
    assert("native_divs"@[0] == 'n');
    assert("native_spans"@[0] == 'n');
    assert("pandoc_title_block"@[0] == 'p');
    assert("pipe_tables"@[0] == 'p');
    assert("raw_html"@[0] == 'r');
    assert("shortcut_reference_links"@[0] == 's');
    assert("simple_tables"@[0] == 's');
    assert("startnum"@[0] == 's');
    assert("strikeout"@[0] == 's');
    assert("strikeout"@[1] == 't');
    assert("subscript"@[0] == 's');
    assert("subscript"@[1] == 'u');
    assert("superscript"@[0] == 's');
    assert("tex_math_dollars"@[0] == 't');
    assert("tex_math_double_backslash"@[9] == 'd');
    assert("tex_math_single_backslash"@[9] == 's');
    assert("yaml_metadata_block"@[0] == 'y');
    assert("Mmd_title_block"@.len() == 15);
    assert("abbreviations"@.len() == 13);
    assert("all_symbols_escapable"@.len() == 21);
    assert("ascii_identifiers"@.len() == 17);
    assert("auto_identifiers"@.len() == 16);
    assert("autolink_bare_uris"@.len() == 18);
    assert("backtick_code_blocks"@.len() == 20);
    assert("blank_before_block_quote"@.len() == 24);
    assert("blank_before_header"@.len() == 19);
    assert("citations"@.len() == 9);
    assert("compact_definition_lists"@.len() == 24);
    assert("definition_lists"@.len() == 16);
    assert("escaped_line_breaks"@.len() == 19);
    assert("example_lists"@.len() == 13);
    assert("fancy_lists"@.len() == 11);
    assert("fenced_code_attributes"@.len() == 22);
    assert("fenced_code_blocks"@.len() == 18);
    assert("footnotes"@.len() == 9);
    assert("grid_tables"@.len() == 11);
    assert("hard_line_breaks"@.len() == 16);
    assert("header_attributes"@.len() == 17);
    assert("ignore_line_breaks"@.len() == 18);
    assert("implicit_figures"@.len() == 16);
    assert("implicit_header_references"@.len() == 26);
    assert("inline_code_attributes"@.len() == 22);
    assert("inline_notes"@.len() == 12);
    assert("intraword_underscores"@.len() == 21);
    assert("latex_macros"@.len() == 12);
    assert("line_blocks"@.len() == 11);
    assert("link_attributes"@.len() == 15);
    assert("lists_without_preceding_blankline"@.len() == 33);
    assert("markdown_attribute"@.len() == 18);
    assert("markdown_in_html_blocks"@.len() == 23);
    assert("mmd_header_identifiers"@.len() == 22);
    assert("multiline_tables"@.len() == 16);
    assert("native_divs"@.len() == 11);
    assert("native_spans"@.len() == 12);
    assert("pandoc_title_block"@.len() == 18);
    assert("pipe_tables"@.len() == 11);
    assert("raw_html"@.len() == 8);
    assert("raw_tex"@.len() == 7);
    assert("shortcut_reference_links"@.len() == 24);
    assert("simple_tables"@.len() == 13);
    assert("startnum"@.len() == 8);
    assert("strikeout"@.len() == 9);
    assert("subscript"@.len() == 9);
    assert("superscript"@.len() == 11);
    assert("table_captions"@.len() == 14);
    assert("tex_math_dollars"@.len() == 16);
    assert("tex_math_double_backslash"@.len() == 25);
    assert("tex_math_single_backslash"@.len() == 25);
    assert("yaml_metadata_block"@.len() == 19);
}

/// A lower-case ASCII letter, a digit or `_`.
pub open spec fn is_lower_name_char(c: char) -> bool {
    ('a' <= c && c <= 'z') || ('0' <= c && c <= '9') || c == '_'
}

/// An ASCII letter, a digit or `_`.
pub open spec fn is_name_char(c: char) -> bool {
    is_lower_name_char(c) || ('A' <= c && c <= 'Z')
}

/// The name of an input format is made of lower-case letters, digits and `_`.
pub proof fn law_input_format_name_chars(a: InputFormat)
    ensures
        a.spec_name().len() > 0,
        forall|i: int| 0 <= i < a.spec_name().len() ==> is_lower_name_char(#[trigger] a.spec_name()[i]),
{
    match a {
        InputFormat::Native => {
            reveal_strlit("native");
            assert("native"@ =~= seq!['n', 'a', 't', 'i', 'v', 'e']);
        },
        InputFormat::Json => {
            reveal_strlit("json");
            assert("json"@ =~= seq!['j', 's', 'o', 'n']);
        },
        InputFormat::Markdown => {
            reveal_strlit("markdown");
            assert("markdown"@ =~= seq!['m', 'a', 'r', 'k', 'd', 'o', 'w', 'n']);
        },
        InputFormat::MarkdownStrict => {
            reveal_strlit("markdown_strict");
            assert("markdown_strict"@ =~= seq!['m', 'a', 'r', 'k', 'd', 'o', 'w', 'n', '_', 's', 't', 'r', 'i', 'c', 't']);
        },
        InputFormat::MarkdownPhpextra => {
            reveal_strlit("markdown_phpextra");
            assert("markdown_phpextra"@ =~= seq!['m', 'a', 'r', 'k', 'd', 'o', 'w', 'n', '_', 'p', 'h', 'p', 'e', 'x', 't', 'r', 'a']);
        },
        InputFormat::MarkdownGithub => {
            reveal_strlit("markdown_github");
            assert("markdown_github"@ =~= seq!['m', 'a', 'r', 'k', 'd', 'o', 'w', 'n', '_', 'g', 'i', 't', 'h', 'u', 'b']);
        },
        InputFormat::Commonmark => {
            reveal_strlit("commonmark");
            assert("commonmark"@ =~= seq!['c', 'o', 'm', 'm', 'o', 'n', 'm', 'a', 'r', 'k']);
        },
        InputFormat::Textile => {
            reveal_strlit("textile");
            assert("textile"@ =~= seq!['t', 'e', 'x', 't', 'i', 'l', 'e']);
        },
        InputFormat::Rst => {
            reveal_strlit("rst");
            assert("rst"@ =~= seq!['r', 's', 't']);
        },
        InputFormat::Html => {
            reveal_strlit("html");
            assert("html"@ =~= seq!['h', 't', 'm', 'l']);
        },
        InputFormat::DocBook => {
            reveal_strlit("docbook");
            assert("docbook"@ =~= seq!['d', 'o', 'c', 'b', 'o', 'o', 'k']);
        },
        InputFormat::T2t => {
            reveal_strlit("t2t");
            assert("t2t"@ =~= seq!['t', '2', 't']);
        },
        InputFormat::Docx => {
            reveal_strlit("docx");
            assert("docx"@ =~= seq!['d', 'o', 'c', 'x']);
        },
        InputFormat::Epub => {
            reveal_strlit("epub");
            assert("epub"@ =~= seq!['e', 'p', 'u', 'b']);
        },
        InputFormat::Opml => {
            reveal_strlit("opml");
            assert("opml"@ =~= seq!['o', 'p', 'm', 'l']);
        },
        InputFormat::Org => {
            reveal_strlit("org");
            assert("org"@ =~= seq!['o', 'r', 'g']);
        },
        InputFormat::MediaWiki => {
            reveal_strlit("mediawiki");
            assert("mediawiki"@ =~= seq!['m', 'e', 'd', 'i', 'a', 'w', 'i', 'k', 'i']);
        },
        InputFormat::Twiki => {
            reveal_strlit("twiki");
            assert("twiki"@ =~= seq!['t', 'w', 'i', 'k', 'i']);
        },
        InputFormat::Haddock => {
            reveal_strlit("haddock");
            assert("haddock"@ =~= seq!['h', 'a', 'd', 'd', 'o', 'c', 'k']);
        },
        InputFormat::Latex => {
            reveal_strlit("latex");
            assert("latex"@ =~= seq!['l', 'a', 't', 'e', 'x']);
        },
    }
}

/// The name of an output format that is not a custom writer is made of
/// lower-case letters, digits and `_`.
pub proof fn law_output_format_name_chars(a: OutputFormat)
    requires
        !(a is Lua),
    ensures
        a.spec_name().len() > 0,
        forall|i: int| 0 <= i < a.spec_name().len() ==> is_lower_name_char(#[trigger] a.spec_name()[i]),
{
    match a {
        OutputFormat::Native => {
            reveal_strlit("native");
            assert("native"@ =~= seq!['n', 'a', 't', 'i', 'v', 'e']);
        },
        OutputFormat::Json => {
            reveal_strlit("json");
            assert("json"@ =~= seq!['j', 's', 'o', 'n']);
        },
        OutputFormat::Plain => {
            reveal_strlit("plain");
            assert("plain"@ =~= seq!['p', 'l', 'a', 'i', 'n']);
        },
        OutputFormat::Markdown => {
            reveal_strlit("markdown");
            assert("markdown"@ =~= seq!['m', 'a', 'r', 'k', 'd', 'o', 'w', 'n']);
        },
        OutputFormat::MarkdownStrict => {
            reveal_strlit("markdown_strict");
            assert("markdown_strict"@ =~= seq!['m', 'a', 'r', 'k', 'd', 'o', 'w', 'n', '_', 's', 't', 'r', 'i', 'c', 't']);
        },
        OutputFormat::MarkdownPhpextra => {
            reveal_strlit("markdown_phpextra");
            assert("markdown_phpextra"@ =~= seq!['m', 'a', 'r', 'k', 'd', 'o', 'w', 'n', '_', 'p', 'h', 'p', 'e', 'x', 't', 'r', 'a']);
        },
        OutputFormat::MarkdownGithub => {
            reveal_strlit("markdown_github");
            assert("markdown_github"@ =~= seq!['m', 'a', 'r', 'k', 'd', 'o', 'w', 'n', '_', 'g', 'i', 't', 'h', 'u', 'b']);
        },
        OutputFormat::Commonmark => {
            reveal_strlit("commonmark");
            assert("commonmark"@ =~= seq!['c', 'o', 'm', 'm', 'o', 'n', 'm', 'a', 'r', 'k']);
        },
        OutputFormat::Rst => {
            reveal_strlit("rst");
            assert("rst"@ =~= seq!['r', 's', 't']);
        },
        OutputFormat::Html => {
            reveal_strlit("html");
            assert("html"@ =~= seq!['h', 't', 'm', 'l']);
        },
        OutputFormat::Html5 => {
            reveal_strlit("html5");
            assert("html5"@ =~= seq!['h', 't', 'm', 'l', '5']);
        },
        OutputFormat::Latex => {
            reveal_strlit("latex");
            assert("latex"@ =~= seq!['l', 'a', 't', 'e', 'x']);
        },
        OutputFormat::Beamer => {
            reveal_strlit("beamer");
            assert("beamer"@ =~= seq!['b', 'e', 'a', 'm', 'e', 'r']);
        },
        OutputFormat::Context => {
            reveal_strlit("context");
            assert("context"@ =~= seq!['c', 'o', 'n', 't', 'e', 'x', 't']);
        },
        OutputFormat::Man => {
            reveal_strlit("man");
            assert("man"@ =~= seq!['m', 'a', 'n']);
        },
        OutputFormat::MediaWiki => {
            reveal_strlit("mediawiki");
            assert("mediawiki"@ =~= seq!['m', 'e', 'd', 'i', 'a', 'w', 'i', 'k', 'i']);
        },
        OutputFormat::Dokuwiki => {
            reveal_strlit("dokuwiki");
            assert("dokuwiki"@ =~= seq!['d', 'o', 'k', 'u', 'w', 'i', 'k', 'i']);
        },
        OutputFormat::Textile => {
            reveal_strlit("textile");
            assert("textile"@ =~= seq!['t', 'e', 'x', 't', 'i', 'l', 'e']);
        },
        OutputFormat::Org => {
            reveal_strlit("org");
            assert("org"@ =~= seq!['o', 'r', 'g']);
        },
        OutputFormat::Texinfo => {
            reveal_strlit("texinfo");
            assert("texinfo"@ =~= seq!['t', 'e', 'x', 'i', 'n', 'f', 'o']);
        },
        OutputFormat::Opml => {
            reveal_strlit("opml");
            assert("opml"@ =~= seq!['o', 'p', 'm', 'l']);
        },
        OutputFormat::Docbook => {
            reveal_strlit("docbook");
            assert("docbook"@ =~= seq!['d', 'o', 'c', 'b', 'o', 'o', 'k']);
        },
        OutputFormat::OpenDocument => {
            reveal_strlit("open_document");
            assert("open_document"@ =~= seq!['o', 'p', 'e', 'n', '_', 'd', 'o', 'c', 'u', 'm', 'e', 'n', 't']);
        },
        OutputFormat::Odt => {
            reveal_strlit("odt");
            assert("odt"@ =~= seq!['o', 'd', 't']);
        },
        OutputFormat::Docx => {
            reveal_strlit("docx");
            assert("docx"@ =~= seq!['d', 'o', 'c', 'x']);
        },
        OutputFormat::Haddock => {
            reveal_strlit("haddock");
            assert("haddock"@ =~= seq!['h', 'a', 'd', 'd', 'o', 'c', 'k']);
        },
        OutputFormat::Rtf => {
            reveal_strlit("rtf");
            assert("rtf"@ =~= seq!['r', 't', 'f']);
        },
        OutputFormat::Epub => {
            reveal_strlit("epub");
            assert("epub"@ =~= seq!['e', 'p', 'u', 'b']);
        },
        OutputFormat::Epub3 => {
            reveal_strlit("epub3");
            assert("epub3"@ =~= seq!['e', 'p', 'u', 'b', '3']);
        },
        OutputFormat::Fb2 => {
            reveal_strlit("fb2");
            assert("fb2"@ =~= seq!['f', 'b', '2']);
        },
        OutputFormat::Asciidoc => {
            reveal_strlit("asciidoc");
            assert("asciidoc"@ =~= seq!['a', 's', 'c', 'i', 'i', 'd', 'o', 'c']);
        },
        OutputFormat::Icml => {
            reveal_strlit("icml");
            assert("icml"@ =~= seq!['i', 'c', 'm', 'l']);
        },
        OutputFormat::Slidy => {
            reveal_strlit("slidy");
            assert("slidy"@ =~= seq!['s', 'l', 'i', 'd', 'y']);
        },
        OutputFormat::Slideous => {
            reveal_strlit("slideous");
            assert("slideous"@ =~= seq!['s', 'l', 'i', 'd', 'e', 'o', 'u', 's']);
        },
        OutputFormat::Dzslides => {
            reveal_strlit("dzslides");
            assert("dzslides"@ =~= seq!['d', 'z', 's', 'l', 'i', 'd', 'e', 's']);
        },
        OutputFormat::Revealjs => {
            reveal_strlit("revealjs");
            assert("revealjs"@ =~= seq!['r', 'e', 'v', 'e', 'a', 'l', 'j', 's']);
        },
        OutputFormat::S5 => {
            reveal_strlit("s5");
            assert("s5"@ =~= seq!['s', '5']);
        },
        _ => {},
    }
}

/// The name of a markdown extension is made of letters, digits and `_`: it
/// holds no `+`, which separates extensions, and no white space.
pub proof fn law_extension_name_chars(a: MarkdownExtension)
    ensures
        a.spec_name().len() > 0,
        forall|i: int| 0 <= i < a.spec_name().len() ==> is_name_char(#[trigger] a.spec_name()[i]),
{
    match a {
        MarkdownExtension::EscapedLineBreaks => {
            reveal_strlit("escaped_line_breaks");
            assert("escaped_line_breaks"@ =~= seq!['e', 's', 'c', 'a', 'p', 'e', 'd', '_', 'l', 'i', 'n', 'e', '_', 'b', 'r', 'e', 'a', 'k', 's']);
        },
        MarkdownExtension::BlankBeforeHeader => {
            reveal_strlit("blank_before_header");
            assert("blank_before_header"@ =~= seq!['b', 'l', 'a', 'n', 'k', '_', 'b', 'e', 'f', 'o', 'r', 'e', '_', 'h', 'e', 'a', 'd', 'e', 'r']);
        },
        MarkdownExtension::HeaderAttributes => {
            reveal_strlit("header_attributes");
            assert("header_attributes"@ =~= seq!['h', 'e', 'a', 'd', 'e', 'r', '_', 'a', 't', 't', 'r', 'i', 'b', 'u', 't', 'e', 's']);
        },
        MarkdownExtension::AutoIdentifiers => {
            reveal_strlit("auto_identifiers");
            assert("auto_identifiers"@ =~= seq!['a', 'u', 't', 'o', '_', 'i', 'd', 'e', 'n', 't', 'i', 'f', 'i', 'e', 'r', 's']);
        },
        MarkdownExtension::ImplicitHeaderReferences => {
            reveal_strlit("implicit_header_references");
            assert("implicit_header_references"@ =~= seq!['i', 'm', 'p', 'l', 'i', 'c', 'i', 't', '_', 'h', 'e', 'a', 'd', 'e', 'r', '_', 'r', 'e', 'f', 'e', 'r', 'e', 'n', 'c', 'e', 's']);
        },
        MarkdownExtension::BlankBeforeBlockQuote => {
            reveal_strlit("blank_before_block_quote");
            assert("blank_before_block_quote"@ =~= seq!['b', 'l', 'a', 'n', 'k', '_', 'b', 'e', 'f', 'o', 'r', 'e', '_', 'b', 'l', 'o', 'c', 'k', '_', 'q', 'u', 'o', 't', 'e']);
        },
        MarkdownExtension::FencedCodeBlocks => {
            reveal_strlit("fenced_code_blocks");
            assert("fenced_code_blocks"@ =~= seq!['f', 'e', 'n', 'c', 'e', 'd', '_', 'c', 'o', 'd', 'e', '_', 'b', 'l', 'o', 'c', 'k', 's']);
        },
        MarkdownExtension::BacktickCodeBlocks => {
            reveal_strlit("backtick_code_blocks");
            assert("backtick_code_blocks"@ =~= seq!['b', 'a', 'c', 'k', 't', 'i', 'c', 'k', '_', 'c', 'o', 'd', 'e', '_', 'b', 'l', 'o', 'c', 'k', 's']);
        },
        MarkdownExtension::FencedCodeAttributes => {
            reveal_strlit("fenced_code_attributes");
            assert("fenced_code_attributes"@ =~= seq!['f', 'e', 'n', 'c', 'e', 'd', '_', 'c', 'o', 'd', 'e', '_', 'a', 't', 't', 'r', 'i', 'b', 'u', 't', 'e', 's']);
        },
        MarkdownExtension::LineBlocks => {
            reveal_strlit("line_blocks");
            assert("line_blocks"@ =~= seq!['l', 'i', 'n', 'e', '_', 'b', 'l', 'o', 'c', 'k', 's']);
        },
        MarkdownExtension::FancyLists => {
            reveal_strlit("fancy_lists");
            assert("fancy_lists"@ =~= seq!['f', 'a', 'n', 'c', 'y', '_', 'l', 'i', 's', 't', 's']);
        },
        MarkdownExtension::Startnum => {
            reveal_strlit("startnum");
            assert("startnum"@ =~= seq!['s', 't', 'a', 'r', 't', 'n', 'u', 'm']);
        },
        MarkdownExtension::DefinitionLists => {
            reveal_strlit("definition_lists");
            assert("definition_lists"@ =~= seq!['d', 'e', 'f', 'i', 'n', 'i', 't', 'i', 'o', 'n', '_', 'l', 'i', 's', 't', 's']);
        },
        MarkdownExtension::ExampleLists => {
            reveal_strlit("example_lists");
            assert("example_lists"@ =~= seq!['e', 'x', 'a', 'm', 'p', 'l', 'e', '_', 'l', 'i', 's', 't', 's']);
        },
        MarkdownExtension::TableCaptions => {
            reveal_strlit("table_captions");
            assert("table_captions"@ =~= seq!['t', 'a', 'b', 'l', 'e', '_', 'c', 'a', 'p', 't', 'i', 'o', 'n', 's']);
        },
        MarkdownExtension::SimpleTables => {
            reveal_strlit("simple_tables");
            assert("simple_tables"@ =~= seq!['s', 'i', 'm', 'p', 'l', 'e', '_', 't', 'a', 'b', 'l', 'e', 's']);
        },
        MarkdownExtension::MultilineTables => {
            reveal_strlit("multiline_tables");
            assert("multiline_tables"@ =~= seq!['m', 'u', 'l', 't', 'i', 'l', 'i', 'n', 'e', '_', 't', 'a', 'b', 'l', 'e', 's']);
        },
        MarkdownExtension::GridTables => {
            reveal_strlit("grid_tables");
            assert("grid_tables"@ =~= seq!['g', 'r', 'i', 'd', '_', 't', 'a', 'b', 'l', 'e', 's']);
        },
        MarkdownExtension::PipeTables => {
            reveal_strlit("pipe_tables");
            assert("pipe_tables"@ =~= seq!['p', 'i', 'p', 'e', '_', 't', 'a', 'b', 'l', 'e', 's']);
        },
        MarkdownExtension::PandocTitleBlock => {
            reveal_strlit("pandoc_title_block");
            assert("pandoc_title_block"@ =~= seq!['p', 'a', 'n', 'd', 'o', 'c', '_', 't', 'i', 't', 'l', 'e', '_', 'b', 'l', 'o', 'c', 'k']);
        },
        MarkdownExtension::YamlMetadataBlock => {
            reveal_strlit("yaml_metadata_block");
            assert("yaml_metadata_block"@ =~= seq!['y', 'a', 'm', 'l', '_', 'm', 'e', 't', 'a', 'd', 'a', 't', 'a', '_', 'b', 'l', 'o', 'c', 'k']);
        },
        MarkdownExtension::AllSymbolsEscapable => {
            reveal_strlit("all_symbols_escapable");
            assert("all_symbols_escapable"@ =~= seq!['a', 'l', 'l', '_', 's', 'y', 'm', 'b', 'o', 'l', 's', '_', 'e', 's', 'c', 'a', 'p', 'a', 'b', 'l', 'e']);
        },
        MarkdownExtension::IntrawordUnderscores => {
            reveal_strlit("intraword_underscores");
            assert("intraword_underscores"@ =~= seq!['i', 'n', 't', 'r', 'a', 'w', 'o', 'r', 'd', '_', 'u', 'n', 'd', 'e', 'r', 's', 'c', 'o', 'r', 'e', 's']);
        },
        MarkdownExtension::Strikeout => {
            reveal_strlit("strikeout");
            assert("strikeout"@ =~= seq!['s', 't', 'r', 'i', 'k', 'e', 'o', 'u', 't']);
        },
        MarkdownExtension::Superscript => {
            reveal_strlit("superscript");
            assert("superscript"@ =~= seq!['s', 'u', 'p', 'e', 'r', 's', 'c', 'r', 'i', 'p', 't']);
        },
        MarkdownExtension::Subscript => {
            reveal_strlit("subscript");
            assert("subscript"@ =~= seq!['s', 'u', 'b', 's', 'c', 'r', 'i', 'p', 't']);
        },
        MarkdownExtension::InlineCodeAttributes => {
            reveal_strlit("inline_code_attributes");
            assert("inline_code_attributes"@ =~= seq!['i', 'n', 'l', 'i', 'n', 'e', '_', 'c', 'o', 'd', 'e', '_', 'a', 't', 't', 'r', 'i', 'b', 'u', 't', 'e', 's']);
        },
        MarkdownExtension::TexMathDollars => {
            reveal_strlit("tex_math_dollars");
            assert("tex_math_dollars"@ =~= seq!['t', 'e', 'x', '_', 'm', 'a', 't', 'h', '_', 'd', 'o', 'l', 'l', 'a', 'r', 's']);
        },
        MarkdownExtension::RawHtml => {
            reveal_strlit("raw_html");
            assert("raw_html"@ =~= seq!['r', 'a', 'w', '_', 'h', 't', 'm', 'l']);
        },
        MarkdownExtension::MarkdownInHtmlBlocks => {
            reveal_strlit("markdown_in_html_blocks");
            assert("markdown_in_html_blocks"@ =~= seq!['m', 'a', 'r', 'k', 'd', 'o', 'w', 'n', '_', 'i', 'n', '_', 'h', 't', 'm', 'l', '_', 'b', 'l', 'o', 'c', 'k', 's']);
        },
        MarkdownExtension::NativeDivs => {
            reveal_strlit("native_divs");
            assert("native_divs"@ =~= seq!['n', 'a', 't', 'i', 'v', 'e', '_', 'd', 'i', 'v', 's']);
        },
        MarkdownExtension::NativeSpans => {
            reveal_strlit("native_spans");
            assert("native_spans"@ =~= seq!['n', 'a', 't', 'i', 'v', 'e', '_', 's', 'p', 'a', 'n', 's']);
        },
        MarkdownExtension::RawTex => {
            reveal_strlit("raw_tex");
            assert("raw_tex"@ =~= seq!['r', 'a', 'w', '_', 't', 'e', 'x']);
        },
        MarkdownExtension::LatexMacros => {
            reveal_strlit("latex_macros");
            assert("latex_macros"@ =~= seq!['l', 'a', 't', 'e', 'x', '_', 'm', 'a', 'c', 'r', 'o', 's']);
        },
        MarkdownExtension::ShortcutReferenceLinks => {
            reveal_strlit("shortcut_reference_links");
            assert("shortcut_reference_links"@ =~= seq!['s', 'h', 'o', 'r', 't', 'c', 'u', 't', '_', 'r', 'e', 'f', 'e', 'r', 'e', 'n', 'c', 'e', '_', 'l', 'i', 'n', 'k', 's']);
        },
        MarkdownExtension::ImplicitFigures => {
            reveal_strlit("implicit_figures");
            assert("implicit_figures"@ =~= seq!['i', 'm', 'p', 'l', 'i', 'c', 'i', 't', '_', 'f', 'i', 'g', 'u', 'r', 'e', 's']);
        },
        MarkdownExtension::Footnotes => {
            reveal_strlit("footnotes");
            assert("footnotes"@ =~= seq!['f', 'o', 'o', 't', 'n', 'o', 't', 'e', 's']);
        },
        MarkdownExtension::InlineNotes => {
            reveal_strlit("inline_notes");
            assert("inline_notes"@ =~= seq!['i', 'n', 'l', 'i', 'n', 'e', '_', 'n', 'o', 't', 'e', 's']);
        },
        MarkdownExtension::Citations => {
            reveal_strlit("citations");
            assert("citations"@ =~= seq!['c', 'i', 't', 'a', 't', 'i', 'o', 'n', 's']);
        },
        MarkdownExtension::ListsWithoutPrecedingBlankline => {
            reveal_strlit("lists_without_preceding_blankline");
            assert("lists_without_preceding_blankline"@ =~= seq!['l', 'i', 's', 't', 's', '_', 'w', 'i', 't', 'h', 'o', 'u', 't', '_', 'p', 'r', 'e', 'c', 'e', 'd', 'i', 'n', 'g', '_', 'b', 'l', 'a', 'n', 'k', 'l', 'i', 'n', 'e']);
        },
        MarkdownExtension::HardLineBreaks => {
            reveal_strlit("hard_line_breaks");
            assert("hard_line_breaks"@ =~= seq!['h', 'a', 'r', 'd', '_', 'l', 'i', 'n', 'e', '_', 'b', 'r', 'e', 'a', 'k', 's']);
        },
        MarkdownExtension::IgnoreLineBreaks => {
            reveal_strlit("ignore_line_breaks");
            assert("ignore_line_breaks"@ =~= seq!['i', 'g', 'n', 'o', 'r', 'e', '_', 'l', 'i', 'n', 'e', '_', 'b', 'r', 'e', 'a', 'k', 's']);
        },
        MarkdownExtension::TexMathSingleBackslash => {
            reveal_strlit("tex_math_single_backslash");
            assert("tex_math_single_backslash"@ =~= seq!['t', 'e', 'x', '_', 'm', 'a', 't', 'h', '_', 's', 'i', 'n', 'g', 'l', 'e', '_', 'b', 'a', 'c', 'k', 's', 'l', 'a', 's', 'h']);
        },
        MarkdownExtension::TexMathDoubleBackslash => {
            reveal_strlit("tex_math_double_backslash");
            assert("tex_math_double_backslash"@ =~= seq!['t', 'e', 'x', '_', 'm', 'a', 't', 'h', '_', 'd', 'o', 'u', 'b', 'l', 'e', '_', 'b', 'a', 'c', 'k', 's', 'l', 'a', 's', 'h']);
        },
        MarkdownExtension::MarkdownAttribute => {
            reveal_strlit("markdown_attribute");
            assert("markdown_attribute"@ =~= seq!['m', 'a', 'r', 'k', 'd', 'o', 'w', 'n', '_', 'a', 't', 't', 'r', 'i', 'b', 'u', 't', 'e']);
        },
        MarkdownExtension::MmdTitleBlock => {
            reveal_strlit("Mmd_title_block");
            assert("Mmd_title_block"@ =~= seq!['M', 'm', 'd', '_', 't', 'i', 't', 'l', 'e', '_', 'b', 'l', 'o', 'c', 'k']);
        },
        MarkdownExtension::Abbreviations => {
            reveal_strlit("abbreviations");
            assert("abbreviations"@ =~= seq!['a', 'b', 'b', 'r', 'e', 'v', 'i', 'a', 't', 'i', 'o', 'n', 's']);
        },
        MarkdownExtension::AutolinkBareUris => {
            reveal_strlit("autolink_bare_uris");
            assert("autolink_bare_uris"@ =~= seq!['a', 'u', 't', 'o', 'l', 'i', 'n', 'k', '_', 'b', 'a', 'r', 'e', '_', 'u', 'r', 'i', 's']);
        },
        MarkdownExtension::AsciiIdentifiers => {
            reveal_strlit("ascii_identifiers");
            assert("ascii_identifiers"@ =~= seq!['a', 's', 'c', 'i', 'i', '_', 'i', 'd', 'e', 'n', 't', 'i', 'f', 'i', 'e', 'r', 's']);
        },
        MarkdownExtension::LinkAttributes => {
            reveal_strlit("link_attributes");
            assert("link_attributes"@ =~= seq!['l', 'i', 'n', 'k', '_', 'a', 't', 't', 'r', 'i', 'b', 'u', 't', 'e', 's']);
        },
        MarkdownExtension::MmdHeaderIdentifiers => {
            reveal_strlit("mmd_header_identifiers");
            assert("mmd_header_identifiers"@ =~= seq!['m', 'm', 'd', '_', 'h', 'e', 'a', 'd', 'e', 'r', '_', 'i', 'd', 'e', 'n', 't', 'i', 'f', 'i', 'e', 'r', 's']);
        },
        MarkdownExtension::CompactDefinitionLists => {
            reveal_strlit("compact_definition_lists");
            assert("compact_definition_lists"@ =~= seq!['c', 'o', 'm', 'p', 'a', 'c', 't', '_', 'd', 'e', 'f', 'i', 'n', 'i', 't', 'i', 'o', 'n', '_', 'l', 'i', 's', 't', 's']);
        },
    }
}

/// Each value is named by the word `--track-changes` takes, as pandoc spells it.
pub proof fn law_track_changes_names(value: TrackChanges)
    ensures
        (match value {
            TrackChanges::Accept => value.spec_name() == "accept"@,
            TrackChanges::Reject => value.spec_name() == "reject"@,
            TrackChanges::All => value.spec_name() == "all"@,
        }),
{
}

/// Each value is named by the word `--email-obfuscation` takes, as pandoc spells it.
pub proof fn law_email_obfuscation_names(value: EmailObfuscation)
    ensures
        (match value {
            EmailObfuscation::NoObfuscation => value.spec_name() == "none"@,
            EmailObfuscation::Javascript => value.spec_name() == "javascript"@,
            EmailObfuscation::References => value.spec_name() == "references"@,
        }),
{
}

/// Each value is named by the LaTeX document class, as pandoc spells it.
pub proof fn law_document_class_names(value: DocumentClass)
    ensures
        (match value {
            DocumentClass::Article => value.spec_name() == "article"@,
            DocumentClass::Report => value.spec_name() == "report"@,
            DocumentClass::Book => value.spec_name() == "book"@,
        }),
{
}

/// Each value is named by the writer pandoc uses for `-t` (a custom writer by its path), as pandoc spells it.
pub proof fn law_output_format_names(value: OutputFormat)
    ensures
        (match value {
            OutputFormat::Native => value.spec_name() == "native"@,
            OutputFormat::Json => value.spec_name() == "json"@,
            OutputFormat::Plain => value.spec_name() == "plain"@,
            OutputFormat::Markdown => value.spec_name() == "markdown"@,
            OutputFormat::MarkdownStrict => value.spec_name() == "markdown_strict"@,
            OutputFormat::MarkdownPhpextra => value.spec_name() == "markdown_phpextra"@,
            OutputFormat::MarkdownGithub => value.spec_name() == "markdown_github"@,
            OutputFormat::Commonmark => value.spec_name() == "commonmark"@,
            OutputFormat::Rst => value.spec_name() == "rst"@,
            OutputFormat::Html => value.spec_name() == "html"@,
            OutputFormat::Html5 => value.spec_name() == "html5"@,
            OutputFormat::Latex => value.spec_name() == "latex"@,
            OutputFormat::Beamer => value.spec_name() == "beamer"@,
            OutputFormat::Context => value.spec_name() == "context"@,
            OutputFormat::Man => value.spec_name() == "man"@,
            OutputFormat::MediaWiki => value.spec_name() == "mediawiki"@,
            OutputFormat::Dokuwiki => value.spec_name() == "dokuwiki"@,
            OutputFormat::Textile => value.spec_name() == "textile"@,
            OutputFormat::Org => value.spec_name() == "org"@,
            OutputFormat::Texinfo => value.spec_name() == "texinfo"@,
            OutputFormat::Opml => value.spec_name() == "opml"@,
            OutputFormat::Docbook => value.spec_name() == "docbook"@,
            OutputFormat::OpenDocument => value.spec_name() == "open_document"@,
            OutputFormat::Odt => value.spec_name() == "odt"@,
            OutputFormat::Docx => value.spec_name() == "docx"@,
            OutputFormat::Haddock => value.spec_name() == "haddock"@,
            OutputFormat::Rtf => value.spec_name() == "rtf"@,
            OutputFormat::Epub => value.spec_name() == "epub"@,
            OutputFormat::Epub3 => value.spec_name() == "epub3"@,
            OutputFormat::Fb2 => value.spec_name() == "fb2"@,
            OutputFormat::Asciidoc => value.spec_name() == "asciidoc"@,
            OutputFormat::Icml => value.spec_name() == "icml"@,
            OutputFormat::Slidy => value.spec_name() == "slidy"@,
            OutputFormat::Slideous => value.spec_name() == "slideous"@,
            OutputFormat::Dzslides => value.spec_name() == "dzslides"@,
            OutputFormat::Revealjs => value.spec_name() == "revealjs"@,
            OutputFormat::S5 => value.spec_name() == "s5"@,
            OutputFormat::Lua(path) => value.spec_name() == path@,
        }),
{
}

/// Each value is named by the reader pandoc uses for `-f`, as pandoc spells it.
pub proof fn law_input_format_names(value: InputFormat)
    ensures
        (match value {
            InputFormat::Native => value.spec_name() == "native"@,
            InputFormat::Json => value.spec_name() == "json"@,
            InputFormat::Markdown => value.spec_name() == "markdown"@,
            InputFormat::MarkdownStrict => value.spec_name() == "markdown_strict"@,
            InputFormat::MarkdownPhpextra => value.spec_name() == "markdown_phpextra"@,
            InputFormat::MarkdownGithub => value.spec_name() == "markdown_github"@,
            InputFormat::Commonmark => value.spec_name() == "commonmark"@,
            InputFormat::Textile => value.spec_name() == "textile"@,
            InputFormat::Rst => value.spec_name() == "rst"@,
            InputFormat::Html => value.spec_name() == "html"@,
            InputFormat::DocBook => value.spec_name() == "docbook"@,
            InputFormat::T2t => value.spec_name() == "t2t"@,
            InputFormat::Docx => value.spec_name() == "docx"@,
            InputFormat::Epub => value.spec_name() == "epub"@,
            InputFormat::Opml => value.spec_name() == "opml"@,
            InputFormat::Org => value.spec_name() == "org"@,
            InputFormat::MediaWiki => value.spec_name() == "mediawiki"@,
            InputFormat::Twiki => value.spec_name() == "twiki"@,
            InputFormat::Haddock => value.spec_name() == "haddock"@,
            InputFormat::Latex => value.spec_name() == "latex"@,
        }),
{
}

/// Each value is named by the extension pandoc adds after `+`, as pandoc spells it.
pub proof fn law_extension_names(value: MarkdownExtension)
    ensures
        (match value {
            MarkdownExtension::EscapedLineBreaks => value.spec_name() == "escaped_line_breaks"@,
            MarkdownExtension::BlankBeforeHeader => value.spec_name() == "blank_before_header"@,
            MarkdownExtension::HeaderAttributes => value.spec_name() == "header_attributes"@,
            MarkdownExtension::AutoIdentifiers => value.spec_name() == "auto_identifiers"@,
            MarkdownExtension::ImplicitHeaderReferences => value.spec_name() == "implicit_header_references"@,
            MarkdownExtension::BlankBeforeBlockQuote => value.spec_name() == "blank_before_block_quote"@,
            MarkdownExtension::FencedCodeBlocks => value.spec_name() == "fenced_code_blocks"@,
            MarkdownExtension::BacktickCodeBlocks => value.spec_name() == "backtick_code_blocks"@,
            MarkdownExtension::FencedCodeAttributes => value.spec_name() == "fenced_code_attributes"@,
            MarkdownExtension::LineBlocks => value.spec_name() == "line_blocks"@,
            MarkdownExtension::FancyLists => value.spec_name() == "fancy_lists"@,
            MarkdownExtension::Startnum => value.spec_name() == "startnum"@,
            MarkdownExtension::DefinitionLists => value.spec_name() == "definition_lists"@,
            MarkdownExtension::ExampleLists => value.spec_name() == "example_lists"@,
            MarkdownExtension::TableCaptions => value.spec_name() == "table_captions"@,
            MarkdownExtension::SimpleTables => value.spec_name() == "simple_tables"@,
            MarkdownExtension::MultilineTables => value.spec_name() == "multiline_tables"@,
            MarkdownExtension::GridTables => value.spec_name() == "grid_tables"@,
            MarkdownExtension::PipeTables => value.spec_name() == "pipe_tables"@,
            MarkdownExtension::PandocTitleBlock => value.spec_name() == "pandoc_title_block"@,
            MarkdownExtension::YamlMetadataBlock => value.spec_name() == "yaml_metadata_block"@,
            MarkdownExtension::AllSymbolsEscapable => value.spec_name() == "all_symbols_escapable"@,
            MarkdownExtension::IntrawordUnderscores => value.spec_name() == "intraword_underscores"@,
            MarkdownExtension::Strikeout => value.spec_name() == "strikeout"@,
            MarkdownExtension::Superscript => value.spec_name() == "superscript"@,
            MarkdownExtension::Subscript => value.spec_name() == "subscript"@,
            MarkdownExtension::InlineCodeAttributes => value.spec_name() == "inline_code_attributes"@,
            MarkdownExtension::TexMathDollars => value.spec_name() == "tex_math_dollars"@,
            MarkdownExtension::RawHtml => value.spec_name() == "raw_html"@,
            MarkdownExtension::MarkdownInHtmlBlocks => value.spec_name() == "markdown_in_html_blocks"@,
            MarkdownExtension::NativeDivs => value.spec_name() == "native_divs"@,
            MarkdownExtension::NativeSpans => value.spec_name() == "native_spans"@,
            MarkdownExtension::RawTex => value.spec_name() == "raw_tex"@,
            MarkdownExtension::LatexMacros => value.spec_name() == "latex_macros"@,
            MarkdownExtension::ShortcutReferenceLinks => value.spec_name() == "shortcut_reference_links"@,
            MarkdownExtension::ImplicitFigures => value.spec_name() == "implicit_figures"@,
            MarkdownExtension::Footnotes => value.spec_name() == "footnotes"@,
            MarkdownExtension::InlineNotes => value.spec_name() == "inline_notes"@,
            MarkdownExtension::Citations => value.spec_name() == "citations"@,
            MarkdownExtension::ListsWithoutPrecedingBlankline => value.spec_name() == "lists_without_preceding_blankline"@,
            MarkdownExtension::HardLineBreaks => value.spec_name() == "hard_line_breaks"@,
            MarkdownExtension::IgnoreLineBreaks => value.spec_name() == "ignore_line_breaks"@,
            MarkdownExtension::TexMathSingleBackslash => value.spec_name() == "tex_math_single_backslash"@,
            MarkdownExtension::TexMathDoubleBackslash => value.spec_name() == "tex_math_double_backslash"@,
            MarkdownExtension::MarkdownAttribute => value.spec_name() == "markdown_attribute"@,
            MarkdownExtension::MmdTitleBlock => value.spec_name() == "Mmd_title_block"@,
            MarkdownExtension::Abbreviations => value.spec_name() == "abbreviations"@,
            MarkdownExtension::AutolinkBareUris => value.spec_name() == "autolink_bare_uris"@,
            MarkdownExtension::AsciiIdentifiers => value.spec_name() == "ascii_identifiers"@,
            MarkdownExtension::LinkAttributes => value.spec_name() == "link_attributes"@,
            MarkdownExtension::MmdHeaderIdentifiers => value.spec_name() == "mmd_header_identifiers"@,
            MarkdownExtension::CompactDefinitionLists => value.spec_name() == "compact_definition_lists"@,
        }),
{
}

} // verus!
