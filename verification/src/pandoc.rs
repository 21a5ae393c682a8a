//! The argument builder: a configuration of pandoc that its setters fill in,
//! and what one run of pandoc is made of.

use vstd::prelude::*;
use vstd::string::*;

use vstd::utf8::{decode_utf8, partial_valid_utf8, valid_utf8};

use crate::formats::{DocumentClass, InputFormat, MarkdownExtension, OutputFormat};
use crate::options::{opt_text, PandocOption, Tld};
use crate::text::{decimal, join_strings, joined, push_decimal, string_from_utf8, views};

verus! {

broadcast use vstd::seq_lib::group_seq_properties;

/// Where pandoc reads its input.
#[derive(Clone, Debug)]
pub enum InputKind {
    /// the files, by their paths, in the order in which pandoc reads them
    Files(Vec<String>),
    /// passed to the pandoc executable through stdin
    Pipe(String),
}

/// Specify whether to generate a file or pipe the output to stdout.
#[derive(Clone, Debug)]
pub enum OutputKind {
    File(String),
    Pipe,
}

/// An `InputKind` with its texts taken as sequences of characters.
pub enum InputKindView {
    Files(Seq<Seq<char>>),
    Pipe(Seq<char>),
}

/// An `OutputKind` with its text taken as a sequence of characters.
pub enum OutputKindView {
    File(Seq<char>),
    Pipe,
}

impl View for InputKind {
    type V = InputKindView;

    open spec fn view(&self) -> InputKindView {
        match self {
            InputKind::Files(files) => InputKindView::Files(views(files@)),
            InputKind::Pipe(text) => InputKindView::Pipe(text@),
        }
    }
}

impl View for OutputKind {
    type V = OutputKindView;

    open spec fn view(&self) -> OutputKindView {
        match self {
            OutputKind::File(name) => OutputKindView::File(name@),
            OutputKind::Pipe => OutputKindView::Pipe,
        }
    }
}

/// The view of an optional input.
pub open spec fn input_view(i: Option<InputKind>) -> Option<InputKindView> {
    match i {
        Some(k) => Some(k@),
        None => None,
    }
}

/// The view of an optional output.
pub open spec fn output_view(o: Option<OutputKind>) -> Option<OutputKindView> {
    match o {
        Some(k) => Some(k@),
        None => None,
    }
}

/// The view of an optional format with its extensions.
pub open spec fn format_view<T>(f: Option<(T, Vec<MarkdownExtension>)>) -> Option<(T, Seq<MarkdownExtension>)> {
    match f {
        Some((format, extensions)) => Some((format, extensions@)),
        None => None,
    }
}

/// The argument builder
#[derive(Clone)]
pub struct Pandoc<F = fn(String) -> String> {
    input: Option<InputKind>,
    input_format: Option<(InputFormat, Vec<MarkdownExtension>)>,
    output: Option<OutputKind>,
    output_format: Option<(OutputFormat, Vec<MarkdownExtension>)>,
    latex_path_hint: Vec<String>,
    pandoc_path_hint: Vec<String>,
    filters: Vec<F>,
    args: Vec<(String, String)>,
    options: Vec<PandocOption>,
    print_pandoc_cmdline: bool,
}

/// What a `Pandoc` holds, with its texts taken as sequences of characters.
#[verifier::ext_equal]
pub struct PandocView<F> {
    pub input: Option<InputKindView>,
    pub input_format: Option<(InputFormat, Seq<MarkdownExtension>)>,
    pub output: Option<OutputKindView>,
    pub output_format: Option<(OutputFormat, Seq<MarkdownExtension>)>,
    pub latex_path_hint: Seq<Seq<char>>,
    pub pandoc_path_hint: Seq<Seq<char>>,
    pub filters: Seq<F>,
    pub args: Seq<(Seq<char>, Seq<char>)>,
    pub options: Seq<PandocOption>,
    pub print_pandoc_cmdline: bool,
}

/// The key-value pairs of a sequence of pairs of strings.
pub open spec fn pair_views(v: Seq<(String, String)>) -> Seq<(Seq<char>, Seq<char>)> {
    v.map_values(|kv: (String, String)| (kv.0@, kv.1@))
}

impl<F> View for Pandoc<F> {
    type V = PandocView<F>;

    closed spec fn view(&self) -> PandocView<F> {
        PandocView {
            input: input_view(self.input),
            input_format: format_view(self.input_format),
            output: output_view(self.output),
            output_format: format_view(self.output_format),
            latex_path_hint: views(self.latex_path_hint@),
            pandoc_path_hint: views(self.pandoc_path_hint@),
            filters: self.filters@,
            args: pair_views(self.args@),
            options: self.options@,
            print_pandoc_cmdline: self.print_pandoc_cmdline,
        }
    }
}

/// A configuration with nothing set: no input, no output, no formats, no
/// hints, filters, arguments or options, and the command line not shown.
pub open spec fn empty_view<F>() -> PandocView<F> {
    PandocView {
        input: None,
        input_format: None,
        output: None,
        output_format: None,
        latex_path_hint: Seq::empty(),
        pandoc_path_hint: Seq::empty(),
        filters: Seq::empty(),
        args: Seq::empty(),
        options: Seq::empty(),
        print_pandoc_cmdline: false,
    }
}

/// `v` with `option` added after its options.
pub open spec fn with_option<F>(v: PandocView<F>, option: PandocOption) -> PandocView<F> {
    PandocView { options: v.options.push(option), ..v }
}

/// Whether `o` sets the variable `documentclass`.
pub open spec fn doc_class_var(o: PandocOption) -> bool {
    o matches PandocOption::Var(k, _) && k@ == "documentclass"@
}

/// The options without those that set the variable `documentclass`, in order.
pub open spec fn without_doc_class(options: Seq<PandocOption>) -> Seq<PandocOption> {
    options.filter(|o: PandocOption| !doc_class_var(o))
}

/// Removing the `documentclass` settings from one more option keeps it
/// exactly when it is not such a setting.
pub proof fn lemma_without_doc_class_push(options: Seq<PandocOption>, o: PandocOption)
    ensures
        without_doc_class(options.push(o)) == if doc_class_var(o) {
            without_doc_class(options)
        } else {
            without_doc_class(options).push(o)
        },
{
    reveal(Seq::filter);
    assert(options.push(o).drop_last() =~= options);
}

fn is_doc_class_var(o: &PandocOption, key: &String) -> (b: bool)
    requires
        key@ == "documentclass"@,
    ensures
        b == doc_class_var(*o),
{
    match o {
        PandocOption::Var(k, _) => k.eq(key),
        _ => false,
    }
}

/// `v` with the file `name` read after its input files (the first one, if
/// it has none).
pub open spec fn with_input_file<F>(v: PandocView<F>, name: Seq<char>) -> PandocView<F> {
    PandocView {
        input: Some(
            InputKindView::Files(
                match v.input {
                    Some(InputKindView::Files(files)) => files.push(name),
                    _ => seq![name],
                },
            ),
        ),
        ..v
    }
}

/// Whether `v` is `old` with copies of `options` added after its options, in order.
pub open spec fn added_options<F>(v: PandocView<F>, old: PandocView<F>, options: Seq<PandocOption>) -> bool {
    &&& v == PandocView { options: v.options, ..old }
    &&& v.options.len() == old.options.len() + options.len()
    &&& v.options.subrange(0, old.options.len() as int) == old.options
    &&& forall|i: int|
        0 <= i < options.len() ==> (#[trigger] v.options[old.options.len() + i]).same_as(&options[i])
}

/// Whether `v` is `old` with one option added, a `-V` variable `key` with `value`.
pub open spec fn added_variable<F>(
    v: PandocView<F>,
    old: PandocView<F>,
    key: Seq<char>,
    value: Seq<char>,
) -> bool {
    &&& v == PandocView { options: v.options, ..old }
    &&& v.options.len() == old.options.len() + 1
    &&& v.options.drop_last() == old.options
    &&& v.options.last() matches PandocOption::Var(k, Some(val)) && k@ == key && val@ == value
}

/// Whether `v` is `old` with one option added, of the given variant and the text `path`.
pub open spec fn added_path_option<F>(
    v: PandocView<F>,
    old: PandocView<F>,
    is_variant: spec_fn(PandocOption) -> bool,
    text: spec_fn(PandocOption) -> Seq<char>,
    path: Seq<char>,
) -> bool {
    &&& v == PandocView { options: v.options, ..old }
    &&& v.options.len() == old.options.len() + 1
    &&& v.options.drop_last() == old.options
    &&& is_variant(v.options.last())
    &&& text(v.options.last()) == path
}

/// Convenience function to call Pandoc::new()
pub fn new<F>() -> (p: Pandoc<F>)
    ensures
        p@ == empty_view::<F>(),
{
    Pandoc::new()
}

impl<F> Default for Pandoc<F> {
    fn default() -> (p: Self)
        ensures
            p@ == empty_view::<F>(),
    {
        Pandoc::new()
    }
}

impl<F> Pandoc<F> {
    /// Get a new Pandoc object
    /// This function returns a builder object to configure the Pandoc
    /// execution.
    pub fn new() -> (p: Pandoc<F>)
        ensures
            p@ == empty_view::<F>(),
    {
        let p = Pandoc {
            input: None,
            input_format: None,
            output: None,
            output_format: None,
            latex_path_hint: Vec::new(),
            pandoc_path_hint: Vec::new(),
            filters: Vec::new(),
            args: Vec::new(),
            options: Vec::new(),
            print_pandoc_cmdline: false,
        };
        assert(p@ =~= empty_view::<F>());
        p
    }

    /// Add a path hint to search for the LaTeX executable.
    ///
    /// The supplied path is searched first for the latex executable, then the environment variable
    /// `PATH`, then some hard-coded location hints.
    pub fn add_latex_path_hint(&mut self, path: &str) -> (r: &mut Pandoc<F>)
        ensures
            (*r)@ == (PandocView { latex_path_hint: old(self)@.latex_path_hint.push(path@), ..old(self)@ }),
            *final(self) == *final(r),
    {
        self.latex_path_hint.push(String::from_str(path));
        proof {
            assert(views(self.latex_path_hint@) =~= views(old(self).latex_path_hint@).push(path@));
        }
        self
    }

    /// Add a path hint to search for the Pandoc executable.
    ///
    /// The supplied path is searched first for the Pandoc executable, then the environment variable `PATH`, then
    /// some hard-coded location hints.
    pub fn add_pandoc_path_hint(&mut self, path: &str) -> (r: &mut Pandoc<F>)
        ensures
            (*r)@ == (PandocView { pandoc_path_hint: old(self)@.pandoc_path_hint.push(path@), ..old(self)@ }),
            *final(self) == *final(r),
    {
        self.pandoc_path_hint.push(String::from_str(path));
        proof {
            assert(views(self.pandoc_path_hint@) =~= views(old(self).pandoc_path_hint@).push(path@));
        }
        self
    }

    /// Set or overwrite the document-class.
    pub fn set_doc_class(&mut self, class: DocumentClass) -> (r: &mut Pandoc<F>)
        ensures
            added_variable(
                (*r)@,
                PandocView { options: without_doc_class(old(self)@.options), ..old(self)@ },
                "documentclass"@,
                class.spec_name(),
            ),
            *final(self) == *final(r),
    {
        let key = String::from_str("documentclass");
        let mut rest: Vec<PandocOption> = Vec::new();
        std::mem::swap(&mut rest, &mut self.options);
        let ghost all = rest@;
        let ghost mut k: int = 0;
        proof {
            assert(all.take(0) =~= Seq::<PandocOption>::empty());
            reveal(Seq::filter);
            assert(self.options@ =~= without_doc_class(all.take(0)));
            assert(rest@ =~= all.skip(0));
        }
        while rest.len() > 0
            invariant
                0 <= k <= all.len(),
                rest@ == all.skip(k),
                self.options@ == without_doc_class(all.take(k)),
                key@ == "documentclass"@,
                self.input == old(self).input,
                self.input_format == old(self).input_format,
                self.output == old(self).output,
                self.output_format == old(self).output_format,
                self.latex_path_hint == old(self).latex_path_hint,
                self.pandoc_path_hint == old(self).pandoc_path_hint,
                self.filters == old(self).filters,
                self.args == old(self).args,
                self.print_pandoc_cmdline == old(self).print_pandoc_cmdline,
            decreases rest.len(),
        {
            let o = rest.remove(0);
            proof {
                assert(o == all[k]);
                assert(all.take(k + 1) =~= all.take(k).push(o));
                lemma_without_doc_class_push(all.take(k), o);
                assert(rest@ =~= all.skip(k + 1));
            }
            if !is_doc_class_var(&o, &key) {
                self.options.push(o);
            }
            proof {
                k = k + 1;
            }
        }
        proof {
            assert(all.take(k) =~= all);
        }
        self.options.push(PandocOption::Var(key, Some(class.to_string())));
        proof {
            assert(self@ =~= (PandocView { options: self@.options, ..old(self)@ }));
            assert(self@.options.drop_last() =~= without_doc_class(old(self)@.options));
        }
        self
    }

    /// Set whether Pandoc should print the used command-line
    ///
    /// If set to true, the command-line to execute pandoc (as a subprocess)
    /// will be displayed on stdout.
    pub fn set_show_cmdline(&mut self, flag: bool) -> (r: &mut Pandoc<F>)
        ensures
            (*r)@ == (PandocView { print_pandoc_cmdline: flag, ..old(self)@ }),
            *final(self) == *final(r),
    {
        self.print_pandoc_cmdline = flag;
        self
    }

    /// Set or overwrite the output format.
    pub fn set_output_format(&mut self, format: OutputFormat, extensions: Vec<MarkdownExtension>) -> (r: &mut Pandoc<F>)
        ensures
            (*r)@ == (PandocView { output_format: Some((format, extensions@)), ..old(self)@ }),
            *final(self) == *final(r),
    {
        self.output_format = Some((format, extensions));
        self
    }

    /// Set or overwrite the input format
    pub fn set_input_format(&mut self, format: InputFormat, extensions: Vec<MarkdownExtension>) -> (r: &mut Pandoc<F>)
        ensures
            (*r)@ == (PandocView { input_format: Some((format, extensions@)), ..old(self)@ }),
            *final(self) == *final(r),
    {
        self.input_format = Some((format, extensions));
        self
    }

    /// Add additional input files
    ///
    /// The order of adding the files is the order in which they are processed, hence the order is
    /// important.
    /// This function does not work, if input has been already set to standard input using
    /// [`set_input`](#method.set_input_format).
    pub fn add_input(&mut self, filename: &str) -> (r: &mut Pandoc<F>)
        requires
            !(old(self)@.input matches Some(InputKindView::Pipe(_))),
        ensures
            (*r)@ == with_input_file(old(self)@, filename@),
            *final(self) == *final(r),
    {
        let filename = String::from_str(filename);
        match self.input.take() {
            Some(InputKind::Files(mut files)) => {
                files.push(filename);
                self.input = Some(InputKind::Files(files));
            },
            _ => {
                let mut files = Vec::new();
                files.push(filename);
                self.input = Some(InputKind::Files(files));
            },
        }
        proof {
            match old(self)@.input {
                Some(InputKindView::Files(fs)) => {
                    assert(self@.input matches Some(InputKindView::Files(g)) && g =~= fs.push(filename@));
                },
                _ => {
                    assert(self@.input matches Some(InputKindView::Files(g)) && g =~= seq![filename@]);
                },
            }
        }
        self
    }

    /// Set input for Pandoc.
    ///
    /// The input is given with `pandoc::InputKind` and overrides any inputs already
    /// supplied.
    pub fn set_input(&mut self, input: InputKind) -> (r: &mut Pandoc<F>)
        ensures
            (*r)@ == (PandocView { input: Some(input@), ..old(self)@ }),
            *final(self) == *final(r),
    {
        self.input = Some(input);
        self
    }

    /// Set or overwrite the output filename.
    pub fn set_output(&mut self, output: OutputKind) -> (r: &mut Pandoc<F>)
        ensures
            (*r)@ == (PandocView { output: Some(output@), ..old(self)@ }),
            *final(self) == *final(r),
    {
        self.output = Some(output);
        self
    }

    /// Set the file name of the bibliography database.
    pub fn set_bibliography(&mut self, filename: &str) -> (r: &mut Pandoc<F>)
        ensures
            added_path_option(
                (*r)@,
                old(self)@,
                |o: PandocOption| o is Bibliography,
                |o: PandocOption| o->Bibliography_0@,
                filename@,
            ),
            *final(self) == *final(r),
    {
        self.options.push(PandocOption::Bibliography(String::from_str(filename)));
        proof {
            assert(self@ =~= (PandocView { options: self@.options, ..old(self)@ }));
            assert(self@.options.drop_last() =~= old(self)@.options);
        }
        self
    }

    /// Set the filename of the citation style file.
    pub fn set_csl(&mut self, filename: &str) -> (r: &mut Pandoc<F>)
        ensures
            added_path_option(
                (*r)@,
                old(self)@,
                |o: PandocOption| o is Csl,
                |o: PandocOption| o->Csl_0@,
                filename@,
            ),
            *final(self) == *final(r),
    {
        self.options.push(PandocOption::Csl(String::from_str(filename)));
        proof {
            assert(self@ =~= (PandocView { options: self@.options, ..old(self)@ }));
            assert(self@.options.drop_last() =~= old(self)@.options);
        }
        self
    }

    /// Enable the generation of a table of contents
    ///
    /// By default, documents are transformed as they are. If this option is set, a table of
    /// contents is added right in front of the actual document.
    pub fn set_toc(&mut self) -> (r: &mut Pandoc<F>)
        ensures
            (*r)@ == with_option(old(self)@, PandocOption::TableOfContents),
            *final(self) == *final(r),
    {
        self.options.push(PandocOption::TableOfContents);
        self
    }

    /// Treat top-level headers as chapters in LaTeX, ConTeXt, and DocBook output.
    pub fn set_chapters(&mut self) -> (r: &mut Pandoc<F>)
        ensures
            (*r)@ == with_option(old(self)@, PandocOption::TopLevelDivision(Tld::Chapter)),
            *final(self) == *final(r),
    {
        self.options.push(PandocOption::TopLevelDivision(Tld::Chapter));
        self
    }

    /// Set custom prefix for sections.
    ///
    /// If this function is called, all sections will be numbered. Normally, sections in LaTeX,
    /// ConTeXt, HTML, or EPUB output are unnumbered.
    pub fn set_number_sections(&mut self) -> (r: &mut Pandoc<F>)
        ensures
            (*r)@ == with_option(old(self)@, PandocOption::NumberSections),
            *final(self) == *final(r),
    {
        self.options.push(PandocOption::NumberSections);
        self
    }

    /// Set a custom latex template.
    pub fn set_latex_template(&mut self, filename: &str) -> (r: &mut Pandoc<F>)
        ensures
            added_path_option(
                (*r)@,
                old(self)@,
                |o: PandocOption| o is Template,
                |o: PandocOption| o->Template_0@,
                filename@,
            ),
            *final(self) == *final(r),
    {
        self.options.push(PandocOption::Template(String::from_str(filename)));
        proof {
            assert(self@ =~= (PandocView { options: self@.options, ..old(self)@ }));
            assert(self@.options.drop_last() =~= old(self)@.options);
        }
        self
    }

    /// Set the header level that causes a new slide to be generated.
    pub fn set_slide_level(&mut self, level: u32) -> (r: &mut Pandoc<F>)
        ensures
            (*r)@ == with_option(old(self)@, PandocOption::SlideLevel(level)),
            *final(self) == *final(r),
    {
        self.options.push(PandocOption::SlideLevel(level));
        self
    }

    /// Set a custom variable.
    ///
    /// This method sets a custom Pandoc variable. It is adviced not to use this function, because
    /// there are convenience functions for most of the available variables.
    pub fn set_variable(&mut self, key: &str, value: &str) -> (r: &mut Pandoc<F>)
        ensures
            added_variable((*r)@, old(self)@, key@, value@),
            *final(self) == *final(r),
    {
        self.options.push(PandocOption::Var(String::from_str(key), Some(String::from_str(value))));
        proof {
            assert(self@ =~= (PandocView { options: self@.options, ..old(self)@ }));
            assert(self@.options.drop_last() =~= old(self)@.options);
        }
        self
    }

    /// Add a Pandoc filter.
    ///
    /// Pandoc parses any of the supported input formats to an abstract syntax tree (AST). If a
    /// filter is specified, it will receive a JSON representation of this AST and can transform it
    /// to its liking and add/modify/remove elements. The output is then passed back to Pandoc.
    pub fn add_filter(&mut self, filter: F) -> (r: &mut Pandoc<F>)
        ensures
            (*r)@ == (PandocView { filters: old(self)@.filters.push(filter), ..old(self)@ }),
            *final(self) == *final(r),
    {
        self.filters.push(filter);
        self
    }

    /// Add a [PandocOption](PandocOption.t.html).
    pub fn add_option(&mut self, option: PandocOption) -> (r: &mut Pandoc<F>)
        ensures
            (*r)@ == with_option(old(self)@, option),
            *final(self) == *final(r),
    {
        self.options.push(option);
        self
    }

    /// Add several [PandocOption](PandocOption.t.html)s, in their order.
    pub fn add_options(&mut self, options: &[PandocOption]) -> (r: &mut Pandoc<F>)
        ensures
            added_options((*r)@, old(self)@, options@),
            *final(self) == *final(r),
    {
        let n = self.options.len();
        let mut i: usize = 0;
        while i < options.len()
            invariant
                i <= options@.len(),
                n == old(self).options@.len(),
                self.options@.len() == n + i,
                self.options@.subrange(0, n as int) == old(self).options@,
                forall|j: int| 0 <= j < i ==> (#[trigger] self.options@[n + j]).same_as(&options@[j]),
                self.input == old(self).input,
                self.input_format == old(self).input_format,
                self.output == old(self).output,
                self.output_format == old(self).output_format,
                self.latex_path_hint == old(self).latex_path_hint,
                self.pandoc_path_hint == old(self).pandoc_path_hint,
                self.filters == old(self).filters,
                self.args == old(self).args,
                self.print_pandoc_cmdline == old(self).print_pandoc_cmdline,
            decreases options@.len() - i,
        {
            let o = options[i].duplicate();
            self.options.push(o);
            proof {
                assert(self.options@.subrange(0, n as int) =~= old(self).options@);
            }
            i += 1;
        }
        proof {
            assert(self@ =~= (PandocView { options: self@.options, ..old(self)@ }));
        }
        self
    }
}

/// The argument that names a format with its extensions: the name of the
/// format, then `+` and the name of each extension, in order.
pub open spec fn format_arg(name: Seq<char>, extensions: Seq<MarkdownExtension>) -> Seq<char> {
    name + extensions.map_values(|e: MarkdownExtension| "+"@ + e.spec_name()).flatten()
}

/// The arguments that name the input format: `-f` and the format.
pub open spec fn input_format_args<F>(v: PandocView<F>) -> Seq<Seq<char>> {
    match v.input_format {
        Some((format, extensions)) => seq!["-f"@, format_arg(format.spec_name(), extensions)],
        None => Seq::empty(),
    }
}

/// The arguments `--key=value` of the key-value pairs, in order.
pub open spec fn extra_args<F>(v: PandocView<F>) -> Seq<Seq<char>> {
    v.args.map_values(|kv: (Seq<char>, Seq<char>)| "--"@ + kv.0 + "="@ + kv.1)
}

/// The input files, in the order they were given; none for standard input.
pub open spec fn input_args<F>(v: PandocView<F>) -> Seq<Seq<char>> {
    match v.input {
        Some(InputKindView::Files(files)) => files,
        _ => Seq::empty(),
    }
}

/// `-o` and the output file; none for standard output.
pub open spec fn output_args<F>(v: PandocView<F>) -> Seq<Seq<char>> {
    match v.output {
        Some(OutputKindView::File(name)) => seq!["-o"@, name],
        _ => Seq::empty(),
    }
}

/// The arguments that name the output format: `-t` and the format.
pub open spec fn output_format_args<F>(v: PandocView<F>) -> Seq<Seq<char>> {
    match v.output_format {
        Some((format, extensions)) => seq!["-t"@, format_arg(format.spec_name(), extensions)],
        None => Seq::empty(),
    }
}

/// The arguments of the options, option after option.
pub open spec fn option_args<F>(v: PandocView<F>) -> Seq<Seq<char>> {
    v.options.map_values(|o: PandocOption| o.spec_args()).flatten()
}

/// The arguments pandoc is run with: the input format, the key-value pairs,
/// the input files, the output file, the output format, then the options.
pub open spec fn command_args<F>(v: PandocView<F>) -> Seq<Seq<char>> {
    input_format_args(v) + extra_args(v) + input_args(v) + output_args(v) + output_format_args(v)
        + option_args(v)
}

/// The directories where a LaTeX installation is looked for when nothing else finds it.
pub open spec fn latex_dirs() -> Seq<Seq<char>> {
    seq!["/usr/local/bin"@, "/usr/local/texlive/2015/bin/i386-linux"@]
}

/// The directories searched for the executables, in order: the LaTeX hints,
/// the pandoc hints, the directories of the system's `PATH`, then the
/// hard-coded LaTeX directories.
pub open spec fn search_dirs<F>(v: PandocView<F>, system_path: Seq<char>) -> Seq<Seq<char>> {
    v.latex_path_hint + v.pandoc_path_hint + seq![system_path] + latex_dirs()
}

/// The value of `PATH` pandoc is run with: the search directories joined by `:`.
pub open spec fn search_path_text<F>(v: PandocView<F>, system_path: Seq<char>) -> Seq<char> {
    joined(search_dirs(v, system_path), ":"@)
}

/// The text written to pandoc's standard input, if it reads from it.
pub open spec fn stdin_text<F>(v: PandocView<F>) -> Option<Seq<char>> {
    match v.input {
        Some(InputKindView::Pipe(text)) => Some(text),
        _ => None,
    }
}

/// What one run of pandoc is made of.
pub struct Invocation {
    /// the arguments of the `pandoc` command, in order
    pub args: Vec<String>,
    /// the value of `PATH` in pandoc's environment
    pub path: String,
    /// the text written to pandoc's standard input, when it reads from there
    pub stdin: Option<String>,
    /// whether pandoc's standard output is captured
    pub capture_stdout: bool,
    /// whether the command line is shown before the run
    pub show_cmdline: bool,
}

/// Whether `inv` is the run of the configuration `v`, where the system's
/// `PATH` is `system_path`.
pub open spec fn runs<F>(inv: Invocation, v: PandocView<F>, system_path: Seq<char>) -> bool {
    &&& views(inv.args@) == command_args(v)
    &&& inv.path@ == search_path_text(v, system_path)
    &&& opt_text(inv.stdin) == stdin_text(v)
    &&& inv.capture_stdout == (v.output == Some(OutputKindView::Pipe))
    &&& inv.show_cmdline == v.print_pandoc_cmdline
}

#[verifier::external_type_specification]
#[verifier::external_body]
pub struct ExIoError(std::io::Error);

/// A run of pandoc that ended without success: its exit code (none when it
/// was stopped by a signal) and what it wrote to standard output and error.
#[derive(Debug)]
pub struct RunFailure {
    pub code: Option<i32>,
    pub stdout: Vec<u8>,
    pub stderr: Vec<u8>,
}

/// Possible errors that can occur before or during pandoc execution
#[derive(Debug)]
pub enum PandocError {
    /// conversion from UTF-8 failed; includes valid-up-to byte count.
    BadUtf8Conversion(usize),
    /// some kind of IO-Error
    IoErr(std::io::Error),
    /// pandoc execution failed, provide output from stderr
    Failed(RunFailure),
    /// forgot to specify an output file
    NoOutputSpecified,
    /// forgot to specify any input files
    NoInputSpecified,
    /// pandoc executable not found
    PandocNotFound,
}

/// An integer in decimal, with a leading `-` when it is negative.
pub open spec fn signed_decimal(n: int) -> Seq<char> {
    if n < 0 {
        "-"@ + decimal((-n) as nat)
    } else {
        decimal(n as nat)
    }
}

/// How an optional exit code is shown: `Some(<code>)` or `None`.
pub open spec fn code_text(code: Option<i32>) -> Seq<char> {
    match code {
        Some(n) => "Some("@ + signed_decimal(n as int) + ")"@,
        None => "None"@,
    }
}

/// The text of pandoc's output, with each invalid UTF-8 sequence replaced by
/// U+FFFD, as `String::from_utf8_lossy` makes it.
pub uninterp spec fn lossy_text(bytes: Seq<u8>) -> Seq<char>;

/// Calls `String::from_utf8_lossy`: the bytes decoded, each invalid sequence
/// replaced by U+FFFD; on valid UTF-8 the bytes decoded as they are.
#[verifier::external_body]
fn bytes_to_text_lossy(bytes: &Vec<u8>) -> (s: String)
    ensures
        s@ == lossy_text(bytes@),
        valid_utf8(bytes@) ==> s@ == decode_utf8(bytes@),
{
    String::from_utf8_lossy(bytes.as_slice()).into_owned()
}

/// Formats an I/O error with its `Debug` implementation; nothing is stated of
/// the text, which std leaves to the platform's messages.
#[verifier::external_body]
fn io_error_text(e: &std::io::Error) -> String {
    format!("{:?}", e)
}

/// Calls the (deprecated) `std::error::Error::description` of an I/O error;
/// nothing is stated of the text.
#[verifier::external_body]
#[allow(deprecated)]
fn io_error_description(e: &std::io::Error) -> String {
    std::error::Error::description(e).to_string()
}

/// Appends the way an optional exit code is shown.
fn push_code(s: &mut String, code: Option<i32>)
    ensures
        final(s)@ == old(s)@ + code_text(code),
{
    match code {
        Some(n) => {
            s.append("Some(");
            if n < 0 {
                s.append("-");
                let m: i64 = -(n as i64);
                push_decimal(s, m as u64);
            } else {
                push_decimal(s, n as u64);
            }
            s.append(")");
        },
        None => s.append("None"),
    }
}

impl PandocError {
    /// The message that describes this error, with its details; none is
    /// stated for an I/O error.
    pub open spec fn spec_message(&self) -> Option<Seq<char>> {
        match self {
            PandocError::BadUtf8Conversion(byte) => Some(
                "UTF-8 conversion of pandoc output failed after byte "@ + decimal(*byte as nat) + "."@,
            ),
            PandocError::IoErr(_) => None,
            PandocError::Failed(failure) => Some(
                "exit_code: "@ + code_text(failure.code) + "stdout: "@ + lossy_text(failure.stdout@)
                    + "stderr: "@ + lossy_text(failure.stderr@),
            ),
            PandocError::NoOutputSpecified => Some("No output file was specified"@),
            PandocError::NoInputSpecified => Some("No input files were specified"@),
            PandocError::PandocNotFound => Some(
                "Pandoc not found, did you forget to install pandoc?"@,
            ),
        }
    }

    /// The short description of this error; none is stated for an I/O error.
    pub open spec fn spec_description(&self) -> Option<Seq<char>> {
        match self {
            PandocError::BadUtf8Conversion(_) => Some("UTF-8 conversion of pandoc output failed"@),
            PandocError::IoErr(_) => None,
            PandocError::Failed(_) => Some("Pandoc execution failed"@),
            PandocError::NoOutputSpecified => Some("No output file was specified"@),
            PandocError::NoInputSpecified => Some("No input files were specified"@),
            PandocError::PandocNotFound => Some("Pandoc not found"@),
        }
    }

    /// The message that describes this error, with its details.
    pub fn to_string(&self) -> (s: String)
        ensures
            self.spec_message() matches Some(m) ==> s@ == m,
    {
        match self {
            PandocError::BadUtf8Conversion(byte) => {
                let mut s = String::from_str("UTF-8 conversion of pandoc output failed after byte ");
                push_decimal(&mut s, *byte as u64);
                s.append(".");
                s
            },
            PandocError::IoErr(e) => io_error_text(e),
            PandocError::Failed(failure) => {
                let mut s = String::from_str("exit_code: ");
                push_code(&mut s, failure.code);
                s.append("stdout: ");
                s.append(bytes_to_text_lossy(&failure.stdout).as_str());
                s.append("stderr: ");
                s.append(bytes_to_text_lossy(&failure.stderr).as_str());
                s
            },
            PandocError::NoOutputSpecified => String::from_str("No output file was specified"),
            PandocError::NoInputSpecified => String::from_str("No input files were specified"),
            PandocError::PandocNotFound => String::from_str(
                "Pandoc not found, did you forget to install pandoc?",
            ),
        }
    }

    /// The short description of this error.
    pub fn description(&self) -> (s: String)
        ensures
            self.spec_description() matches Some(d) ==> s@ == d,
    {
        match self {
            PandocError::BadUtf8Conversion(_) => String::from_str(
                "UTF-8 conversion of pandoc output failed",
            ),
            PandocError::IoErr(e) => io_error_description(e),
            PandocError::Failed(_) => String::from_str("Pandoc execution failed"),
            PandocError::NoOutputSpecified => String::from_str("No output file was specified"),
            PandocError::NoInputSpecified => String::from_str("No input files were specified"),
            PandocError::PandocNotFound => String::from_str("Pandoc not found"),
        }
    }
}

/// The output from Pandoc: the file written to, or a buffer with its output.
#[derive(Debug)]
pub enum PandocOutput {
    /// The results of the pandoc operation are stored in `Path`
    ToFile(String),
    /// The results of the pandoc operation are returned as a `String`
    ToBuffer(String),
}

/// Whether `n` is the length of the longest prefix of `bytes` that is valid UTF-8.
pub open spec fn longest_valid_prefix(bytes: Seq<u8>, n: usize) -> bool {
    &&& partial_valid_utf8(bytes, n as int)
    &&& forall|j: int| n < j <= bytes.len() ==> !partial_valid_utf8(bytes, j)
}

impl PandocOutput {
    /// What a successful run of pandoc gives, from the kind of output it was
    /// configured with and the bytes it wrote to its standard output: the file
    /// it wrote, or its standard output decoded as UTF-8.
    pub fn from_output(kind: Option<OutputKind>, output: Vec<u8>) -> (r: Result<PandocOutput, PandocError>)
        ensures
            kind matches Some(OutputKind::File(name)) ==> (r matches Ok(PandocOutput::ToFile(p)) && p@
                == name@),
            kind matches Some(OutputKind::Pipe) ==> (valid_utf8(output@) <==> r is Ok),
            kind matches Some(OutputKind::Pipe) ==> (r matches Ok(PandocOutput::ToBuffer(s)) && s@
                == decode_utf8(output@)) || (r matches Err(PandocError::BadUtf8Conversion(n))
                && longest_valid_prefix(output@, n)),
            kind is None ==> r == Err::<PandocOutput, PandocError>(PandocError::NoOutputSpecified),
    {
        match kind {
            Some(OutputKind::File(name)) => Ok(PandocOutput::ToFile(name)),
            Some(OutputKind::Pipe) => match string_from_utf8(output) {
                Ok(text) => Ok(PandocOutput::ToBuffer(text)),
                Err(valid_up_to) => Err(PandocError::BadUtf8Conversion(valid_up_to)),
            },
            None => Err(PandocError::NoOutputSpecified),
        }
    }
}

/// A copy of the strings, in order.
fn copy_strings(v: &Vec<String>) -> (r: Vec<String>)
    ensures
        views(r@) == views(v@),
{
    let mut r: Vec<String> = Vec::new();
    append_strings(&mut r, v);
    assert(views(r@) =~= views(v@));
    r
}

/// Appends copies of the strings of `src` to `dst`, in order.
fn append_strings(dst: &mut Vec<String>, src: &Vec<String>)
    ensures
        views(final(dst)@) == views(old(dst)@) + views(src@),
{
    let mut i: usize = 0;
    while i < src.len()
        invariant
            i <= src.len(),
            views(dst@) == views(old(dst)@) + views(src@.take(i as int)),
        decreases src.len() - i,
    {
        let ghost prev = dst@;
        let item = src[i].clone();
        dst.push(item);
        proof {
            assert(dst@ == prev.push(item));
            assert(views(dst@) =~= views(prev).push(src@[i as int]@));
            assert(views(src@.take(i + 1)) =~= views(src@.take(i as int)).push(src@[i as int]@));
        }
        i += 1;
    }
    assert(src@.take(src.len() as int) =~= src@);
}

/// The text of a format with its extensions, as pandoc takes it.
fn format_string(name: String, extensions: &Vec<MarkdownExtension>) -> (s: String)
    ensures
        s@ == format_arg(name@, extensions@),
{
    let mut s = name;
    let ghost pieces = extensions@.map_values(|e: MarkdownExtension| "+"@ + e.spec_name());
    let mut i: usize = 0;
    while i < extensions.len()
        invariant
            i <= extensions.len(),
            pieces == extensions@.map_values(|e: MarkdownExtension| "+"@ + e.spec_name()),
            s@ == name@ + pieces.take(i as int).flatten(),
        decreases extensions.len() - i,
    {
        proof {
            assert(pieces.take(i as int + 1) =~= pieces.take(i as int).push(pieces[i as int]));
            pieces.take(i as int).lemma_flatten_push(pieces[i as int]);
        }
        s.append("+");
        s.append(extensions[i].to_string().as_str());
        i += 1;
    }
    assert(pieces.take(extensions.len() as int) =~= pieces);
    s
}

/// The argument `--key=value`.
fn key_value_arg(key: &String, value: &String) -> (s: String)
    ensures
        s@ == "--"@ + key@ + "="@ + value@,
{
    let mut s = String::from_str("--");
    s.append(key.as_str());
    s.append("=");
    s.append(value.as_str());
    s
}

/// The view of a copy of an optional output.
fn copy_output(o: &Option<OutputKind>) -> (r: Option<OutputKind>)
    ensures
        output_view(r) == output_view(*o),
{
    match o {
        Some(OutputKind::File(name)) => Some(OutputKind::File(name.clone())),
        Some(OutputKind::Pipe) => Some(OutputKind::Pipe),
        None => None,
    }
}

impl<F> Pandoc<F> {
    /// The input configured, if any.
    pub fn input(&self) -> (r: &Option<InputKind>)
        ensures
            input_view(*r) == self@.input,
    {
        &self.input
    }

    /// The output format configured, with its extensions, if any.
    pub fn output_format(&self) -> (r: &Option<(OutputFormat, Vec<MarkdownExtension>)>)
        ensures
            format_view(*r) == self@.output_format,
    {
        &self.output_format
    }

    /// The kind of output configured, if any.
    pub fn output_kind(&self) -> (r: Option<OutputKind>)
        ensures
            output_view(r) == self@.output,
    {
        copy_output(&self.output)
    }

    fn input_format_part(&self) -> (r: Vec<String>)
        ensures
            views(r@) == input_format_args(self@),
    {
        let mut r: Vec<String> = Vec::new();
        match &self.input_format {
            Some((format, extensions)) => {
                r.push(String::from_str("-f"));
                r.push(format_string(format.to_string(), extensions));
            },
            None => {},
        }
        assert(views(r@) =~= input_format_args(self@));
        r
    }

    fn extra_part(&self) -> (r: Vec<String>)
        ensures
            views(r@) == extra_args(self@),
    {
        let mut r: Vec<String> = Vec::new();
        let mut i: usize = 0;
        while i < self.args.len()
            invariant
                i <= self.args@.len(),
                views(r@) == extra_args(self@).take(i as int),
            decreases self.args@.len() - i,
        {
            let (key, value) = &self.args[i];
            let ghost prev = r@;
            let a = key_value_arg(key, value);
            r.push(a);
            proof {
                assert(self@.args[i as int] == (key@, value@));
                assert(extra_args(self@)[i as int] == a@);
                assert(views(r@) =~= views(prev).push(a@));
                assert(extra_args(self@).take(i + 1) =~= extra_args(self@).take(i as int).push(a@));
            }
            i += 1;
        }
        assert(extra_args(self@).take(i as int) =~= extra_args(self@));
        r
    }

    fn input_part(&self) -> (r: Vec<String>)
        ensures
            views(r@) == input_args(self@),
    {
        match &self.input {
            Some(InputKind::Files(files)) => copy_strings(files),
            _ => {
                let r: Vec<String> = Vec::new();
                assert(views(r@) =~= input_args(self@));
                r
            },
        }
    }

    fn output_part(&self) -> (r: Vec<String>)
        ensures
            views(r@) == output_args(self@),
    {
        let mut r: Vec<String> = Vec::new();
        match &self.output {
            Some(OutputKind::File(name)) => {
                r.push(String::from_str("-o"));
                r.push(name.clone());
            },
            _ => {},
        }
        assert(views(r@) =~= output_args(self@));
        r
    }

    fn output_format_part(&self) -> (r: Vec<String>)
        ensures
            views(r@) == output_format_args(self@),
    {
        let mut r: Vec<String> = Vec::new();
        match &self.output_format {
            Some((format, extensions)) => {
                r.push(String::from_str("-t"));
                r.push(format_string(format.to_string(), extensions));
            },
            None => {},
        }
        assert(views(r@) =~= output_format_args(self@));
        r
    }

    fn options_part(&self) -> (r: Vec<String>)
        ensures
            views(r@) == option_args(self@),
    {
        let ghost pieces = self@.options.map_values(|o: PandocOption| o.spec_args());
        let mut r: Vec<String> = Vec::new();
        let mut i: usize = 0;
        while i < self.options.len()
            invariant
                i <= self@.options.len(),
                pieces == self@.options.map_values(|o: PandocOption| o.spec_args()),
                views(r@) == pieces.take(i as int).flatten(),
            decreases self@.options.len() - i,
        {
            proof {
                assert(pieces.take(i as int + 1) =~= pieces.take(i as int).push(pieces[i as int]));
                pieces.take(i as int).lemma_flatten_push(pieces[i as int]);
            }
            let a = self.options[i].args();
            append_strings(&mut r, &a);
            i += 1;
        }
        assert(pieces.take(i as int) =~= pieces);
        r
    }

    /// The value of `PATH` pandoc is run with, where the system's `PATH` is
    /// `system_path`: the LaTeX hints, the pandoc hints, the system's `PATH`,
    /// then the hard-coded LaTeX directories, joined by `:`.
    pub fn search_path(&self, system_path: &str) -> (s: String)
        ensures
            s@ == search_path_text(self@, system_path@),
    {
        let mut dirs: Vec<String> = Vec::new();
        append_strings(&mut dirs, &self.latex_path_hint);
        append_strings(&mut dirs, &self.pandoc_path_hint);
        dirs.push(String::from_str(system_path));
        dirs.push(String::from_str("/usr/local/bin"));
        dirs.push(String::from_str("/usr/local/texlive/2015/bin/i386-linux"));
        assert(views(dirs@) =~= search_dirs(self@, system_path@));
        join_strings(dirs, ":")
    }

    /// The run of pandoc this configuration stands for, where the system's
    /// `PATH` is `system_path`. Without an output it is refused with
    /// `NoOutputSpecified`; with an output but no input, with `NoInputSpecified`.
    pub fn invocation(&self, system_path: &str) -> (r: Result<Invocation, PandocError>)
        ensures
            self@.output is None ==> r == Err::<Invocation, PandocError>(
                PandocError::NoOutputSpecified,
            ),
            self@.output is Some && self@.input is None ==> r == Err::<Invocation, PandocError>(
                PandocError::NoInputSpecified,
            ),
            self@.output is Some && self@.input is Some ==> (r matches Ok(inv) && runs(
                inv,
                self@,
                system_path@,
            )),
    {
        let path = self.search_path(system_path);
        if self.output.is_none() {
            return Err(PandocError::NoOutputSpecified);
        }
        if self.input.is_none() {
            return Err(PandocError::NoInputSpecified);
        }
        let mut args = self.input_format_part();
        let extra = self.extra_part();
        append_strings(&mut args, &extra);
        let inputs = self.input_part();
        append_strings(&mut args, &inputs);
        let outputs = self.output_part();
        append_strings(&mut args, &outputs);
        let format = self.output_format_part();
        append_strings(&mut args, &format);
        let opts = self.options_part();
        append_strings(&mut args, &opts);
        let stdin = match &self.input {
            Some(InputKind::Pipe(text)) => Some(text.clone()),
            _ => None,
        };
        let capture_stdout = match &self.output {
            Some(OutputKind::Pipe) => true,
            _ => false,
        };
        Ok(Invocation { args, path, stdin, capture_stdout, show_cmdline: self.print_pandoc_cmdline })
    }
}

/// The configuration of the run that reads the input of `v` and writes it as
/// pandoc's JSON to standard output, for the filters to work on: the input and
/// input format of `v` (without its extensions), its hints and its showing of
/// the command line, and nothing else.
pub open spec fn pre_run_view<F>(v: PandocView<F>) -> PandocView<F> {
    PandocView {
        input: v.input,
        input_format: match v.input_format {
            Some((format, _)) => Some((format, Seq::empty())),
            None => None,
        },
        output: Some(OutputKindView::Pipe),
        output_format: Some((OutputFormat::Json, Seq::empty())),
        latex_path_hint: v.latex_path_hint,
        pandoc_path_hint: v.pandoc_path_hint,
        filters: Seq::empty(),
        args: Seq::empty(),
        options: Seq::empty(),
        print_pandoc_cmdline: v.print_pandoc_cmdline,
    }
}

/// What remains of `v` once its input has gone to the run of
/// `pre_run_view(v)`: no filters, no input yet, and JSON as input format with
/// the extensions of its input format.
pub open spec fn after_pre_run_view<F>(v: PandocView<F>) -> PandocView<F> {
    PandocView {
        input: None,
        input_format: Some(
            (
                InputFormat::Json,
                match v.input_format {
                    Some((_, extensions)) => extensions,
                    None => Seq::empty(),
                },
            ),
        ),
        filters: Seq::empty(),
        ..v
    }
}

/// Whether `output` is what the filters `fs`, applied one after the other in
/// their order, can make of `input`.
pub open spec fn filtered<F: Fn(String) -> String>(fs: Seq<F>, input: String, output: String) -> bool
    decreases fs.len(),
{
    if fs.len() == 0 {
        output == input
    } else {
        exists|mid: String|
            #![trigger call_ensures(fs.last(), (mid,), output)]
            filtered(fs.drop_last(), input, mid) && call_ensures(fs.last(), (mid,), output)
    }
}

impl<F> Pandoc<F> {
    /// The first step of running the filters. Without filters, nothing is to
    /// be done and the configuration stays as it is. With filters, they are
    /// taken out and handed back with the configuration of the run that turns
    /// the input into JSON (see `pre_run_view`); this configuration is left
    /// without an input, to read JSON (see `after_pre_run_view`).
    pub fn begin_preprocess(&mut self) -> (r: Option<(Pandoc<F>, Vec<F>)>)
        ensures
            old(self)@.filters.len() == 0 ==> r is None && final(self)@ == old(self)@,
            old(self)@.filters.len() > 0 ==> (r matches Some((pre, filters)) && pre@ == pre_run_view(
                old(self)@,
            ) && filters@ == old(self)@.filters && final(self)@ == after_pre_run_view(old(self)@)),
    {
        let mut filters: Vec<F> = Vec::new();
        std::mem::swap(&mut filters, &mut self.filters);
        if filters.len() == 0 {
            proof {
                assert(self@ =~= old(self)@);
            }
            return None;
        }
        let mut pre: Pandoc<F> = Pandoc::new();
        pre.pandoc_path_hint = copy_strings(&self.pandoc_path_hint);
        pre.latex_path_hint = copy_strings(&self.latex_path_hint);
        pre.output = Some(OutputKind::Pipe);
        pre.set_output_format(OutputFormat::Json, Vec::new());
        pre.input = self.input.take();
        pre.print_pandoc_cmdline = self.print_pandoc_cmdline;
        match self.input_format.take() {
            None => self.input_format = Some((InputFormat::Json, Vec::new())),
            Some((format, extensions)) => {
                pre.input_format = Some((format, Vec::new()));
                self.input_format = Some((InputFormat::Json, extensions));
            },
        }
        proof {
            assert(pre@ =~= pre_run_view(old(self)@));
            assert(self@ =~= after_pre_run_view(old(self)@));
        }
        Some((pre, filters))
    }

    fn arg(&mut self, key: &str, value: &str) -> (r: &mut Pandoc<F>)
        ensures
            (*r)@ == (PandocView { args: old(self)@.args.push((key@, value@)), ..old(self)@ }),
            *final(self) == *final(r),
    {
        self.args.push((String::from_str(key), String::from_str(value)));
        proof {
            assert(pair_views(self.args@) =~= pair_views(old(self).args@).push((key@, value@)));
        }
        self
    }

    /// Asks pandoc for its default template of the output format: adds the
    /// argument `--print-default-template=` with the output format and its
    /// extensions. The output format must be set.
    pub fn request_default_template(&mut self) -> (r: &mut Pandoc<F>)
        requires
            old(self)@.output_format is Some,
        ensures
            old(self)@.output_format matches Some((format, extensions)) && (*r)@ == (PandocView {
                args: old(self)@.args.push(
                    ("print-default-template"@, format_arg(format.spec_name(), extensions)),
                ),
                ..old(self)@
            }),
            *final(self) == *final(r),
    {
        let text = match &self.output_format {
            Some((format, extensions)) => format_string(format.to_string(), extensions),
            None => String::new(),
        };
        self.arg("print-default-template", text.as_str())
    }
}

impl<F: Fn(String) -> String> Pandoc<F> {
    /// The last step of running the filters: applies `filters` one after the
    /// other, in their order, to the JSON that the first run wrote, and makes
    /// the result the text read from standard input.
    pub fn finish_preprocess(&mut self, filters: Vec<F>, json: String)
        requires
            forall|i: int, s: String| 0 <= i < filters@.len() ==> call_requires(filters@[i], (s,)),
        ensures
            exists|out: String|
                #![trigger filtered(filters@, json, out)]
                filtered(filters@, json, out) && final(self)@ == (PandocView {
                    input: Some(InputKindView::Pipe(out@)),
                    ..old(self)@
                }),
    {
        let ghost start = json;
        let mut acc = json;
        let mut i: usize = 0;
        while i < filters.len()
            invariant
                i <= filters@.len(),
                forall|i: int, s: String| 0 <= i < filters@.len() ==> call_requires(filters@[i], (s,)),
                filtered(filters@.take(i as int), start, acc),
            decreases filters@.len() - i,
        {
            let ghost prev = acc;
            let f = &filters[i];
            acc = f(acc);
            proof {
                let t = filters@.take(i + 1);
                assert(t.drop_last() =~= filters@.take(i as int));
                assert(t.last() == filters@[i as int]);
                assert(call_ensures(t.last(), (prev,), acc));
            }
            i += 1;
        }
        assert(filters@.take(filters@.len() as int) =~= filters@);
        let ghost out = acc;
        self.input = Some(InputKind::Pipe(acc));
        proof {
            assert(self@ =~= (PandocView { input: Some(InputKindView::Pipe(out@)), ..old(self)@ }));
        }
    }
}

} // verus!
