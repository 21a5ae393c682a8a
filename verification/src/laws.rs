//! What holds of the builder across its operations: how each setter changes
//! the command line that pandoc is run with, and where the executables are
//! searched for.

use vstd::prelude::*;

use crate::formats::{InputFormat, MarkdownExtension, OutputFormat};
use crate::options::PandocOption;
use crate::pandoc::{
    added_options, added_variable, after_pre_run_view, doc_class_var, without_doc_class, command_args, extra_args, format_arg,
    input_args, input_format_args, option_args, output_args, output_format_args, pre_run_view,
    filtered, search_dirs, search_path_text, stdin_text, with_input_file, with_option, InputKindView,
    OutputKindView, PandocView,
};
use crate::options::opt_text;
use crate::pandoc::{
    code_text, lemma_without_doc_class_push, runs, signed_decimal, Invocation, PandocError,
    RunFailure,
};
use crate::text::views;
use crate::text::{decimal, digit_char, joined, lemma_joined_push, interspersed, number_list};

verus! {

broadcast use vstd::seq_lib::group_seq_properties;

/// One item joined with nothing else is the item itself.
pub proof fn lemma_joined_single(item: Seq<char>, sep: Seq<char>)
    ensures
        joined(seq![item], sep) == item,
{
    assert(interspersed(seq![item], sep) == seq![item]);
    seq![item].lemma_flatten_one_element();
}

/// Options that are the same stand for the same arguments.
pub proof fn lemma_same_option_same_args(a: PandocOption, b: PandocOption)
    requires
        a.same_as(&b),
    ensures
        a.spec_args() == b.spec_args(),
{
}

/// The executables are searched for first in the LaTeX hints and the pandoc
/// hints, in the order they were added, then in the system's `PATH`, then in
/// the hard-coded LaTeX directories.
pub proof fn law_hints_searched_first<F>(v: PandocView<F>, system_path: Seq<char>)
    ensures
        v.latex_path_hint.len() + v.pandoc_path_hint.len() == 0 ==> search_path_text(v, system_path)
            == system_path + ":"@ + "/usr/local/bin"@ + ":"@ + "/usr/local/texlive/2015/bin/i386-linux"@,
        v.latex_path_hint.len() + v.pandoc_path_hint.len() > 0 ==> search_path_text(v, system_path)
            == joined(v.latex_path_hint + v.pandoc_path_hint, ":"@) + ":"@ + system_path + ":"@
            + "/usr/local/bin"@ + ":"@ + "/usr/local/texlive/2015/bin/i386-linux"@,
{
    let hints = v.latex_path_hint + v.pandoc_path_hint;
    let d1 = "/usr/local/bin"@;
    let d2 = "/usr/local/texlive/2015/bin/i386-linux"@;
    let sep = ":"@;
    assert(search_dirs(v, system_path) =~= hints.push(system_path).push(d1).push(d2));
    if hints.len() == 0 {
        assert(hints.push(system_path) =~= seq![system_path]);
        lemma_joined_single(system_path, sep);
        lemma_joined_push(seq![system_path], sep, d1);
        lemma_joined_push(seq![system_path].push(d1), sep, d2);
    } else {
        lemma_joined_push(hints, sep, system_path);
        lemma_joined_push(hints.push(system_path), sep, d1);
        lemma_joined_push(hints.push(system_path).push(d1), sep, d2);
    }
}

/// An option added to the builder puts its arguments at the end of the
/// command line, after everything that was there.
pub proof fn law_option_args_come_last<F>(v: PandocView<F>, option: PandocOption)
    ensures
        command_args(with_option(v, option)) == command_args(v) + option.spec_args(),
{
    let w = with_option(v, option);
    let pieces = v.options.map_values(|o: PandocOption| o.spec_args());
    assert(w.options.map_values(|o: PandocOption| o.spec_args()) =~= pieces.push(option.spec_args()));
    pieces.lemma_flatten_push(option.spec_args());
    assert(command_args(w) =~= command_args(v) + option.spec_args());
}

/// Options added together put their arguments at the end of the command
/// line, option after option.
pub proof fn law_options_args_come_last<F>(
    v: PandocView<F>,
    w: PandocView<F>,
    options: Seq<PandocOption>,
)
    requires
        added_options(w, v, options),
    ensures
        command_args(w) == command_args(v) + options.map_values(|o: PandocOption| o.spec_args()).flatten(),
{
    let n = v.options.len();
    let rest = w.options.subrange(n as int, w.options.len() as int);
    assert(w.options =~= v.options + rest);
    let f = |o: PandocOption| o.spec_args();
    assert forall|i: int| 0 <= i < rest.len() implies rest.map_values(f)[i] == options.map_values(
        f,
    )[i] by {
        assert(rest[i] == w.options[n + i]);
        lemma_same_option_same_args(w.options[n + i], options[i]);
    }
    assert(rest.map_values(f) =~= options.map_values(f));
    assert((v.options + rest).map_values(f) =~= v.options.map_values(f) + rest.map_values(f));
    vstd::seq_lib::lemma_flatten_concat(v.options.map_values(f), rest.map_values(f));
    assert(command_args(w) =~= command_args(v) + options.map_values(f).flatten());
}

/// A variable set on the builder, the document class among them, puts
/// `-V key:value` at the end of the command line.
pub proof fn law_variable_args_come_last<F>(
    v: PandocView<F>,
    w: PandocView<F>,
    key: Seq<char>,
    value: Seq<char>,
)
    requires
        added_variable(w, v, key, value),
    ensures
        command_args(w) == command_args(v) + seq!["-V"@, key + ":"@ + value],
{
    let last = w.options.last();
    assert(w.options =~= v.options.push(last));
    assert(w == with_option(v, last));
    law_option_args_come_last(v, last);
}

/// Setting the formats, the input, the output or the showing of the command
/// line overwrites what was set before: of two settings, the second stands.
pub proof fn law_setters_overwrite<F>(
    v: PandocView<F>,
    input_format: (InputFormat, Seq<MarkdownExtension>),
    input_format2: (InputFormat, Seq<MarkdownExtension>),
    output_format: (OutputFormat, Seq<MarkdownExtension>),
    output_format2: (OutputFormat, Seq<MarkdownExtension>),
    input: InputKindView,
    input2: InputKindView,
    output: OutputKindView,
    output2: OutputKindView,
    flag: bool,
    flag2: bool,
)
    ensures
        (PandocView {
            input_format: Some(input_format2),
            ..PandocView { input_format: Some(input_format), ..v }
        }) == (PandocView { input_format: Some(input_format2), ..v }),
        (PandocView {
            output_format: Some(output_format2),
            ..PandocView { output_format: Some(output_format), ..v }
        }) == (PandocView { output_format: Some(output_format2), ..v }),
        (PandocView { input: Some(input2), ..PandocView { input: Some(input), ..v } }) == (
        PandocView { input: Some(input2), ..v }),
        (PandocView { output: Some(output2), ..PandocView { output: Some(output), ..v } }) == (
        PandocView { output: Some(output2), ..v }),
        (PandocView {
            print_pandoc_cmdline: flag2,
            ..PandocView { print_pandoc_cmdline: flag, ..v }
        }) == (PandocView { print_pandoc_cmdline: flag2, ..v }),
{
}

/// Input files are read in the order in which they were added: a file added
/// comes after the files added before it.
pub proof fn law_input_files_in_order<F>(v: PandocView<F>, name: Seq<char>)
    requires
        !(v.input matches Some(InputKindView::Pipe(_))),
    ensures
        input_args(with_input_file(v, name)) == input_args(v).push(name),
{
    match v.input {
        Some(InputKindView::Files(files)) => {},
        _ => {
            assert(input_args(v) =~= Seq::<Seq<char>>::empty());
            assert(input_args(with_input_file(v, name)) =~= seq![name]);
        },
    }
}

/// The run before the filters reads the input of the configuration, in its
/// input format without extensions, and writes pandoc's JSON to standard
/// output; it searches the same directories as the configuration, with the
/// same hints, and shows its command line as the configuration does. The
/// configuration that is left reads JSON, with the extensions of its input
/// format, and keeps its hints, output, output format, key-value pairs,
/// options and showing of the command line.
pub proof fn law_pre_run_writes_json<F>(v: PandocView<F>, system_path: Seq<char>)
    ensures
        pre_run_view(v).output == Some(OutputKindView::Pipe),
        pre_run_view(v).latex_path_hint == v.latex_path_hint,
        pre_run_view(v).pandoc_path_hint == v.pandoc_path_hint,
        search_path_text(pre_run_view(v), system_path) == search_path_text(v, system_path),
        pre_run_view(v).print_pandoc_cmdline == v.print_pandoc_cmdline,
        search_path_text(after_pre_run_view(v), system_path) == search_path_text(v, system_path),
        after_pre_run_view(v).output == v.output,
        after_pre_run_view(v).output_format == v.output_format,
        after_pre_run_view(v).args == v.args,
        after_pre_run_view(v).options == v.options,
        after_pre_run_view(v).print_pandoc_cmdline == v.print_pandoc_cmdline,
        stdin_text(pre_run_view(v)) == stdin_text(v),
        command_args(pre_run_view(v)) == (match v.input_format {
            Some((format, _)) => seq!["-f"@, format.spec_name()],
            None => Seq::<Seq<char>>::empty(),
        }) + input_args(v) + seq!["-t"@, "json"@],
        after_pre_run_view(v).input_format matches Some((InputFormat::Json, _)),
        after_pre_run_view(v).filters.len() == 0,
{
    let p = pre_run_view(v);
    let none: Seq<MarkdownExtension> = Seq::empty();
    assert(none.map_values(|e: MarkdownExtension| "+"@ + e.spec_name()) =~= Seq::<
        Seq<char>,
    >::empty());
    assert(format_arg("json"@, none) =~= "json"@);
    match v.input_format {
        Some((format, _)) => {
            assert(format_arg(format.spec_name(), none) =~= format.spec_name());
        },
        None => {},
    }
    assert(extra_args(p) =~= Seq::<Seq<char>>::empty());
    assert(output_args(p) =~= Seq::<Seq<char>>::empty());
    assert(option_args(p) =~= Seq::<Seq<char>>::empty());
    assert(output_format_args(p) =~= seq!["-t"@, "json"@]);
    assert(command_args(p) =~= input_format_args(p) + input_args(v) + seq!["-t"@, "json"@]);
}

/// Filters added one after the other run one after the other: the filters
/// `first` followed by `second` can make `output` of `input` exactly when the
/// filters `first` can make some text of `input` that the filters `second`
/// can make `output` of.
pub proof fn law_filters_compose<F: Fn(String) -> String>(
    first: Seq<F>,
    second: Seq<F>,
    input: String,
    output: String,
)
    ensures
        filtered(first + second, input, output) <==> exists|mid: String|
            #![trigger filtered(first, input, mid)]
            filtered(first, input, mid) && filtered(second, mid, output),
    decreases second.len(),
{
    if second.len() == 0 {
        assert(first + second =~= first);
        if filtered(first, input, output) {
            assert(filtered(second, output, output));
        }
    } else {
        let front = second.drop_last();
        let f = second.last();
        assert((first + second).drop_last() =~= first + front);
        assert((first + second).last() == f);
        if filtered(first + second, input, output) {
            let m = choose|m: String|
                #![trigger call_ensures(f, (m,), output)]
                filtered(first + front, input, m) && call_ensures(f, (m,), output);
            law_filters_compose(first, front, input, m);
            let b = choose|b: String|
                #![trigger filtered(first, input, b)]
                filtered(first, input, b) && filtered(front, b, m);
            assert(filtered(second, b, output));
        }
        if exists|mid: String|
            #![trigger filtered(first, input, mid)]
            filtered(first, input, mid) && filtered(second, mid, output) {
            let b = choose|b: String|
                #![trigger filtered(first, input, b)]
                filtered(first, input, b) && filtered(second, b, output);
            let m = choose|m: String|
                #![trigger call_ensures(f, (m,), output)]
                filtered(front, b, m) && call_ensures(f, (m,), output);
            law_filters_compose(first, front, input, m);
            assert(filtered(first + front, input, m));
            assert(filtered(first + second, input, output));
        }
    }
}

/// Setting the document class overwrites it: afterwards the only option that
/// sets `documentclass` is the last one, which sets it to the new class, and
/// the command line ends with `-V documentclass:<class>`.
pub proof fn law_doc_class_overwrites<F>(v: PandocView<F>, w: PandocView<F>, name: Seq<char>)
    requires
        added_variable(
            w,
            PandocView { options: without_doc_class(v.options), ..v },
            "documentclass"@,
            name,
        ),
    ensures
        forall|i: int| 0 <= i < w.options.len() - 1 ==> !doc_class_var(#[trigger] w.options[i]),
        doc_class_var(w.options.last()),
        command_args(w) == command_args(PandocView { options: without_doc_class(v.options), ..v })
            + seq!["-V"@, "documentclass"@ + ":"@ + name],
{
    let base = without_doc_class(v.options);
    assert forall|i: int| 0 <= i < w.options.len() - 1 implies !doc_class_var(
        #[trigger] w.options[i],
    ) by {
        assert(w.options[i] == base[i]);
        v.options.lemma_filter_pred(|o: PandocOption| !doc_class_var(o), i);
    }
    law_variable_args_come_last(PandocView { options: base, ..v }, w, "documentclass"@, name);
}

/// The configuration of the main run, once the filters have made `out` of
/// the JSON that the first run wrote.
pub open spec fn main_run_view<F>(v: PandocView<F>, out: Seq<char>) -> PandocView<F> {
    PandocView { input: Some(InputKindView::Pipe(out)), ..after_pre_run_view(v) }
}

/// After the filters, the main run reads their result from standard input as
/// JSON, with the extensions of the input format, and keeps the key-value
/// pairs, the output, the output format and the options of the configuration.
pub proof fn law_main_run_reads_filtered_json<F>(v: PandocView<F>, out: Seq<char>)
    ensures
        stdin_text(main_run_view(v, out)) == Some(out),
        command_args(main_run_view(v, out)) == seq![
            "-f"@,
            format_arg(
                "json"@,
                match v.input_format {
                    Some((_, extensions)) => extensions,
                    None => Seq::empty(),
                },
            ),
        ] + extra_args(v) + output_args(v) + output_format_args(v) + option_args(v),
{
    let m = main_run_view(v, out);
    assert(input_args(m) =~= Seq::<Seq<char>>::empty());
    assert(command_args(m) =~= input_format_args(m) + extra_args(v) + output_args(v)
        + output_format_args(v) + option_args(v));
}

/// Removing the settings of the document class keeps every other option, in
/// order, and only those settings go: nothing is left of no options, and of
/// one more option, what is left of the others, followed by that option
/// unless it is a `-V documentclass` variable.
pub proof fn law_doc_class_removal(options: Seq<PandocOption>, o: PandocOption)
    ensures
        without_doc_class(Seq::empty()) == Seq::<PandocOption>::empty(),
        (o matches PandocOption::Var(k, _) && k@ == "documentclass"@) ==> without_doc_class(
            options.push(o),
        ) == without_doc_class(options),
        !(o matches PandocOption::Var(k, _) && k@ == "documentclass"@) ==> without_doc_class(
            options.push(o),
        ) == without_doc_class(options).push(o),
{
    reveal(Seq::filter);
    lemma_without_doc_class_push(options, o);
}

/// The list of section-number offsets: nothing for no numbers, a single
/// number in decimal, and for one more number, the list so far, a comma, a
/// space and the number in decimal.
pub proof fn law_number_list(nums: Seq<u32>, n: u32)
    ensures
        number_list(Seq::empty()) == Seq::<char>::empty(),
        number_list(seq![n]) == decimal(n as nat),
        nums.len() > 0 ==> number_list(nums.push(n)) == number_list(nums) + ", "@ + decimal(
            n as nat,
        ),
{
    let f = |m: u32| decimal(m as nat);
    assert(Seq::<u32>::empty().map_values(f) =~= Seq::<Seq<char>>::empty());
    assert(interspersed(Seq::<Seq<char>>::empty(), ", "@) == Seq::<Seq<char>>::empty());
    assert(seq![n].map_values(f) =~= seq![decimal(n as nat)]);
    assert(interspersed(seq![decimal(n as nat)], ", "@) == seq![decimal(n as nat)]);
    seq![decimal(n as nat)].lemma_flatten_one_element();
    if nums.len() > 0 {
        assert(nums.push(n).map_values(f) =~= nums.map_values(f).push(decimal(n as nat)));
        lemma_joined_push(nums.map_values(f), ", "@, decimal(n as nat));
    }
}

/// The value of a decimal digit.
pub open spec fn digit_value(c: char) -> int {
    c as int - '0' as int
}

/// The number that a sequence of decimal digits writes, most significant first.
pub open spec fn digits_value(s: Seq<char>) -> int
    decreases s.len(),
{
    if s.len() == 0 {
        0
    } else {
        digits_value(s.drop_last()) * 10 + digit_value(s.last())
    }
}

/// The decimal notation of a number is a nonempty sequence of decimal
/// digits that writes the number, and it begins with `0` only for zero.
pub proof fn law_decimal(n: nat)
    ensures
        decimal(n).len() > 0,
        forall|i: int| 0 <= i < decimal(n).len() ==> 0 <= #[trigger] digit_value(decimal(n)[i]) < 10,
        digits_value(decimal(n)) == n,
        decimal(n)[0] == '0' ==> n == 0,
    decreases n,
{
    if n < 10 {
        let s = decimal(n);
        assert(s =~= seq![digit_char(n)]);
        assert(s.drop_last() =~= Seq::<char>::empty());
        assert(digit_value(digit_char(n)) == n);
        assert(digits_value(Seq::<char>::empty()) == 0);
        assert(digits_value(s) == digits_value(s.drop_last()) * 10 + digit_value(s.last()));
    } else {
        law_decimal(n / 10);
        let s = decimal(n);
        let d = digit_char((n % 10) as nat);
        assert(s == decimal(n / 10).push(d));
        assert(s.drop_last() =~= decimal(n / 10));
        assert(digit_value(d) == n % 10);
        assert forall|i: int| 0 <= i < s.len() implies 0 <= #[trigger] digit_value(s[i]) < 10 by {
            if i < s.len() - 1 {
                assert(s[i] == decimal(n / 10)[i]);
            }
        }
        assert(s[0] == decimal(n / 10)[0]);
        assert(digits_value(s) == digits_value(s.drop_last()) * 10 + digit_value(s.last()));
        assert(digits_value(s) == (n / 10) as int * 10 + n % 10);
    }
}

/// The arguments of each part of the command line: the formats are named
/// with `-f` and `-t` and each extension added after a `+`; a key-value pair
/// is `--key=value`; the input files are given as they are; the output file
/// follows `-o`.
pub proof fn law_command_parts<F>(
    v: PandocView<F>,
    name: Seq<char>,
    extensions: Seq<MarkdownExtension>,
    extension: MarkdownExtension,
    key: Seq<char>,
    value: Seq<char>,
)
    ensures
        format_arg(name, Seq::empty()) == name,
        format_arg(name, extensions.push(extension)) == format_arg(name, extensions) + "+"@
            + extension.spec_name(),
        v.input_format matches Some((f, x)) ==> input_format_args(v) == seq![
            "-f"@,
            format_arg(f.spec_name(), x),
        ],
        v.input_format is None ==> input_format_args(v) == Seq::<Seq<char>>::empty(),
        v.output_format matches Some((f, x)) ==> output_format_args(v) == seq![
            "-t"@,
            format_arg(f.spec_name(), x),
        ],
        v.output_format is None ==> output_format_args(v) == Seq::<Seq<char>>::empty(),
        extra_args(PandocView { args: Seq::empty(), ..v }) == Seq::<Seq<char>>::empty(),
        extra_args(PandocView { args: v.args.push((key, value)), ..v }) == extra_args(v).push(
            "--"@ + key + "="@ + value,
        ),
        v.input matches Some(InputKindView::Files(files)) ==> input_args(v) == files,
        !(v.input matches Some(InputKindView::Files(_))) ==> input_args(v) == Seq::<
            Seq<char>,
        >::empty(),
        command_args(v) == input_format_args(v) + extra_args(v) + input_args(v) + output_args(v)
            + output_format_args(v) + option_args(v),
        v.output matches Some(OutputKindView::File(file)) ==> output_args(v) == seq!["-o"@, file],
        !(v.output matches Some(OutputKindView::File(_))) ==> output_args(v) == Seq::<
            Seq<char>,
        >::empty(),
{
    let f = |e: MarkdownExtension| "+"@ + e.spec_name();
    assert(Seq::<MarkdownExtension>::empty().map_values(f) =~= Seq::<Seq<char>>::empty());
    assert(format_arg(name, Seq::empty()) =~= name);
    assert(extensions.push(extension).map_values(f) =~= extensions.map_values(f).push(
        "+"@ + extension.spec_name(),
    ));
    extensions.map_values(f).lemma_flatten_push("+"@ + extension.spec_name());
    assert(format_arg(name, extensions.push(extension)) =~= format_arg(name, extensions) + "+"@
        + extension.spec_name());
    assert(extra_args(PandocView { args: Seq::empty(), ..v }) =~= Seq::<Seq<char>>::empty());
    assert(extra_args(PandocView { args: v.args.push((key, value)), ..v }) =~= extra_args(v).push(
        "--"@ + key + "="@ + value,
    ));
}

/// Joining texts by a separator: nothing for no texts, a single text as it
/// is, and for one more text, the texts so far, the separator and the text.
pub proof fn law_joined(items: Seq<Seq<char>>, item: Seq<char>, sep: Seq<char>)
    ensures
        joined(Seq::empty(), sep) == Seq::<char>::empty(),
        joined(seq![item], sep) == item,
        items.len() > 0 ==> joined(items.push(item), sep) == joined(items, sep) + sep + item,
{
    assert(interspersed(Seq::<Seq<char>>::empty(), sep) == Seq::<Seq<char>>::empty());
    lemma_joined_single(item, sep);
    if items.len() > 0 {
        lemma_joined_push(items, sep, item);
    }
}

/// A run of a configuration has the configuration's command line and search
/// path; it writes the text of a piped input to pandoc's standard input and
/// nothing otherwise; it captures standard output exactly when the output is
/// piped; and it shows the command line exactly when the configuration asks.
pub proof fn law_run_input_output<F>(inv: Invocation, v: PandocView<F>, system_path: Seq<char>)
    requires
        runs(inv, v, system_path),
    ensures
        views(inv.args@) == command_args(v),
        inv.path@ == search_path_text(v, system_path),
        v.input matches Some(InputKindView::Pipe(text)) ==> opt_text(inv.stdin) == Some(text),
        !(v.input matches Some(InputKindView::Pipe(_))) ==> inv.stdin is None,
        inv.capture_stdout <==> v.output == Some(OutputKindView::Pipe),
        inv.show_cmdline == v.print_pandoc_cmdline,
{
}

/// The texts of the errors.
pub proof fn law_error_texts(byte: usize, failure: RunFailure)
    ensures
        PandocError::NoOutputSpecified.spec_message() == Some("No output file was specified"@),
        PandocError::NoOutputSpecified.spec_description() == Some("No output file was specified"@),
        PandocError::NoInputSpecified.spec_message() == Some("No input files were specified"@),
        PandocError::NoInputSpecified.spec_description() == Some("No input files were specified"@),
        PandocError::PandocNotFound.spec_message() == Some(
            "Pandoc not found, did you forget to install pandoc?"@,
        ),
        PandocError::PandocNotFound.spec_description() == Some("Pandoc not found"@),
        PandocError::BadUtf8Conversion(byte).spec_message() == Some(
            "UTF-8 conversion of pandoc output failed after byte "@ + decimal(byte as nat) + "."@,
        ),
        PandocError::BadUtf8Conversion(byte).spec_description() == Some(
            "UTF-8 conversion of pandoc output failed"@,
        ),
        PandocError::Failed(failure).spec_description() == Some("Pandoc execution failed"@),
        failure.code is None ==> code_text(failure.code) == "None"@,
        failure.code matches Some(c) ==> (c >= 0 ==> code_text(failure.code) == "Some("@ + decimal(
            c as nat,
        ) + ")"@),
        failure.code matches Some(c) ==> (c < 0 ==> code_text(failure.code) == "Some(-"@ + decimal(
            (-c) as nat,
        ) + ")"@),
{
    match failure.code {
        Some(c) => {
            if c < 0 {
                assert("Some("@ + signed_decimal(c as int) + ")"@ =~= "Some("@ + ("-"@ + decimal(
                    (-c) as nat,
                )) + ")"@);
                reveal_strlit("Some(");
                reveal_strlit("-");
                reveal_strlit("Some(-");
                assert("Some("@ + "-"@ =~= "Some(-"@);
                assert(code_text(failure.code) =~= "Some(-"@ + decimal((-c) as nat) + ")"@);
            }
        },
        None => {},
    }
}

/// The filters: none make of a text the text itself, and one more filter
/// makes of the text what it makes of a result of the filters before it.
pub proof fn law_filtered_steps<F: Fn(String) -> String>(
    filters: Seq<F>,
    filter: F,
    input: String,
    output: String,
)
    ensures
        filtered(Seq::<F>::empty(), input, output) <==> output == input,
        filtered(filters.push(filter), input, output) <==> exists|mid: String|
            #![trigger call_ensures(filter, (mid,), output)]
            filtered(filters, input, mid) && call_ensures(filter, (mid,), output),
{
    assert(filters.push(filter).drop_last() =~= filters);
    assert(filters.push(filter).last() == filter);
}

} // verus!
