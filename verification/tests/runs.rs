use pandoc::{
    InputFormat, InputKind, MarkdownExtension, OutputKind, Pandoc, PandocError, PandocOutput,
    RunFailure,
};

fn strings(v: &[&str]) -> Vec<String> {
    v.iter().map(|s| s.to_string()).collect()
}

fn shout(s: String) -> String {
    s.to_uppercase()
}

fn exclaim(s: String) -> String {
    format!("{}!", s)
}

#[test]
fn no_filters_nothing_to_do() {
    let mut p: Pandoc = pandoc::new();
    p.add_input("a.md").set_output(OutputKind::Pipe);
    assert!(p.begin_preprocess().is_none());
    assert_eq!(p.invocation("/bin").unwrap().args, strings(&["a.md"]));
}

#[test]
fn filters_run_in_order_on_json() {
    let mut p: Pandoc = pandoc::new();
    p.set_input_format(InputFormat::Markdown, vec![MarkdownExtension::Footnotes])
        .add_input("in.md")
        .add_latex_path_hint("/tex")
        .set_output(OutputKind::File("out.pdf".to_string()))
        .set_show_cmdline(true)
        .set_toc()
        .add_filter(shout)
        .add_filter(exclaim);
    let (pre, filters) = p.begin_preprocess().expect("filters were added");
    assert_eq!(filters.len(), 2);
    let pre_run = pre.invocation("/bin").unwrap();
    assert_eq!(pre_run.args, strings(&["-f", "markdown", "in.md", "-t", "json"]));
    assert!(pre_run.capture_stdout);
    assert!(pre_run.show_cmdline);
    assert_eq!(pre_run.path, "/tex:/bin:/usr/local/bin:/usr/local/texlive/2015/bin/i386-linux");
    // the configuration waits for its input
    assert!(matches!(p.invocation("/bin"), Err(PandocError::NoInputSpecified)));
    p.finish_preprocess(filters, "{\"blocks\":[]}".to_string());
    let main_run = p.invocation("/bin").unwrap();
    assert_eq!(
        main_run.args,
        strings(&["-f", "json+footnotes", "-o", "out.pdf", "--table-of-contents"])
    );
    assert_eq!(main_run.stdin.as_deref(), Some("{\"BLOCKS\":[]}!"));
    assert!(p.begin_preprocess().is_none());
}

#[test]
fn filters_without_input_format() {
    let mut p: Pandoc = pandoc::new();
    p.set_input(InputKind::Pipe("x".to_string())).set_output(OutputKind::Pipe).add_filter(exclaim);
    let (pre, filters) = p.begin_preprocess().unwrap();
    let pre_run = pre.invocation("/bin").unwrap();
    assert_eq!(pre_run.args, strings(&["-t", "json"]));
    assert_eq!(pre_run.stdin.as_deref(), Some("x"));
    p.finish_preprocess(filters, "j".to_string());
    let main_run = p.invocation("/bin").unwrap();
    assert_eq!(main_run.args, strings(&["-f", "json"]));
    assert_eq!(main_run.stdin.as_deref(), Some("j!"));
}

#[test]
fn output_to_file() {
    let r = PandocOutput::from_output(Some(OutputKind::File("out.pdf".to_string())), vec![1, 2]);
    assert!(matches!(r, Ok(PandocOutput::ToFile(ref p)) if p == "out.pdf"));
}

#[test]
fn output_to_buffer() {
    let r = PandocOutput::from_output(Some(OutputKind::Pipe), "héllo".as_bytes().to_vec());
    assert!(matches!(r, Ok(PandocOutput::ToBuffer(ref s)) if s == "héllo"));
}

#[test]
fn output_not_utf8() {
    let r = PandocOutput::from_output(Some(OutputKind::Pipe), vec![b'a', b'b', 0xff, b'c']);
    assert!(matches!(r, Err(PandocError::BadUtf8Conversion(2))));
    let r = PandocOutput::from_output(Some(OutputKind::Pipe), vec![0xc3]);
    assert!(matches!(r, Err(PandocError::BadUtf8Conversion(0))));
}

#[test]
fn output_not_configured() {
    let r = PandocOutput::from_output(None, vec![]);
    assert!(matches!(r, Err(PandocError::NoOutputSpecified)));
}

#[test]
fn error_messages() {
    assert_eq!(PandocError::NoOutputSpecified.to_string(), "No output file was specified");
    assert_eq!(PandocError::NoInputSpecified.to_string(), "No input files were specified");
    assert_eq!(
        PandocError::BadUtf8Conversion(17).to_string(),
        "UTF-8 conversion of pandoc output failed after byte 17."
    );
    assert_eq!(
        PandocError::BadUtf8Conversion(3).description(),
        "UTF-8 conversion of pandoc output failed"
    );
    assert_eq!(PandocError::NoInputSpecified.description(), "No input files were specified");
}

#[test]
fn more_error_messages() {
    assert_eq!(
        PandocError::PandocNotFound.to_string(),
        "Pandoc not found, did you forget to install pandoc?"
    );
    assert_eq!(PandocError::PandocNotFound.description(), "Pandoc not found");
    let failed = PandocError::Failed(RunFailure {
        code: Some(-3),
        stdout: b"out".to_vec(),
        stderr: vec![b'e', 0xff],
    });
    assert_eq!(failed.to_string(), "exit_code: Some(-3)stdout: outstderr: e\u{fffd}");
    assert_eq!(failed.description(), "Pandoc execution failed");
    let killed = PandocError::Failed(RunFailure { code: None, stdout: vec![], stderr: vec![] });
    assert_eq!(killed.to_string(), "exit_code: Nonestdout: stderr: ");
    let ok = PandocError::Failed(RunFailure { code: Some(2147483647), stdout: vec![], stderr: vec![] });
    assert_eq!(ok.to_string(), "exit_code: Some(2147483647)stdout: stderr: ");
    let min = PandocError::Failed(RunFailure { code: Some(i32::MIN), stdout: vec![], stderr: vec![] });
    assert_eq!(min.to_string(), "exit_code: Some(-2147483648)stdout: stderr: ");
    let io = PandocError::IoErr(std::io::Error::new(std::io::ErrorKind::Other, "boom"));
    assert!(io.to_string().contains("boom"));
}
