use mdbook_bibfile_referencing::{
    check_files, configure, Bibliography, ConverterOption, Extension, InputFlavour,
    OutputFlavour, ProbeError, SetupError,
};

#[test]
fn name_of_preprocessor() {
    let b = Bibliography::new(
        String::from("refs.bib"),
        String::from("ieee.csl"),
        InputFlavour::MarkdownGithub,
        OutputFlavour::Gfm,
        true,
        true,
    );
    assert_eq!(b.name(), "mdbook-bibfile-referencing");
}

#[test]
fn builtin_engine_with_links() {
    let b = Bibliography::new(
        String::from("refs.bib"),
        String::from("ieee.csl"),
        InputFlavour::MarkdownGithub,
        OutputFlavour::Gfm,
        true,
        true,
    );
    assert_eq!(
        b.options,
        vec![
            ConverterOption::Csl(String::from("ieee.csl")),
            ConverterOption::Citeproc,
            ConverterOption::Bibliography(String::from("refs.bib")),
            ConverterOption::Meta(String::from("link-citations"), Some(String::from("true"))),
        ]
    );
    assert_eq!(b.input_format, InputFlavour::MarkdownGithub);
    assert_eq!(b.output_format, OutputFlavour::Gfm);
    assert_eq!(b.input_extensions, vec![Extension::Citations, Extension::Footnotes]);
    assert_eq!(
        b.output_extensions,
        vec![Extension::Footnotes, Extension::Other(String::from("task_lists"))]
    );
}

#[test]
fn filter_engine_without_links() {
    let b = Bibliography::new(
        String::from("refs.bib"),
        String::from("apa.csl"),
        InputFlavour::Markdown,
        OutputFlavour::Commonmark,
        false,
        false,
    );
    assert_eq!(
        b.options,
        vec![
            ConverterOption::Csl(String::from("apa.csl")),
            ConverterOption::Filter(String::from("pandoc-citeproc")),
            ConverterOption::Bibliography(String::from("refs.bib")),
        ]
    );
    assert_eq!(b.input_format, InputFlavour::Markdown);
    assert_eq!(b.output_format, OutputFlavour::Commonmark);
}

#[test]
fn missing_bibliography_is_reported_first() {
    assert_eq!(check_files(false, false), Err(SetupError::BibNotFound));
    assert_eq!(check_files(false, true), Err(SetupError::BibNotFound));
}

#[test]
fn missing_style_is_reported() {
    assert_eq!(check_files(true, false), Err(SetupError::CslNotFound));
}

#[test]
fn both_files_present() {
    assert_eq!(check_files(true, true), Ok(()));
}

#[test]
fn old_converter_configured_with_filter() {
    let b = configure(
        String::from("refs.bib"),
        String::from("ieee.csl"),
        InputFlavour::MarkdownGithub,
        OutputFlavour::Gfm,
        false,
        true,
        "pandoc 2.9.2.1\nCompiled with pandoc-types 1.20\n",
        String::new(),
    )
    .unwrap();
    assert_eq!(b.options[1], ConverterOption::Filter(String::from("pandoc-citeproc")));
    assert!(!b.options.contains(&ConverterOption::Citeproc));
    assert_eq!(b.options.len(), 4);
}

#[test]
fn new_converter_configured_with_builtin_engine() {
    let b = configure(
        String::from("refs.bib"),
        String::from("ieee.csl"),
        InputFlavour::MarkdownGithub,
        OutputFlavour::Gfm,
        true,
        true,
        "pandoc 3.1.9\n",
        String::new(),
    )
    .unwrap();
    assert_eq!(b.options[1], ConverterOption::Citeproc);
    assert_eq!(b.options.len(), 3);
}

#[test]
fn unqueryable_converter_stops_setup() {
    let r = configure(
        String::from("refs.bib"),
        String::from("ieee.csl"),
        InputFlavour::MarkdownGithub,
        OutputFlavour::Gfm,
        false,
        false,
        "",
        String::from("pandoc: not found"),
    );
    assert_eq!(
        r,
        Err(SetupError::Probe(ProbeError::QueryFailed(String::from("pandoc: not found"))))
    );
}
