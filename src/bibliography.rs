//! The converter invocation that every chapter goes through: the options,
//! dialects and extensions handed to pandoc.

use vstd::prelude::*;

verus! {

/// The markdown dialects that pandoc reads with citation support.
#[derive(Clone, Copy, PartialEq, Eq, Structural, Debug)]
pub enum InputFlavour {
    /// pandoc's extended markdown
    Markdown,
    /// original unextended markdown
    MarkdownStrict,
    /// PHP Markdown Extra
    MarkdownPhpextra,
    /// GitHub's extended markdown
    MarkdownGithub,
}

/// The markdown dialects that pandoc may write the chapters back in.
#[derive(Clone, Copy, PartialEq, Eq, Structural, Debug)]
pub enum OutputFlavour {
    /// pandoc's extended markdown
    Markdown,
    /// original unextended markdown
    MarkdownStrict,
    /// PHP Markdown Extra
    MarkdownPhpextra,
    /// GitHub's extended markdown (deprecated)
    MarkdownGithub,
    /// CommonMark
    Commonmark,
    /// CommonMark with extensions
    CommonmarkX,
    /// GitHub-Flavored Markdown
    Gfm,
}

/// One command-line option of a converter run.
#[derive(Clone, Debug, PartialEq, Eq)]
pub enum ConverterOption {
    /// The citation style file.
    Csl(String),
    /// Use the converter's built-in citation engine.
    Citeproc,
    /// Run the named filter program over the document.
    Filter(String),
    /// The bibliography database.
    Bibliography(String),
    /// A metadata field, with its value where it has one.
    Meta(String, Option<String>),
}

/// A markdown extension switched on for reading or writing.
#[derive(Clone, Debug, PartialEq, Eq)]
pub enum Extension {
    Citations,
    Footnotes,
    Other(String),
}

/// The converter invocation that every chapter of the book goes through.
#[derive(Clone, Debug, PartialEq, Eq)]
pub struct Bibliography {
    /// The options, in the order they are passed.
    pub options: Vec<ConverterOption>,
    pub input_format: InputFlavour,
    pub input_extensions: Vec<Extension>,
    pub output_format: OutputFlavour,
    pub output_extensions: Vec<Extension>,
}

/// Whether `o` is the filter program named `name`.
pub open spec fn is_filter(o: ConverterOption, name: Seq<char>) -> bool {
    o is Filter && o->Filter_0@ == name
}

/// Whether `o` switches the `link-citations` metadata field on.
pub open spec fn is_link_citations(o: ConverterOption) -> bool {
    o is Meta && o->Meta_0@ == "link-citations"@ && (o->Meta_1 matches Some(v) && v@ == "true"@)
}

/// Whether `opts` are the options of a run against bibliography `bib` and
/// style `csl`: the style; then the built-in engine, or else the external
/// `pandoc-citeproc` filter; then the bibliography; then, where citations are
/// linked, the `link-citations` field.
pub open spec fn planned_options(
    opts: Seq<ConverterOption>,
    bib: String,
    csl: String,
    link_citations: bool,
    builtin_citeproc: bool,
) -> bool {
    &&& opts.len() == if link_citations {
        4int
    } else {
        3int
    }
    &&& opts[0] == ConverterOption::Csl(csl)
    &&& if builtin_citeproc {
        opts[1] is Citeproc
    } else {
        is_filter(opts[1], "pandoc-citeproc"@)
    }
    &&& opts[2] == ConverterOption::Bibliography(bib)
    &&& link_citations ==> is_link_citations(opts[3])
}

/// Whether `b` is the invocation that `Bibliography::new` makes of these arguments.
pub open spec fn planned(
    b: Bibliography,
    bib: String,
    csl: String,
    in_format: InputFlavour,
    out_format: OutputFlavour,
    link_citations: bool,
    builtin_citeproc: bool,
) -> bool {
    &&& planned_options(b.options@, bib, csl, link_citations, builtin_citeproc)
    &&& b.input_format == in_format
    &&& b.input_extensions@.len() == 2
    &&& b.input_extensions@[0] is Citations
    &&& b.input_extensions@[1] is Footnotes
    &&& b.output_format == out_format
    &&& b.output_extensions@.len() == 2
    &&& b.output_extensions@[0] is Footnotes
    &&& (b.output_extensions@[1] matches Extension::Other(e) && e@ == "task_lists"@)
}

impl Bibliography {
    /// The invocation for bibliography `bib` and citation style `csl`, reading
    /// chapters in `in_format` with citations and footnotes, and writing them
    /// in `out_format` with footnotes and task lists.
    pub fn new(
        bib: String,
        csl: String,
        in_format: InputFlavour,
        out_format: OutputFlavour,
        link_citations: bool,
        builtin_citeproc: bool,
    ) -> (r: Bibliography)
        ensures
            planned(r, bib, csl, in_format, out_format, link_citations, builtin_citeproc),
    {
        let mut options: Vec<ConverterOption> = Vec::new();
        options.push(ConverterOption::Csl(csl));
        if builtin_citeproc {
            options.push(ConverterOption::Citeproc);
        } else {
            options.push(ConverterOption::Filter("pandoc-citeproc".to_owned()));
        }
        options.push(ConverterOption::Bibliography(bib));
        if link_citations {
            options.push(
                ConverterOption::Meta("link-citations".to_owned(), Some("true".to_owned())),
            );
        }
        let mut input_extensions: Vec<Extension> = Vec::new();
        input_extensions.push(Extension::Citations);
        input_extensions.push(Extension::Footnotes);
        let mut output_extensions: Vec<Extension> = Vec::new();
        output_extensions.push(Extension::Footnotes);
        output_extensions.push(Extension::Other("task_lists".to_owned()));
        Bibliography {
            options,
            input_format: in_format,
            input_extensions,
            output_format: out_format,
            output_extensions,
        }
    }

    /// The name under which the preprocessor is known to the book tool.
    pub fn name(&self) -> (r: &'static str)
        ensures
            r@ == "mdbook-bibfile-referencing"@,
    {
        "mdbook-bibfile-referencing"
    }
}

} // verus!
