//! Startup: the checks that run before the book is read, and the invocation
//! that follows from the command line and the converter's version.

use vstd::prelude::*;
use crate::bibliography::{
    is_filter,
    planned,
    Bibliography,
    ConverterOption,
    InputFlavour,
    OutputFlavour,
};
use crate::probe::{
    banner_version,
    builtin_citeproc_support,
    builtin_selected,
    builtin_threshold,
    version_at_least,
    ProbeError,
};

verus! {

/// Why the preprocessor cannot start.
#[derive(Clone, Debug, PartialEq, Eq)]
pub enum SetupError {
    /// The bibliography file does not exist.
    BibNotFound,
    /// The citation style file does not exist.
    CslNotFound,
    /// The converter's version could not be settled.
    Probe(ProbeError),
}

/// The check that the two files named on the command line exist; the
/// bibliography is looked at first.
pub fn check_files(bib_exists: bool, csl_exists: bool) -> (r: Result<(), SetupError>)
    ensures
        match r {
            Ok(()) => bib_exists && csl_exists,
            Err(SetupError::BibNotFound) => !bib_exists,
            Err(SetupError::CslNotFound) => bib_exists && !csl_exists,
            Err(SetupError::Probe(_)) => false,
        },
{
    if !bib_exists {
        Err(SetupError::BibNotFound)
    } else if !csl_exists {
        Err(SetupError::CslNotFound)
    } else {
        Ok(())
    }
}

/// Whether `b` is the invocation for these command-line values, where the
/// converter's version query exited with `success` and printed `out`.
pub open spec fn configured(
    b: Bibliography,
    bib: String,
    csl: String,
    in_format: InputFlavour,
    out_format: OutputFlavour,
    disable_links: bool,
    success: bool,
    out: Seq<char>,
) -> bool {
    builtin_selected(success, out) matches Some(builtin) && planned(
        b,
        bib,
        csl,
        in_format,
        out_format,
        !disable_links,
        builtin,
    )
}

/// The invocation for the command-line values, choosing the citation engine
/// from what the converter's version query returned. Citations are linked
/// unless `disable_links`.
pub fn configure(
    bib: String,
    csl: String,
    in_format: InputFlavour,
    out_format: OutputFlavour,
    disable_links: bool,
    query_success: bool,
    query_stdout: &str,
    query_stderr: String,
) -> (r: Result<Bibliography, SetupError>)
    ensures
        match r {
            Ok(b) => configured(
                b,
                bib,
                csl,
                in_format,
                out_format,
                disable_links,
                query_success,
                query_stdout@,
            ),
            Err(SetupError::Probe(_)) => builtin_selected(query_success, query_stdout@) is None,
            Err(_) => false,
        },
{
    match builtin_citeproc_support(query_success, query_stdout, query_stderr) {
        Ok(builtin) => Ok(
            Bibliography::new(bib, csl, in_format, out_format, !disable_links, builtin),
        ),
        Err(e) => Err(SetupError::Probe(e)),
    }
}

/// A converter whose version lies below the threshold gets its citations
/// through the external `pandoc-citeproc` filter, and the built-in engine is
/// never asked for.
pub proof fn lemma_old_converter_uses_filter(
    b: Bibliography,
    bib: String,
    csl: String,
    in_format: InputFlavour,
    out_format: OutputFlavour,
    disable_links: bool,
    out: Seq<char>,
)
    requires
        configured(b, bib, csl, in_format, out_format, disable_links, true, out),
        banner_version(out) matches Some(v) && version_at_least(v, builtin_threshold()) == Some(
            false,
        ),
    ensures
        is_filter(b.options@[1], "pandoc-citeproc"@),
        forall|i: int| 0 <= i < b.options@.len() ==> !(#[trigger] b.options@[i] is Citeproc),
{
    assert forall|i: int| 0 <= i < b.options@.len() implies !(
    #[trigger] b.options@[i] is Citeproc) by {
        if i == 3 {
            assert(b.options@[3] is Meta);
        }
    }
}

/// A converter at or above the threshold version uses its built-in citation
/// engine, and no filter program is run.
pub proof fn lemma_new_converter_uses_builtin(
    b: Bibliography,
    bib: String,
    csl: String,
    in_format: InputFlavour,
    out_format: OutputFlavour,
    disable_links: bool,
    out: Seq<char>,
)
    requires
        configured(b, bib, csl, in_format, out_format, disable_links, true, out),
        banner_version(out) matches Some(v) && version_at_least(v, builtin_threshold()) == Some(
            true,
        ),
    ensures
        b.options@[1] is Citeproc,
        forall|i: int| 0 <= i < b.options@.len() ==> !(#[trigger] b.options@[i] is Filter),
{
    assert forall|i: int| 0 <= i < b.options@.len() implies !(
    #[trigger] b.options@[i] is Filter) by {
        if i == 3 {
            assert(b.options@[3] is Meta);
        }
    }
}

} // verus!
