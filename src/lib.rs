//! A book preprocessor that sends each chapter through the pandoc converter to
//! resolve citations against a bibliography file.
//!
//! The library holds the decisions: which citation engine the installed
//! converter supports, which options each converter run gets, and how the
//! converted text replaces each chapter. Running the converter, reading the
//! book and writing it back are left to the caller.

pub mod bibliography;
pub mod book;
pub mod probe;
pub mod setup;

pub use bibliography::{Bibliography, ConverterOption, Extension, InputFlavour, OutputFlavour};
pub use book::{convert_chapters, Book, BookItem, Chapter};
pub use probe::{builtin_citeproc_support, version_field, ProbeError};
pub use setup::{check_files, configure, SetupError};
