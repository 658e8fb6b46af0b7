//! Conversion of a USFM syntax tree into the USJ document model.
//!
//! [`syntax`] holds the tree as the parser hands it over, [`usj`] the
//! document that a conversion builds, and [`convert`] the converter: a
//! dispatcher over node categories with one handler per marker family, whose
//! result is specified by `convert::conv`. [`laws`] proves properties that
//! every conversion has.

pub mod convert;
pub mod laws;
pub mod syntax;
pub mod text;
pub mod usj;
