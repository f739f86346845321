//! An in-memory model of a word-processing document body, rendered to the
//! markup of its main document part.

pub mod document;
pub mod paragraph;
pub mod section_property;
pub mod table;
pub mod xml_builder;

pub use document::{Document, DocumentChild};
pub use paragraph::{Paragraph, ParagraphProperty, ParagraphStyle, Run, RunProperty, Text};
pub use section_property::{PageMargin, PageSize, SectionProperty};
pub use table::{Table, TableCell, TableRow};
pub use xml_builder::{Attribute, BuildXML, Last, MarkupError, XMLBuilder};
