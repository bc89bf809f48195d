//! Encoding of one structured log record as one line of delimiter-separated text.
//!
//! A [`serializer::CsvSerializer`] is built once from a list of field paths and
//! formatting options, and then turns each record into one line appended to a
//! byte buffer. Quoting and escaping are done by the `csv` crate's writer.

pub mod buffer;
pub mod laws;
pub mod quote_style;
pub mod record;
pub mod serializer;
pub mod timestamp;
pub mod value;
pub mod writer;
