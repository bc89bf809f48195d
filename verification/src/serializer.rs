//! The serializer: which fields of a record make up a line, and how the line
//! is written.

use vstd::prelude::*;
use crate::buffer::{append_bytes, buffer_bytes};
use crate::quote_style::QuoteStyle;
use crate::record::Record;
use crate::value::Value;
use crate::writer::{
    into_line, new_writer, non_numeric, number_tests, write_field, writer_options, written_bare,
    written_fields, written_line,
};

verus! {

/// How a line is written, and which fields of a record it holds.
#[derive(Debug, Clone)]
pub struct CsvSerializerOptions {
    /// The byte between two fields.
    pub delimiter: u8,
    /// Whether a quote inside a quoted field is written twice. Where it is not,
    /// the quote is written behind the escape byte.
    pub double_quote: bool,
    /// The byte written before a quote inside a quoted field. It is used only
    /// where `double_quote` is off.
    pub escape: u8,
    /// When a field is wrapped in quotes.
    pub quote_style: QuoteStyle,
    /// The paths of the fields of a line, in the order in which they are
    /// written. A path may occur more than once. A path that the record lacks,
    /// or whose value has no text, gives an empty field.
    pub fields: Vec<String>,
}

impl Default for CsvSerializerOptions {
    fn default() -> (options: CsvSerializerOptions)
        ensures
            options.delimiter == 44,
            options.double_quote,
            options.escape == 34,
            options.quote_style == QuoteStyle::Necessary,
            options.fields@.len() == 0,
    {
        CsvSerializerOptions {
            delimiter: 44,
            double_quote: true,
            escape: 34,
            quote_style: QuoteStyle::Necessary,
            fields: Vec::new(),
        }
    }
}

/// The text written for `path`: that of the value under it, and nothing where
/// the record has no such path.
pub open spec fn field_text(record: Map<Seq<char>, Value>, path: Seq<char>) -> Seq<u8> {
    if record.contains_key(path) {
        record[path].text()
    } else {
        Seq::empty()
    }
}

/// The texts written for a list of paths: one for each position of the list,
/// in the list's order.
pub open spec fn field_texts(record: Map<Seq<char>, Value>, paths: Seq<Seq<char>>) -> Seq<Seq<u8>> {
    Seq::new(paths.len(), |i: int| field_text(record, paths[i]))
}

/// What each vector of a list holds.
pub open spec fn text_views(texts: Seq<Vec<u8>>) -> Seq<Seq<u8>> {
    Seq::new(texts.len(), |i: int| texts[i]@)
}

impl CsvSerializerOptions {
    /// The configured paths, as texts.
    pub open spec fn paths(self) -> Seq<Seq<char>> {
        Seq::new(self.fields@.len(), |i: int| self.fields@[i]@)
    }

    /// Whether two sets of options say the same.
    pub open spec fn same_as(self, other: CsvSerializerOptions) -> bool {
        &&& self.delimiter == other.delimiter
        &&& self.double_quote == other.double_quote
        &&& self.escape == other.escape
        &&& self.quote_style == other.quote_style
        &&& self.paths() == other.paths()
    }

    /// Whether no text of `texts` is quoted under these options.
    pub open spec fn writes_bare(self, texts: Seq<Seq<u8>>) -> bool {
        written_bare(self.delimiter, self.double_quote, self.escape, self.quote_style, texts)
    }

    /// The line of a list of field texts under these options.
    pub open spec fn line_of(self, texts: Seq<Seq<u8>>) -> Seq<u8> {
        written_line(
            self.delimiter,
            self.double_quote,
            self.escape,
            self.quote_style,
            texts,
            number_tests(texts),
        )
    }

    /// The line of a record under these options.
    pub open spec fn line(self, record: Map<Seq<char>, Value>) -> Seq<u8> {
        self.line_of(field_texts(record, self.paths()))
    }
}

/// Why no serializer was built.
#[derive(Debug, Clone)]
pub struct BuildError {
    message: String,
}

impl BuildError {
    /// What the error says.
    pub closed spec fn message(self) -> Seq<char> {
        self.message@
    }

    /// What the error says.
    pub fn to_string(&self) -> (text: String)
        ensures
            text@ == self.message(),
    {
        self.message.clone()
    }
}

/// Why a record was not encoded: the failure of the writer underneath.
#[derive(Debug)]
pub struct EncodeError {
    pub cause: csv::Error,
}

/// The configuration from which a serializer is built.
#[derive(Debug, Clone)]
pub struct CsvSerializerConfig {
    pub csv: CsvSerializerOptions,
}

/// Writes records as lines.
#[derive(Debug, Clone)]
pub struct CsvSerializer {
    config: CsvSerializerConfig,
}

/// What `build` says where no field is configured.
pub open spec fn no_fields_message() -> Seq<char> {
    "At least one CSV field must be specified"@
}

fn copy_paths(fields: &Vec<String>) -> (copy: Vec<String>)
    ensures
        copy@ == fields@,
{
    let mut copy: Vec<String> = Vec::new();
    let mut i: usize = 0;
    while i < fields.len()
        invariant
            i <= fields@.len(),
            copy@ == fields@.take(i as int),
        decreases fields@.len() - i,
    {
        copy.push(fields[i].clone());
        i = i + 1;
        assert(copy@ =~= fields@.take(i as int));
    }
    assert(fields@.take(i as int) =~= fields@);
    copy
}

impl CsvSerializerConfig {
    pub fn new(csv: CsvSerializerOptions) -> (config: CsvSerializerConfig)
        ensures
            config.csv == csv,
    {
        CsvSerializerConfig { csv }
    }

    /// Builds the serializer. It fails exactly where no field is configured;
    /// the delimiter, the escape byte, the policy and the paths are taken as
    /// they are, and the serializer holds the options as given.
    pub fn build(&self) -> (built: Result<CsvSerializer, BuildError>)
        ensures
            built is Err <==> self.csv.fields@.len() == 0,
            built matches Err(e) ==> e.message() == no_fields_message(),
            built matches Ok(serializer) ==> serializer.options().same_as(self.csv),
    {
        if self.csv.fields.len() == 0 {
            Err(BuildError { message: "At least one CSV field must be specified".to_owned() })
        } else {
            let opts = CsvSerializerOptions {
                delimiter: self.csv.delimiter,
                escape: self.csv.escape,
                double_quote: self.csv.double_quote,
                quote_style: self.csv.quote_style,
                fields: copy_paths(&self.csv.fields),
            };
            let config = CsvSerializerConfig::new(opts);
            Ok(CsvSerializer::new(config))
        }
    }
}

impl CsvSerializer {
    /// The options that the serializer writes with.
    pub closed spec fn options(self) -> CsvSerializerOptions {
        self.config.csv
    }

    pub fn new(config: CsvSerializerConfig) -> (serializer: CsvSerializer)
        ensures
            serializer.options() == config.csv,
    {
        CsvSerializer { config }
    }

    /// The texts of the configured fields of `record`, unquoted: one for each
    /// configured path, in the configured order.
    pub fn project(&self, record: &Record) -> (texts: Vec<Vec<u8>>)
        ensures
            texts@.len() == self.options().paths().len(),
            forall|i: int|
                0 <= i < texts@.len() ==> (#[trigger] texts@[i])@ == field_text(
                    record@,
                    self.options().paths()[i],
                ),
            text_views(texts@) == field_texts(record@, self.options().paths()),
    {
        let fields = &self.config.csv.fields;
        let mut texts: Vec<Vec<u8>> = Vec::new();
        let mut i: usize = 0;
        while i < fields.len()
            invariant
                fields == &self.config.csv.fields,
                i <= fields@.len(),
                texts@.len() == i,
                forall|j: int|
                    0 <= j < i ==> (#[trigger] texts@[j])@ == field_text(record@, fields@[j]@),
            decreases fields@.len() - i,
        {
            let text = match record.get(&fields[i]) {
                Some(value) => value.to_text(),
                None => Vec::new(),
            };
            texts.push(text);
            i = i + 1;
        }
        assert(text_views(texts@) =~= field_texts(record@, self.options().paths()));
        texts
    }

    /// Writes the texts as the fields of one line, in their order. The writer
    /// works on memory of its own, so the line always comes back.
    pub fn write_line(&self, texts: &Vec<Vec<u8>>) -> (written: Result<Vec<u8>, csv::Error>)
        ensures
            written is Ok,
            written matches Ok(line) ==> line@ == self.options().line_of(text_views(texts@)),
    {
        let csv = &self.config.csv;
        let mut writer = new_writer(csv.delimiter, csv.double_quote, csv.escape, csv.quote_style);
        let mut i: usize = 0;
        while i < texts.len()
            invariant
                i <= texts@.len(),
                writer_options(writer) == (
                    csv.delimiter,
                    csv.double_quote,
                    csv.escape,
                    csv.quote_style,
                ),
                written_fields(writer) == text_views(texts@).take(i as int),
            decreases texts@.len() - i,
        {
            match write_field(&mut writer, texts[i].as_slice()) {
                Ok(()) => {},
                Err(e) => {
                    return Err(e);
                },
            }
            i = i + 1;
            assert(written_fields(writer) =~= text_views(texts@).take(i as int));
        }
        assert(text_views(texts@).take(i as int) =~= text_views(texts@));
        assert(number_tests(text_views(texts@)) =~= Seq::new(
            written_fields(writer).len(),
            |i: int| non_numeric(written_fields(writer)[i]),
        ));
        into_line(writer)
    }

    /// Encodes `record` as one line and appends the line to `buffer`.
    pub fn encode(&self, record: &Record, buffer: &mut bytes::BytesMut) -> (outcome: Result<
        (),
        EncodeError,
    >)
        ensures
            outcome is Ok,
            buffer_bytes(*final(buffer)) == buffer_bytes(*old(buffer)) + self.options().line(
                record@,
            ),
    {
        let texts = self.project(record);
        let written = self.write_line(&texts);
        append_line(buffer, written)
    }
}

/// Ends an encoding: appends the line that the writer gave to `buffer`, or
/// hands on the writer's failure and leaves the buffer as it was.
pub fn append_line(buffer: &mut bytes::BytesMut, written: Result<Vec<u8>, csv::Error>) -> (outcome:
    Result<(), EncodeError>)
    ensures
        match written {
            Ok(line) => outcome is Ok && buffer_bytes(*final(buffer)) == buffer_bytes(*old(buffer))
                + line@,
            Err(cause) => outcome == Err::<(), EncodeError>(EncodeError { cause })
                && buffer_bytes(*final(buffer)) == buffer_bytes(*old(buffer)),
        },
{
    match written {
        Ok(line) => {
            append_bytes(buffer, line.as_slice());
            Ok(())
        },
        Err(cause) => Err(EncodeError { cause }),
    }
}

} // verus!
