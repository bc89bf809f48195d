//! The `csv` crate's writer, as far as a single line needs it.

use vstd::prelude::*;
use crate::quote_style::QuoteStyle;

verus! {

/// A `csv::Writer` over a `Vec<u8>` of its own. Nothing inside it is visible to
/// proofs: the spec functions below say what it holds.
#[verifier::external_body]
pub struct LineWriter {
    inner: csv::Writer<Vec<u8>>,
}

#[verifier::external_type_specification]
#[verifier::external_body]
pub struct ExCsvError(csv::Error);

/// The options a writer was made with: delimiter, double-quote flag, escape
/// byte and quoting policy.
pub uninterp spec fn writer_options(writer: LineWriter) -> (u8, bool, u8, QuoteStyle);

/// The fields handed to a writer so far, in the order they were written.
pub uninterp spec fn written_fields(writer: LineWriter) -> Seq<Seq<u8>>;

/// Whether the writer's number test fails on `field`: whether its bytes read
/// neither as a float nor as an integer. Under `NonNumeric` the fields on
/// which it fails are the quoted ones.
pub uninterp spec fn non_numeric(field: Seq<u8>) -> bool;

/// What the number test says of each field of a list.
pub open spec fn number_tests(fields: Seq<Seq<u8>>) -> Seq<bool> {
    Seq::new(fields.len(), |i: int| non_numeric(fields[i]))
}

/// Whether the writer treats `byte` as one that calls for quotes: the
/// delimiter, the quote, a carriage return or a line feed, and the escape byte
/// where quotes are not doubled.
pub open spec fn is_special(delimiter: u8, double_quote: bool, escape: u8, byte: u8) -> bool {
    byte == delimiter || byte == 34 || byte == 13 || byte == 10 || (!double_quote && byte
        == escape)
}

/// Whether `field` holds a byte that calls for quotes.
pub open spec fn needs_quotes(delimiter: u8, double_quote: bool, escape: u8, field: Seq<u8>) -> bool {
    exists|i: int|
        0 <= i < field.len() && is_special(delimiter, double_quote, escape, #[trigger] field[i])
}

/// Whether the writer puts no field of `fields` in quotes: it never does under
/// `Never`, and under `Necessary` it does not where no field needs them.
pub open spec fn written_bare(
    delimiter: u8,
    double_quote: bool,
    escape: u8,
    quote_style: QuoteStyle,
    fields: Seq<Seq<u8>>,
) -> bool {
    match quote_style {
        QuoteStyle::Never => true,
        QuoteStyle::Necessary => forall|i: int|
            0 <= i < fields.len() ==> !needs_quotes(
                delimiter,
                double_quote,
                escape,
                #[trigger] fields[i],
            ),
        _ => false,
    }
}

/// The fields as they are, with the delimiter between each two of them: none
/// before the first and none after the last.
pub open spec fn joined(fields: Seq<Seq<u8>>, delimiter: u8) -> Seq<u8>
    decreases fields.len(),
{
    if fields.len() == 0 {
        Seq::empty()
    } else if fields.len() == 1 {
        fields[0]
    } else {
        joined(fields.drop_last(), delimiter).push(delimiter) + fields.last()
    }
}

/// Whether the writer puts `field` in quotes: always under `Always`, never
/// under `Never`, under `Necessary` where the field holds a byte that calls
/// for them, and under `NonNumeric` where the number test fails on it, which
/// `unlike_number` says.
pub open spec fn quotes_field(
    delimiter: u8,
    double_quote: bool,
    escape: u8,
    quote_style: QuoteStyle,
    field: Seq<u8>,
    unlike_number: bool,
) -> bool {
    match quote_style {
        QuoteStyle::Always => true,
        QuoteStyle::Necessary => needs_quotes(delimiter, double_quote, escape, field),
        QuoteStyle::NonNumeric => unlike_number,
        QuoteStyle::Never => false,
    }
}

/// The text of a quoted field as it stands between its quotes: each quote
/// byte is written twice where quotes are doubled, and else behind the escape
/// byte; every other byte is written as it is.
pub open spec fn escaped(double_quote: bool, escape: u8, field: Seq<u8>) -> Seq<u8>
    decreases field.len(),
{
    if field.len() == 0 {
        Seq::empty()
    } else if field.last() == 34 {
        escaped(double_quote, escape, field.drop_last()).push(
            if double_quote {
                34u8
            } else {
                escape
            },
        ).push(34u8)
    } else {
        escaped(double_quote, escape, field.drop_last()).push(field.last())
    }
}

/// A field as the writer begins it: the opening quote and the escaped text
/// where the field is quoted, the text as it is where it is not.
pub open spec fn opened(
    delimiter: u8,
    double_quote: bool,
    escape: u8,
    quote_style: QuoteStyle,
    field: Seq<u8>,
    unlike_number: bool,
) -> Seq<u8> {
    if quotes_field(delimiter, double_quote, escape, quote_style, field, unlike_number) {
        seq![34u8] + escaped(double_quote, escape, field)
    } else {
        field
    }
}

/// What the writer puts between a field and the next: the closing quote where
/// the field is quoted, then the delimiter.
pub open spec fn separator(
    delimiter: u8,
    double_quote: bool,
    escape: u8,
    quote_style: QuoteStyle,
    field: Seq<u8>,
    unlike_number: bool,
) -> Seq<u8> {
    if quotes_field(delimiter, double_quote, escape, quote_style, field, unlike_number) {
        seq![34u8, delimiter]
    } else {
        seq![delimiter]
    }
}

/// The bytes that the writer puts out for fields written one by one with no
/// record terminator after the last, where `unlike_number` holds what the
/// number test says of each: each field as the writer begins it, and between
/// each two of them the separator that ends the earlier one. A quoted field
/// is closed only by the separator behind it, so a quoted last field stands
/// without its closing quote.
pub open spec fn written_line(
    delimiter: u8,
    double_quote: bool,
    escape: u8,
    quote_style: QuoteStyle,
    fields: Seq<Seq<u8>>,
    unlike_number: Seq<bool>,
) -> Seq<u8>
    recommends
        unlike_number.len() == fields.len(),
    decreases fields.len(),
{
    if fields.len() == 0 {
        Seq::empty()
    } else if fields.len() == 1 {
        opened(delimiter, double_quote, escape, quote_style, fields[0], unlike_number[0])
    } else {
        written_line(
            delimiter,
            double_quote,
            escape,
            quote_style,
            fields.drop_last(),
            unlike_number.drop_last(),
        ) + separator(
            delimiter,
            double_quote,
            escape,
            quote_style,
            fields[fields.len() - 2],
            unlike_number[fields.len() - 2],
        ) + opened(
            delimiter,
            double_quote,
            escape,
            quote_style,
            fields.last(),
            unlike_number[fields.len() - 1],
        )
    }
}

/// Where no field is quoted, the line is the fields joined by the delimiter.
pub proof fn bare_line_is_joined(
    delimiter: u8,
    double_quote: bool,
    escape: u8,
    quote_style: QuoteStyle,
    fields: Seq<Seq<u8>>,
    unlike_number: Seq<bool>,
)
    requires
        unlike_number.len() == fields.len(),
        written_bare(delimiter, double_quote, escape, quote_style, fields),
    ensures
        written_line(delimiter, double_quote, escape, quote_style, fields, unlike_number)
            == joined(fields, delimiter),
    decreases fields.len(),
{
    if fields.len() >= 2 {
        bare_line_is_joined(
            delimiter,
            double_quote,
            escape,
            quote_style,
            fields.drop_last(),
            unlike_number.drop_last(),
        );
        assert(fields.drop_last()[fields.len() - 2] == fields[fields.len() - 2]);
        assert(written_line(delimiter, double_quote, escape, quote_style, fields, unlike_number)
            =~= joined(fields, delimiter));
    }
}

/// `csv::WriterBuilder::from_writer` on an empty `Vec<u8>`, after the builder's
/// `delimiter`, `double_quote`, `escape` and `quote_style`: a writer with these
/// options to which no field has been written.
#[verifier::external_body]
pub(crate) fn new_writer(
    delimiter: u8,
    double_quote: bool,
    escape: u8,
    quote_style: QuoteStyle,
) -> (writer: LineWriter)
    ensures
        writer_options(writer) == (delimiter, double_quote, escape, quote_style),
        written_fields(writer) == Seq::<Seq<u8>>::empty(),
{
    let style = match quote_style {
        QuoteStyle::Always => csv::QuoteStyle::Always,
        QuoteStyle::Necessary => csv::QuoteStyle::Necessary,
        QuoteStyle::NonNumeric => csv::QuoteStyle::NonNumeric,
        QuoteStyle::Never => csv::QuoteStyle::Never,
    };
    let mut builder = csv::WriterBuilder::new();
    builder.delimiter(delimiter).double_quote(double_quote).escape(escape).quote_style(style);
    LineWriter { inner: builder.from_writer(Vec::new()) }
}

/// `csv::Writer::write_field`: the options stay, and the field is the last of
/// those written, behind the earlier ones. The call succeeds: it fails only
/// where the sink refuses bytes, and the sink is a `Vec<u8>`, which takes all
/// it is given.
#[verifier::external_body]
pub(crate) fn write_field(writer: &mut LineWriter, field: &[u8]) -> (outcome: Result<
    (),
    csv::Error,
>)
    ensures
        outcome is Ok,
        writer_options(*final(writer)) == writer_options(*old(writer)),
        written_fields(*final(writer)) == written_fields(*old(writer)).push(field@),
{
    writer.inner.write_field(field)
}

/// `csv::Writer::into_inner`, which flushes: the bytes that come out are the
/// line of the fields written, under the writer's options and with the
/// writer's number test on each field. The call succeeds, since flushing into
/// a `Vec<u8>` does.
#[verifier::external_body]
pub(crate) fn into_line(writer: LineWriter) -> (outcome: Result<Vec<u8>, csv::Error>)
    ensures
        outcome is Ok,
        outcome matches Ok(line) ==> line@ == written_line(
            writer_options(writer).0,
            writer_options(writer).1,
            writer_options(writer).2,
            writer_options(writer).3,
            written_fields(writer),
            Seq::new(written_fields(writer).len(), |i: int| non_numeric(written_fields(writer)[i])),
        ),
{
    match writer.inner.into_inner() {
        Ok(line) => Ok(line),
        Err(failed) => Err(csv::Error::from(failed.into_error())),
    }
}

} // verus!
