//! What holds of every record and every configuration.

use vstd::prelude::*;
use crate::serializer::{field_text, field_texts, CsvSerializer, CsvSerializerOptions};
use crate::value::Value;
use crate::quote_style::QuoteStyle;
use crate::writer::{
    bare_line_is_joined, escaped, is_special, joined, needs_quotes, non_numeric, number_tests,
    opened, quotes_field, separator,
};

verus! {

/// A line has one field for each configured path, and the field at a position
/// is the text of the record's value under the path at that position. So the
/// fields come in the configured order, and a path that is configured twice
/// gives the same text twice.
pub proof fn fields_follow_the_configured_order(
    record: Map<Seq<char>, Value>,
    paths: Seq<Seq<char>>,
)
    ensures
        field_texts(record, paths).len() == paths.len(),
        forall|i: int|
            0 <= i < paths.len() ==> #[trigger] field_texts(record, paths)[i] == field_text(
                record,
                paths[i],
            ),
        forall|i: int, j: int|
            0 <= i < paths.len() && 0 <= j < paths.len() && paths[i] == paths[j]
                ==> #[trigger] field_texts(record, paths)[i] == #[trigger] field_texts(
                record,
                paths,
            )[j],
{
}

/// The order in which two values were put into a record under different paths
/// does not show in the record, and so not in any line.
pub proof fn insertion_order_does_not_show(
    options: CsvSerializerOptions,
    record: Map<Seq<char>, Value>,
    first: Seq<char>,
    a: Value,
    second: Seq<char>,
    b: Value,
)
    requires
        first != second,
    ensures
        record.insert(first, a).insert(second, b) == record.insert(second, b).insert(first, a),
        options.line(record.insert(first, a).insert(second, b)) == options.line(
            record.insert(second, b).insert(first, a),
        ),
{
    assert(record.insert(first, a).insert(second, b) =~= record.insert(second, b).insert(
        first,
        a,
    ));
}

/// A path that the record lacks gives an empty text, and so does a path whose
/// value is null, an array, an object or a pattern: nothing but its position
/// tells such a field from any other empty one.
pub proof fn absent_null_and_complex_values_are_empty(
    record: Map<Seq<char>, Value>,
    path: Seq<char>,
)
    ensures
        !record.contains_key(path) ==> field_text(record, path) == Seq::<u8>::empty(),
        record.contains_key(path) && (record[path] is Null || record[path] is Array
            || record[path] is Object || record[path] is Regex) ==> field_text(record, path)
            == Seq::<u8>::empty(),
        Value::Null.text() == Seq::<u8>::empty(),
        Value::Array.text() == Seq::<u8>::empty(),
        Value::Object.text() == Seq::<u8>::empty(),
        Value::Regex.text() == Seq::<u8>::empty(),
{
}

/// Under `Never` no field is quoted, whatever it holds: the line is the texts
/// joined by the delimiter.
pub proof fn never_writes_the_texts_as_they_are(
    options: CsvSerializerOptions,
    record: Map<Seq<char>, Value>,
)
    requires
        options.quote_style == QuoteStyle::Never,
    ensures
        options.line(record) == joined(field_texts(record, options.paths()), options.delimiter),
{
    bare_line_is_joined(
        options.delimiter,
        options.double_quote,
        options.escape,
        options.quote_style,
        field_texts(record, options.paths()),
        number_tests(field_texts(record, options.paths())),
    );
}

/// Under `Necessary`, where no text holds the delimiter, a quote, a carriage
/// return, a line feed or (with doubling off) the escape byte, the line is the
/// texts joined by the delimiter.
pub proof fn necessary_leaves_plain_texts_unquoted(
    options: CsvSerializerOptions,
    record: Map<Seq<char>, Value>,
)
    requires
        options.quote_style == QuoteStyle::Necessary,
        forall|i: int|
            0 <= i < options.paths().len() ==> !needs_quotes(
                options.delimiter,
                options.double_quote,
                options.escape,
                #[trigger] field_text(record, options.paths()[i]),
            ),
    ensures
        options.line(record) == joined(field_texts(record, options.paths()), options.delimiter),
{
    let texts = field_texts(record, options.paths());
    assert forall|i: int| 0 <= i < texts.len() implies !needs_quotes(
        options.delimiter,
        options.double_quote,
        options.escape,
        #[trigger] texts[i],
    ) by {
        assert(texts[i] == field_text(record, options.paths()[i]));
    }
    bare_line_is_joined(
        options.delimiter,
        options.double_quote,
        options.escape,
        options.quote_style,
        texts,
        number_tests(texts),
    );
}

/// The texts of the fields do not depend on the delimiter, the escape byte,
/// the double-quote flag or the quoting policy: two configurations with the
/// same paths hand the writer the same texts. Where neither quotes any of
/// them, the two lines are these texts joined by the one delimiter and by the
/// other.
pub proof fn format_does_not_change_the_field_texts(
    a: CsvSerializerOptions,
    b: CsvSerializerOptions,
    record: Map<Seq<char>, Value>,
)
    requires
        a.paths() == b.paths(),
    ensures
        a.line(record) == a.line_of(field_texts(record, a.paths())),
        b.line(record) == b.line_of(field_texts(record, a.paths())),
        a.writes_bare(field_texts(record, a.paths())) && b.writes_bare(
            field_texts(record, a.paths()),
        ) ==> a.line(record) == joined(field_texts(record, a.paths()), a.delimiter) && b.line(
            record,
        ) == joined(field_texts(record, a.paths()), b.delimiter),
{
    let texts = field_texts(record, a.paths());
    if a.writes_bare(texts) && b.writes_bare(texts) {
        bare_line_is_joined(
            a.delimiter,
            a.double_quote,
            a.escape,
            a.quote_style,
            texts,
            number_tests(texts),
        );
        bare_line_is_joined(
            b.delimiter,
            b.double_quote,
            b.escape,
            b.quote_style,
            texts,
            number_tests(texts),
        );
    }
}

/// Two serializers built from options that say the same write the same line
/// for the same record.
pub proof fn same_options_give_the_same_line(
    options: CsvSerializerOptions,
    first: CsvSerializer,
    second: CsvSerializer,
    record: Map<Seq<char>, Value>,
)
    requires
        first.options().same_as(options),
        second.options().same_as(options),
    ensures
        first.options().line(record) == second.options().line(record),
        first.options().line(record) == options.line(record),
{
}

/// Each field adds to the line of those before it the separator that ends its
/// predecessor and then the field as the writer begins it. The first field
/// has nothing before it, and nothing stands behind the last.
pub proof fn each_field_extends_the_line(
    options: CsvSerializerOptions,
    texts: Seq<Seq<u8>>,
    k: int,
)
    requires
        0 <= k < texts.len(),
    ensures
        k == 0 ==> options.line_of(texts.take(1)) == opened(
            options.delimiter,
            options.double_quote,
            options.escape,
            options.quote_style,
            texts[0],
            non_numeric(texts[0]),
        ),
        k > 0 ==> options.line_of(texts.take(k + 1)) == options.line_of(texts.take(k))
            + separator(
            options.delimiter,
            options.double_quote,
            options.escape,
            options.quote_style,
            texts[k - 1],
            non_numeric(texts[k - 1]),
        ) + opened(
            options.delimiter,
            options.double_quote,
            options.escape,
            options.quote_style,
            texts[k],
            non_numeric(texts[k]),
        ),
        options.line_of(texts.take(texts.len() as int)) == options.line_of(texts),
{
    assert(texts.take(texts.len() as int) =~= texts);
    if k > 0 {
        assert(texts.take(k + 1).drop_last() =~= texts.take(k));
        assert(number_tests(texts.take(k + 1)).drop_last() =~= number_tests(texts.take(k)));
    }
}

/// A text that holds the delimiter or a quote is written in quotes under
/// `Always` and under `Necessary`: an opening quote, the escaped text, and a
/// closing quote before the delimiter that follows. Under `NonNumeric` it is
/// written so where the writer's number test fails on it, and as it stands
/// where the test does not. Under `Never` it is written as it stands.
pub proof fn delimiter_or_quote_calls_for_quotes(
    options: CsvSerializerOptions,
    text: Seq<u8>,
    unlike_number: bool,
    i: int,
)
    requires
        0 <= i < text.len(),
        text[i] == options.delimiter || text[i] == 34,
    ensures
        quotes_field(
            options.delimiter,
            options.double_quote,
            options.escape,
            options.quote_style,
            text,
            unlike_number,
        ) == (options.quote_style == QuoteStyle::Always || options.quote_style
            == QuoteStyle::Necessary || (options.quote_style == QuoteStyle::NonNumeric
            && unlike_number)),
        opened(
            options.delimiter,
            options.double_quote,
            options.escape,
            options.quote_style,
            text,
            unlike_number,
        ) == if quotes_field(
            options.delimiter,
            options.double_quote,
            options.escape,
            options.quote_style,
            text,
            unlike_number,
        ) {
            seq![34u8] + escaped(options.double_quote, options.escape, text)
        } else {
            text
        },
        separator(
            options.delimiter,
            options.double_quote,
            options.escape,
            options.quote_style,
            text,
            unlike_number,
        ) == if quotes_field(
            options.delimiter,
            options.double_quote,
            options.escape,
            options.quote_style,
            text,
            unlike_number,
        ) {
            seq![34u8, options.delimiter]
        } else {
            seq![options.delimiter]
        },
{
    assert(is_special(options.delimiter, options.double_quote, options.escape, text[i]));
}

/// Escaping goes byte by byte: the escaped form of two texts, one behind the
/// other, is the escaped form of the first and then that of the second.
pub proof fn escaping_goes_byte_by_byte(
    double_quote: bool,
    escape: u8,
    front: Seq<u8>,
    back: Seq<u8>,
)
    ensures
        escaped(double_quote, escape, front + back) == escaped(double_quote, escape, front)
            + escaped(double_quote, escape, back),
    decreases back.len(),
{
    if back.len() == 0 {
        assert(front + back =~= front);
        assert(escaped(double_quote, escape, front) + escaped(double_quote, escape, back)
            =~= escaped(double_quote, escape, front));
    } else {
        assert((front + back).drop_last() =~= front + back.drop_last());
        assert((front + back).last() == back.last());
        escaping_goes_byte_by_byte(double_quote, escape, front, back.drop_last());
        assert(escaped(double_quote, escape, front + back) =~= escaped(
            double_quote,
            escape,
            front,
        ) + escaped(double_quote, escape, back));
    }
}

/// A quote inside a quoted text is written twice where quotes are doubled,
/// and behind the escape byte where they are not; what stands before and
/// after it is escaped by itself. A byte that is no quote is written as it is.
pub proof fn quote_is_doubled_or_escaped(
    double_quote: bool,
    escape: u8,
    front: Seq<u8>,
    back: Seq<u8>,
    byte: u8,
)
    ensures
        double_quote ==> escaped(double_quote, escape, front + seq![34u8] + back) == escaped(
            double_quote,
            escape,
            front,
        ) + seq![34u8, 34u8] + escaped(double_quote, escape, back),
        !double_quote ==> escaped(double_quote, escape, front + seq![34u8] + back) == escaped(
            double_quote,
            escape,
            front,
        ) + seq![escape, 34u8] + escaped(double_quote, escape, back),
        byte != 34 ==> escaped(double_quote, escape, front + seq![byte] + back) == escaped(
            double_quote,
            escape,
            front,
        ) + seq![byte] + escaped(double_quote, escape, back),
{
    one_byte_escaped(double_quote, escape, 34u8);
    one_byte_escaped(double_quote, escape, byte);
    escaping_goes_byte_by_byte(double_quote, escape, front, seq![34u8]);
    escaping_goes_byte_by_byte(double_quote, escape, front + seq![34u8], back);
    escaping_goes_byte_by_byte(double_quote, escape, front, seq![byte]);
    escaping_goes_byte_by_byte(double_quote, escape, front + seq![byte], back);
}

proof fn one_byte_escaped(double_quote: bool, escape: u8, byte: u8)
    ensures
        byte != 34 ==> escaped(double_quote, escape, seq![byte]) == seq![byte],
        byte == 34 && double_quote ==> escaped(double_quote, escape, seq![byte]) == seq![
            34u8,
            34u8,
        ],
        byte == 34 && !double_quote ==> escaped(double_quote, escape, seq![byte]) == seq![
            escape,
            34u8,
        ],
{
    let one = seq![byte];
    assert(one.drop_last() =~= Seq::<u8>::empty());
    assert(one.last() == byte);
    reveal_with_fuel(escaped, 2);
    assert(escaped(double_quote, escape, one) =~= if byte != 34 {
        seq![byte]
    } else if double_quote {
        seq![34u8, 34u8]
    } else {
        seq![escape, 34u8]
    });
}

/// Another delimiter changes only the separators. A text that holds neither
/// of two delimiters is quoted under the one exactly where it is under the
/// other, and begins with the same bytes; under a policy other than
/// `Necessary` that is so of every text.
pub proof fn delimiter_only_changes_the_separators(
    a: CsvSerializerOptions,
    b: CsvSerializerOptions,
    text: Seq<u8>,
    unlike_number: bool,
)
    requires
        a.double_quote == b.double_quote,
        a.escape == b.escape,
        a.quote_style == b.quote_style,
        a.quote_style == QuoteStyle::Necessary ==> forall|i: int|
            0 <= i < text.len() ==> #[trigger] text[i] != a.delimiter && text[i] != b.delimiter,
    ensures
        quotes_field(a.delimiter, a.double_quote, a.escape, a.quote_style, text, unlike_number)
            == quotes_field(
            b.delimiter,
            b.double_quote,
            b.escape,
            b.quote_style,
            text,
            unlike_number,
        ),
        opened(a.delimiter, a.double_quote, a.escape, a.quote_style, text, unlike_number)
            == opened(b.delimiter, b.double_quote, b.escape, b.quote_style, text, unlike_number),
        separator(
            a.delimiter,
            a.double_quote,
            a.escape,
            a.quote_style,
            text,
            unlike_number,
        ).drop_last() == separator(
            b.delimiter,
            b.double_quote,
            b.escape,
            b.quote_style,
            text,
            unlike_number,
        ).drop_last(),
        separator(a.delimiter, a.double_quote, a.escape, a.quote_style, text, unlike_number).len()
            == separator(
            b.delimiter,
            b.double_quote,
            b.escape,
            b.quote_style,
            text,
            unlike_number,
        ).len(),
        separator(a.delimiter, a.double_quote, a.escape, a.quote_style, text, unlike_number).last()
            == a.delimiter,
        separator(b.delimiter, b.double_quote, b.escape, b.quote_style, text, unlike_number).last()
            == b.delimiter,
{
    if a.quote_style == QuoteStyle::Necessary {
        let na = needs_quotes(a.delimiter, a.double_quote, a.escape, text);
        let nb = needs_quotes(b.delimiter, b.double_quote, b.escape, text);
        if na {
            let i = choose|i: int|
                0 <= i < text.len() && is_special(
                    a.delimiter,
                    a.double_quote,
                    a.escape,
                    #[trigger] text[i],
                );
            assert(is_special(b.delimiter, b.double_quote, b.escape, text[i]));
        }
        if nb {
            let i = choose|i: int|
                0 <= i < text.len() && is_special(
                    b.delimiter,
                    b.double_quote,
                    b.escape,
                    #[trigger] text[i],
                );
            assert(is_special(a.delimiter, a.double_quote, a.escape, text[i]));
        }
    }
    let sa = separator(a.delimiter, a.double_quote, a.escape, a.quote_style, text, unlike_number);
    let sb = separator(b.delimiter, b.double_quote, b.escape, b.quote_style, text, unlike_number);
    assert(sa.drop_last() =~= sb.drop_last());
}

/// Two configurations that differ in the delimiter alone write lines of the
/// same length, where no text holds either delimiter (or the policy is not
/// `Necessary`): the lines differ at the separators only.
pub proof fn another_delimiter_keeps_the_length(
    a: CsvSerializerOptions,
    b: CsvSerializerOptions,
    texts: Seq<Seq<u8>>,
)
    requires
        a.double_quote == b.double_quote,
        a.escape == b.escape,
        a.quote_style == b.quote_style,
        a.quote_style == QuoteStyle::Necessary ==> forall|i: int, j: int|
            0 <= i < texts.len() && 0 <= j < texts[i].len() ==> #[trigger] texts[i][j]
                != a.delimiter && texts[i][j] != b.delimiter,
    ensures
        a.line_of(texts).len() == b.line_of(texts).len(),
    decreases texts.len(),
{
    if texts.len() >= 1 {
        let n = texts.len() as int;
        delimiter_only_changes_the_separators(a, b, texts[n - 1], non_numeric(texts[n - 1]));
        if n >= 2 {
            let front = texts.drop_last();
            assert(number_tests(texts).drop_last() =~= number_tests(front));
            if a.quote_style == QuoteStyle::Necessary {
                assert forall|i: int, j: int|
                    0 <= i < front.len() && 0 <= j < front[i].len() implies #[trigger] front[i][j]
                    != a.delimiter && front[i][j] != b.delimiter by {
                    assert(front[i][j] == texts[i][j]);
                }
            }
            another_delimiter_keeps_the_length(a, b, front);
            delimiter_only_changes_the_separators(a, b, texts[n - 2], non_numeric(texts[n - 2]));
        }
    }
}

} // verus!
