use bytes::BytesMut;
use csv_codec::quote_style::QuoteStyle;
use csv_codec::record::Record;
use csv_codec::serializer::{append_line, CsvSerializer, CsvSerializerConfig, CsvSerializerOptions};
use csv_codec::value::Value;

fn bytes_of(s: &str) -> Value {
    Value::Bytes(s.as_bytes().to_vec())
}

fn sample() -> Record {
    let mut record = Record::new();
    record.insert("c".to_string(), bytes_of("three"));
    record.insert("a".to_string(), bytes_of("one"));
    record.insert("b".to_string(), bytes_of("t,wo"));
    record.insert("q".to_string(), bytes_of("say \"hi\""));
    record.insert("n".to_string(), Value::Integer(-7));
    record.insert("nothing".to_string(), Value::Null);
    record.insert("list".to_string(), Value::Array);
    record.insert("map".to_string(), Value::Object);
    record.insert("pattern".to_string(), Value::Regex);
    record
}

fn with_fields(names: &[&str]) -> CsvSerializerOptions {
    let mut options = CsvSerializerOptions::default();
    options.fields = names.iter().map(|name| name.to_string()).collect();
    options
}

fn built(options: CsvSerializerOptions) -> CsvSerializer {
    CsvSerializerConfig::new(options).build().unwrap()
}

fn line(options: CsvSerializerOptions, record: &Record) -> Vec<u8> {
    let mut buffer = BytesMut::new();
    built(options).encode(record, &mut buffer).unwrap();
    buffer.to_vec()
}

#[test]
fn default_options_are_comma_quote_and_necessary() {
    let options = CsvSerializerOptions::default();
    assert_eq!(options.delimiter, b',');
    assert_eq!(options.escape, b'"');
    assert!(options.double_quote);
    assert_eq!(options.quote_style, QuoteStyle::Necessary);
    assert!(options.fields.is_empty());
    assert_eq!(QuoteStyle::default(), QuoteStyle::Necessary);
}

#[test]
fn build_succeeds_with_one_field_or_more() {
    assert!(CsvSerializerConfig::new(with_fields(&["a"])).build().is_ok());
    assert!(CsvSerializerConfig::new(with_fields(&["a", "a", "zzz"])).build().is_ok());
    let mut odd = with_fields(&[""]);
    odd.delimiter = b'"';
    odd.escape = 0;
    assert!(odd.clone().fields.len() == 1);
    assert!(CsvSerializerConfig::new(odd).build().is_ok());
}

#[test]
fn build_fails_without_fields_whatever_the_format() {
    let mut options = CsvSerializerOptions::default();
    options.delimiter = b';';
    options.quote_style = QuoteStyle::Always;
    let error = CsvSerializerConfig::new(options).build().unwrap_err();
    assert_eq!(error.to_string(), "At least one CSV field must be specified");
}

#[test]
fn fields_come_in_configured_order_with_repeats() {
    let record = sample();
    let texts = built(with_fields(&["a", "b", "b", "c"])).project(&record);
    assert_eq!(
        texts,
        vec![b"one".to_vec(), b"t,wo".to_vec(), b"t,wo".to_vec(), b"three".to_vec()]
    );
    assert_eq!(line(with_fields(&["a", "b", "b", "c"]), &record), b"one,\"t,wo\",\"t,wo\",three");
}

#[test]
fn insertion_order_of_the_record_does_not_matter() {
    let mut forward = Record::new();
    forward.insert("x".to_string(), bytes_of("1"));
    forward.insert("y".to_string(), bytes_of("2"));
    let mut backward = Record::new();
    backward.insert("y".to_string(), bytes_of("2"));
    backward.insert("x".to_string(), bytes_of("1"));
    assert_eq!(
        line(with_fields(&["x", "y"]), &forward),
        line(with_fields(&["x", "y"]), &backward)
    );
    assert_eq!(line(with_fields(&["x", "y"]), &forward), b"1,2");
}

#[test]
fn a_later_insert_replaces_an_earlier_one() {
    let mut record = Record::new();
    record.insert("k".to_string(), bytes_of("old"));
    record.insert("other".to_string(), bytes_of("x"));
    record.insert("k".to_string(), bytes_of("new"));
    match record.get(&"k".to_string()) {
        Some(Value::Bytes(bytes)) => assert_eq!(bytes.as_slice(), b"new"),
        _ => panic!("expected the bytes under k"),
    }
    assert!(record.get(&"absent".to_string()).is_none());
    assert!(Record::new().get(&"k".to_string()).is_none());
}

#[test]
fn absent_null_and_complex_values_give_empty_fields() {
    let record = sample();
    let serializer = built(with_fields(&["missing", "nothing", "list", "map", "pattern", "a"]));
    let texts = serializer.project(&record);
    assert_eq!(
        texts,
        vec![vec![], vec![], vec![], vec![], vec![], b"one".to_vec()]
    );
    assert_eq!(
        line(with_fields(&["a", "missing", "nothing", "list", "map", "pattern", "a"]), &record),
        b"one,,,,,,one"
    );
}

#[test]
fn delimiter_or_quote_forces_quotes_unless_never() {
    let record = sample();
    assert_eq!(line(with_fields(&["b", "a"]), &record), b"\"t,wo\",one");
    assert_eq!(line(with_fields(&["q", "a"]), &record), b"\"say \"\"hi\"\"\",one");

    let mut non_numeric = with_fields(&["b", "n"]);
    non_numeric.quote_style = QuoteStyle::NonNumeric;
    assert_eq!(line(non_numeric, &record), b"\"t,wo\",-7");

    let mut always = with_fields(&["b", "n", "a"]);
    always.quote_style = QuoteStyle::Always;
    assert!(line(always, &record).starts_with(b"\"t,wo\",\"-7\","));

    let mut never = with_fields(&["b", "q", "a"]);
    never.quote_style = QuoteStyle::Never;
    assert_eq!(line(never, &record), b"t,wo,say \"hi\",one");
}

#[test]
fn non_numeric_quotes_text_but_not_numbers() {
    let record = sample();
    let mut options = with_fields(&["a", "n", "c", "n"]);
    options.quote_style = QuoteStyle::NonNumeric;
    assert_eq!(line(options, &record), b"\"one\",-7,\"three\",-7");
}

#[test]
fn quote_is_doubled_or_escaped() {
    let record = sample();
    assert_eq!(line(with_fields(&["q", "a"]), &record), b"\"say \"\"hi\"\"\",one");

    let mut escaped = with_fields(&["q", "a"]);
    escaped.double_quote = false;
    escaped.escape = b'\\';
    assert_eq!(line(escaped, &record), b"\"say \\\"hi\\\"\",one");

    let mut ignored = with_fields(&["q", "a"]);
    ignored.escape = b'\\';
    assert_eq!(line(ignored, &record), b"\"say \"\"hi\"\"\",one");
}

#[test]
fn delimiter_changes_the_join_and_the_need_for_quotes() {
    let record = sample();
    let mut semicolon = with_fields(&["a", "b", "c"]);
    semicolon.delimiter = b';';
    assert_eq!(line(semicolon, &record), b"one;t,wo;three");
    assert_eq!(line(with_fields(&["a", "b", "c"]), &record), b"one,\"t,wo\",three");

    let mut with_semicolon = Record::new();
    with_semicolon.insert("s".to_string(), bytes_of("x;y"));
    with_semicolon.insert("t".to_string(), bytes_of("z"));
    let mut options = with_fields(&["s", "t"]);
    options.delimiter = b';';
    assert_eq!(line(options, &with_semicolon), b"\"x;y\";z");

    let plain = built(with_fields(&["a", "b", "c"]));
    let mut tabbed = with_fields(&["a", "b", "c"]);
    tabbed.delimiter = b'\t';
    tabbed.quote_style = QuoteStyle::Always;
    assert_eq!(plain.project(&record), built(tabbed).project(&record));
}

#[test]
fn building_twice_gives_the_same_bytes() {
    let record = sample();
    let config = CsvSerializerConfig::new(with_fields(&["q", "n", "missing", "b", "a"]));
    let first = config.build().unwrap();
    let second = config.build().unwrap();
    let mut one = BytesMut::new();
    let mut two = BytesMut::new();
    first.encode(&record, &mut one).unwrap();
    second.encode(&record, &mut two).unwrap();
    assert_eq!(one, two);
    assert_eq!(one.to_vec(), b"\"say \"\"hi\"\"\",-7,,\"t,wo\",one");
}

#[test]
fn a_serializer_is_reused_without_state() {
    let record = sample();
    let serializer = built(with_fields(&["b", "a"]));
    let mut first = BytesMut::new();
    serializer.encode(&record, &mut first).unwrap();
    let mut second = BytesMut::new();
    serializer.encode(&record, &mut second).unwrap();
    assert_eq!(first, second);
    assert_eq!(first.to_vec(), b"\"t,wo\",one");
}

#[test]
fn encode_appends_to_what_the_buffer_holds() {
    let record = sample();
    let serializer = built(with_fields(&["a", "c"]));
    let mut buffer = BytesMut::new();
    buffer.extend_from_slice(b"head|");
    serializer.encode(&record, &mut buffer).unwrap();
    assert_eq!(buffer.to_vec(), b"head|one,three");
    serializer.encode(&record, &mut buffer).unwrap();
    assert_eq!(buffer.to_vec(), b"head|one,threeone,three");
}

#[test]
fn write_line_joins_the_texts_it_is_given() {
    let serializer = built(with_fields(&["unused"]));
    let texts = vec![b"x".to_vec(), Vec::new(), b"y z".to_vec(), b"1,2".to_vec(), b"end".to_vec()];
    assert_eq!(serializer.write_line(&texts).unwrap(), b"x,,y z,\"1,2\",end");
    assert_eq!(serializer.write_line(&Vec::new()).unwrap(), b"");
}

#[test]
fn a_long_field_is_written_whole() {
    let long = "ab,".repeat(10_000);
    let mut record = Record::new();
    record.insert("long".to_string(), bytes_of(&long));
    record.insert("tail".to_string(), bytes_of("t"));
    let mut expected = Vec::new();
    expected.push(b'"');
    expected.extend_from_slice(long.as_bytes());
    expected.extend_from_slice(b"\",t");
    assert_eq!(line(with_fields(&["long", "tail"]), &record), expected);
}

#[test]
fn append_line_appends_the_line() {
    let mut buffer = BytesMut::new();
    buffer.extend_from_slice(b"ab");
    assert!(append_line(&mut buffer, Ok(b"cd".to_vec())).is_ok());
    assert_eq!(buffer.to_vec(), b"abcd");
    assert!(append_line(&mut buffer, Ok(Vec::new())).is_ok());
    assert_eq!(buffer.to_vec(), b"abcd");
}

#[test]
fn append_line_hands_on_the_failure() {
    let mut buffer = BytesMut::new();
    buffer.extend_from_slice(b"ab");
    let failure = csv::Error::from(std::io::Error::new(std::io::ErrorKind::Other, "sink is full"));
    let error = append_line(&mut buffer, Err(failure)).unwrap_err();
    assert!(error.cause.is_io_error());
    assert!(format!("{}", error.cause).contains("sink is full"));
    assert_eq!(buffer.to_vec(), b"ab");
}

#[test]
fn line_breaks_force_quotes_under_necessary() {
    let mut record = Record::new();
    record.insert("lf".to_string(), bytes_of("x\ny"));
    record.insert("cr".to_string(), bytes_of("x\ry"));
    record.insert("z".to_string(), bytes_of("z"));
    assert_eq!(line(with_fields(&["lf", "cr", "z"]), &record), b"\"x\ny\",\"x\ry\",z");

    let mut never = with_fields(&["lf", "cr", "z"]);
    never.quote_style = QuoteStyle::Never;
    assert_eq!(line(never, &record), b"x\ny,x\ry,z");
}

#[test]
fn escape_byte_forces_quotes_only_where_it_escapes() {
    let mut record = Record::new();
    record.insert("s".to_string(), bytes_of("a\\b"));
    record.insert("z".to_string(), bytes_of("z"));

    let mut doubling = with_fields(&["s", "z"]);
    doubling.escape = b'\\';
    assert_eq!(line(doubling, &record), b"a\\b,z");

    let mut escaping = with_fields(&["s", "z"]);
    escaping.escape = b'\\';
    escaping.double_quote = false;
    assert_eq!(line(escaping, &record), b"\"a\\b\",z");
}

#[test]
fn plain_fields_are_joined_without_quotes() {
    let mut record = Record::new();
    record.insert("a".to_string(), bytes_of("sp ace"));
    record.insert("b".to_string(), Value::Boolean(false));
    record.insert("c".to_string(), Value::Integer(42));
    assert_eq!(line(with_fields(&["a", "b", "c", "zz", "a"]), &record), b"sp ace,false,42,,sp ace");
    assert_eq!(line(with_fields(&["zz"]), &record), b"");
    assert_eq!(line(with_fields(&["zz", "zz"]), &record), b",");

    let mut piped = with_fields(&["a", "b", "c"]);
    piped.delimiter = b'|';
    assert_eq!(line(piped, &record), b"sp ace|false|42");
}

#[test]
fn a_quoted_field_is_closed_by_the_separator_behind_it() {
    let record = sample();
    let mut always = with_fields(&["a", "missing", "c"]);
    always.quote_style = QuoteStyle::Always;
    assert_eq!(line(always, &record), b"\"one\",\"\",\"three");
    assert_eq!(line(with_fields(&["a", "b"]), &record), b"one,\"t,wo");
    assert_eq!(line(with_fields(&["q"]), &record), b"\"say \"\"hi\"\"");
}

#[test]
fn a_number_that_holds_the_delimiter_stays_bare_under_non_numeric() {
    let mut record = Record::new();
    record.insert("n".to_string(), bytes_of("1.5"));
    record.insert("t".to_string(), bytes_of("x"));
    let mut options = with_fields(&["n", "t", "n"]);
    options.quote_style = QuoteStyle::NonNumeric;
    options.delimiter = b'.';
    assert_eq!(line(options, &record), b"1.5.\"x\".1.5");
}

#[test]
fn escaping_touches_only_the_quote() {
    let mut record = Record::new();
    record.insert("s".to_string(), bytes_of("a\\\"b,c"));
    record.insert("z".to_string(), bytes_of("z"));
    let mut escaping = with_fields(&["s", "z"]);
    escaping.double_quote = false;
    escaping.escape = b'\\';
    assert_eq!(line(escaping, &record), b"\"a\\\\\"b,c\",z");
    assert_eq!(line(with_fields(&["s", "z"]), &record), b"\"a\\\"\"b,c\",z");
}

#[test]
fn encode_and_write_line_succeed() {
    let record = sample();
    for style in [QuoteStyle::Always, QuoteStyle::Necessary, QuoteStyle::NonNumeric, QuoteStyle::Never] {
        let mut options = with_fields(&["q", "b", "n", "missing", "a"]);
        options.quote_style = style;
        let serializer = built(options);
        let mut buffer = BytesMut::new();
        assert!(serializer.encode(&record, &mut buffer).is_ok());
        assert!(serializer.write_line(&serializer.project(&record)).is_ok());
        assert_eq!(buffer.to_vec(), serializer.write_line(&serializer.project(&record)).unwrap());
    }
    assert!(built(with_fields(&["x"])).write_line(&Vec::new()).is_ok());
}
