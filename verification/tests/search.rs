use turtle::search::command_of;
use turtle::search::copy_prefixes;
use turtle::search::copy_stopwords;
use turtle::search::create_arguments;
use turtle::search::create_command;
use turtle::search::email_query;
use turtle::search::FTCreateParameters;
use turtle::search::FTCreateParametersPrefix;
use turtle::search::FTCreateParametersStopwords;
use turtle::search::FTSchemaField;
use turtle::search::RedisIndex;
use turtle::search::User;

fn words(list: &[&str]) -> Vec<String> {
    list.iter().map(|w| w.to_string()).collect()
}

fn s(text: &str) -> String {
    text.to_string()
}

fn prefix(count: i32, name: &str) -> FTCreateParametersPrefix {
    FTCreateParametersPrefix { count, name: name.to_string() }
}

fn packed(list: &[&str]) -> Vec<u8> {
    let mut bytes = format!("*{}\r\n", list.len()).into_bytes();
    for word in list {
        bytes.extend_from_slice(format!("${}\r\n", word.len()).as_bytes());
        bytes.extend_from_slice(word.as_bytes());
        bytes.extend_from_slice(b"\r\n");
    }
    bytes
}

#[test]
fn bare_command_has_name_kind_and_schema() {
    let built = create_arguments("idx", "HASH", &vec![], &None);
    assert_eq!(built, words(&["FT.CREATE", "idx", "ON", "HASH", "SCHEMA"]));
    let unset = create_arguments("idx", "JSON", &vec![], &Some(FTCreateParameters::build()));
    assert_eq!(unset, words(&["FT.CREATE", "idx", "ON", "JSON", "SCHEMA"]));
}

#[test]
fn every_parameter_puts_its_words_in_the_stated_order() {
    let parameters = FTCreateParameters::build()
        .stopwords(FTCreateParametersStopwords { num: 1, stopword: s("the") })
        .score_field(s("sf"))
        .score(s("0.5"))
        .language_field(s("lf"))
        .language(s("english"))
        .prefix(vec![prefix(2, "a:"), prefix(-1, "b:")])
        .skip_initial_scan(true)
        .no_freqs(s(""))
        .no_fields(s("x"))
        .nohl(s("x"))
        .temporary(60)
        .no_offsets(s("x"))
        .max_text_fields(-7)
        .payload_field(s("pf"))
        .filter(s("@age>5"));
    let expected = [
        "PREFIX", "2", "a:", "-1", "b:", "FILTER", "@age>5", "LANGUAGE", "english", "LANGUAGE_FIELD", "lf",
        "SCORE", "0.5", "SCORE_FIELD", "sf", "PAYLOAD_FIELD", "pf", "MAXTEXTFIELDS", "-7", "NOOFFSETS",
        "TEMPORARY", "NOHL", "NOFIELDS", "NOFREQS", "STOPWORDS", "1", "the", "SKIPINITIALSCAN",
    ];
    assert_eq!(parameters.words(), words(&expected));
    let mut whole = vec!["FT.CREATE", "idx", "ON", "JSON"];
    whole.extend_from_slice(&expected);
    whole.push("SCHEMA");
    assert_eq!(create_arguments("idx", "JSON", &vec![], &Some(parameters)), words(&whole));
}

#[test]
fn each_parameter_alone_puts_only_its_own_words() {
    let b = FTCreateParameters::build();
    assert_eq!(b.words(), words(&[]));
    assert_eq!(b.filter(s("f")).words(), words(&["FILTER", "f"]));
    assert_eq!(b.payload_field(s("p")).words(), words(&["PAYLOAD_FIELD", "p"]));
    assert_eq!(b.max_text_fields(3).words(), words(&["MAXTEXTFIELDS", "3"]));
    assert_eq!(b.no_offsets(s("")).words(), words(&["NOOFFSETS"]));
    assert_eq!(b.temporary(0).words(), words(&["TEMPORARY"]));
    assert_eq!(b.nohl(s("")).words(), words(&["NOHL"]));
    assert_eq!(b.no_fields(s("")).words(), words(&["NOFIELDS"]));
    assert_eq!(b.no_freqs(s("")).words(), words(&["NOFREQS"]));
    assert_eq!(b.skip_initial_scan(true).words(), words(&["SKIPINITIALSCAN"]));
    assert_eq!(b.skip_initial_scan(false).words(), words(&[]));
    assert_eq!(b.prefix(vec![]).words(), words(&["PREFIX"]));
    assert_eq!(b.prefix(vec![prefix(1, "p:")]).words(), words(&["PREFIX", "1", "p:"]));
    assert_eq!(b.language(s("l")).words(), words(&["LANGUAGE", "l"]));
    assert_eq!(b.language_field(s("l")).words(), words(&["LANGUAGE_FIELD", "l"]));
    assert_eq!(b.score(s("1")).words(), words(&["SCORE", "1"]));
    assert_eq!(b.score_field(s("f")).words(), words(&["SCORE_FIELD", "f"]));
    let stop = FTCreateParametersStopwords { num: 0, stopword: s("") };
    assert_eq!(b.stopwords(stop).words(), words(&["STOPWORDS", "0", ""]));
}

#[test]
fn setting_a_parameter_keeps_the_others_and_the_receiver() {
    let first = FTCreateParameters::build().filter(s("f")).language(s("l"));
    let second = first.filter(s("g")).score(s("1"));
    assert_eq!(first.words(), words(&["FILTER", "f", "LANGUAGE", "l"]));
    assert_eq!(second.words(), words(&["FILTER", "g", "LANGUAGE", "l", "SCORE", "1"]));
    assert_eq!(second.copy().words(), second.words());
}

#[test]
fn every_option_of_a_field_puts_its_words_in_the_stated_order() {
    let field = FTSchemaField::build()
        .noindex(true)
        .sortable(true)
        .seperator(s(","))
        .phonetic(s("dm:en"))
        .weight(2)
        .nostem(true)
        .field_as(s("title"))
        .field_type(s("TEXT"))
        .name(s("$.title"));
    let expected = [
        "$.title", "AS", "title", "TEXT", "NOSTEM", "WEIGHT", "2", "PHONETIC", "dm:en", "SEPARATOR", ",",
        "SORTABLE", "NOINDEX",
    ];
    assert_eq!(field.words(), words(&expected));
    assert_eq!(field.copy().words(), words(&expected));
}

#[test]
fn each_option_of_a_field_alone_puts_only_its_own_words() {
    let b = FTSchemaField::build();
    assert_eq!(b.words(), words(&["", ""]));
    let named = b.name(s("n")).field_type(s("TAG"));
    assert_eq!(named.words(), words(&["n", "TAG"]));
    assert_eq!(named.field_as(s("a")).words(), words(&["n", "AS", "a", "TAG"]));
    assert_eq!(named.nostem(true).words(), words(&["n", "TAG", "NOSTEM"]));
    assert_eq!(named.nostem(false).words(), words(&["n", "TAG"]));
    assert_eq!(named.weight(-3).words(), words(&["n", "TAG", "WEIGHT", "-3"]));
    assert_eq!(named.phonetic(s("p")).words(), words(&["n", "TAG", "PHONETIC", "p"]));
    assert_eq!(named.seperator(s(";")).words(), words(&["n", "TAG", "SEPARATOR", ";"]));
    assert_eq!(named.sortable(true).words(), words(&["n", "TAG", "SORTABLE"]));
    assert_eq!(named.sortable(false).words(), words(&["n", "TAG"]));
    assert_eq!(named.noindex(true).words(), words(&["n", "TAG", "NOINDEX"]));
    assert_eq!(named.noindex(false).words(), words(&["n", "TAG"]));
}

#[test]
fn fields_follow_the_schema_word_one_after_another() {
    let fields = vec![
        FTSchemaField::build().name(s("a")).field_type(s("TEXT")).sortable(true),
        FTSchemaField::build().name(s("b")).field_type(s("NUMERIC")),
    ];
    let built = create_arguments("i", "HASH", &fields, &None);
    assert_eq!(built, words(&["FT.CREATE", "i", "ON", "HASH", "SCHEMA", "a", "TEXT", "SORTABLE", "b", "NUMERIC"]));
}

#[test]
fn index_of_users_is_created_with_one_tag_and_one_prefix() {
    assert_eq!(User::name(), "users");
    assert_eq!(User::prefix(), "nodes:users:");
    assert_eq!(User::tag(), Some((s("$.email"), s("email"))));
    let (name, fields, parameters) = User::index();
    assert_eq!(name, "users");
    assert_eq!(fields.len(), 1);
    let expected = [
        "FT.CREATE", "users", "ON", "JSON", "PREFIX", "1", "nodes:users:", "SCHEMA", "$.email", "AS", "email",
        "TAG",
    ];
    assert_eq!(create_arguments(&name, "JSON", &fields, &parameters), words(&expected));
    let command = create_command(name, s("JSON"), fields, parameters);
    assert_eq!(command.get_packed_command(), packed(&expected));
}

#[test]
fn command_holds_the_words_as_its_arguments() {
    let list = ["FT.CREATE", "caf\u{e9}", "ON", "JSON", "SCHEMA", ""];
    let command = command_of(&words(&list)).unwrap();
    assert_eq!(command.get_packed_command(), packed(&list));
    let mut direct = redis::cmd("FT.CREATE");
    direct.arg("caf\u{e9}").arg("ON").arg("JSON").arg("SCHEMA").arg("");
    assert_eq!(command.get_packed_command(), direct.get_packed_command());
    let alone = command_of(&words(&["PING"])).unwrap();
    assert_eq!(alone.get_packed_command(), packed(&["PING"]));
    assert!(command_of(&words(&[])).is_none());
}

#[test]
fn copies_of_prefixes_and_stopwords_keep_their_parts() {
    assert!(copy_prefixes(&None).is_none());
    let copy = copy_prefixes(&Some(vec![prefix(1, "a"), prefix(2, "b")])).unwrap();
    assert_eq!(copy.len(), 2);
    assert_eq!((copy[0].count, copy[0].name.as_str()), (1, "a"));
    assert_eq!((copy[1].count, copy[1].name.as_str()), (2, "b"));
    assert!(copy_stopwords(&None).is_none());
    let stop = copy_stopwords(&Some(FTCreateParametersStopwords { num: 3, stopword: s("w") })).unwrap();
    assert_eq!((stop.num, stop.stopword.as_str()), (3, "w"));
}

#[test]
fn email_query_escapes_at_signs_and_dots() {
    assert_eq!(email_query(""), "@email:{}");
    assert_eq!(email_query("abc"), "@email:{abc}");
    assert_eq!(email_query("a@b.c"), "@email:{a\\@b\\.c}");
    assert_eq!(email_query("..@@"), "@email:{\\.\\.\\@\\@}");
    assert_eq!(email_query("caf\u{e9}@x.org"), "@email:{caf\u{e9}\\@x\\.org}");
    for sample in ["first.last@example.org", "a\\b", "{}", "@", "."] {
        let expected = format!("@email:{{{}}}", sample.replace("@", "\\@").replace(".", "\\."));
        assert_eq!(email_query(sample), expected);
    }
}
