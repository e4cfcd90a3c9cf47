//! The command that creates a full-text search index over the stored
//! documents: its parameters, the fields of its schema, and the words of
//! the command in their order.

use crate::claims::copy_text;
use crate::claims::text_view;
use crate::digits::signed_decimal;
use crate::digits::signed_text;
use vstd::prelude::*;
use vstd::utf8::encode_utf8;

verus! {

/// One key prefix that an index covers.
#[derive(Debug)]
pub struct FTCreateParametersPrefix {
    pub count: i32,
    pub name: String,
}

/// The mathematical value of [`FTCreateParametersPrefix`].
pub ghost struct PrefixView {
    pub count: i32,
    pub name: Seq<char>,
}

impl View for FTCreateParametersPrefix {
    type V = PrefixView;

    open spec fn view(&self) -> PrefixView {
        PrefixView { count: self.count, name: self.name@ }
    }
}

/// The stopwords of an index.
#[derive(Debug)]
pub struct FTCreateParametersStopwords {
    pub num: i32,
    pub stopword: String,
}

/// The mathematical value of [`FTCreateParametersStopwords`].
pub ghost struct StopwordsView {
    pub num: i32,
    pub stopword: Seq<char>,
}

impl View for FTCreateParametersStopwords {
    type V = StopwordsView;

    open spec fn view(&self) -> StopwordsView {
        StopwordsView { num: self.num, stopword: self.stopword@ }
    }
}

/// The values of a sequence of prefixes.
pub open spec fn prefix_views(v: Seq<FTCreateParametersPrefix>) -> Seq<PrefixView> {
    v.map_values(|p: FTCreateParametersPrefix| p@)
}

/// The values of optional prefixes.
pub open spec fn prefixes_view(v: Option<Vec<FTCreateParametersPrefix>>) -> Option<Seq<PrefixView>> {
    match v {
        Some(v) => Some(prefix_views(v@)),
        None => None,
    }
}

/// The value of optional stopwords.
pub open spec fn stopwords_view(v: Option<FTCreateParametersStopwords>) -> Option<StopwordsView> {
    match v {
        Some(s) => Some(s@),
        None => None,
    }
}

/// A copy of optional prefixes.
pub fn copy_prefixes(v: &Option<Vec<FTCreateParametersPrefix>>) -> (r: Option<
    Vec<FTCreateParametersPrefix>,
>)
    ensures
        prefixes_view(r) == prefixes_view(*v),
{
    match v {
        None => None,
        Some(list) => {
            let mut copy: Vec<FTCreateParametersPrefix> = Vec::new();
            let mut i: usize = 0;
            while i < list.len()
                invariant
                    i <= list.len(),
                    copy@.len() == i,
                    prefix_views(copy@) == prefix_views(list@).subrange(0, i as int),
                decreases list.len() - i,
            {
                let entry = FTCreateParametersPrefix {
                    count: list[i].count,
                    name: list[i].name.clone(),
                };
                copy.push(entry);
                i += 1;
            }
            Some(copy)
        },
    }
}

/// A copy of optional stopwords.
pub fn copy_stopwords(v: &Option<FTCreateParametersStopwords>) -> (r: Option<
    FTCreateParametersStopwords,
>)
    ensures
        stopwords_view(r) == stopwords_view(*v),
{
    match v {
        None => None,
        Some(s) => Some(FTCreateParametersStopwords { num: s.num, stopword: s.stopword.clone() }),
    }
}

/// The parameters of an index. Each is optional; one that is not set puts
/// no word into the command.
#[derive(Debug)]
pub struct FTCreateParameters {
    filter: Option<String>,
    payload_field: Option<String>,
    max_text_fields: Option<i32>,
    no_offsets: Option<String>,
    temporary: Option<i32>,
    nohl: Option<String>,
    no_fields: Option<String>,
    no_freqs: Option<String>,
    skip_initial_scan: Option<bool>,
    prefix: Option<Vec<FTCreateParametersPrefix>>,
    language: Option<String>,
    language_field: Option<String>,
    score: Option<String>,
    score_field: Option<String>,
    stopwords: Option<FTCreateParametersStopwords>,
}

/// The mathematical value of [`FTCreateParameters`].
pub ghost struct FTCreateParametersView {
    pub filter: Option<Seq<char>>,
    pub payload_field: Option<Seq<char>>,
    pub max_text_fields: Option<i32>,
    pub no_offsets: Option<Seq<char>>,
    pub temporary: Option<i32>,
    pub nohl: Option<Seq<char>>,
    pub no_fields: Option<Seq<char>>,
    pub no_freqs: Option<Seq<char>>,
    pub skip_initial_scan: Option<bool>,
    pub prefix: Option<Seq<PrefixView>>,
    pub language: Option<Seq<char>>,
    pub language_field: Option<Seq<char>>,
    pub score: Option<Seq<char>>,
    pub score_field: Option<Seq<char>>,
    pub stopwords: Option<StopwordsView>,
}

impl View for FTCreateParameters {
    type V = FTCreateParametersView;

    closed spec fn view(&self) -> FTCreateParametersView {
        FTCreateParametersView {
            filter: text_view(self.filter),
            payload_field: text_view(self.payload_field),
            max_text_fields: self.max_text_fields,
            no_offsets: text_view(self.no_offsets),
            temporary: self.temporary,
            nohl: text_view(self.nohl),
            no_fields: text_view(self.no_fields),
            no_freqs: text_view(self.no_freqs),
            skip_initial_scan: self.skip_initial_scan,
            prefix: prefixes_view(self.prefix),
            language: text_view(self.language),
            language_field: text_view(self.language_field),
            score: text_view(self.score),
            score_field: text_view(self.score_field),
            stopwords: stopwords_view(self.stopwords),
        }
    }
}

impl FTCreateParameters {
    /// Parameters of which none is set.
    pub fn build() -> (r: FTCreateParameters)
        ensures
            r@ == (FTCreateParametersView {
                filter: None,
                payload_field: None,
                max_text_fields: None,
                no_offsets: None,
                temporary: None,
                nohl: None,
                no_fields: None,
                no_freqs: None,
                skip_initial_scan: None,
                prefix: None,
                language: None,
                language_field: None,
                score: None,
                score_field: None,
                stopwords: None,
            }),
    {
        FTCreateParameters {
            filter: None,
            payload_field: None,
            max_text_fields: None,
            no_offsets: None,
            temporary: None,
            nohl: None,
            no_fields: None,
            no_freqs: None,
            skip_initial_scan: None,
            prefix: None,
            language: None,
            language_field: None,
            score: None,
            score_field: None,
            stopwords: None,
        }
    }

    /// A copy of the parameters.
    pub fn copy(&self) -> (r: FTCreateParameters)
        ensures
            r@ == self@,
    {
        FTCreateParameters {
            filter: copy_text(&self.filter),
            payload_field: copy_text(&self.payload_field),
            max_text_fields: self.max_text_fields,
            no_offsets: copy_text(&self.no_offsets),
            temporary: self.temporary,
            nohl: copy_text(&self.nohl),
            no_fields: copy_text(&self.no_fields),
            no_freqs: copy_text(&self.no_freqs),
            skip_initial_scan: self.skip_initial_scan,
            prefix: copy_prefixes(&self.prefix),
            language: copy_text(&self.language),
            language_field: copy_text(&self.language_field),
            score: copy_text(&self.score),
            score_field: copy_text(&self.score_field),
            stopwords: copy_stopwords(&self.stopwords),
        }
    }

    /// The filter expression that a document must meet to be indexed.
    ///
    /// The result is a copy of the parameters with this one set and the
    /// others as they were.
    pub fn filter(&self, value: String) -> (r: FTCreateParameters)
        ensures
            r@ == (FTCreateParametersView { filter: Some(value@), ..self@ }),
    {
        let mut r = self.copy();
        r.filter = Some(value);
        r
    }

    /// The document field that holds the payload.
    ///
    /// The result is a copy of the parameters with this one set and the
    /// others as they were.
    pub fn payload_field(&self, value: String) -> (r: FTCreateParameters)
        ensures
            r@ == (FTCreateParametersView { payload_field: Some(value@), ..self@ }),
    {
        let mut r = self.copy();
        r.payload_field = Some(value);
        r
    }

    /// Asks for an index that can take more text fields later.
    ///
    /// The result is a copy of the parameters with this one set and the
    /// others as they were.
    pub fn max_text_fields(&self, value: i32) -> (r: FTCreateParameters)
        ensures
            r@ == (FTCreateParametersView { max_text_fields: Some(value), ..self@ }),
    {
        let mut r = self.copy();
        r.max_text_fields = Some(value);
        r
    }

    /// Asks that no term offsets be stored.
    ///
    /// The result is a copy of the parameters with this one set and the
    /// others as they were.
    pub fn no_offsets(&self, value: String) -> (r: FTCreateParameters)
        ensures
            r@ == (FTCreateParametersView { no_offsets: Some(value@), ..self@ }),
    {
        let mut r = self.copy();
        r.no_offsets = Some(value);
        r
    }

    /// Asks for an index that goes when it is not used.
    ///
    /// The result is a copy of the parameters with this one set and the
    /// others as they were.
    pub fn temporary(&self, value: i32) -> (r: FTCreateParameters)
        ensures
            r@ == (FTCreateParametersView { temporary: Some(value), ..self@ }),
    {
        let mut r = self.copy();
        r.temporary = Some(value);
        r
    }

    /// Asks that highlighting be left out.
    ///
    /// The result is a copy of the parameters with this one set and the
    /// others as they were.
    pub fn nohl(&self, value: String) -> (r: FTCreateParameters)
        ensures
            r@ == (FTCreateParametersView { nohl: Some(value@), ..self@ }),
    {
        let mut r = self.copy();
        r.nohl = Some(value);
        r
    }

    /// Asks that no field bits be stored for terms.
    ///
    /// The result is a copy of the parameters with this one set and the
    /// others as they were.
    pub fn no_fields(&self, value: String) -> (r: FTCreateParameters)
        ensures
            r@ == (FTCreateParametersView { no_fields: Some(value@), ..self@ }),
    {
        let mut r = self.copy();
        r.no_fields = Some(value);
        r
    }

    /// Asks that no term frequencies be stored.
    ///
    /// The result is a copy of the parameters with this one set and the
    /// others as they were.
    pub fn no_freqs(&self, value: String) -> (r: FTCreateParameters)
        ensures
            r@ == (FTCreateParametersView { no_freqs: Some(value@), ..self@ }),
    {
        let mut r = self.copy();
        r.no_freqs = Some(value);
        r
    }

    /// Whether the documents that exist already are left unindexed.
    ///
    /// The result is a copy of the parameters with this one set and the
    /// others as they were.
    pub fn skip_initial_scan(&self, value: bool) -> (r: FTCreateParameters)
        ensures
            r@ == (FTCreateParametersView { skip_initial_scan: Some(value), ..self@ }),
    {
        let mut r = self.copy();
        r.skip_initial_scan = Some(value);
        r
    }

    /// The key prefixes that the index covers.
    ///
    /// The result is a copy of the parameters with this one set and the
    /// others as they were.
    pub fn prefix(&self, value: Vec<FTCreateParametersPrefix>) -> (r: FTCreateParameters)
        ensures
            r@ == (FTCreateParametersView { prefix: Some(prefix_views(value@)), ..self@ }),
    {
        let mut r = self.copy();
        r.prefix = Some(value);
        r
    }

    /// The default language of the documents.
    ///
    /// The result is a copy of the parameters with this one set and the
    /// others as they were.
    pub fn language(&self, value: String) -> (r: FTCreateParameters)
        ensures
            r@ == (FTCreateParametersView { language: Some(value@), ..self@ }),
    {
        let mut r = self.copy();
        r.language = Some(value);
        r
    }

    /// The document field that holds the language.
    ///
    /// The result is a copy of the parameters with this one set and the
    /// others as they were.
    pub fn language_field(&self, value: String) -> (r: FTCreateParameters)
        ensures
            r@ == (FTCreateParametersView { language_field: Some(value@), ..self@ }),
    {
        let mut r = self.copy();
        r.language_field = Some(value);
        r
    }

    /// The default score of the documents.
    ///
    /// The result is a copy of the parameters with this one set and the
    /// others as they were.
    pub fn score(&self, value: String) -> (r: FTCreateParameters)
        ensures
            r@ == (FTCreateParametersView { score: Some(value@), ..self@ }),
    {
        let mut r = self.copy();
        r.score = Some(value);
        r
    }

    /// The document field that holds the score.
    ///
    /// The result is a copy of the parameters with this one set and the
    /// others as they were.
    pub fn score_field(&self, value: String) -> (r: FTCreateParameters)
        ensures
            r@ == (FTCreateParametersView { score_field: Some(value@), ..self@ }),
    {
        let mut r = self.copy();
        r.score_field = Some(value);
        r
    }

    /// The stopwords of the index.
    ///
    /// The result is a copy of the parameters with this one set and the
    /// others as they were.
    pub fn stopwords(&self, value: FTCreateParametersStopwords) -> (r: FTCreateParameters)
        ensures
            r@ == (FTCreateParametersView { stopwords: Some(value@), ..self@ }),
    {
        let mut r = self.copy();
        r.stopwords = Some(value);
        r
    }
}

/// One field of the schema of an index.
#[derive(Debug)]
pub struct FTSchemaField {
    sortable: Option<bool>,
    noindex: Option<bool>,
    nostem: Option<bool>,
    phonetic: Option<String>,
    weight: Option<i32>,
    seperator: Option<String>,
    name: String,
    field_type: String,
    field_as: Option<String>,
}

/// The mathematical value of [`FTSchemaField`].
pub ghost struct FTSchemaFieldView {
    pub sortable: Option<bool>,
    pub noindex: Option<bool>,
    pub nostem: Option<bool>,
    pub phonetic: Option<Seq<char>>,
    pub weight: Option<i32>,
    pub seperator: Option<Seq<char>>,
    pub name: Seq<char>,
    pub field_type: Seq<char>,
    pub field_as: Option<Seq<char>>,
}

impl View for FTSchemaField {
    type V = FTSchemaFieldView;

    closed spec fn view(&self) -> FTSchemaFieldView {
        FTSchemaFieldView {
            sortable: self.sortable,
            noindex: self.noindex,
            nostem: self.nostem,
            phonetic: text_view(self.phonetic),
            weight: self.weight,
            seperator: text_view(self.seperator),
            name: self.name@,
            field_type: self.field_type@,
            field_as: text_view(self.field_as),
        }
    }
}

impl FTSchemaField {
    /// A field without name or type, with no option set.
    pub fn build() -> (r: FTSchemaField)
        ensures
            r@ == (FTSchemaFieldView {
                sortable: None,
                noindex: None,
                nostem: None,
                phonetic: None,
                weight: None,
                seperator: None,
                name: Seq::empty(),
                field_type: Seq::empty(),
                field_as: None,
            }),
    {
        FTSchemaField {
            sortable: None,
            noindex: None,
            nostem: None,
            phonetic: None,
            weight: None,
            seperator: None,
            name: String::new(),
            field_type: String::new(),
            field_as: None,
        }
    }

    /// A copy of the field.
    pub fn copy(&self) -> (r: FTSchemaField)
        ensures
            r@ == self@,
    {
        FTSchemaField {
            sortable: self.sortable,
            noindex: self.noindex,
            nostem: self.nostem,
            phonetic: copy_text(&self.phonetic),
            weight: self.weight,
            seperator: copy_text(&self.seperator),
            name: self.name.clone(),
            field_type: self.field_type.clone(),
            field_as: copy_text(&self.field_as),
        }
    }

    /// Whether results can be sorted by the field.
    ///
    /// The result is a copy of the field with this set and the rest as it
    /// was.
    pub fn sortable(&self, value: bool) -> (r: FTSchemaField)
        ensures
            r@ == (FTSchemaFieldView { sortable: Some(value), ..self@ }),
    {
        let mut r = self.copy();
        r.sortable = Some(value);
        r
    }

    /// Whether the field is left out of the index.
    ///
    /// The result is a copy of the field with this set and the rest as it
    /// was.
    pub fn noindex(&self, value: bool) -> (r: FTSchemaField)
        ensures
            r@ == (FTSchemaFieldView { noindex: Some(value), ..self@ }),
    {
        let mut r = self.copy();
        r.noindex = Some(value);
        r
    }

    /// Whether the field's words are indexed as they stand.
    ///
    /// The result is a copy of the field with this set and the rest as it
    /// was.
    pub fn nostem(&self, value: bool) -> (r: FTSchemaField)
        ensures
            r@ == (FTSchemaFieldView { nostem: Some(value), ..self@ }),
    {
        let mut r = self.copy();
        r.nostem = Some(value);
        r
    }

    /// The phonetic matcher of the field.
    ///
    /// The result is a copy of the field with this set and the rest as it
    /// was.
    pub fn phonetic(&self, value: String) -> (r: FTSchemaField)
        ensures
            r@ == (FTSchemaFieldView { phonetic: Some(value@), ..self@ }),
    {
        let mut r = self.copy();
        r.phonetic = Some(value);
        r
    }

    /// The weight of the field in a result's score.
    ///
    /// The result is a copy of the field with this set and the rest as it
    /// was.
    pub fn weight(&self, value: i32) -> (r: FTSchemaField)
        ensures
            r@ == (FTSchemaFieldView { weight: Some(value), ..self@ }),
    {
        let mut r = self.copy();
        r.weight = Some(value);
        r
    }

    /// The character that separates the tags of the field.
    ///
    /// The result is a copy of the field with this set and the rest as it
    /// was.
    pub fn seperator(&self, value: String) -> (r: FTSchemaField)
        ensures
            r@ == (FTSchemaFieldView { seperator: Some(value@), ..self@ }),
    {
        let mut r = self.copy();
        r.seperator = Some(value);
        r
    }

    /// The name of the field in the document.
    ///
    /// The result is a copy of the field with this set and the rest as it
    /// was.
    pub fn name(&self, value: String) -> (r: FTSchemaField)
        ensures
            r@ == (FTSchemaFieldView { name: value@, ..self@ }),
    {
        let mut r = self.copy();
        r.name = value;
        r
    }

    /// The type of the field.
    ///
    /// The result is a copy of the field with this set and the rest as it
    /// was.
    pub fn field_type(&self, value: String) -> (r: FTSchemaField)
        ensures
            r@ == (FTSchemaFieldView { field_type: value@, ..self@ }),
    {
        let mut r = self.copy();
        r.field_type = value;
        r
    }

    /// The name of the field in the index.
    ///
    /// The result is a copy of the field with this set and the rest as it
    /// was.
    pub fn field_as(&self, value: String) -> (r: FTSchemaField)
        ensures
            r@ == (FTSchemaFieldView { field_as: Some(value@), ..self@ }),
    {
        let mut r = self.copy();
        r.field_as = Some(value);
        r
    }
}

/// The words that a key and an optional value put into a command: both, or
/// none.
pub open spec fn keyed(key: Seq<char>, value: Option<Seq<char>>) -> Seq<Seq<char>> {
    match value {
        Some(v) => seq![key, v],
        None => Seq::empty(),
    }
}

/// The words that a key and an optional number put into a command: the key
/// and the number in decimal digits, or none.
pub open spec fn numbered(key: Seq<char>, value: Option<i32>) -> Seq<Seq<char>> {
    match value {
        Some(n) => seq![key, signed_decimal(n as int)],
        None => Seq::empty(),
    }
}

/// The word that a switch puts into a command when it is on.
pub open spec fn flagged(key: Seq<char>, on: bool) -> Seq<Seq<char>> {
    if on {
        seq![key]
    } else {
        Seq::empty()
    }
}

/// The words of the prefixes: for each its count and its name.
pub open spec fn prefix_list(ps: Seq<PrefixView>) -> Seq<Seq<char>>
    decreases ps.len(),
{
    if ps.len() == 0 {
        Seq::empty()
    } else {
        prefix_list(ps.drop_last()) + seq![signed_decimal(ps.last().count as int), ps.last().name]
    }
}

/// The words of optional prefixes: `PREFIX` and the prefixes, or none.
pub open spec fn prefix_words(p: Option<Seq<PrefixView>>) -> Seq<Seq<char>> {
    match p {
        Some(ps) => seq!["PREFIX"@] + prefix_list(ps),
        None => Seq::empty(),
    }
}

/// The words of optional stopwords: `STOPWORDS`, the count and the word, or
/// none.
pub open spec fn stop_words(s: Option<StopwordsView>) -> Seq<Seq<char>> {
    match s {
        Some(s) => seq!["STOPWORDS"@, signed_decimal(s.num as int), s.stopword],
        None => Seq::empty(),
    }
}

/// The words that the parameters put into the command, in the command's
/// order. The switches `NOOFFSETS`, `TEMPORARY`, `NOHL`, `NOFIELDS` and
/// `NOFREQS` stand wherever their parameter is set, whatever it is set to.
pub open spec fn parameter_words(p: FTCreateParametersView) -> Seq<Seq<char>> {
    prefix_words(p.prefix) + keyed("FILTER"@, p.filter) + keyed("LANGUAGE"@, p.language) + keyed(
        "LANGUAGE_FIELD"@,
        p.language_field,
    ) + keyed("SCORE"@, p.score) + keyed("SCORE_FIELD"@, p.score_field) + keyed(
        "PAYLOAD_FIELD"@,
        p.payload_field,
    ) + numbered("MAXTEXTFIELDS"@, p.max_text_fields) + flagged("NOOFFSETS"@, p.no_offsets is Some)
        + flagged("TEMPORARY"@, p.temporary is Some) + flagged("NOHL"@, p.nohl is Some) + flagged(
        "NOFIELDS"@,
        p.no_fields is Some,
    ) + flagged("NOFREQS"@, p.no_freqs is Some) + stop_words(p.stopwords) + flagged(
        "SKIPINITIALSCAN"@,
        p.skip_initial_scan == Some(true),
    )
}

/// The words of optional parameters.
pub open spec fn optional_words(p: Option<FTCreateParametersView>) -> Seq<Seq<char>> {
    match p {
        Some(p) => parameter_words(p),
        None => Seq::empty(),
    }
}

/// The words that one field puts into the command: its name, its name in
/// the index, its type, then its options.
pub open spec fn field_words(f: FTSchemaFieldView) -> Seq<Seq<char>> {
    seq![f.name] + keyed("AS"@, f.field_as) + seq![f.field_type] + flagged(
        "NOSTEM"@,
        f.nostem == Some(true),
    ) + numbered("WEIGHT"@, f.weight) + keyed("PHONETIC"@, f.phonetic) + keyed(
        "SEPARATOR"@,
        f.seperator,
    ) + flagged("SORTABLE"@, f.sortable == Some(true)) + flagged(
        "NOINDEX"@,
        f.noindex == Some(true),
    )
}

/// The words of all fields, field after field.
pub open spec fn schema_words(fs: Seq<FTSchemaFieldView>) -> Seq<Seq<char>>
    decreases fs.len(),
{
    if fs.len() == 0 {
        Seq::empty()
    } else {
        schema_words(fs.drop_last()) + field_words(fs.last())
    }
}

/// The words of the command that creates an index: `FT.CREATE`, the name
/// of the index, `ON` and the kind of document, the parameters, `SCHEMA`,
/// and the fields.
pub open spec fn create_words(
    index: Seq<char>,
    index_type: Seq<char>,
    fields: Seq<FTSchemaFieldView>,
    parameters: Option<FTCreateParametersView>,
) -> Seq<Seq<char>> {
    seq!["FT.CREATE"@, index, "ON"@, index_type] + optional_words(parameters) + seq!["SCHEMA"@]
        + schema_words(fields)
}

/// The characters of each of a sequence of strings.
pub open spec fn texts(v: Seq<String>) -> Seq<Seq<char>> {
    v.map_values(|s: String| s@)
}

/// The values of a sequence of fields.
pub open spec fn field_views(v: Seq<FTSchemaField>) -> Seq<FTSchemaFieldView> {
    v.map_values(|f: FTSchemaField| f@)
}

/// The value of optional parameters.
pub open spec fn parameters_view(p: Option<FTCreateParameters>) -> Option<FTCreateParametersView> {
    match p {
        Some(p) => Some(p@),
        None => None,
    }
}

/// No words.
fn none() -> (v: Vec<String>)
    ensures
        texts(v@) == Seq::<Seq<char>>::empty(),
{
    let v: Vec<String> = Vec::new();
    v
}

/// One word.
fn one(word: &str) -> (v: Vec<String>)
    ensures
        texts(v@) == seq![word@],
{
    let mut v: Vec<String> = Vec::new();
    v.push(word.to_owned());
    v
}

/// Two words.
fn two(first: &str, second: &str) -> (v: Vec<String>)
    ensures
        texts(v@) == seq![first@, second@],
{
    let mut v: Vec<String> = Vec::new();
    v.push(first.to_owned());
    v.push(second.to_owned());
    v
}

/// Puts one word behind `words`.
fn put(words: &mut Vec<String>, word: String)
    ensures
        texts(final(words)@) == texts(old(words)@).push(word@),
{
    words.push(word);
}

/// Puts `more` behind `words`.
fn extend(words: &mut Vec<String>, more: Vec<String>)
    ensures
        texts(final(words)@) == texts(old(words)@) + texts(more@),
{
    let mut rest = more;
    words.append(&mut rest);
}

/// Computes [`keyed`].
fn keyed_vec(key: &str, value: &Option<String>) -> (v: Vec<String>)
    ensures
        texts(v@) == keyed(key@, text_view(*value)),
{
    match value {
        Some(s) => two(key, s.as_str()),
        None => none(),
    }
}

/// Computes [`numbered`].
fn numbered_vec(key: &str, value: Option<i32>) -> (v: Vec<String>)
    ensures
        texts(v@) == numbered(key@, value),
{
    match value {
        Some(n) => two(key, signed_text(n).as_str()),
        None => none(),
    }
}

/// Computes [`flagged`].
fn flagged_vec(key: &str, on: bool) -> (v: Vec<String>)
    ensures
        texts(v@) == flagged(key@, on),
{
    if on {
        one(key)
    } else {
        none()
    }
}

/// Computes [`prefix_words`].
fn prefix_vec(p: &Option<Vec<FTCreateParametersPrefix>>) -> (v: Vec<String>)
    ensures
        texts(v@) == prefix_words(prefixes_view(*p)),
{
    match p {
        None => none(),
        Some(list) => {
            let mut all = none();
            let mut i: usize = 0;
            while i < list.len()
                invariant
                    i <= list.len(),
                    texts(all@) == prefix_list(prefix_views(list@).subrange(0, i as int)),
                decreases list.len() - i,
            {
                let entry = two(signed_text(list[i].count).as_str(), list[i].name.as_str());
                proof {
                    let upto = prefix_views(list@).subrange(0, i + 1);
                    assert(upto.drop_last() =~= prefix_views(list@).subrange(0, i as int));
                }
                extend(&mut all, entry);
                i += 1;
            }
            assert(prefix_views(list@).subrange(0, list.len() as int) =~= prefix_views(list@));
            let mut v = one("PREFIX");
            extend(&mut v, all);
            v
        },
    }
}

/// Computes [`stop_words`].
fn stop_vec(s: &Option<FTCreateParametersStopwords>) -> (v: Vec<String>)
    ensures
        texts(v@) == stop_words(stopwords_view(*s)),
{
    match s {
        None => none(),
        Some(s) => {
            let mut v = two("STOPWORDS", signed_text(s.num).as_str());
            put(&mut v, s.stopword.clone());
            v
        },
    }
}

/// Whether an optional switch is set and on.
fn is_on(v: Option<bool>) -> (b: bool)
    ensures
        b == (v == Some(true)),
{
    match v {
        Some(b) => b,
        None => false,
    }
}

impl FTCreateParameters {
    /// The words that the parameters put into the command: see
    /// [`parameter_words`].
    pub fn words(&self) -> (v: Vec<String>)
        ensures
            texts(v@) == parameter_words(self@),
    {
        let mut v = prefix_vec(&self.prefix);
        extend(&mut v, keyed_vec("FILTER", &self.filter));
        extend(&mut v, keyed_vec("LANGUAGE", &self.language));
        extend(&mut v, keyed_vec("LANGUAGE_FIELD", &self.language_field));
        extend(&mut v, keyed_vec("SCORE", &self.score));
        extend(&mut v, keyed_vec("SCORE_FIELD", &self.score_field));
        extend(&mut v, keyed_vec("PAYLOAD_FIELD", &self.payload_field));
        extend(&mut v, numbered_vec("MAXTEXTFIELDS", self.max_text_fields));
        extend(&mut v, flagged_vec("NOOFFSETS", self.no_offsets.is_some()));
        extend(&mut v, flagged_vec("TEMPORARY", self.temporary.is_some()));
        extend(&mut v, flagged_vec("NOHL", self.nohl.is_some()));
        extend(&mut v, flagged_vec("NOFIELDS", self.no_fields.is_some()));
        extend(&mut v, flagged_vec("NOFREQS", self.no_freqs.is_some()));
        extend(&mut v, stop_vec(&self.stopwords));
        extend(&mut v, flagged_vec("SKIPINITIALSCAN", is_on(self.skip_initial_scan)));
        v
    }
}

impl FTSchemaField {
    /// The words that the field puts into the command: see [`field_words`].
    pub fn words(&self) -> (v: Vec<String>)
        ensures
            texts(v@) == field_words(self@),
    {
        let mut v = one(self.name.as_str());
        extend(&mut v, keyed_vec("AS", &self.field_as));
        extend(&mut v, one(self.field_type.as_str()));
        extend(&mut v, flagged_vec("NOSTEM", is_on(self.nostem)));
        extend(&mut v, numbered_vec("WEIGHT", self.weight));
        extend(&mut v, keyed_vec("PHONETIC", &self.phonetic));
        extend(&mut v, keyed_vec("SEPARATOR", &self.seperator));
        extend(&mut v, flagged_vec("SORTABLE", is_on(self.sortable)));
        extend(&mut v, flagged_vec("NOINDEX", is_on(self.noindex)));
        v
    }
}

/// The words of the command that creates an index: see [`create_words`].
pub fn create_arguments(
    index: &str,
    index_type: &str,
    schema_fields: &Vec<FTSchemaField>,
    parameters: &Option<FTCreateParameters>,
) -> (v: Vec<String>)
    ensures
        texts(v@) == create_words(
            index@,
            index_type@,
            field_views(schema_fields@),
            parameters_view(*parameters),
        ),
{
    let mut v = two("FT.CREATE", index);
    put(&mut v, "ON".to_owned());
    put(&mut v, index_type.to_owned());
    let chosen = match parameters {
        Some(p) => p.words(),
        None => none(),
    };
    extend(&mut v, chosen);
    extend(&mut v, one("SCHEMA"));
    let mut schema = none();
    let mut i: usize = 0;
    while i < schema_fields.len()
        invariant
            i <= schema_fields.len(),
            texts(schema@) == schema_words(field_views(schema_fields@).subrange(0, i as int)),
        decreases schema_fields.len() - i,
    {
        proof {
            let upto = field_views(schema_fields@).subrange(0, i + 1);
            assert(upto.drop_last() =~= field_views(schema_fields@).subrange(0, i as int));
        }
        extend(&mut schema, schema_fields[i].words());
        i += 1;
    }
    assert(field_views(schema_fields@).subrange(0, schema_fields.len() as int) =~= field_views(
        schema_fields@,
    ));
    extend(&mut v, schema);
    v
}

/// `redis::Cmd`: a command and its arguments, ready to be sent.
#[verifier::external_type_specification]
#[verifier::external_body]
pub struct ExCmd(redis::Cmd);

/// The arguments that a command holds, the command's name first, each as
/// its bytes.
pub uninterp spec fn cmd_args(cmd: redis::Cmd) -> Seq<Seq<u8>>;

/// The bytes of each of a sequence of words.
pub open spec fn bytes_of(words: Seq<Seq<char>>) -> Seq<Seq<u8>> {
    words.map_values(|w: Seq<char>| encode_utf8(w))
}

/// `redis::cmd`: the command of the given name, without further arguments.
#[verifier::external_body]
fn command(name: &str) -> (cmd: redis::Cmd)
    ensures
        cmd_args(cmd) == seq![encode_utf8(name@)],
{
    redis::cmd(name)
}

/// `redis::Cmd::arg` with a string: the command gets one more argument, the
/// bytes of the string.
#[verifier::external_body]
fn argument(cmd: &mut redis::Cmd, word: &str)
    ensures
        cmd_args(*final(cmd)) == cmd_args(*old(cmd)).push(encode_utf8(word@)),
{
    cmd.arg(word);
}

/// The command whose name is the first of the given words and whose
/// arguments are the others.
fn command_with(words: &Vec<String>) -> (cmd: redis::Cmd)
    requires
        words@.len() > 0,
    ensures
        cmd_args(cmd) == bytes_of(texts(words@)),
{
    let mut cmd = command(words[0].as_str());
    let mut i: usize = 1;
    while i < words.len()
        invariant
            1 <= i <= words.len(),
            cmd_args(cmd) == bytes_of(texts(words@)).subrange(0, i as int),
        decreases words.len() - i,
    {
        argument(&mut cmd, words[i].as_str());
        i += 1;
    }
    cmd
}

/// The command whose name is the first of the given words and whose
/// arguments are the others; `None` where there is no word, and so no
/// name.
pub fn command_of(words: &Vec<String>) -> (r: Option<redis::Cmd>)
    ensures
        match r {
            Some(cmd) => words@.len() > 0 && cmd_args(cmd) == bytes_of(texts(words@)),
            None => words@.len() == 0,
        },
{
    if words.len() > 0 {
        Some(command_with(words))
    } else {
        None
    }
}

/// The command that creates an index, ready to be sent: its arguments are
/// the bytes of [`create_words`].
pub fn create_command(
    index: String,
    index_type: String,
    schema_fields: Vec<FTSchemaField>,
    parameters: Option<FTCreateParameters>,
) -> (cmd: redis::Cmd)
    ensures
        cmd_args(cmd) == bytes_of(
            create_words(
                index@,
                index_type@,
                field_views(schema_fields@),
                parameters_view(parameters),
            ),
        ),
{
    let words = create_arguments(index.as_str(), index_type.as_str(), &schema_fields, &parameters);
    command_with(&words)
}

/// A kind of document that has a search index of its own.
pub trait RedisIndex {
    /// The name of the index.
    spec fn name_spec() -> Seq<char>;

    /// The prefix of the keys of the documents.
    spec fn prefix_spec() -> Seq<char>;

    /// The document field that is indexed as a tag, and its name in the
    /// index.
    spec fn tag_spec() -> Option<(Seq<char>, Seq<char>)>;

    /// The name of the index.
    fn name() -> (s: String)
        ensures
            s@ == Self::name_spec(),
    ;

    /// The prefix of the keys of the documents.
    fn prefix() -> (s: String)
        ensures
            s@ == Self::prefix_spec(),
    ;

    /// The document field that is indexed as a tag, and its name in the
    /// index.
    fn tag() -> (t: Option<(String, String)>)
        ensures
            match t {
                Some(t) => Self::tag_spec() == Some((t.0@, t.1@)),
                None => Self::tag_spec() is None,
            },
    ;

    /// What the index is created with: its name, one `TAG` field where the
    /// kind has a tag and no field otherwise, and the one prefix of the
    /// kind's keys.
    fn index() -> (r: (String, Vec<FTSchemaField>, Option<FTCreateParameters>))
        ensures
            r.0@ == Self::name_spec(),
            field_views(r.1@) == index_fields(Self::tag_spec()),
            parameters_view(r.2) == Some(index_parameters(Self::prefix_spec())),
    {
        let mut schema_fields: Vec<FTSchemaField> = Vec::new();
        match Self::tag() {
            Some(tag) => {
                let field = FTSchemaField::build().name(tag.0).field_type("TAG".to_owned()).field_as(
                    tag.1,
                );
                schema_fields.push(field);
            },
            None => {
            },
        }
        let mut prefixes: Vec<FTCreateParametersPrefix> = Vec::new();
        prefixes.push(FTCreateParametersPrefix { count: 1, name: Self::prefix() });
        assert(prefix_views(prefixes@) =~= seq![
            PrefixView { count: 1, name: Self::prefix_spec() },
        ]);
        let parameters = FTCreateParameters::build().prefix(prefixes);
        (Self::name(), schema_fields, Some(parameters))
    }
}

/// The fields of the index of a kind with the given tag.
pub open spec fn index_fields(tag: Option<(Seq<char>, Seq<char>)>) -> Seq<FTSchemaFieldView> {
    match tag {
        Some(tag) => seq![
            FTSchemaFieldView {
                sortable: None,
                noindex: None,
                nostem: None,
                phonetic: None,
                weight: None,
                seperator: None,
                name: tag.0,
                field_type: "TAG"@,
                field_as: Some(tag.1),
            },
        ],
        None => Seq::empty(),
    }
}

/// The parameters of the index of a kind with the given key prefix.
pub open spec fn index_parameters(prefix: Seq<char>) -> FTCreateParametersView {
    FTCreateParametersView {
        filter: None,
        payload_field: None,
        max_text_fields: None,
        no_offsets: None,
        temporary: None,
        nohl: None,
        no_fields: None,
        no_freqs: None,
        skip_initial_scan: None,
        prefix: Some(seq![PrefixView { count: 1, name: prefix }]),
        language: None,
        language_field: None,
        score: None,
        score_field: None,
        stopwords: None,
    }
}

/// A character of a query, with a backslash in front where the query
/// language would read the character as a sign of its own: `@` and `.`.
pub open spec fn escaped_char(c: char) -> Seq<char> {
    if c == '@' || c == '.' {
        seq!['\\', c]
    } else {
        seq![c]
    }
}

/// A text with each of its characters escaped.
pub open spec fn escaped(s: Seq<char>) -> Seq<char>
    decreases s.len(),
{
    if s.len() == 0 {
        Seq::empty()
    } else {
        escaped(s.drop_last()) + escaped_char(s.last())
    }
}

/// The query that finds the documents whose tag `email` is the given
/// address.
pub open spec fn email_query_spec(email: Seq<char>) -> Seq<char> {
    "@email:{"@ + escaped(email) + "}"@
}

/// The query that finds the documents whose tag `email` is the given
/// address: see [`email_query_spec`].
pub fn email_query(email: &str) -> (q: String)
    ensures
        q@ == email_query_spec(email@),
{
    let n = email.unicode_len();
    let mut q = "@email:{".to_owned();
    let mut i: usize = 0;
    proof {
        reveal_strlit("\\");
    }
    while i < n
        invariant
            i <= n,
            n == email@.len(),
            "\\"@ == seq!['\\'],
            q@ == "@email:{"@ + escaped(email@.subrange(0, i as int)),
        decreases n - i,
    {
        let c = email.get_char(i);
        if c == '@' || c == '.' {
            q.append("\\");
        }
        q.append(email.substring_char(i, i + 1));
        proof {
            let upto = email@.subrange(0, i + 1);
            assert(upto.drop_last() =~= email@.subrange(0, i as int));
        }
        i += 1;
    }
    assert(email@.subrange(0, n as int) =~= email@);
    q.append("}");
    q
}

/// A user, as the store holds it.
#[derive(Debug)]
pub struct User {
    pub id: String,
    pub email: String,
    pub password: String,
}

impl RedisIndex for User {
    open spec fn name_spec() -> Seq<char> {
        "users"@
    }

    open spec fn prefix_spec() -> Seq<char> {
        "nodes:users:"@
    }

    open spec fn tag_spec() -> Option<(Seq<char>, Seq<char>)> {
        Some(("$.email"@, "email"@))
    }

    fn name() -> (s: String) {
        "users".to_owned()
    }

    fn prefix() -> (s: String) {
        "nodes:users:".to_owned()
    }

    fn tag() -> (t: Option<(String, String)>) {
        Some(("$.email".to_owned(), "email".to_owned()))
    }
}

} // verus!
