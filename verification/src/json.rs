//! JSON values as the library reads and writes them.
use serde_json::Value;
use vstd::prelude::*;

verus! {

/// A JSON number.
#[derive(Debug, PartialEq, Eq)]
pub enum Number {
    /// A whole number from zero on.
    Unsigned(u64),
    /// A whole number below zero.
    Negative(i64),
    /// Any other number, by its decimal text.
    Decimal(String),
}

/// A JSON value. Of two entries of an object with one key the later one
/// counts, as it does for a parser that reads them in turn.
#[derive(Debug, PartialEq, Eq)]
pub enum Json {
    Null,
    Bool(bool),
    Number(Number),
    Str(String),
    Array(Vec<Json>),
    Object(Vec<(String, Json)>),
}

/// The mathematical value of a [`Number`].
pub enum NumberView {
    Unsigned(u64),
    Negative(i64),
    Decimal(Seq<char>),
}

/// The mathematical value of a [`Json`].
#[verifier::ext_equal]
pub enum JsonView {
    Null,
    Bool(bool),
    Number(NumberView),
    Str(Seq<char>),
    Array(Seq<JsonView>),
    Object(Map<Seq<char>, JsonView>),
}

impl View for Number {
    type V = NumberView;

    open spec fn view(&self) -> NumberView {
        match self {
            Number::Unsigned(n) => NumberView::Unsigned(*n),
            Number::Negative(n) => NumberView::Negative(*n),
            Number::Decimal(t) => NumberView::Decimal(t@),
        }
    }
}

/// The mathematical value of `j`.
pub open spec fn json_view(j: Json) -> JsonView
    decreases j, 0int,
{
    match j {
        Json::Null => JsonView::Null,
        Json::Bool(b) => JsonView::Bool(b),
        Json::Number(n) => JsonView::Number(n@),
        Json::Str(s) => JsonView::Str(s@),
        Json::Array(items) => JsonView::Array(items_view(items@)),
        Json::Object(fields) => JsonView::Object(fields_view(fields@)),
    }
}

/// The values of a list.
pub open spec fn items_view(items: Seq<Json>) -> Seq<JsonView>
    decreases items, items.len(),
{
    if items.len() == 0 {
        Seq::empty()
    } else {
        items_view(items.drop_last()).push(json_view(items.last()))
    }
}

/// What an object's entries say of its keys.
pub open spec fn fields_view(fields: Seq<(String, Json)>) -> Map<Seq<char>, JsonView>
    decreases fields, fields.len(),
{
    if fields.len() == 0 {
        Map::empty()
    } else {
        fields_view(fields.drop_last()).insert(fields.last().0@, json_view(fields.last().1))
    }
}

impl View for Json {
    type V = JsonView;

    open spec fn view(&self) -> JsonView {
        json_view(*self)
    }
}

/// A list with one more value at its end.
pub proof fn lemma_items_push(items: Seq<Json>, j: Json)
    ensures
        items_view(items.push(j)) == items_view(items).push(j@),
{
    assert(items.push(j).drop_last() =~= items);
}

/// Each item of a list stands at its own place in the list's value.
pub proof fn lemma_items_index(items: Seq<Json>)
    ensures
        items_view(items).len() == items.len(),
        forall|i: int| 0 <= i < items.len() ==> #[trigger] items_view(items)[i] == items[i]@,
    decreases items.len(),
{
    if items.len() > 0 {
        lemma_items_index(items.drop_last());
        assert forall|i: int| 0 <= i < items.len() implies #[trigger] items_view(items)[i]
            == items[i]@ by {
            if i < items.len() - 1 {
                assert(items_view(items.drop_last())[i] == items.drop_last()[i]@);
            }
        }
    }
}

/// An object with one more entry at its end.
pub proof fn lemma_fields_push(fields: Seq<(String, Json)>, key: String, value: Json)
    ensures
        fields_view(fields.push((key, value))) == fields_view(fields).insert(key@, value@),
{
    assert(fields.push((key, value)).drop_last() =~= fields);
}

/// The value of the text `s`.
pub open spec fn str_view(s: Seq<char>) -> JsonView {
    JsonView::Str(s)
}

/// The value of the whole number `n`.
pub open spec fn number_view(n: u64) -> JsonView {
    JsonView::Number(NumberView::Unsigned(n))
}

/// The value of the list of texts `s`.
pub open spec fn strs_view(s: Seq<Seq<char>>) -> JsonView {
    JsonView::Array(s.map_values(|t: Seq<char>| str_view(t)))
}

/// The value of `key` in `j`: present where `j` is an object with that key.
pub open spec fn get_spec(j: JsonView, key: Seq<char>) -> Option<JsonView> {
    match j {
        JsonView::Object(m) => if m.dom().contains(key) {
            Some(m[key])
        } else {
            None
        },
        _ => None,
    }
}

/// The text that `j` is, where it is one.
pub open spec fn as_str_spec(j: JsonView) -> Option<Seq<char>> {
    match j {
        JsonView::Str(s) => Some(s),
        _ => None,
    }
}

/// The truth value that `j` is, where it is one.
pub open spec fn as_bool_spec(j: JsonView) -> Option<bool> {
    match j {
        JsonView::Bool(b) => Some(b),
        _ => None,
    }
}

/// The whole number from zero on that `j` is, where it is one.
pub open spec fn as_u64_spec(j: JsonView) -> Option<u64> {
    match j {
        JsonView::Number(NumberView::Unsigned(n)) => Some(n),
        _ => None,
    }
}

/// The text under `key` in `j`, where there is one.
pub open spec fn get_str_spec(j: JsonView, key: Seq<char>) -> Option<Seq<char>> {
    match get_spec(j, key) {
        Some(v) => as_str_spec(v),
        None => None,
    }
}

/// The truth value under `key` in `j`, where there is one.
pub open spec fn get_bool_spec(j: JsonView, key: Seq<char>) -> Option<bool> {
    match get_spec(j, key) {
        Some(v) => as_bool_spec(v),
        None => None,
    }
}

/// The list under `key` in `j`, where there is one.
pub open spec fn get_array_spec(j: JsonView, key: Seq<char>) -> Option<Seq<JsonView>> {
    match get_spec(j, key) {
        Some(JsonView::Array(items)) => Some(items),
        _ => None,
    }
}

/// The value that `fields` give for `key`.
pub open spec fn field_spec(fields: Map<Seq<char>, JsonView>, key: Seq<char>) -> Option<JsonView> {
    if fields.dom().contains(key) {
        Some(fields[key])
    } else {
        None
    }
}

/// Entries behind other entries: the later ones count.
pub proof fn lemma_fields_concat(a: Seq<(String, Json)>, b: Seq<(String, Json)>)
    ensures
        fields_view(a + b) == fields_view(a).union_prefer_right(fields_view(b)),
    decreases b.len(),
{
    if b.len() == 0 {
        assert(a + b =~= a);
        assert(fields_view(a).union_prefer_right(fields_view(b)) =~= fields_view(a));
    } else {
        lemma_fields_concat(a, b.drop_last());
        assert((a + b).drop_last() =~= a + b.drop_last());
        assert(fields_view(a).union_prefer_right(fields_view(b)) =~= fields_view(
            a,
        ).union_prefer_right(fields_view(b.drop_last())).insert(
            b.last().0@,
            json_view(b.last().1),
        ));
    }
}

/// The value that `fields` give for `key`: that of the last entry with it.
pub fn find_field<'a>(fields: &'a Vec<(String, Json)>, key: &str) -> (r: Option<&'a Json>)
    ensures
        r is Some <==> field_spec(fields_view(fields@), key@) is Some,
        r matches Some(v) ==> field_spec(fields_view(fields@), key@) == Some(v@),
{
    let mut n: usize = fields.len();
    assert(fields@.take(n as int) =~= fields@);
    while n > 0
        invariant
            n <= fields@.len(),
            field_spec(fields_view(fields@), key@) == field_spec(
                fields_view(fields@.take(n as int)),
                key@,
            ),
        decreases n,
    {
        let ghost head = fields@.take(n as int);
        assert(head.drop_last() =~= fields@.take(n - 1));
        assert(head.last() == fields@[n - 1]);
        if crate::text::same(fields[n - 1].0.as_str(), key) {
            return Some(&fields[n - 1].1);
        }
        n = n - 1;
    }
    None
}

impl Json {
    /// The text `s`.
    pub fn text(s: &str) -> (r: Json)
        ensures
            r@ == str_view(s@),
    {
        Json::Str(s.to_owned())
    }

    /// The whole number `n`.
    pub fn number(n: u64) -> (r: Json)
        ensures
            r@ == number_view(n),
    {
        Json::Number(Number::Unsigned(n))
    }

    /// The list of the texts `parts`.
    pub fn texts(parts: &Vec<String>) -> (r: Json)
        ensures
            r@ == strs_view(crate::text::texts(parts@)),
    {
        let mut items: Vec<Json> = Vec::new();
        let mut i: usize = 0;
        let ghost whole = crate::text::texts(parts@).map_values(|t: Seq<char>| str_view(t));
        while i < parts.len()
            invariant
                i <= parts@.len(),
                whole == crate::text::texts(parts@).map_values(|t: Seq<char>| str_view(t)),
                items_view(items@) == whole.take(i as int),
            decreases parts.len() - i,
        {
            let item = Json::text(parts[i].as_str());
            proof {
                lemma_items_push(items@, item);
                assert(whole.take(i + 1) =~= whole.take(i as int).push(item@));
            }
            items.push(item);
            i = i + 1;
        }
        assert(whole.take(parts@.len() as int) =~= whole);
        Json::Array(items)
    }

    /// An object without entries.
    pub fn object() -> (r: Json)
        ensures
            r@ == JsonView::Object(Map::empty()),
    {
        Json::Object(Vec::new())
    }

    /// The object `self` with `value` under `key`, in place of what stood
    /// there before.
    pub fn with(self, key: &str, value: Json) -> (r: Json)
        requires
            self@ is Object,
        ensures
            r@ == JsonView::Object(self@->Object_0.insert(key@, value@)),
    {
        match self {
            Json::Object(fields) => {
                let mut fields = fields;
                let k = key.to_owned();
                proof {
                    lemma_fields_push(fields@, k, value);
                }
                fields.push((k, value));
                Json::Object(fields)
            },
            other => other,
        }
    }

    /// The value under `key`, where `self` is an object that has it.
    pub fn get(&self, key: &str) -> (r: Option<&Json>)
        ensures
            r is Some <==> get_spec(self@, key@) is Some,
            r matches Some(v) ==> get_spec(self@, key@) == Some(v@),
    {
        match self {
            Json::Object(fields) => find_field(fields, key),
            _ => None,
        }
    }

    /// The text that `self` is.
    pub fn as_str(&self) -> (r: Option<&str>)
        ensures
            r is Some <==> as_str_spec(self@) is Some,
            r matches Some(s) ==> as_str_spec(self@) == Some(s@),
    {
        match self {
            Json::Str(s) => Some(s.as_str()),
            _ => None,
        }
    }

    /// The truth value that `self` is.
    pub fn as_bool(&self) -> (r: Option<bool>)
        ensures
            r == as_bool_spec(self@),
    {
        match self {
            Json::Bool(b) => Some(*b),
            _ => None,
        }
    }

    /// The whole number from zero on that `self` is.
    pub fn as_u64(&self) -> (r: Option<u64>)
        ensures
            r == as_u64_spec(self@),
    {
        match self {
            Json::Number(Number::Unsigned(n)) => Some(*n),
            _ => None,
        }
    }

    /// The list that `self` is.
    pub fn as_array(&self) -> (r: Option<&Vec<Json>>)
        ensures
            r is Some <==> self@ is Array,
            r matches Some(items) ==> self@ == JsonView::Array(items_view(items@)),
    {
        match self {
            Json::Array(items) => Some(items),
            _ => None,
        }
    }

    /// The text under `key`.
    pub fn get_str(&self, key: &str) -> (r: Option<&str>)
        ensures
            r is Some <==> get_str_spec(self@, key@) is Some,
            r matches Some(s) ==> get_str_spec(self@, key@) == Some(s@),
    {
        match self.get(key) {
            Some(v) => v.as_str(),
            None => None,
        }
    }

    /// The truth value under `key`.
    pub fn get_bool(&self, key: &str) -> (r: Option<bool>)
        ensures
            r == get_bool_spec(self@, key@),
    {
        match self.get(key) {
            Some(v) => v.as_bool(),
            None => None,
        }
    }

    /// The list under `key`.
    pub fn get_array(&self, key: &str) -> (r: Option<&Vec<Json>>)
        ensures
            r is Some <==> get_array_spec(self@, key@) is Some,
            r matches Some(items) ==> get_array_spec(self@, key@) == Some(items_view(items@)),
    {
        match self.get(key) {
            Some(v) => v.as_array(),
            None => None,
        }
    }

    /// A second value equal to `self`.
    pub fn copy(&self) -> (r: Json)
        ensures
            r@ == self@,
        decreases self,
    {
        match self {
            Json::Null => Json::Null,
            Json::Bool(b) => Json::Bool(*b),
            Json::Number(Number::Unsigned(n)) => Json::Number(Number::Unsigned(*n)),
            Json::Number(Number::Negative(n)) => Json::Number(Number::Negative(*n)),
            Json::Number(Number::Decimal(t)) => Json::Number(Number::Decimal(t.clone())),
            Json::Str(s) => Json::Str(s.clone()),
            Json::Array(items) => {
                let mut out: Vec<Json> = Vec::new();
                let mut i: usize = 0;
                while i < items.len()
                    invariant
                        i <= items@.len(),
                        *self == Json::Array(*items),
                        items_view(out@) == items_view(items@.take(i as int)),
                    decreases items.len() - i,
                {
                    assert(decreases_to!(*self => self->Array_0));
                    assert(decreases_to!(items@ => items@[i as int]));
                    let item = items[i].copy();
                    proof {
                        lemma_items_push(out@, item);
                        lemma_items_push(items@.take(i as int), items@[i as int]);
                        assert(items@.take(i + 1) =~= items@.take(i as int).push(items@[i as int]));
                    }
                    out.push(item);
                    i = i + 1;
                }
                assert(items@.take(items@.len() as int) =~= items@);
                Json::Array(out)
            },
            Json::Object(fields) => {
                let mut out: Vec<(String, Json)> = Vec::new();
                let mut i: usize = 0;
                while i < fields.len()
                    invariant
                        i <= fields@.len(),
                        *self == Json::Object(*fields),
                        fields_view(out@) == fields_view(fields@.take(i as int)),
                    decreases fields.len() - i,
                {
                    assert(decreases_to!(*self => self->Object_0));
                    assert(decreases_to!(fields@ => fields@[i as int]));
                    assert(decreases_to!(fields@[i as int] => fields@[i as int].1));
                    let key = fields[i].0.clone();
                    let value = fields[i].1.copy();
                    proof {
                        let entry = fields@[i as int];
                        lemma_fields_push(out@, key, value);
                        lemma_fields_push(fields@.take(i as int), entry.0, entry.1);
                        assert(fields@.take(i + 1) =~= fields@.take(i as int).push(entry));
                    }
                    out.push((key, value));
                    i = i + 1;
                }
                assert(fields@.take(fields@.len() as int) =~= fields@);
                Json::Object(out)
            },
        }
    }
}

// ---------------------------------------------------------------------------
// JSON text
// ---------------------------------------------------------------------------

/// A value of `serde_json`.
#[verifier::external_type_specification]
#[verifier::external_body]
pub struct ExValue(serde_json::Value);

/// What `serde_json::from_str` makes of `text`: the value that it spells, or
/// the message that says why it spells none.
pub uninterp spec fn parsed_json(text: Seq<char>) -> Result<JsonView, Seq<char>>;

/// What `serde_json::to_string` writes for `value`.
pub uninterp spec fn json_text(value: JsonView) -> Seq<char>;

/// What `serde_json::to_string_pretty` writes for `value`.
pub uninterp spec fn json_pretty_text(value: JsonView) -> Seq<char>;

/// A reading, or the message of a failed one, by its value.
pub open spec fn parse_view(r: Result<Json, String>) -> Result<JsonView, Seq<char>> {
    match r {
        Ok(j) => Ok(j@),
        Err(e) => Err(e@),
    }
}

/// A reading that gives `value`.
pub open spec fn read_as(value: JsonView) -> Result<JsonView, Seq<char>> {
    Ok(value)
}

/// A value without parts: a text, a truth value, a whole number from zero on,
/// or null.
pub open spec fn is_plain(j: JsonView) -> bool {
    match j {
        JsonView::Null => true,
        JsonView::Bool(_) => true,
        JsonView::Str(_) => true,
        JsonView::Number(NumberView::Unsigned(_)) => true,
        _ => false,
    }
}

/// An object all of whose values are without parts.
pub open spec fn is_plain_object(j: JsonView) -> bool {
    match j {
        JsonView::Object(m) => forall|k: Seq<char>| #[trigger]
            m.dom().contains(k) ==> is_plain(m[k]),
        _ => false,
    }
}

/// Turns a `serde_json::Value` into the library's own value, variant by
/// variant. A number that is no `u64` and no `i64` is kept by the text that
/// `serde_json::Number` prints for it.
#[verifier::external_body]
fn of_value(v: Value) -> Json {
    match v {
        Value::Null => Json::Null,
        Value::Bool(b) => Json::Bool(b),
        Value::Number(n) => Json::Number(match (n.as_u64(), n.as_i64()) {
            (Some(u), _) => Number::Unsigned(u),
            (None, Some(i)) => Number::Negative(i),
            (None, None) => Number::Decimal(n.to_string()),
        }),
        Value::String(s) => Json::Str(s),
        Value::Array(a) => Json::Array(a.into_iter().map(of_value).collect()),
        Value::Object(m) => {
            Json::Object(m.into_iter().map(|(k, x)| (k, of_value(x))).collect())
        },
    }
}

/// Turns a value of the library into a `serde_json::Value`, variant by
/// variant. The text of a decimal number is read by `serde_json::from_str`;
/// a text that is no number becomes null.
#[verifier::external_body]
fn to_value(j: &Json) -> Value {
    match j {
        Json::Null => Value::Null,
        Json::Bool(b) => Value::Bool(*b),
        Json::Number(Number::Unsigned(n)) => Value::from(*n),
        Json::Number(Number::Negative(n)) => Value::from(*n),
        Json::Number(Number::Decimal(t)) => serde_json::from_str::<serde_json::Number>(t)
            .map(Value::Number).unwrap_or(Value::Null),
        Json::Str(s) => Value::String(s.clone()),
        Json::Array(a) => Value::Array(a.iter().map(to_value).collect()),
        Json::Object(f) => Value::Object(
            f.iter().map(|(k, x)| (k.clone(), to_value(x))).collect(),
        ),
    }
}

/// Reads `text` with `serde_json::from_str`: the value that it spells, or the
/// error's message. What either is, is a function of the text.
#[verifier::external_body]
pub(crate) fn parse(text: &str) -> (r: Result<Json, String>)
    ensures
        parse_view(r) == parsed_json(text@),
{
    serde_json::from_str::<serde_json::Value>(text).map(of_value).map_err(|e| e.to_string())
}

/// Writes `j` with `serde_json::to_string`. The objects' keys come in order,
/// so the text is a function of the value alone. It holds no line feed: the
/// writer puts none between the parts, and escapes those of a text. What it
/// writes for an object of texts, truth values, whole numbers and nulls,
/// `serde_json::from_str` reads as that object.
#[verifier::external_body]
pub(crate) fn render(j: &Json) -> (r: String)
    ensures
        r@ == json_text(j@),
        crate::text::free_of(r@, '\n'),
        is_plain_object(j@) ==> parsed_json(r@) == read_as(j@),
{
    serde_json::to_string(&to_value(j)).unwrap_or_default()
}

/// Writes `j` with `serde_json::to_string_pretty`, one entry to a line. The
/// text is a function of the value alone.
#[verifier::external_body]
pub(crate) fn render_pretty(j: &Json) -> (r: String)
    ensures
        r@ == json_pretty_text(j@),
{
    serde_json::to_string_pretty(&to_value(j)).unwrap_or_default()
}

/// The number `n` as a floating-point number: what
/// `serde_json::Number::as_f64` and `serde_json::Number::from_f64` make of it.
pub uninterp spec fn float_number(n: NumberView) -> Option<NumberView>;

/// A number that may be there, by its value.
pub open spec fn opt_number(n: Option<Number>) -> Option<NumberView> {
    match n {
        Some(x) => Some(x@),
        None => None,
    }
}

/// `n` as a floating-point number, by `serde_json::Number::as_f64`, in the text
/// that `serde_json::Number` prints for it (`4` becomes `4.0`). A function of
/// the number; nothing where a decimal's text is no number.
#[verifier::external_body]
pub(crate) fn to_float(n: &Number) -> (r: Option<Number>)
    ensures
        opt_number(r) == float_number(n@),
{
    let value = match n {
        Number::Unsigned(u) => serde_json::Number::from(*u),
        Number::Negative(i) => serde_json::Number::from(*i),
        Number::Decimal(t) => serde_json::from_str::<serde_json::Number>(t).ok()?,
    };
    value.as_f64().and_then(serde_json::Number::from_f64).map(|f| Number::Decimal(f.to_string()))
}

/// A number that equals zero.
pub open spec fn is_zero_number(n: NumberView) -> bool {
    match n {
        NumberView::Unsigned(u) => u == 0,
        NumberView::Negative(i) => i == 0,
        NumberView::Decimal(t) => t == "0.0"@ || t == "-0.0"@,
    }
}

/// Whether a number equals zero. A decimal is known by the text that
/// `serde_json` prints for it.
pub fn is_zero(n: &Number) -> (r: bool)
    ensures
        r == is_zero_number(n@),
{
    match n {
        Number::Unsigned(u) => *u == 0,
        Number::Negative(i) => *i == 0,
        Number::Decimal(t) => crate::text::same(t.as_str(), "0.0") || crate::text::same(
            t.as_str(),
            "-0.0",
        ),
    }
}

/// The number that `j` is, where it is one.
pub open spec fn as_number_spec(j: JsonView) -> Option<NumberView> {
    match j {
        JsonView::Number(n) => Some(n),
        _ => None,
    }
}

/// The number under `key` in `j`, where there is one.
pub open spec fn get_number_spec(j: JsonView, key: Seq<char>) -> Option<NumberView> {
    match get_spec(j, key) {
        Some(v) => as_number_spec(v),
        None => None,
    }
}

impl Json {
    /// The number under `key`.
    pub fn get_number(&self, key: &str) -> (r: Option<&Number>)
        ensures
            r is Some <==> get_number_spec(self@, key@) is Some,
            r matches Some(n) ==> get_number_spec(self@, key@) == Some(n@),
    {
        match self.get(key) {
            Some(Json::Number(n)) => Some(n),
            _ => None,
        }
    }
}

/// The text that stands for `j` on standard output: indented where `pretty`
/// asks for it, else in one line.
pub fn print_json(j: &Json, pretty: bool) -> (r: String)
    ensures
        r@ == (if pretty {
            json_pretty_text(j@)
        } else {
            json_text(j@)
        }),
{
    if pretty {
        render_pretty(j)
    } else {
        render(j)
    }
}

/// Reads JSON text; where it is none, the error says why.
pub fn parse_json(text: &str) -> (r: Result<Json, String>)
    ensures
        parse_view(r) == parsed_json(text@),
{
    parse(text)
}

/// A field that was set reads back, another field is not touched by that, and
/// what is no object has no fields.
pub proof fn fields_read_back(
    m: Map<Seq<char>, JsonView>,
    key: Seq<char>,
    v: JsonView,
    other: Seq<char>,
)
    ensures
        get_spec(JsonView::Object(m.insert(key, v)), key) == Some(v),
        other != key ==> get_spec(JsonView::Object(m.insert(key, v)), other) == get_spec(
            JsonView::Object(m),
            other,
        ),
        get_spec(JsonView::Object(m.remove(key)), key) is None,
        !(v is Object) ==> get_spec(v, key) is None,
        field_spec(m, key) == get_spec(JsonView::Object(m), key),
{
}

/// A field is read as text, truth value, number or list exactly where it is
/// one, and then as what it is.
pub proof fn fields_are_read_by_their_kind(
    j: JsonView,
    key: Seq<char>,
    s: Seq<char>,
    b: bool,
    n: NumberView,
    items: Seq<JsonView>,
    u: u64,
)
    ensures
        get_str_spec(j, key) == Some(s) <==> get_spec(j, key) == Some(JsonView::Str(s)),
        get_bool_spec(j, key) == Some(b) <==> get_spec(j, key) == Some(JsonView::Bool(b)),
        get_number_spec(j, key) == Some(n) <==> get_spec(j, key) == Some(JsonView::Number(n)),
        get_array_spec(j, key) == Some(items) <==> get_spec(j, key) == Some(
            JsonView::Array(items),
        ),
        as_u64_spec(j) == Some(u) <==> j == JsonView::Number(NumberView::Unsigned(u)),
{
}

/// Zero is zero however it is written, and no other whole number is.
pub proof fn zero_is_zero(u: u64, i: i64, t: Seq<char>)
    ensures
        is_zero_number(NumberView::Unsigned(u)) <==> u == 0,
        is_zero_number(NumberView::Negative(i)) <==> i == 0,
        is_zero_number(NumberView::Decimal("0.0"@)),
        is_zero_number(NumberView::Decimal("-0.0"@)),
        t != "0.0"@ && t != "-0.0"@ ==> !is_zero_number(NumberView::Decimal(t)),
{
}

/// Of several fields with one name the last counts.
pub proof fn the_last_of_equal_fields_counts(fields: Seq<(String, Json)>, k: int)
    requires
        0 <= k < fields.len(),
        forall|j: int| k < j < fields.len() ==> (#[trigger] fields[j]).0@ != fields[k].0@,
    ensures
        get_spec(JsonView::Object(fields_view(fields)), fields[k].0@) == Some(
            json_view(fields[k].1),
        ),
    decreases fields.len(),
{
    if k < fields.len() - 1 {
        let less = fields.drop_last();
        assert(fields[fields.len() - 1].0@ != fields[k].0@);
        assert forall|j: int| k < j < less.len() implies (#[trigger] less[j]).0@
            != less[k].0@ by {
            assert(less[j] == fields[j]);
        }
        assert(less[k] == fields[k]);
        the_last_of_equal_fields_counts(less, k);
    }
}

} // verus!
