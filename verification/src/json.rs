//! JSON values, as the discovery documents are written in them.

use vstd::prelude::*;

verus! {

/// A JSON value. It holds what the documents of this library need: there is
/// no `null`, and a number is a whole number or a decimal fraction.
#[derive(Debug, PartialEq, Eq)]
pub enum Json {
    Bool(bool),
    /// A whole number.
    Integer(i64),
    /// The number `mantissa / 10^scale`, which is written with a fraction
    /// even where it is whole: a mantissa of 20 at scale 1 is `2.0`.
    Decimal { mantissa: i64, scale: u8 },
    Text(String),
    Array(Vec<Json>),
    /// An object, with its members in the order in which they are listed.
    Object(Vec<(String, Json)>),
}

/// What a JSON value says.
pub enum JsonView {
    Bool(bool),
    Integer(int),
    Decimal { mantissa: int, scale: nat },
    Text(Seq<char>),
    Array(Seq<JsonView>),
    Object(Seq<(Seq<char>, JsonView)>),
}

/// What the JSON value `json` says.
pub open spec fn json_view(json: Json) -> JsonView
    decreases json,
{
    match json {
        Json::Bool(value) => JsonView::Bool(value),
        Json::Integer(value) => JsonView::Integer(value as int),
        Json::Decimal { mantissa, scale } => JsonView::Decimal {
            mantissa: mantissa as int,
            scale: scale as nat,
        },
        Json::Text(text) => JsonView::Text(text@),
        Json::Array(items) => JsonView::Array(
            Seq::new(
                items.len() as nat,
                |i: int|
                    if 0 <= i < items.len() {
                        json_view(items[i])
                    } else {
                        arbitrary()
                    },
            ),
        ),
        Json::Object(members) => JsonView::Object(
            Seq::new(
                members.len() as nat,
                |i: int|
                    if 0 <= i < members.len() {
                        (members[i].0@, json_view(members[i].1))
                    } else {
                        arbitrary()
                    },
            ),
        ),
    }
}

impl DeepView for Json {
    type V = JsonView;

    open spec fn deep_view(&self) -> JsonView {
        json_view(*self)
    }
}

/// The `texts`, each as a JSON string.
pub open spec fn text_items(texts: Seq<Seq<char>>) -> Seq<JsonView> {
    texts.map_values(|text: Seq<char>| JsonView::Text(text))
}

/// The array of `texts`, each as a JSON string.
pub open spec fn text_array(texts: Seq<Seq<char>>) -> JsonView {
    JsonView::Array(text_items(texts))
}

impl Json {
    /// The text `text` as a JSON string.
    pub fn text(text: &str) -> (json: Json)
        ensures
            json.deep_view() == JsonView::Text(text@),
    {
        Json::Text(text.to_owned())
    }

    /// The array of `items`.
    pub fn array(items: Vec<Json>) -> (json: Json)
        ensures
            json.deep_view() == JsonView::Array(items.deep_view()),
    {
        let json = Json::Array(items);
        assert(json.deep_view()->Array_0 =~= items.deep_view());
        json
    }

    /// The array of `texts`, each as a JSON string.
    pub fn texts(texts: &Vec<String>) -> (json: Json)
        ensures
            json.deep_view() == text_array(texts.deep_view()),
    {
        let mut items: Vec<Json> = Vec::new();
        for i in 0..texts.len()
            invariant
                items.deep_view() == text_items(texts.deep_view().take(i as int)),
        {
            let ghost before = items.deep_view();
            items.push(Json::text(texts[i].as_str()));
            assert(items.deep_view() =~= before.push(JsonView::Text(texts[i as int]@)));
        }
        assert(texts.deep_view().take(texts.len() as int) =~= texts.deep_view());
        Json::array(items)
    }

    /// The object with `members`, each a name and its value.
    pub fn object(members: Vec<(String, Json)>) -> (json: Json)
        ensures
            json.deep_view() == JsonView::Object(members.deep_view()),
    {
        let json = Json::Object(members);
        assert(json.deep_view()->Object_0 =~= members.deep_view());
        json
    }
}

} // verus!
