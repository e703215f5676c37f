//! Product data from a page: per-field CSS selectors first, then any
//! `Product` JSON-LD block for the fields still missing.
use vstd::prelude::*;
use crate::html::{
    element_view, first_in_groups, first_in_range, groups_of, select_all, selection,
    selection_view, ElementMatch, TextPick,
};
use crate::json::{
    field_of, lemma_member_push, parse_json, parsed_json, str_eq, str_field_of, take_field,
    JsonMember, JsonValue,
};
use crate::text::{join, join_chars, string_from};

verus! {

/// Product fields as extracted; `None` where nothing was found. `image`
/// comes from selectors, `image_url` from JSON-LD.
#[derive(Debug)]
pub struct ProductFields {
    pub name: Option<JsonValue>,
    pub price: Option<JsonValue>,
    pub description: Option<JsonValue>,
    pub availability: Option<JsonValue>,
    pub brand: Option<JsonValue>,
    pub rating: Option<JsonValue>,
    pub image: Option<JsonValue>,
    pub image_url: Option<JsonValue>,
}

pub open spec fn no_fields() -> ProductFields {
    ProductFields {
        name: None,
        price: None,
        description: None,
        availability: None,
        brand: None,
        rating: None,
        image: None,
        image_url: None,
    }
}

/// A JSON `null` counts as absent.
pub open spec fn non_null(o: Option<JsonValue>) -> Option<JsonValue> {
    match o {
        Some(JsonValue::Null) => None,
        _ => o,
    }
}

/// The items of a JSON-LD document: the elements of an array, or the document itself.
pub open spec fn ld_items(v: JsonValue) -> Seq<JsonValue> {
    match v {
        JsonValue::Array(a) => a@,
        _ => seq![v],
    }
}

pub open spec fn is_product(item: JsonValue) -> bool {
    str_field_of(item, "@type"@) == Some("Product"@)
}

pub open spec fn first_product(items: Seq<JsonValue>) -> Option<JsonValue>
    decreases items.len(),
{
    if items.len() == 0 {
        None
    } else if is_product(items[0]) {
        Some(items[0])
    } else {
        first_product(items.drop_first())
    }
}

/// `item[outer][inner]`, absent where either is absent or `null`.
pub open spec fn nested(item: JsonValue, outer: Seq<char>, inner: Seq<char>) -> Option<JsonValue> {
    match field_of(item, outer) {
        Some(o) => non_null(field_of(o, inner)),
        None => None,
    }
}

/// A brand given as a string, or the `name` of a brand object.
pub open spec fn ld_brand(item: JsonValue) -> Option<JsonValue> {
    match field_of(item, "brand"@) {
        Some(JsonValue::Str(s)) => Some(JsonValue::Str(s)),
        Some(b) => non_null(field_of(b, "name"@)),
        None => None,
    }
}

/// An image given as a string, or the first of a list of images.
pub open spec fn ld_image(item: JsonValue) -> Option<JsonValue> {
    match field_of(item, "image"@) {
        Some(JsonValue::Str(s)) => Some(JsonValue::Str(s)),
        Some(JsonValue::Array(a)) => if a@.len() > 0 {
            non_null(Some(a@[0]))
        } else {
            None
        },
        _ => None,
    }
}

pub open spec fn product_of_item(item: JsonValue) -> ProductFields {
    ProductFields {
        name: non_null(field_of(item, "name"@)),
        price: nested(item, "offers"@, "price"@),
        description: non_null(field_of(item, "description"@)),
        availability: nested(item, "offers"@, "availability"@),
        brand: ld_brand(item),
        rating: nested(item, "aggregateRating"@, "ratingValue"@),
        image: None,
        image_url: ld_image(item),
    }
}

/// The fields of the first `Product` item of a JSON-LD document.
pub open spec fn ld_product(v: JsonValue) -> Option<ProductFields> {
    match first_product(ld_items(v)) {
        Some(item) => Some(product_of_item(item)),
        None => None,
    }
}

pub open spec fn fill(a: Option<JsonValue>, b: Option<JsonValue>) -> Option<JsonValue> {
    if a is Some {
        a
    } else {
        b
    }
}

/// `a` with each absent field taken from `b`.
pub open spec fn merge(a: ProductFields, b: ProductFields) -> ProductFields {
    ProductFields {
        name: fill(a.name, b.name),
        price: fill(a.price, b.price),
        description: fill(a.description, b.description),
        availability: fill(a.availability, b.availability),
        brand: fill(a.brand, b.brand),
        rating: fill(a.rating, b.rating),
        image: fill(a.image, b.image),
        image_url: fill(a.image_url, b.image_url),
    }
}

/// The fields that the JSON-LD documents give, earlier documents first.
pub open spec fn ld_fold(docs: Seq<Option<JsonValue>>) -> ProductFields
    decreases docs.len(),
{
    if docs.len() == 0 {
        no_fields()
    } else {
        let acc = ld_fold(docs.drop_last());
        match docs.last() {
            Some(v) => match ld_product(v) {
                Some(p) => merge(acc, p),
                None => acc,
            },
            None => acc,
        }
    }
}

fn non_null_of(o: Option<JsonValue>) -> (r: Option<JsonValue>)
    ensures
        r == non_null(o),
{
    match o {
        Some(JsonValue::Null) => None,
        _ => o,
    }
}

fn fill_from(a: Option<JsonValue>, b: Option<JsonValue>) -> (r: Option<JsonValue>)
    ensures
        r == fill(a, b),
{
    if a.is_some() {
        a
    } else {
        b
    }
}

fn merge_fields(a: ProductFields, b: ProductFields) -> (r: ProductFields)
    ensures
        r == merge(a, b),
{
    ProductFields {
        name: fill_from(a.name, b.name),
        price: fill_from(a.price, b.price),
        description: fill_from(a.description, b.description),
        availability: fill_from(a.availability, b.availability),
        brand: fill_from(a.brand, b.brand),
        rating: fill_from(a.rating, b.rating),
        image: fill_from(a.image, b.image),
        image_url: fill_from(a.image_url, b.image_url),
    }
}

fn nested_of(item_field: Option<JsonValue>, inner: &str) -> (r: Option<JsonValue>)
    ensures
        r == match item_field {
            Some(o) => non_null(field_of(o, inner@)),
            None => None,
        },
{
    match item_field {
        Some(o) => non_null_of(take_field(o, inner).1),
        None => None,
    }
}

/// The product fields of one JSON-LD item.
pub fn product_from_item(item: JsonValue) -> (r: ProductFields)
    ensures
        r == product_of_item(item),
{
    proof {
        reveal_strlit("name");
        reveal_strlit("description");
        reveal_strlit("brand");
        reveal_strlit("offers");
        reveal_strlit("aggregateRating");
        reveal_strlit("image");
        assert("brand"@[0] != "image"@[0]);
        assert("name"@.len() == 4 && "description"@.len() == 11 && "brand"@.len() == 5
            && "offers"@.len() == 6 && "aggregateRating"@.len() == 15 && "image"@.len() == 5);
    }
    let ghost orig = item;
    let (item, name) = take_field(item, "name");
    assert(field_of(item, "description"@) == field_of(orig, "description"@));
    let (item, description) = take_field(item, "description");
    assert(field_of(item, "brand"@) == field_of(orig, "brand"@));
    let (item, brand) = take_field(item, "brand");
    assert(field_of(item, "offers"@) == field_of(orig, "offers"@));
    let (item, offers) = take_field(item, "offers");
    assert(field_of(item, "aggregateRating"@) == field_of(orig, "aggregateRating"@));
    let (item, rating) = take_field(item, "aggregateRating");
    assert(field_of(item, "image"@) == field_of(orig, "image"@));
    let (_rest, image) = take_field(item, "image");
    let brand = match brand {
        Some(JsonValue::Str(s)) => Some(JsonValue::Str(s)),
        Some(b) => non_null_of(take_field(b, "name").1),
        None => None,
    };
    let (price, availability) = match offers {
        Some(o) => {
            proof {
                reveal_strlit("price");
                reveal_strlit("availability");
                assert("price"@.len() != "availability"@.len());
            }
            let ghost o0 = o;
            let (o, price) = take_field(o, "price");
            assert(field_of(o, "availability"@) == field_of(o0, "availability"@));
            let (_o, availability) = take_field(o, "availability");
            (non_null_of(price), non_null_of(availability))
        },
        None => (None, None),
    };
    let image_url = match image {
        Some(JsonValue::Str(s)) => Some(JsonValue::Str(s)),
        Some(JsonValue::Array(a)) => if a.len() > 0 {
            let mut a = a;
            non_null_of(Some(a.remove(0)))
        } else {
            None
        },
        _ => None,
    };
    ProductFields {
        name: non_null_of(name),
        price,
        description: non_null_of(description),
        availability,
        brand,
        rating: nested_of(rating, "ratingValue"),
        image: None,
        image_url,
    }
}

fn is_product_item(item: &JsonValue) -> (r: bool)
    ensures
        r == is_product(*item),
{
    match item.get_str("@type") {
        Some(t) => str_eq(t.as_str(), "Product"),
        None => false,
    }
}

/// The fields of the first `Product` item of a JSON-LD document, if any.
pub fn extract_product_from_jsonld(doc: JsonValue) -> (r: Option<ProductFields>)
    ensures
        r == ld_product(doc),
{
    let ghost items = ld_items(doc);
    match doc {
        JsonValue::Array(a) => {
            let mut a = a;
            let mut k: usize = 0;
            let n = a.len();
            assert(items.skip(0) =~= items);
            while a.len() > 0
                invariant
                    items == ld_items(doc),
                    items.len() <= usize::MAX,
                    k <= items.len(),
                    a@ == items.skip(k as int),
                    first_product(items) == first_product(items.skip(k as int)),
                decreases a.len(),
            {
                let ghost rest = items.skip(k as int);
                assert(rest.drop_first() =~= items.skip(k + 1));
                let item = a.remove(0);
                assert(item == rest[0]);
                if is_product_item(&item) {
                    assert(first_product(rest) == Some(item));
                    return Some(product_from_item(item));
                }
                assert(first_product(rest) == first_product(rest.drop_first()));
                k = k + 1;
                assert(a@ =~= items.skip(k as int));
            }
            assert(items.skip(k as int).len() == 0);
            assert(first_product(items.skip(k as int)) is None);
            None
        },
        other => {
            if is_product_item(&other) {
                Some(product_from_item(other))
            } else {
                assert(ld_items(other).drop_first() =~= Seq::<JsonValue>::empty());
                assert(first_product(ld_items(other).drop_first()) is None);
                None
            }
        },
    }
}


/// The selectors of each field, in the order tried: name `[0, 3)`, price
/// `[3, 8)`, description `[8, 11)`, availability `[11, 14)`, brand `[14, 17)`,
/// rating `[17, 21)`, image `[21, 25)`; then the JSON-LD scripts at 25.
pub open spec fn product_selectors() -> Seq<Seq<char>> {
    seq![
        "#productTitle"@,
        "h1.a-size-large"@,
        ".product-title"@,
        "[data-testid='price']"@,
        ".a-price-whole"@,
        ".price"@,
        ".current-price"@,
        "[data-price]"@,
        "[data-feature-name='productDescription']"@,
        ".product-description"@,
        "#description"@,
        "#availability span"@,
        ".availability"@,
        "#stock-status"@,
        "[data-testid='brand']"@,
        ".brand"@,
        "#brand"@,
        "[data-testid='rating']"@,
        ".a-icon-alt"@,
        ".rating"@,
        ".star-rating"@,
        "[data-testid='image']"@,
        "#landingImage"@,
        ".product-image img"@,
        ".main-image img"@,
        "script[type='application/ld+json']"@,
    ]
}

/// The first value that the selectors `[lo, hi)` find.
pub open spec fn css_value(html: Seq<char>, lo: int, hi: int, mode: TextPick) -> Option<Seq<char>> {
    first_in_groups(groups_of(html, product_selectors().subrange(lo, hi), "src"@), mode)
}

/// The JSON-LD documents that a selection of script elements holds, in selection order.
pub open spec fn docs_of(g: Option<Seq<(Seq<Seq<char>>, Option<Seq<char>>)>>) -> Seq<
    Option<JsonValue>,
> {
    match g {
        Some(es) => es.map_values(
            |e: (Seq<Seq<char>>, Option<Seq<char>>)| parsed_json(join(e.0, Seq::empty())),
        ),
        None => Seq::empty(),
    }
}

pub open spec fn jsonld_docs(html: Seq<char>) -> Seq<Option<JsonValue>> {
    docs_of(selection(html, product_selectors()[25], "src"@))
}

/// A field found by a selector holds that text; else it is what JSON-LD gave.
pub open spec fn from_css_or(actual: Option<JsonValue>, css: Option<Seq<char>>, ld: Option<JsonValue>) -> bool {
    match css {
        Some(t) => match actual {
            Some(JsonValue::Str(x)) => x@ == t,
            _ => false,
        },
        None => actual == ld,
    }
}

/// The product fields of a page: selectors take precedence, JSON-LD fills the rest.
pub open spec fn product_fields_of(r: ProductFields, html: Seq<char>) -> bool {
    let ld = ld_fold(jsonld_docs(html));
    &&& from_css_or(r.name, css_value(html, 0, 3, TextPick::Trimmed), ld.name)
    &&& from_css_or(r.price, css_value(html, 3, 8, TextPick::Trimmed), ld.price)
    &&& from_css_or(r.description, css_value(html, 8, 11, TextPick::Trimmed), ld.description)
    &&& from_css_or(r.availability, css_value(html, 11, 14, TextPick::Trimmed), ld.availability)
    &&& from_css_or(r.brand, css_value(html, 14, 17, TextPick::Trimmed), ld.brand)
    &&& from_css_or(r.rating, css_value(html, 17, 21, TextPick::Trimmed), ld.rating)
    &&& from_css_or(r.image, css_value(html, 21, 25, TextPick::Attr), ld.image)
    &&& r.image_url == ld.image_url
}

/// What `extract_product_data` reports.
#[derive(Debug)]
pub struct ProductData {
    pub url: String,
    pub extracted_data: ProductFields,
    pub extraction_timestamp: String,
}

fn jsonld_fields(g: &Option<Vec<ElementMatch>>) -> (r: ProductFields)
    ensures
        r == ld_fold(docs_of(selection_view(*g))),
{
    match g {
        Some(es) => {
            proof {
                reveal_strlit("");
                assert(""@ =~= Seq::<char>::empty());
            }
            let ghost docs = docs_of(selection_view(*g));
            let mut acc = ProductFields {
                name: None,
                price: None,
                description: None,
                availability: None,
                brand: None,
                rating: None,
                image: None,
                image_url: None,
            };
            let mut i: usize = 0;
            assert(docs.take(0) =~= Seq::<Option<JsonValue>>::empty());
            while i < es.len()
                invariant
                    i <= es.len(),
                    ""@ == Seq::<char>::empty(),
                    docs == docs_of(selection_view(*g)),
                    *g == Some(*es),
                    docs.len() == es@.len(),
                    acc == ld_fold(docs.take(i as int)),
                decreases es.len() - i,
            {
                let text = string_from(join_chars(&es[i].text, "").as_slice());
                let doc = parse_json(text.as_str());
                proof {
                    assert(docs.take(i + 1).drop_last() =~= docs.take(i as int));
                    assert(docs[i as int] == parsed_json(join(element_view(es@[i as int]).0, Seq::empty())));
                }
                match doc {
                    Some(v) => match extract_product_from_jsonld(v) {
                        Some(p) => {
                            acc = merge_fields(acc, p);
                        },
                        None => {},
                    },
                    None => {},
                }
                i = i + 1;
            }
            assert(docs.take(es.len() as int) =~= docs);
            acc
        },
        None => ProductFields {
            name: None,
            price: None,
            description: None,
            availability: None,
            brand: None,
            rating: None,
            image: None,
            image_url: None,
        },
    }
}

fn css_or(css: Option<Vec<char>>, ld: Option<JsonValue>) -> (r: Option<JsonValue>)
    ensures
        from_css_or(r, crate::html::opt_chars(css), ld),
{
    match css {
        Some(t) => Some(JsonValue::Str(string_from(t.as_slice()))),
        None => ld,
    }
}

/// The product fields of a page: for each field the first non-empty value that
/// its selectors find (the `src` attribute for the image), then for each field
/// still missing the value of the first `Product` JSON-LD block that has it.
pub fn extract_product_data(html: &str, url: &str, timestamp: String) -> (r: ProductData)
    ensures
        r.url@ == url@,
        r.extraction_timestamp == timestamp,
        product_fields_of(r.extracted_data, html@),
        (css_value(html@, 0, 3, TextPick::Trimmed) is None && css_value(html@, 3, 8, TextPick::Trimmed) is None
            && css_value(html@, 8, 11, TextPick::Trimmed) is None && css_value(html@, 11, 14, TextPick::Trimmed) is None
            && css_value(html@, 14, 17, TextPick::Trimmed) is None && css_value(html@, 17, 21, TextPick::Trimmed) is None
            && css_value(html@, 21, 25, TextPick::Attr) is None) ==> r.extracted_data == ld_fold(jsonld_docs(html@)),
{
    let sels: Vec<&str> = vec![
        "#productTitle",
        "h1.a-size-large",
        ".product-title",
        "[data-testid='price']",
        ".a-price-whole",
        ".price",
        ".current-price",
        "[data-price]",
        "[data-feature-name='productDescription']",
        ".product-description",
        "#description",
        "#availability span",
        ".availability",
        "#stock-status",
        "[data-testid='brand']",
        ".brand",
        "#brand",
        "[data-testid='rating']",
        ".a-icon-alt",
        ".rating",
        ".star-rating",
        "[data-testid='image']",
        "#landingImage",
        ".product-image img",
        ".main-image img",
        "script[type='application/ld+json']",
    ];
    let groups = select_all(html, &sels, "src");
    proof {
        let ps = product_selectors();
        assert(sels@.map_values(|s: &str| s@) =~= ps);
        lemma_groups_at(html, sels, groups, 0, 3);
        lemma_groups_at(html, sels, groups, 3, 8);
        lemma_groups_at(html, sels, groups, 8, 11);
        lemma_groups_at(html, sels, groups, 11, 14);
        lemma_groups_at(html, sels, groups, 14, 17);
        lemma_groups_at(html, sels, groups, 17, 21);
        lemma_groups_at(html, sels, groups, 21, 25);
        assert(selection_view(groups@[25]) == selection(html@, ps[25], "src"@));
    }
    let ld = jsonld_fields(&groups[25]);
    let fields = ProductFields {
        name: css_or(first_in_range(&groups, 0, 3, TextPick::Trimmed), ld.name),
        price: css_or(first_in_range(&groups, 3, 8, TextPick::Trimmed), ld.price),
        description: css_or(first_in_range(&groups, 8, 11, TextPick::Trimmed), ld.description),
        availability: css_or(first_in_range(&groups, 11, 14, TextPick::Trimmed), ld.availability),
        brand: css_or(first_in_range(&groups, 14, 17, TextPick::Trimmed), ld.brand),
        rating: css_or(first_in_range(&groups, 17, 21, TextPick::Trimmed), ld.rating),
        image: css_or(first_in_range(&groups, 21, 25, TextPick::Attr), ld.image),
        image_url: ld.image_url,
    };
    ProductData { url: String::from_str(url), extracted_data: fields, extraction_timestamp: timestamp }
}

proof fn lemma_groups_at(
    html: &str,
    sels: Vec<&str>,
    groups: Vec<Option<Vec<ElementMatch>>>,
    lo: int,
    hi: int,
)
    requires
        0 <= lo <= hi <= sels@.len(),
        sels@.len() == 26,
        sels@.map_values(|s: &str| s@) == product_selectors(),
        groups@.len() == sels@.len(),
        forall|i: int|
            0 <= i < groups@.len() ==> selection_view(#[trigger] groups@[i]) == selection(
                html@,
                sels@[i]@,
                "src"@,
            ),
    ensures
        groups@.subrange(lo, hi).map_values(|g: Option<Vec<ElementMatch>>| selection_view(g))
            == groups_of(html@, product_selectors().subrange(lo, hi), "src"@),
{
    assert(sels@.subrange(lo, hi).map_values(|s: &str| s@) =~= product_selectors().subrange(lo, hi));
    assert(groups@.subrange(lo, hi).map_values(|g: Option<Vec<ElementMatch>>| selection_view(g))
        =~= groups_of(html@, product_selectors().subrange(lo, hi), "src"@));
}

} // verus!
