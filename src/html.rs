//! HTML extraction over scraper's CSS selection: clean text, selector
//! lookups and platform detection.
use vstd::prelude::*;
use scraper::{Html, Selector};
use crate::json::opt_view;
use crate::text::{
    chars_of, collapse_whitespace, collapse_ws, is_blank, is_blank_chars, join, join_chars,
    string_from, trim, trim_chars,
};

verus! {

/// One element that a selector matched: its descendant text nodes in
/// document order, and the value of the attribute that was asked for.
#[derive(Debug)]
pub struct ElementMatch {
    pub text: Vec<String>,
    pub attr: Option<String>,
}

pub open spec fn element_view(e: ElementMatch) -> (Seq<Seq<char>>, Option<Seq<char>>) {
    (e.text@.map_values(|t: String| t@), opt_view(e.attr))
}

pub open spec fn selection_view(o: Option<Vec<ElementMatch>>) -> Option<
    Seq<(Seq<Seq<char>>, Option<Seq<char>>)>,
> {
    match o {
        Some(v) => Some(v@.map_values(|e: ElementMatch| element_view(e))),
        None => None,
    }
}

/// What scraper finds in the document `html` for the CSS selector `selector`:
/// `None` where the selector does not parse, else the matching elements in
/// the order in which `Html::select` walks the parsed tree, each with its text
/// nodes and its attribute `attr`.
pub uninterp spec fn selection(html: Seq<char>, selector: Seq<char>, attr: Seq<char>) -> Option<
    Seq<(Seq<Seq<char>>, Option<Seq<char>>)>,
>;

/// Relies on scraper: `Html::parse_document` once, then for each selector
/// `Selector::parse` and `Html::select`, and of each element `ElementRef::text`
/// and `Element::attr`.
#[verifier::external_body]
pub(crate) fn select_all(html: &str, selectors: &Vec<&str>, attr: &str) -> (r: Vec<Option<Vec<ElementMatch>>>)
    ensures
        r@.len() == selectors@.len(),
        forall|i: int|
            0 <= i < r@.len() ==> selection_view(#[trigger] r@[i]) == selection(
                html@,
                selectors@[i]@,
                attr@,
            ),
{
    let document = Html::parse_document(html);
    selectors.iter().map(|s| Selector::parse(s).ok().map(|sel| {
        document.select(&sel).map(|e| ElementMatch {
            text: e.text().map(String::from).collect(),
            attr: e.value().attr(attr).map(String::from),
        }).collect()
    })).collect()
}

/// The text of an element: its text nodes joined by single spaces.
pub open spec fn element_text(e: (Seq<Seq<char>>, Option<Seq<char>>)) -> Seq<char> {
    join(e.0, seq![' '])
}

/// How a value is read from an element and when it counts as found.
#[derive(Debug, Clone, Copy, PartialEq, Eq, Structural)]
pub enum TextPick {
    /// The element text as it is; found where it is not blank.
    Raw,
    /// The trimmed element text; found where it is not empty.
    Trimmed,
    /// The attribute, empty where absent; found where it is not empty.
    Attr,
}

pub open spec fn pick(e: (Seq<Seq<char>>, Option<Seq<char>>), mode: TextPick) -> Seq<char> {
    match mode {
        TextPick::Raw => element_text(e),
        TextPick::Trimmed => trim(element_text(e)),
        TextPick::Attr => match e.1 {
            Some(a) => a,
            None => Seq::empty(),
        },
    }
}

pub open spec fn accepts(v: Seq<char>, mode: TextPick) -> bool {
    match mode {
        TextPick::Raw => !is_blank(v),
        _ => v.len() > 0,
    }
}

/// The first value found among the elements, in selection order.
pub open spec fn first_in(es: Seq<(Seq<Seq<char>>, Option<Seq<char>>)>, mode: TextPick) -> Option<
    Seq<char>,
>
    decreases es.len(),
{
    if es.len() == 0 {
        None
    } else if accepts(pick(es[0], mode), mode) {
        Some(pick(es[0], mode))
    } else {
        first_in(es.drop_first(), mode)
    }
}

/// The first value found, trying the selections in order.
pub open spec fn first_in_groups(
    gs: Seq<Option<Seq<(Seq<Seq<char>>, Option<Seq<char>>)>>>,
    mode: TextPick,
) -> Option<Seq<char>>
    decreases gs.len(),
{
    if gs.len() == 0 {
        None
    } else {
        let here = match gs[0] {
            Some(es) => first_in(es, mode),
            None => None,
        };
        match here {
            Some(v) => Some(v),
            None => first_in_groups(gs.drop_first(), mode),
        }
    }
}

pub open spec fn opt_chars(o: Option<Vec<char>>) -> Option<Seq<char>> {
    match o {
        Some(v) => Some(v@),
        None => None,
    }
}

fn pick_from(e: &ElementMatch, mode: TextPick) -> (r: Vec<char>)
    ensures
        r@ == pick(element_view(*e), mode),
{
    proof {
        reveal_strlit(" ");
        assert(" "@ =~= seq![' ']);
    }
    match mode {
        TextPick::Raw => join_chars(&e.text, " "),
        TextPick::Trimmed => trim_chars(&join_chars(&e.text, " ")),
        TextPick::Attr => match &e.attr {
            Some(a) => chars_of(a.as_str()),
            None => Vec::new(),
        },
    }
}

fn accepted(v: &Vec<char>, mode: TextPick) -> (r: bool)
    ensures
        r == accepts(v@, mode),
{
    match mode {
        TextPick::Raw => !is_blank_chars(v),
        _ => v.len() > 0,
    }
}

fn first_in_elements(es: &Vec<ElementMatch>, mode: TextPick) -> (r: Option<Vec<char>>)
    ensures
        opt_chars(r) == first_in(es@.map_values(|e: ElementMatch| element_view(e)), mode),
{
    let ghost all = es@.map_values(|e: ElementMatch| element_view(e));
    let mut i: usize = 0;
    assert(all.subrange(0, all.len() as int) =~= all);
    while i < es.len()
        invariant
            i <= es.len(),
            all == es@.map_values(|e: ElementMatch| element_view(e)),
            first_in(all, mode) == first_in(all.subrange(i as int, all.len() as int), mode),
        decreases es.len() - i,
    {
        let ghost rest = all.subrange(i as int, all.len() as int);
        assert(rest.drop_first() =~= all.subrange(i + 1, all.len() as int));
        assert(rest[0] == element_view(es@[i as int]));
        let v = pick_from(&es[i], mode);
        if accepted(&v, mode) {
            return Some(v);
        }
        i = i + 1;
    }
    None
}

/// The first value found in `groups[lo..hi]`, trying the selections in order.
pub fn first_in_range(
    groups: &Vec<Option<Vec<ElementMatch>>>,
    lo: usize,
    hi: usize,
    mode: TextPick,
) -> (r: Option<Vec<char>>)
    requires
        lo <= hi <= groups@.len(),
    ensures
        opt_chars(r) == first_in_groups(
            groups@.subrange(lo as int, hi as int).map_values(
                |g: Option<Vec<ElementMatch>>| selection_view(g),
            ),
            mode,
        ),
{
    let ghost all = groups@.subrange(lo as int, hi as int).map_values(
        |g: Option<Vec<ElementMatch>>| selection_view(g),
    );
    let mut i: usize = lo;
    assert(all.subrange(0, all.len() as int) =~= all);
    while i < hi
        invariant
            lo <= i <= hi,
            hi <= groups@.len(),
            all == groups@.subrange(lo as int, hi as int).map_values(
                |g: Option<Vec<ElementMatch>>| selection_view(g),
            ),
            first_in_groups(all, mode) == first_in_groups(
                all.subrange(i - lo, all.len() as int),
                mode,
            ),
        decreases hi - i,
    {
        let ghost rest = all.subrange(i - lo, all.len() as int);
        assert(rest.drop_first() =~= all.subrange(i + 1 - lo, all.len() as int));
        assert(rest[0] == selection_view(groups@[i as int]));
        match &groups[i] {
            Some(es) => {
                let found = first_in_elements(es, mode);
                if found.is_some() {
                    return found;
                }
            },
            None => {},
        }
        i = i + 1;
    }
    None
}


pub open spec fn groups_of(html: Seq<char>, sels: Seq<Seq<char>>, attr: Seq<char>) -> Seq<
    Option<Seq<(Seq<Seq<char>>, Option<Seq<char>>)>>,
> {
    sels.map_values(|s: Seq<char>| selection(html, s, attr))
}

proof fn lemma_groups(
    html: &str,
    sels: Vec<&str>,
    attr: &str,
    r: Vec<Option<Vec<ElementMatch>>>,
    lo: int,
    hi: int,
)
    requires
        0 <= lo <= hi <= sels@.len(),
        r@.len() == sels@.len(),
        forall|i: int|
            0 <= i < r@.len() ==> selection_view(#[trigger] r@[i]) == selection(
                html@,
                sels@[i]@,
                attr@,
            ),
    ensures
        r@.subrange(lo, hi).map_values(|g: Option<Vec<ElementMatch>>| selection_view(g))
            == groups_of(html@, sels@.subrange(lo, hi).map_values(|s: &str| s@), attr@),
{
    assert(r@.subrange(lo, hi).map_values(|g: Option<Vec<ElementMatch>>| selection_view(g))
        =~= groups_of(html@, sels@.subrange(lo, hi).map_values(|s: &str| s@), attr@));
}

/// The containers tried, in order, for a page's main content.
pub open spec fn main_selectors() -> Seq<Seq<char>> {
    seq![
        "main"@,
        "article"@,
        "[role='main']"@,
        ".main-content"@,
        "#main-content"@,
        ".content"@,
        "#content"@,
    ]
}

/// The text of the first `body` element, empty where there is none.
pub open spec fn body_text(html: Seq<char>) -> Seq<char> {
    match selection(html, "body"@, ""@) {
        Some(es) => if es.len() > 0 {
            element_text(es[0])
        } else {
            Seq::empty()
        },
        None => Seq::empty(),
    }
}

/// The readable text of a page: the first main-content container with
/// non-blank text, else the body, with whitespace runs collapsed.
pub open spec fn clean_text_of(html: Seq<char>) -> Seq<char> {
    let text = match first_in_groups(groups_of(html, main_selectors(), ""@), TextPick::Raw) {
        Some(t) => t,
        None => body_text(html),
    };
    collapse_ws(text)
}

/// A page's readable text and its length in UTF-8 bytes.
#[derive(Debug)]
pub struct CleanText {
    pub clean_text: String,
    pub length: usize,
}

pub fn extract_clean_text(html: &str) -> (r: CleanText)
    ensures
        r.clean_text@ == clean_text_of(html@),
        r.length == vstd::utf8::encode_utf8(r.clean_text@).len() as usize,
{
    let sels: Vec<&str> = vec![
        "main",
        "article",
        "[role='main']",
        ".main-content",
        "#main-content",
        ".content",
        "#content",
        "body",
    ];
    let groups = select_all(html, &sels, "");
    proof {
        lemma_groups(html, sels, "", groups, 0, 7);
        assert(sels@.subrange(0, 7).map_values(|s: &str| s@) =~= main_selectors());
        assert(sels@[7]@ == "body"@);
        assert(selection_view(groups@[7]) == selection(html@, "body"@, ""@));
    }
    let text = match first_in_range(&groups, 0, 7, TextPick::Raw) {
        Some(t) => t,
        None => match &groups[7] {
            Some(es) => if es.len() > 0 {
                proof {
                    reveal_strlit(" ");
                    assert(" "@ =~= seq![' ']);
                }
                join_chars(&es[0].text, " ")
            } else {
                Vec::new()
            },
            None => Vec::new(),
        },
    };
    let cleaned = string_from(collapse_whitespace(&text).as_slice());
    let length = cleaned.as_str().len();
    CleanText { clean_text: cleaned, length }
}

/// The trimmed, non-empty texts of the elements, in selection order.
pub open spec fn nonblank_texts(es: Seq<(Seq<Seq<char>>, Option<Seq<char>>)>) -> Seq<Seq<char>>
    decreases es.len(),
{
    if es.len() == 0 {
        Seq::empty()
    } else {
        let p = nonblank_texts(es.drop_last());
        let t = trim(element_text(es.last()));
        if t.len() > 0 {
            p.push(t)
        } else {
            p
        }
    }
}

/// For each `(key, selector)` whose selector parses and finds some text,
/// the key with those texts; other keys are left out.
pub open spec fn hits_of(html: Seq<char>, queries: Seq<(Seq<char>, Seq<char>)>) -> Seq<
    (Seq<char>, Seq<Seq<char>>),
>
    decreases queries.len(),
{
    if queries.len() == 0 {
        Seq::empty()
    } else {
        let p = hits_of(html, queries.drop_last());
        let q = queries.last();
        match selection(html, q.1, ""@) {
            Some(es) => {
                let t = nonblank_texts(es);
                if t.len() > 0 {
                    p.push((q.0, t))
                } else {
                    p
                }
            },
            None => p,
        }
    }
}

/// One text, or several in selection order.
#[derive(Debug)]
pub enum SelectedText {
    One(String),
    Many(Vec<String>),
}

#[derive(Debug)]
pub struct SelectorHit {
    pub key: String,
    pub value: SelectedText,
}

pub open spec fn hit_view(h: SelectorHit) -> (Seq<char>, Seq<Seq<char>>) {
    (
        h.key@,
        match h.value {
            SelectedText::One(s) => seq![s@],
            SelectedText::Many(v) => v@.map_values(|x: String| x@),
        },
    )
}

pub open spec fn query_view(q: (String, String)) -> (Seq<char>, Seq<char>) {
    (q.0@, q.1@)
}

fn texts_of(es: &Vec<ElementMatch>) -> (r: Vec<String>)
    ensures
        r@.map_values(|x: String| x@) == nonblank_texts(
            es@.map_values(|e: ElementMatch| element_view(e)),
        ),
{
    proof {
        reveal_strlit(" ");
        assert(" "@ =~= seq![' ']);
    }
    let ghost all = es@.map_values(|e: ElementMatch| element_view(e));
    let mut out: Vec<String> = Vec::new();
    let mut i: usize = 0;
    while i < es.len()
        invariant
            i <= es.len(),
            " "@ == seq![' '],
            all == es@.map_values(|e: ElementMatch| element_view(e)),
            out@.map_values(|x: String| x@) == nonblank_texts(all.take(i as int)),
        decreases es.len() - i,
    {
        let t = trim_chars(&join_chars(&es[i].text, " "));
        proof {
            assert(all.take(i + 1).drop_last() =~= all.take(i as int));
            assert(all.take(i + 1).last() == element_view(es@[i as int]));
        }
        if t.len() > 0 {
            let ghost before = out@;
            out.push(string_from(t.as_slice()));
            assert(out@.map_values(|x: String| x@) =~= before.map_values(|x: String| x@).push(t@));
        }
        i = i + 1;
    }
    assert(all.take(es.len() as int) =~= all);
    out
}

/// For each `(key, selector)`, the trimmed non-empty texts of the elements it
/// matches: one as a scalar, several as a list; a key whose selector does not
/// parse or finds no text is left out.
pub fn extract_by_selectors(html: &str, queries: &Vec<(String, String)>) -> (r: Vec<SelectorHit>)
    ensures
        r@.map_values(|h: SelectorHit| hit_view(h)) == hits_of(
            html@,
            queries@.map_values(|q: (String, String)| query_view(q)),
        ),
        forall|i: int|
            0 <= i < r@.len() ==> ((#[trigger] r@[i]).value is One) == (hit_view(r@[i]).1.len()
                == 1),
{
    let ghost qs = queries@.map_values(|q: (String, String)| query_view(q));
    let mut sels: Vec<&str> = Vec::new();
    let mut k: usize = 0;
    while k < queries.len()
        invariant
            k <= queries.len(),
            sels@.len() == k,
            forall|j: int| 0 <= j < k ==> (#[trigger] sels@[j])@ == queries@[j].1@,
        decreases queries.len() - k,
    {
        sels.push(queries[k].1.as_str());
        k = k + 1;
    }
    let groups = select_all(html, &sels, "");
    let mut out: Vec<SelectorHit> = Vec::new();
    let mut i: usize = 0;
    while i < queries.len()
        invariant
            i <= queries.len(),
            groups@.len() == queries@.len(),
            sels@.len() == queries@.len(),
            forall|j: int| 0 <= j < sels@.len() ==> (#[trigger] sels@[j])@ == queries@[j].1@,
            forall|j: int|
                0 <= j < groups@.len() ==> selection_view(#[trigger] groups@[j]) == selection(
                    html@,
                    sels@[j]@,
                    ""@,
                ),
            qs == queries@.map_values(|q: (String, String)| query_view(q)),
            out@.map_values(|h: SelectorHit| hit_view(h)) == hits_of(html@, qs.take(i as int)),
            forall|j: int|
                0 <= j < out@.len() ==> ((#[trigger] out@[j]).value is One) == (hit_view(
                    out@[j],
                ).1.len() == 1),
        decreases queries.len() - i,
    {
        proof {
            assert(qs.take(i + 1).drop_last() =~= qs.take(i as int));
            assert(qs.take(i + 1).last() == query_view(queries@[i as int]));
            assert(selection_view(groups@[i as int]) == selection(html@, queries@[i as int].1@, ""@));
        }
        match &groups[i] {
            Some(es) => {
                let texts = texts_of(es);
                if texts.len() > 0 {
                    let ghost before = out@;
                    let value = if texts.len() == 1 {
                        let mut texts = texts;
                        let one = texts.remove(0);
                        SelectedText::One(one)
                    } else {
                        SelectedText::Many(texts)
                    };
                    out.push(SelectorHit { key: queries[i].0.clone(), value });
                    assert(out@.map_values(|h: SelectorHit| hit_view(h)) =~= before.map_values(
                        |h: SelectorHit| hit_view(h),
                    ).push(hit_view(out@.last())));
                    assert(hit_view(out@.last()).1 =~= texts@.map_values(|x: String| x@));
                }
            },
            None => {},
        }
        i = i + 1;
    }
    assert(qs.take(queries.len() as int) =~= qs);
    out
}


/// The platforms recognised, in the order they are reported.
pub open spec fn platform_names() -> Seq<Seq<char>> {
    seq!["amazon"@, "shopify"@, "woocommerce"@, "magento"@]
}

/// The indicator selectors of each platform, three per platform, in platform order.
pub open spec fn indicator_selectors() -> Seq<Seq<char>> {
    seq![
        ".a-price"@,
        "#productTitle"@,
        "#acrPopover"@,
        ".product-form"@,
        ".price"@,
        ".product-title"@,
        ".woocommerce"@,
        ".price"@,
        ".product_title"@,
        ".product-info-price"@,
        ".product-title"@,
        ".product-info-main"@,
    ]
}

pub open spec fn present(g: Option<Seq<(Seq<Seq<char>>, Option<Seq<char>>)>>) -> bool {
    match g {
        Some(es) => es.len() > 0,
        None => false,
    }
}

/// How many of the selections found an element.
pub open spec fn count_present(gs: Seq<Option<Seq<(Seq<Seq<char>>, Option<Seq<char>>)>>>) -> nat
    decreases gs.len(),
{
    if gs.len() == 0 {
        0
    } else {
        count_present(gs.drop_last()) + if present(gs.last()) {
            1nat
        } else {
            0nat
        }
    }
}

/// Of the first `n` platforms, those with at least one indicator present:
/// name, indicators present, indicators in all.
pub open spec fn detected_upto(html: Seq<char>, n: nat) -> Seq<(Seq<char>, nat, nat)>
    decreases n,
{
    if n == 0 {
        Seq::empty()
    } else {
        let p = detected_upto(html, (n - 1) as nat);
        let i = n - 1;
        let c = count_present(
            groups_of(html, indicator_selectors().subrange(3 * i, 3 * i + 3), ""@),
        );
        if c > 0 {
            p.push((platform_names()[i], c, 3nat))
        } else {
            p
        }
    }
}

/// A platform whose indicators the page shows: `matched` of `total` selectors found.
#[derive(Debug)]
pub struct PlatformMatch {
    pub platform: String,
    pub matched: usize,
    pub total: usize,
}

pub open spec fn platform_view(m: PlatformMatch) -> (Seq<char>, nat, nat) {
    (m.platform@, m.matched as nat, m.total as nat)
}

fn count_found(groups: &Vec<Option<Vec<ElementMatch>>>, lo: usize, hi: usize) -> (r: usize)
    requires
        lo <= hi <= groups@.len(),
    ensures
        r == count_present(
            groups@.subrange(lo as int, hi as int).map_values(
                |g: Option<Vec<ElementMatch>>| selection_view(g),
            ),
        ),
        r <= hi - lo,
{
    let ghost all = groups@.subrange(lo as int, hi as int).map_values(
        |g: Option<Vec<ElementMatch>>| selection_view(g),
    );
    let mut c: usize = 0;
    let mut i: usize = lo;
    while i < hi
        invariant
            lo <= i <= hi,
            hi <= groups@.len(),
            all == groups@.subrange(lo as int, hi as int).map_values(
                |g: Option<Vec<ElementMatch>>| selection_view(g),
            ),
            c == count_present(all.take(i - lo)),
            c <= i - lo,
        decreases hi - i,
    {
        proof {
            assert(all.take(i + 1 - lo).drop_last() =~= all.take(i - lo));
            assert(all.take(i + 1 - lo).last() == selection_view(groups@[i as int]));
        }
        match &groups[i] {
            Some(es) => {
                if es.len() > 0 {
                    c = c + 1;
                }
            },
            None => {},
        }
        i = i + 1;
    }
    assert(all.take(hi - lo) =~= all);
    c
}

/// The platforms whose indicator selectors the page shows, each with how many
/// of its indicators are present; platforms with none are left out.
pub fn analyze_page_structure(html: &str) -> (r: Vec<PlatformMatch>)
    ensures
        r@.map_values(|m: PlatformMatch| platform_view(m)) == detected_upto(html@, 4),
{
    let sels: Vec<&str> = vec![
        ".a-price",
        "#productTitle",
        "#acrPopover",
        ".product-form",
        ".price",
        ".product-title",
        ".woocommerce",
        ".price",
        ".product_title",
        ".product-info-price",
        ".product-title",
        ".product-info-main",
    ];
    let names: Vec<&str> = vec!["amazon", "shopify", "woocommerce", "magento"];
    proof {
        assert(sels@.map_values(|s: &str| s@) =~= indicator_selectors());
        assert(names@.map_values(|s: &str| s@) =~= platform_names());
    }
    let groups = select_all(html, &sels, "");
    let mut out: Vec<PlatformMatch> = Vec::new();
    let mut p: usize = 0;
    while p < 4
        invariant
            p <= 4,
            groups@.len() == 12,
            sels@.len() == 12,
            names@.len() == 4,
            names@.map_values(|s: &str| s@) == platform_names(),
            sels@.map_values(|s: &str| s@) == indicator_selectors(),
            forall|j: int|
                0 <= j < groups@.len() ==> selection_view(#[trigger] groups@[j]) == selection(
                    html@,
                    sels@[j]@,
                    ""@,
                ),
            out@.map_values(|m: PlatformMatch| platform_view(m)) == detected_upto(html@, p as nat),
        decreases 4 - p,
    {
        proof {
            lemma_groups(html, sels, "", groups, 3 * p, 3 * p + 3);
            assert(sels@.subrange(3 * p, 3 * p + 3).map_values(|s: &str| s@)
                =~= indicator_selectors().subrange(3 * p, 3 * p + 3));
        }
        let c = count_found(&groups, 3 * p, 3 * p + 3);
        if c > 0 {
            let ghost before = out@;
            assert(names@[p as int]@ == platform_names()[p as int]);
            out.push(
                PlatformMatch { platform: String::from_str(names[p]), matched: c, total: 3 },
            );
            assert(out@.map_values(|m: PlatformMatch| platform_view(m)) =~= before.map_values(
                |m: PlatformMatch| platform_view(m),
            ).push(platform_view(out@.last())));
        }
        p = p + 1;
    }
    out
}

} // verus!
