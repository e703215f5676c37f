//! Character-level helpers over `Seq<char>` views of strings.
use vstd::prelude::*;
use vstd::string::StringExecFns;

verus! {

/// Unicode `White_Space` code points, the set `char::is_whitespace` documents.
pub open spec fn is_ws(c: char) -> bool {
    ('\u{9}' <= c && c <= '\u{d}') || c == ' ' || c == '\u{85}' || c == '\u{a0}' || c == '\u{1680}'
        || ('\u{2000}' <= c && c <= '\u{200a}') || c == '\u{2028}' || c == '\u{2029}' || c
        == '\u{202f}' || c == '\u{205f}' || c == '\u{3000}'
}

pub fn is_whitespace(c: char) -> (r: bool)
    ensures
        r == is_ws(c),
{
    ('\u{9}' <= c && c <= '\u{d}') || c == ' ' || c == '\u{85}' || c == '\u{a0}' || c == '\u{1680}'
        || ('\u{2000}' <= c && c <= '\u{200a}') || c == '\u{2028}' || c == '\u{2029}' || c
        == '\u{202f}' || c == '\u{205f}' || c == '\u{3000}'
}

/// Relies on `str::chars` collected into a `Vec`: the characters of `s`, in order.
#[verifier::external_body]
pub(crate) fn chars_of(s: &str) -> (r: Vec<char>)
    ensures
        r@ == s@,
{
    s.chars().collect()
}

/// Relies on `String`'s `FromIterator<char>`: the string holds exactly the given characters.
#[verifier::external_body]
pub(crate) fn string_from(v: &[char]) -> (r: String)
    ensures
        r@ == v@,
{
    v.iter().collect()
}

/// `a` followed by `b`.
pub fn concat(a: &str, b: &str) -> (r: String)
    ensures
        r@ == a@ + b@,
{
    let mut s = String::from_str(a);
    s.append(b);
    s
}


pub open spec fn trim_start(s: Seq<char>) -> Seq<char>
    decreases s.len(),
{
    if s.len() > 0 && is_ws(s[0]) {
        trim_start(s.drop_first())
    } else {
        s
    }
}

pub open spec fn trim_end(s: Seq<char>) -> Seq<char>
    decreases s.len(),
{
    if s.len() > 0 && is_ws(s.last()) {
        trim_end(s.drop_last())
    } else {
        s
    }
}

/// `s` without leading and trailing whitespace, as `str::trim` documents it.
pub open spec fn trim(s: Seq<char>) -> Seq<char> {
    trim_end(trim_start(s))
}

/// `parts` with `sep` between each two neighbours.
pub open spec fn join(parts: Seq<Seq<char>>, sep: Seq<char>) -> Seq<char>
    decreases parts.len(),
{
    if parts.len() == 0 {
        Seq::empty()
    } else if parts.len() == 1 {
        parts[0]
    } else {
        join(parts.drop_last(), sep) + sep + parts.last()
    }
}

/// The maximal runs of non-whitespace characters of `s`, in order.
pub open spec fn words(s: Seq<char>) -> Seq<Seq<char>>
    decreases s.len(),
{
    if s.len() == 0 {
        Seq::empty()
    } else {
        let w = words(s.drop_last());
        let c = s.last();
        if is_ws(c) {
            w
        } else if s.len() > 1 && !is_ws(s[s.len() - 2]) {
            w.update(w.len() - 1, w.last().push(c))
        } else {
            w.push(seq![c])
        }
    }
}

/// The words of `s` separated by single spaces.
pub open spec fn collapse_ws(s: Seq<char>) -> Seq<char> {
    join(words(s), seq![' '])
}

proof fn lemma_trim_start_skip(s: Seq<char>, i: int)
    requires
        0 <= i <= s.len(),
        forall|k: int| 0 <= k < i ==> is_ws(s[k]),
    ensures
        trim_start(s) == trim_start(s.subrange(i, s.len() as int)),
    decreases i,
{
    if i > 0 {
        assert(s.drop_first().subrange(i - 1, s.drop_first().len() as int) =~= s.subrange(i, s.len() as int));
        lemma_trim_start_skip(s.drop_first(), i - 1);
    } else {
        assert(s.subrange(0, s.len() as int) =~= s);
    }
}

proof fn lemma_trim_end_cut(s: Seq<char>, j: int)
    requires
        0 <= j <= s.len(),
        forall|k: int| j <= k < s.len() ==> is_ws(s[k]),
    ensures
        trim_end(s) == trim_end(s.subrange(0, j)),
    decreases s.len() - j,
{
    if j < s.len() {
        assert(s.drop_last().subrange(0, j) =~= s.subrange(0, j));
        lemma_trim_end_cut(s.drop_last(), j);
    } else {
        assert(s.subrange(0, j) =~= s);
    }
}

/// The characters of `s` without leading and trailing whitespace.
pub fn trim_chars(s: &Vec<char>) -> (r: Vec<char>)
    ensures
        r@ == trim(s@),
{
    let mut i: usize = 0;
    while i < s.len() && is_whitespace(s[i])
        invariant
            i <= s.len(),
            forall|k: int| 0 <= k < i ==> is_ws(s@[k]),
        decreases s.len() - i,
    {
        i = i + 1;
    }
    proof {
        lemma_trim_start_skip(s@, i as int);
    }
    let ghost t = s@.subrange(i as int, s@.len() as int);
    assert(trim_start(t) == t);
    let mut j: usize = s.len();
    while j > i && is_whitespace(s[j - 1])
        invariant
            i <= j <= s.len(),
            forall|k: int| j <= k < s.len() ==> is_ws(s@[k]),
        decreases j,
    {
        j = j - 1;
    }
    proof {
        lemma_trim_end_cut(t, j - i);
        assert(t.subrange(0, j - i) =~= s@.subrange(i as int, j as int));
    }
    let mut out: Vec<char> = Vec::new();
    let mut k: usize = i;
    while k < j
        invariant
            i <= k <= j,
            j <= s.len(),
            out@ == s@.subrange(i as int, k as int),
        decreases j - k,
    {
        out.push(s[k]);
        k = k + 1;
        assert(out@ =~= s@.subrange(i as int, k as int));
    }
    out
}

/// Whether `s` holds a non-whitespace character.
pub open spec fn is_blank(s: Seq<char>) -> bool {
    forall|k: int| 0 <= k < s.len() ==> is_ws(s[k])
}

proof fn lemma_trim_empty_iff_blank(s: Seq<char>)
    ensures
        (trim(s).len() == 0) == is_blank(s),
    decreases s.len(),
{
    if s.len() > 0 && is_ws(s[0]) {
        lemma_trim_empty_iff_blank(s.drop_first());
        assert(trim(s) == trim(s.drop_first()));
        if is_blank(s.drop_first()) {
            assert forall|k: int| 0 <= k < s.len() implies is_ws(s[k]) by {
                if k > 0 {
                    assert(s[k] == s.drop_first()[k - 1]);
                }
            }
        }
    } else if s.len() > 0 {
        lemma_trim_end_keeps_first(s);
    }
}

proof fn lemma_trim_end_keeps_first(s: Seq<char>)
    requires
        s.len() > 0,
        !is_ws(s[0]),
    ensures
        trim_end(s).len() > 0,
    decreases s.len(),
{
    if is_ws(s.last()) {
        lemma_trim_end_keeps_first(s.drop_last());
    }
}

/// Whether the trimmed `s` is empty.
pub fn is_blank_chars(s: &Vec<char>) -> (r: bool)
    ensures
        r == (trim(s@).len() == 0),
        r == is_blank(s@),
{
    proof {
        lemma_trim_empty_iff_blank(s@);
    }
    let mut i: usize = 0;
    while i < s.len()
        invariant
            i <= s.len(),
            forall|k: int| 0 <= k < i ==> is_ws(s@[k]),
        decreases s.len() - i,
    {
        if !is_whitespace(s[i]) {
            assert(!is_ws(s@[i as int]));
            assert(!is_blank(s@));
            proof {
                lemma_trim_empty_iff_blank(s@);
            }
            return false;
        }
        i = i + 1;
    }
    proof {
        lemma_trim_empty_iff_blank(s@);
    }
    true
}

/// `parts` with `sep` between each two neighbours.
pub fn join_chars(parts: &Vec<String>, sep: &str) -> (r: Vec<char>)
    ensures
        r@ == join(parts@.map_values(|p: String| p@), sep@),
{
    let ghost ps = parts@.map_values(|p: String| p@);
    let sepc = chars_of(sep);
    let mut out: Vec<char> = Vec::new();
    let mut i: usize = 0;
    while i < parts.len()
        invariant
            i <= parts.len(),
            ps == parts@.map_values(|p: String| p@),
            sepc@ == sep@,
            out@ == join(ps.take(i as int), sep@),
        decreases parts.len() - i,
    {
        let pc = chars_of(parts[i].as_str());
        let ghost before = out@;
        if i > 0 {
            out.extend_from_slice(sepc.as_slice());
        }
        out.extend_from_slice(pc.as_slice());
        proof {
            let t = ps.take(i + 1);
            assert(t.drop_last() =~= ps.take(i as int));
            assert(t.last() == pc@);
            if i > 0 {
                assert(out@ =~= before + sep@ + pc@);
            } else {
                assert(out@ =~= pc@);
            }
        }
        i = i + 1;
    }
    assert(ps.take(parts.len() as int) =~= ps);
    out
}

proof fn lemma_words_nonempty(s: Seq<char>)
    requires
        s.len() > 0,
        !is_ws(s.last()),
    ensures
        words(s).len() > 0,
    decreases s.len(),
{
    if s.len() > 1 && !is_ws(s[s.len() - 2]) {
        lemma_words_nonempty(s.drop_last());
    }
}

/// The words of `s` separated by single spaces, as
/// `split_whitespace` followed by `join(" ")` gives them.
pub fn collapse_whitespace(s: &Vec<char>) -> (r: Vec<char>)
    ensures
        r@ == collapse_ws(s@),
{
    let mut out: Vec<char> = Vec::new();
    let mut i: usize = 0;
    while i < s.len()
        invariant
            i <= s.len(),
            out@ == collapse_ws(s@.take(i as int)),
        decreases s.len() - i,
    {
        let c = s[i];
        let ghost p = s@.take(i as int);
        let ghost q = s@.take(i + 1);
        proof {
            assert(q.drop_last() =~= p);
            assert(q.last() == c);
        }
        let ghost w = words(p);
        if !is_whitespace(c) {
            if i > 0 && !is_whitespace(s[i - 1]) {
                proof {
                    assert(q[q.len() - 2] == s@[i - 1]);
                    assert(p.last() == s@[i - 1]);
                    lemma_words_nonempty(p);
                    let w2 = w.update(w.len() - 1, w.last().push(c));
                    assert(w2.drop_last() =~= w.drop_last());
                    if w.len() > 1 {
                        assert(join(w2, seq![' ']) =~= join(w, seq![' ']).push(c));
                    } else {
                        assert(join(w2, seq![' ']) =~= join(w, seq![' ']).push(c));
                    }
                }
                out.push(c);
            } else {
                proof {
                    if i > 0 {
                        assert(q[q.len() - 2] == s@[i - 1]);
                    }
                    let w2 = w.push(seq![c]);
                    assert(w2.drop_last() =~= w);
                    if w.len() > 0 {
                        assert(join(w2, seq![' ']) =~= join(w, seq![' ']).push(' ').push(c));
                    } else {
                        assert(join(w2, seq![' ']) =~= seq![c]);
                    }
                }
                if out.len() > 0 {
                    out.push(' ');
                }
                proof {
                    lemma_words_all_nonempty(p);
                    lemma_join_empty(w);
                }
                out.push(c);
            }
        }
        i = i + 1;
        assert(out@ == collapse_ws(s@.take(i as int)));
    }
    assert(s@.take(s.len() as int) =~= s@);
    out
}

proof fn lemma_words_all_nonempty(s: Seq<char>)
    ensures
        forall|k: int| 0 <= k < words(s).len() ==> #[trigger] words(s)[k].len() > 0,
    decreases s.len(),
{
    if s.len() > 0 {
        lemma_words_all_nonempty(s.drop_last());
        let w = words(s.drop_last());
        let c = s.last();
        if !is_ws(c) && s.len() > 1 && !is_ws(s[s.len() - 2]) {
            lemma_words_nonempty(s.drop_last());
            assert forall|k: int| 0 <= k < words(s).len() implies #[trigger] words(s)[k].len() > 0 by {
                if k < w.len() - 1 {
                    assert(words(s)[k] == w[k]);
                }
            }
        } else if !is_ws(c) {
            assert forall|k: int| 0 <= k < words(s).len() implies #[trigger] words(s)[k].len() > 0 by {
                if k < w.len() {
                    assert(words(s)[k] == w[k]);
                }
            }
        }
    }
}

proof fn lemma_join_empty(w: Seq<Seq<char>>)
    requires
        forall|k: int| 0 <= k < w.len() ==> #[trigger] w[k].len() > 0,
    ensures
        (join(w, seq![' ']).len() == 0) == (w.len() == 0),
    decreases w.len(),
{
    if w.len() > 1 {
        lemma_join_empty(w.drop_last());
    }
}


/// The index of the first `c` in `s`.
pub open spec fn first_index(s: Seq<char>, c: char) -> Option<int>
    decreases s.len(),
{
    if s.len() == 0 {
        None
    } else {
        match first_index(s.drop_last(), c) {
            Some(i) => Some(i),
            None => if s.last() == c {
                Some(s.len() - 1)
            } else {
                None
            },
        }
    }
}

/// The index of the last `c` in `s`.
pub open spec fn last_index(s: Seq<char>, c: char) -> Option<int>
    decreases s.len(),
{
    if s.len() == 0 {
        None
    } else if s.last() == c {
        Some(s.len() - 1)
    } else {
        last_index(s.drop_last(), c)
    }
}

pub fn find_char(s: &Vec<char>, c: char) -> (r: Option<usize>)
    ensures
        match r {
            Some(i) => first_index(s@, c) == Some(i as int),
            None => first_index(s@, c) is None,
        },
{
    let mut i: usize = 0;
    while i < s.len()
        invariant
            i <= s.len(),
            first_index(s@.take(i as int), c) is None,
        decreases s.len() - i,
    {
        assert(s@.take(i + 1).drop_last() =~= s@.take(i as int));
        if s[i] == c {
            proof {
                assert(s@.take(i + 1).last() == c);
                assert(first_index(s@.take(i + 1), c) == Some(i as int));
                lemma_first_index_prefix(s@, i + 1);
            }
            return Some(i);
        }
        i = i + 1;
    }
    assert(s@.take(s.len() as int) =~= s@);
    None
}

proof fn lemma_first_index_prefix(s: Seq<char>, k: int)
    requires
        0 <= k <= s.len(),
    ensures
        forall|c: char| #[trigger] first_index(s.take(k), c) is Some ==> first_index(s, c) == first_index(s.take(k), c),
    decreases s.len() - k,
{
    if k == s.len() {
        assert(s.take(k) =~= s);
    } else {
        assert(s.drop_last().take(k) =~= s.take(k));
        if s.len() > 0 {
            lemma_first_index_prefix(s.drop_last(), k);
        }
    }
}

pub fn rfind_char(s: &Vec<char>, c: char) -> (r: Option<usize>)
    ensures
        match r {
            Some(i) => last_index(s@, c) == Some(i as int),
            None => last_index(s@, c) is None,
        },
{
    let mut j: usize = s.len();
    assert(s@.take(j as int) =~= s@);
    while j > 0
        invariant
            j <= s.len(),
            last_index(s@, c) == last_index(s@.take(j as int), c),
        decreases j,
    {
        assert(s@.take(j as int).drop_last() =~= s@.take(j - 1));
        if s[j - 1] == c {
            return Some(j - 1);
        }
        j = j - 1;
    }
    None
}

pub proof fn lemma_first_index_bounds(s: Seq<char>, c: char)
    ensures
        match first_index(s, c) {
            Some(i) => 0 <= i < s.len() && s[i] == c,
            None => true,
        },
    decreases s.len(),
{
    if s.len() > 0 {
        lemma_first_index_bounds(s.drop_last(), c);
    }
}

pub proof fn lemma_last_index_bounds(s: Seq<char>, c: char)
    ensures
        match last_index(s, c) {
            Some(i) => 0 <= i < s.len() && s[i] == c,
            None => true,
        },
    decreases s.len(),
{
    if s.len() > 0 && s.last() != c {
        lemma_last_index_bounds(s.drop_last(), c);
    }
}

/// `s[lo..hi]`.
pub fn slice_chars(s: &Vec<char>, lo: usize, hi: usize) -> (r: Vec<char>)
    requires
        lo <= hi <= s@.len(),
    ensures
        r@ == s@.subrange(lo as int, hi as int),
{
    let mut out: Vec<char> = Vec::new();
    let mut k: usize = lo;
    while k < hi
        invariant
            lo <= k <= hi,
            hi <= s@.len(),
            out@ == s@.subrange(lo as int, k as int),
        decreases hi - k,
    {
        out.push(s[k]);
        k = k + 1;
        assert(out@ =~= s@.subrange(lo as int, k as int));
    }
    out
}

/// Whether `needle` occurs in `hay`.
pub open spec fn contains(hay: Seq<char>, needle: Seq<char>) -> bool {
    exists|i: int| 0 <= i && i + needle.len() <= hay.len() && #[trigger] hay.subrange(i, i + needle.len()) == needle
}

pub fn contains_chars(hay: &Vec<char>, needle: &Vec<char>) -> (r: bool)
    ensures
        r == contains(hay@, needle@),
{
    if needle.len() > hay.len() {
        return false;
    }
    let mut i: usize = 0;
    while i <= hay.len() - needle.len()
        invariant
            needle.len() <= hay.len(),
            i <= hay.len() - needle.len() + 1,
            forall|k: int| 0 <= k < i ==> #[trigger] hay@.subrange(k, k + needle@.len()) != needle@,
        decreases hay.len() - i,
    {
        let mut j: usize = 0;
        let mut same = true;
        while j < needle.len()
            invariant
                j <= needle.len(),
                i + needle.len() <= hay.len(),
                same == (forall|t: int| 0 <= t < j ==> hay@[i + t] == needle@[t]),
            decreases needle.len() - j,
        {
            if hay[i + j] != needle[j] {
                same = false;
            }
            j = j + 1;
        }
        if same {
            assert(hay@.subrange(i as int, i + needle@.len()) =~= needle@);
            return true;
        }
        assert(hay@.subrange(i as int, i + needle@.len()) != needle@) by {
            let t = choose|t: int| 0 <= t < needle.len() && hay@[i + t] != needle@[t];
            assert(hay@.subrange(i as int, i + needle@.len())[t] != needle@[t]);
        }
        i = i + 1;
    }
    assert forall|k: int| 0 <= k && k + needle@.len() <= hay@.len() implies #[trigger] hay@.subrange(k, k + needle@.len()) != needle@ by {
        assert(k < i);
    }
    false
}

/// `s` cut at each `c`: the pieces in order, one more than there are `c`s.
pub open spec fn split_on(s: Seq<char>, c: char) -> Seq<Seq<char>>
    decreases s.len(),
{
    if s.len() == 0 {
        seq![Seq::empty()]
    } else {
        let p = split_on(s.drop_last(), c);
        if s.last() == c {
            p.push(Seq::empty())
        } else {
            p.update(p.len() - 1, p.last().push(s.last()))
        }
    }
}

pub proof fn lemma_split_nonempty(s: Seq<char>, c: char)
    ensures
        split_on(s, c).len() >= 1,
    decreases s.len(),
{
    if s.len() > 0 {
        lemma_split_nonempty(s.drop_last(), c);
    }
}

pub open spec fn deep_view(v: Seq<Vec<char>>) -> Seq<Seq<char>> {
    v.map_values(|x: Vec<char>| x@)
}

/// The pieces of `s` between the `c`s.
pub fn split_chars(s: &Vec<char>, c: char) -> (r: Vec<Vec<char>>)
    ensures
        deep_view(r@) == split_on(s@, c),
{
    let mut done: Vec<Vec<char>> = Vec::new();
    let mut cur: Vec<char> = Vec::new();
    let mut i: usize = 0;
    assert(s@.take(0) =~= Seq::<char>::empty());
    while i < s.len()
        invariant
            i <= s.len(),
            deep_view(done@).push(cur@) == split_on(s@.take(i as int), c),
        decreases s.len() - i,
    {
        let ghost q = s@.take(i + 1);
        assert(q.drop_last() =~= s@.take(i as int));
        proof {
            lemma_split_nonempty(s@.take(i as int), c);
        }
        if s[i] == c {
            let ghost before = done@;
            let finished = cur;
            done.push(finished);
            cur = Vec::new();
            assert(deep_view(done@) =~= deep_view(before).push(finished@));
            assert(deep_view(done@).push(cur@) =~= split_on(q, c));
        } else {
            let ghost p = deep_view(done@).push(cur@);
            cur.push(s[i]);
            assert(deep_view(done@).push(cur@) =~= p.update(p.len() - 1, p.last().push(s@[i as int])));
        }
        i = i + 1;
    }
    assert(s@.take(s.len() as int) =~= s@);
    let ghost before = done@;
    let last = cur;
    done.push(last);
    assert(deep_view(done@) =~= deep_view(before).push(last@));
    done
}

/// What `str::to_lowercase` gives for a text.
pub uninterp spec fn lowercase(s: Seq<char>) -> Seq<char>;

/// Relies on `str::to_lowercase`: the Unicode lower-case mapping of the text,
/// a function of its characters alone.
#[verifier::external_body]
pub(crate) fn to_lowercase(s: &str) -> (r: String)
    ensures
        r@ == lowercase(s@),
{
    s.to_lowercase()
}

} // verus!
