//! Verified text utilities: substring search, trimming, replacement,
//! concatenation and decimal formatting, shared by the metadata parser,
//! the directory scraper and the station search.

use vstd::prelude::*;

verus! {

/// The needle `n` occurs in `h` starting at position `i`.
pub open spec fn matches_at(h: Seq<char>, n: Seq<char>, i: int) -> bool {
    &&& 0 <= i
    &&& i + n.len() <= h.len()
    &&& forall|j: int| 0 <= j < n.len() ==> h[i + j] == #[trigger] n[j]
}

/// Position of the first occurrence of `n` in `h` at or after `i`.
pub open spec fn find_from(h: Seq<char>, n: Seq<char>, i: int) -> Option<int>
    decreases h.len() - i,
{
    if i < 0 || i + n.len() > h.len() {
        None
    } else if matches_at(h, n, i) {
        Some(i)
    } else {
        find_from(h, n, i + 1)
    }
}

/// Position of the first occurrence of `n` in `h`, if any.
pub open spec fn spec_find(h: Seq<char>, n: Seq<char>) -> Option<int> {
    find_from(h, n, 0)
}

/// `find_from` returns the first match at or after `i`, and `None`
/// exactly when there is none.
pub proof fn lemma_find_from_spec(h: Seq<char>, n: Seq<char>, i: int)
    requires
        0 <= i,
    ensures
        find_from(h, n, i) matches Some(j) ==> i <= j && matches_at(h, n, j) && forall|k: int|
            i <= k < j ==> !matches_at(h, n, k),
        find_from(h, n, i) is None ==> forall|k: int| k >= i ==> !matches_at(h, n, k),
    decreases h.len() - i,
{
    if i + n.len() > h.len() {
        assert forall|k: int| k >= i implies !matches_at(h, n, k) by {}
    } else if matches_at(h, n, i) {
    } else {
        lemma_find_from_spec(h, n, i + 1);
    }
}

/// Whether `n` occurs in `h` anywhere at or after position `i`.
pub proof fn lemma_find_some_bounds(h: Seq<char>, n: Seq<char>)
    ensures
        spec_find(h, n) matches Some(j) ==> 0 <= j && j + n.len() <= h.len() && matches_at(
            h,
            n,
            j,
        ),
{
    lemma_find_from_spec(h, n, 0);
}

/// Restricting the haystack to a window shifts match positions by the
/// window's start.
pub proof fn lemma_matches_shift(c: Seq<char>, a: int, b: int, m: Seq<char>, q: int)
    requires
        0 <= a <= b <= c.len(),
    ensures
        matches_at(c.subrange(a, b), m, q) <==> (0 <= q && q + m.len() <= b - a && matches_at(
            c,
            m,
            a + q,
        )),
{
    let w = c.subrange(a, b);
    if 0 <= q && q + m.len() <= b - a {
        if matches_at(w, m, q) {
            assert forall|j: int| 0 <= j < m.len() implies c[a + q + j] == #[trigger] m[j] by {
                assert(w[q + j] == m[j]);
            }
        }
        if matches_at(c, m, a + q) {
            assert forall|j: int| 0 <= j < m.len() implies w[q + j] == #[trigger] m[j] by {
                assert(c[a + q + j] == m[j]);
            }
        }
    }
}

/// A match with no earlier match is what the search finds.
pub proof fn lemma_find_exact(c: Seq<char>, m: Seq<char>, k: int)
    requires
        matches_at(c, m, k),
        forall|p: int| 0 <= p < k ==> !matches_at(c, m, p),
    ensures
        spec_find(c, m) == Some(k),
{
    lemma_find_from_spec(c, m, 0);
    match spec_find(c, m) {
        Some(j) => {
            if j < k {
                assert(matches_at(c, m, j));
                assert(false);
            }
            if j > k {
                assert(!matches_at(c, m, k));
                assert(false);
            }
        },
        None => {
            assert(!matches_at(c, m, k));
            assert(false);
        },
    }
}

/// Without any match there is nothing to find.
pub proof fn lemma_find_none(c: Seq<char>, m: Seq<char>)
    requires
        forall|p: int| !matches_at(c, m, p),
    ensures
        spec_find(c, m) is None,
{
    lemma_find_from_spec(c, m, 0);
    match spec_find(c, m) {
        Some(j) => {
            assert(matches_at(c, m, j));
            assert(false);
        },
        None => {},
    }
}

/// Checks whether the needle occurs at the given position.
fn match_at(h: &str, n: &str, i: usize) -> (b: bool)
    requires
        i + n@.len() <= h@.len(),
        h@.len() <= usize::MAX,
    ensures
        b == matches_at(h@, n@, i as int),
{
    let nl = n.unicode_len();
    let mut j: usize = 0;
    while j < nl
        invariant
            j <= nl,
            nl == n@.len(),
            i + nl <= h@.len(),
            h@.len() <= usize::MAX,
            forall|k: int| 0 <= k < j ==> h@[i + k] == #[trigger] n@[k],
        decreases nl - j,
    {
        if h.get_char(i + j) != n.get_char(j) {
            assert(!matches_at(h@, n@, i as int));
            return false;
        }
        j = j + 1;
    }
    true
}

/// First occurrence of `n` in `h`, as a character position.
pub fn find_sub(h: &str, n: &str) -> (r: Option<usize>)
    ensures
        r matches Some(i) ==> spec_find(h@, n@) == Some(i as int) && matches_at(h@, n@, i as int),
        r is None ==> spec_find(h@, n@) is None,
        h@.len() <= usize::MAX,
{
    let hl = h.unicode_len();
    let nl = n.unicode_len();
    if nl > hl {
        return None;
    }
    if nl == 0 {
        assert(matches_at(h@, n@, 0));
        return Some(0);
    }
    let mut i: usize = 0;
    while i <= hl - nl
        invariant
            1 <= nl <= hl,
            hl == h@.len(),
            nl == n@.len(),
            i <= hl - nl + 1,
            find_from(h@, n@, 0) == find_from(h@, n@, i as int),
        decreases hl - nl - i + 1,
    {
        if match_at(h, n, i) {
            return Some(i);
        }
        i = i + 1;
    }
    None
}

/// First occurrence of `n` in `h` at or after position `start`.
pub fn find_from_sub(h: &str, n: &str, start: usize) -> (r: Option<usize>)
    ensures
        r matches Some(i) ==> start <= i && find_from(h@, n@, start as int) == Some(i as int)
            && matches_at(h@, n@, i as int),
        r is None ==> find_from(h@, n@, start as int) is None,
        h@.len() <= usize::MAX,
{
    let hl = h.unicode_len();
    let nl = n.unicode_len();
    if nl > hl || start > hl - nl {
        return None;
    }
    if nl == 0 {
        assert(matches_at(h@, n@, start as int));
        return Some(start);
    }
    let mut i: usize = start;
    while i <= hl - nl
        invariant
            1 <= nl <= hl,
            hl == h@.len(),
            nl == n@.len(),
            start <= i <= hl - nl + 1,
            find_from(h@, n@, start as int) == find_from(h@, n@, i as int),
        decreases hl - nl - i + 1,
    {
        if match_at(h, n, i) {
            return Some(i);
        }
        i = i + 1;
    }
    None
}

/// Last occurrence of `n` in `h`.
pub fn rfind_sub(h: &str, n: &str) -> (r: Option<usize>)
    ensures
        r matches Some(i) ==> matches_at(h@, n@, i as int) && (forall|k: int| k > i
            ==> !matches_at(h@, n@, k)),
        r is None ==> forall|k: int| !matches_at(h@, n@, k),
{
    let hl = h.unicode_len();
    let nl = n.unicode_len();
    if nl > hl {
        return None;
    }
    if nl == 0 {
        assert(matches_at(h@, n@, hl as int));
        return Some(hl);
    }
    let mut last: Option<usize> = None;
    let mut i: usize = 0;
    while i <= hl - nl
        invariant
            1 <= nl <= hl,
            hl == h@.len(),
            nl == n@.len(),
            i <= hl - nl + 1,
            h@.len() <= usize::MAX,
            last matches Some(j) ==> j < i && matches_at(h@, n@, j as int) && (forall|k: int|
                j < k < i ==> !matches_at(h@, n@, k)),
            last is None ==> forall|k: int| 0 <= k < i ==> !matches_at(h@, n@, k),
        decreases hl - nl - i + 1,
    {
        if match_at(h, n, i) {
            last = Some(i);
        }
        i = i + 1;
    }
    last
}

/// Whether two pieces of text hold the same characters.
pub fn str_eq(a: &str, b: &str) -> (r: bool)
    ensures
        r == (a@ == b@),
{
    let al = a.unicode_len();
    let bl = b.unicode_len();
    if al != bl {
        return false;
    }
    let m = match_at(a, b, 0);
    proof {
        if m {
            assert forall|j: int| 0 <= j < a@.len() implies a@[j] == b@[j] by {
                assert(a@[0 + j] == b@[j]);
            }
            assert(a@ =~= b@);
        }
        if a@ == b@ {
            assert(matches_at(a@, b@, 0));
        }
    }
    m
}

/// Relies on String::push: appends one character to the string.
#[verifier::external_body]
pub fn push_char(s: &mut String, c: char)
    ensures
        final(s)@ == old(s)@.push(c),
{
    s.push(c);
}

/// The ten decimal digit characters.
pub open spec fn is_digit_char(c: char) -> bool {
    48 <= c as u32 <= 57
}

pub fn is_digit(c: char) -> (b: bool)
    ensures
        b == is_digit_char(c),
{
    let u = c as u32;
    48 <= u && u <= 57
}

/// Whether `n` occurs anywhere in `h`.
pub fn contains_sub(h: &str, n: &str) -> (b: bool)
    ensures
        b == (spec_find(h@, n@) is Some),
{
    find_sub(h, n).is_some()
}

/// Whether `s` begins with `p`.
pub fn starts_with_sub(s: &str, p: &str) -> (b: bool)
    ensures
        b == matches_at(s@, p@, 0),
        s@.len() <= usize::MAX,
{
    let sl = s.unicode_len();
    let pl = p.unicode_len();
    if pl > sl {
        return false;
    }
    match_at(s, p, 0)
}

/// The concatenation of two pieces of text.
pub fn concat_str(a: &str, b: &str) -> (r: String)
    ensures
        r@ == a@ + b@,
{
    let mut s = String::from_str(a);
    s.append(b);
    s
}

/// The six characters the trimming and whitespace-folding rules treat
/// as blank.
pub open spec fn is_space_char(c: char) -> bool {
    c == ' ' || c == '\t' || c == '\n' || c == '\r' || c == '\u{000C}' || c == '\u{000B}'
}

pub fn is_space(c: char) -> (b: bool)
    ensures
        b == is_space_char(c),
{
    c == ' ' || c == '\t' || c == '\n' || c == '\r' || c == '\u{000C}' || c == '\u{000B}'
}

/// `s` without its leading blanks.
pub open spec fn trim_left(s: Seq<char>) -> Seq<char>
    decreases s.len(),
{
    if s.len() > 0 && is_space_char(s[0]) {
        trim_left(s.drop_first())
    } else {
        s
    }
}

/// `s` without its trailing blanks.
pub open spec fn trim_right(s: Seq<char>) -> Seq<char>
    decreases s.len(),
{
    if s.len() > 0 && is_space_char(s.last()) {
        trim_right(s.drop_last())
    } else {
        s
    }
}

/// `s` without leading and trailing blanks.
pub open spec fn spec_trim(s: Seq<char>) -> Seq<char> {
    trim_right(trim_left(s))
}

proof fn lemma_trim_left_index(s: Seq<char>, a: int)
    requires
        0 <= a <= s.len(),
        forall|k: int| 0 <= k < a ==> is_space_char(#[trigger] s[k]),
        a < s.len() ==> !is_space_char(s[a]),
    ensures
        trim_left(s) == s.subrange(a, s.len() as int),
    decreases a,
{
    if a == 0 {
        assert(trim_left(s) =~= s.subrange(0, s.len() as int)) by {
            if s.len() > 0 && is_space_char(s[0]) {
            } else {
                assert(s =~= s.subrange(0, s.len() as int));
            }
        }
    } else {
        let t = s.drop_first();
        assert(forall|k: int| 0 <= k < a - 1 ==> is_space_char(#[trigger] t[k]));
        lemma_trim_left_index(t, a - 1);
        assert(t.subrange(a - 1, t.len() as int) =~= s.subrange(a, s.len() as int));
    }
}

proof fn lemma_trim_right_index(s: Seq<char>, b: int)
    requires
        0 <= b <= s.len(),
        forall|k: int| b <= k < s.len() ==> is_space_char(#[trigger] s[k]),
        b > 0 ==> !is_space_char(s[b - 1]),
    ensures
        trim_right(s) == s.subrange(0, b),
    decreases s.len(),
{
    if b == s.len() {
        if s.len() > 0 && is_space_char(s.last()) {
            assert(false);
        } else {
            assert(trim_right(s) =~= s.subrange(0, b));
        }
    } else {
        let t = s.drop_last();
        lemma_trim_right_index(t, b);
        assert(t.subrange(0, b) =~= s.subrange(0, b));
    }
}

/// Trimming a run of blanks leaves nothing.
pub proof fn lemma_trim_all_space(s: Seq<char>)
    requires
        forall|k: int| 0 <= k < s.len() ==> is_space_char(#[trigger] s[k]),
    ensures
        spec_trim(s).len() == 0,
    decreases s.len(),
{
    if s.len() > 0 {
        let t = s.drop_first();
        assert(forall|k: int| 0 <= k < t.len() ==> is_space_char(#[trigger] t[k]));
        lemma_trim_all_space(t);
    }
}

/// `s` with its surrounding blanks removed.
pub fn trim_str(s: &str) -> (r: String)
    ensures
        r@ == spec_trim(s@),
{
    let len = s.unicode_len();
    let mut a: usize = 0;
    while a < len && is_space(s.get_char(a))
        invariant
            a <= len,
            len == s@.len(),
            forall|k: int| 0 <= k < a ==> is_space_char(#[trigger] s@[k]),
        decreases len - a,
    {
        a = a + 1;
    }
    proof {
        lemma_trim_left_index(s@, a as int);
    }
    if a == len {
        proof {
            assert(trim_left(s@) =~= Seq::<char>::empty());
            assert(trim_right(Seq::<char>::empty()) =~= Seq::<char>::empty());
        }
        return String::new();
    }
    let mut b: usize = len;
    while b > a && is_space(s.get_char(b - 1))
        invariant
            a <= b <= len,
            len == s@.len(),
            a < len,
            !is_space_char(s@[a as int]),
            forall|k: int| b <= k < len ==> is_space_char(#[trigger] s@[k]),
        decreases b,
    {
        b = b - 1;
    }
    let piece = s.substring_char(a, b);
    proof {
        let t = trim_left(s@);
        assert(t == s@.subrange(a as int, len as int));
        assert(forall|k: int| b - a <= k < t.len() ==> is_space_char(#[trigger] t[k]));
        assert(!is_space_char(t[(b - a) - 1]));
        lemma_trim_right_index(t, b - a);
        assert(t.subrange(0, b - a) =~= s@.subrange(a as int, b as int));
    }
    String::from_str(piece)
}

/// `s` with every occurrence of `from` replaced by `to`, scanning left
/// to right; the replacement text itself is not rescanned.
pub open spec fn spec_replace(s: Seq<char>, from: Seq<char>, to: Seq<char>) -> Seq<char>
    decreases s.len(),
    when from.len() > 0
{
    match spec_find(s, from) {
        Some(i) => {
            if 0 <= i && i + from.len() <= s.len() {
                s.subrange(0, i) + to + spec_replace(
                    s.subrange(i + from.len(), s.len() as int),
                    from,
                    to,
                )
            } else {
                s
            }
        },
        None => s,
    }
}

/// `s` with every occurrence of `from` replaced by `to`.
pub fn replace_all(s: &str, from: &str, to: &str) -> (r: String)
    requires
        from@.len() > 0,
    ensures
        r@ == spec_replace(s@, from@, to@),
    decreases s@.len(),
{
    match find_sub(s, from) {
        Some(i) => {
            let sl = s.unicode_len();
            let fl = from.unicode_len();
            let head = s.substring_char(0, i);
            let tail = s.substring_char(i + fl, sl);
            let rest = replace_all(tail, from, to);
            let mut out = String::from_str(head);
            out.append(to);
            out.append(rest.as_str());
            proof {
                assert(out@ =~= s@.subrange(0, i as int) + to@ + spec_replace(
                    s@.subrange(i + from@.len(), s@.len() as int),
                    from@,
                    to@,
                ));
            }
            out
        },
        None => String::from_str(s),
    }
}

/// The decimal digit character for `d`.
pub open spec fn dec_digit(d: int) -> char {
    if d == 0 {
        '0'
    } else if d == 1 {
        '1'
    } else if d == 2 {
        '2'
    } else if d == 3 {
        '3'
    } else if d == 4 {
        '4'
    } else if d == 5 {
        '5'
    } else if d == 6 {
        '6'
    } else if d == 7 {
        '7'
    } else if d == 8 {
        '8'
    } else {
        '9'
    }
}

/// The decimal digits of `n`, most significant first.
pub open spec fn spec_dec(n: int) -> Seq<char>
    decreases n,
{
    if n < 10 {
        seq![dec_digit(n)]
    } else {
        spec_dec(n / 10) + seq![dec_digit(n % 10)]
    }
}

fn digit_str(d: u64) -> (r: &'static str)
    requires
        d < 10,
    ensures
        r@ =~= seq![dec_digit(d as int)],
{
    proof {
        reveal_strlit("0");
        reveal_strlit("1");
        reveal_strlit("2");
        reveal_strlit("3");
        reveal_strlit("4");
        reveal_strlit("5");
        reveal_strlit("6");
        reveal_strlit("7");
        reveal_strlit("8");
        reveal_strlit("9");
    }
    match d {
        0 => "0",
        1 => "1",
        2 => "2",
        3 => "3",
        4 => "4",
        5 => "5",
        6 => "6",
        7 => "7",
        8 => "8",
        _ => "9",
    }
}

/// `n` written in decimal.
pub fn to_dec_string(n: u64) -> (r: String)
    ensures
        r@ == spec_dec(n as int),
    decreases n,
{
    if n < 10 {
        String::from_str(digit_str(n))
    } else {
        let mut s = to_dec_string(n / 10);
        s.append(digit_str(n % 10));
        proof {
            assert(s@ =~= spec_dec(n as int));
        }
        s
    }
}

/// The lowercase form of a piece of text, as the standard library's
/// case folding computes it from the characters alone.
pub uninterp spec fn lower_of(s: Seq<char>) -> Seq<char>;

/// Relies on str::to_lowercase: the result depends only on the
/// characters of the input, and an empty input stays empty.
#[verifier::external_body]
pub fn to_lowercase_str(s: &str) -> (r: String)
    ensures
        r@ == lower_of(s@),
        s@.len() == 0 ==> r@.len() == 0,
{
    s.to_lowercase()
}

} // verus!
