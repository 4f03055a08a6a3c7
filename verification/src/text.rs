//! Character-level text helpers with exact specifications: prefix tests,
//! Unicode white-space trimming, and splitting at the first occurrence of a
//! character.

use vstd::prelude::*;

verus! {

/// `s` begins with `prefix`.
pub open spec fn has_prefix(s: Seq<char>, prefix: Seq<char>) -> bool {
    prefix.len() <= s.len() && s.subrange(0, prefix.len() as int) == prefix
}

/// Whether `s` starts with `prefix`, compared character by character.
pub fn starts_with(s: &str, prefix: &str) -> (b: bool)
    ensures
        b == has_prefix(s@, prefix@),
{
    let n = prefix.unicode_len();
    let m = s.unicode_len();
    if n > m {
        return false;
    }
    let mut i: usize = 0;
    while i < n
        invariant
            i <= n,
            n <= m,
            n == prefix@.len(),
            m == s@.len(),
            forall|j: int| 0 <= j < i ==> s@[j] == prefix@[j],
        decreases n - i,
    {
        if s.get_char(i) != prefix.get_char(i) {
            assert(s@.subrange(0, n as int)[i as int] != prefix@[i as int]);
            return false;
        }
        i += 1;
    }
    assert(s@.subrange(0, n as int) =~= prefix@);
    true
}

/// The Unicode `White_Space` property, the set of characters that
/// `char::is_whitespace` recognises.
pub open spec fn is_white_space(c: char) -> bool {
    let u = c as u32;
    ||| 0x09 <= u <= 0x0D
    ||| u == 0x20
    ||| u == 0x85
    ||| u == 0xA0
    ||| u == 0x1680
    ||| 0x2000 <= u <= 0x200A
    ||| u == 0x2028
    ||| u == 0x2029
    ||| u == 0x202F
    ||| u == 0x205F
    ||| u == 0x3000
}

/// Whether `c` is a Unicode white-space character.
pub fn is_white_space_char(c: char) -> (b: bool)
    ensures
        b == is_white_space(c),
{
    let u = c as u32;
    (0x09 <= u && u <= 0x0D) || u == 0x20 || u == 0x85 || u == 0xA0 || u == 0x1680 || (0x2000
        <= u && u <= 0x200A) || u == 0x2028 || u == 0x2029 || u == 0x202F || u == 0x205F || u
        == 0x3000
}

/// `s` without its leading white space.
pub open spec fn trim_start_spec(s: Seq<char>) -> Seq<char>
    decreases s.len(),
{
    if s.len() > 0 && is_white_space(s[0]) {
        trim_start_spec(s.drop_first())
    } else {
        s
    }
}

/// `s` without its trailing white space.
pub open spec fn trim_end_spec(s: Seq<char>) -> Seq<char>
    decreases s.len(),
{
    if s.len() > 0 && is_white_space(s.last()) {
        trim_end_spec(s.drop_last())
    } else {
        s
    }
}

/// `s` without leading and trailing white space, as `str::trim` gives it.
pub open spec fn trim_spec(s: Seq<char>) -> Seq<char> {
    trim_end_spec(trim_start_spec(s))
}

/// What `trim_start_spec` removes is white space, and what it keeps is a
/// suffix of `s` that does not start with white space.
pub proof fn lemma_trim_start(s: Seq<char>)
    ensures
        trim_start_spec(s).len() <= s.len(),
        trim_start_spec(s) == s.skip(s.len() - trim_start_spec(s).len()),
        forall|i: int|
            0 <= i < s.len() - trim_start_spec(s).len() ==> is_white_space(#[trigger] s[i]),
        trim_start_spec(s).len() > 0 ==> !is_white_space(trim_start_spec(s)[0]),
    decreases s.len(),
{
    if s.len() > 0 && is_white_space(s[0]) {
        lemma_trim_start(s.drop_first());
        let t = trim_start_spec(s.drop_first());
        assert(s.drop_first().skip(s.drop_first().len() - t.len()) =~= s.skip(s.len() - t.len()));
        assert forall|i: int| 0 <= i < s.len() - t.len() implies is_white_space(#[trigger] s[i]) by {
            if i > 0 {
                assert(s[i] == s.drop_first()[i - 1]);
            }
        }
    } else {
        assert(s.skip(0) =~= s);
    }
}

/// What `trim_end_spec` removes is white space, and what it keeps is a
/// prefix of `s` that does not end with white space.
pub proof fn lemma_trim_end(s: Seq<char>)
    ensures
        trim_end_spec(s).len() <= s.len(),
        trim_end_spec(s) == s.take(trim_end_spec(s).len() as int),
        forall|i: int| trim_end_spec(s).len() <= i < s.len() ==> is_white_space(#[trigger] s[i]),
        trim_end_spec(s).len() > 0 ==> !is_white_space(trim_end_spec(s).last()),
    decreases s.len(),
{
    if s.len() > 0 && is_white_space(s.last()) {
        lemma_trim_end(s.drop_last());
        let t = trim_end_spec(s.drop_last());
        assert(s.drop_last().take(t.len() as int) =~= s.take(t.len() as int));
        assert forall|i: int| t.len() <= i < s.len() implies is_white_space(#[trigger] s[i]) by {
            if i < s.len() - 1 {
                assert(s[i] == s.drop_last()[i]);
            }
        }
    } else {
        assert(s.take(s.len() as int) =~= s);
    }
}

/// `s[a..b]` is what trimming `s` keeps: everything outside it is white
/// space and its ends are not.
pub open spec fn trim_bounds(s: Seq<char>, a: int, b: int) -> bool {
    &&& 0 <= a <= b <= s.len()
    &&& forall|i: int| 0 <= i < a ==> is_white_space(#[trigger] s[i])
    &&& forall|i: int| b <= i < s.len() ==> is_white_space(#[trigger] s[i])
    &&& a < b ==> !is_white_space(s[a]) && !is_white_space(s[b - 1])
}

/// Trimming keeps exactly the part between the first and the last
/// character that is not white space.
pub proof fn lemma_trim_bounds(s: Seq<char>, a: int, b: int)
    requires
        trim_bounds(s, a, b),
    ensures
        trim_spec(s) == s.subrange(a, b),
{
    lemma_trim_start(s);
    let t = trim_start_spec(s);
    let k = s.len() - t.len();
    // the start index is pinned down by the white space around it
    if a < b {
        if k < a {
            assert(!is_white_space(t[0]));
            assert(t[0] == s[k]);
        }
        if a < k {
            assert(is_white_space(s[a]));
        }
    } else {
        if k < s.len() {
            assert(!is_white_space(t[0]));
            assert(t[0] == s[k]);
            if k < a {
            } else {
                assert(is_white_space(s[k]));
            }
        }
    }
    lemma_trim_end(t);
    let r = trim_end_spec(t);
    if a < b {
        assert(k == a);
        let e = a + r.len();
        if r.len() > 0 {
            assert(r.last() == s[e - 1]);
            if e > b {
                assert(is_white_space(s[e - 1]));
            }
        }
        if e < b {
            assert(t[b - 1 - a] == s[b - 1]);
            assert(is_white_space(t[b - 1 - a]));
        }
        assert(e == b);
        assert(r =~= s.subrange(a, b));
    } else {
        if r.len() > 0 {
            assert(r[0] == t[0]);
            assert(t[0] == s[k]);
            if k < a {
                assert(is_white_space(s[k]));
            } else {
                assert(is_white_space(s[k]));
            }
        }
        assert(r =~= s.subrange(a, b));
    }
}

/// Trimming twice is trimming once: what trimming keeps neither starts nor
/// ends with white space.
pub proof fn law_trim_idempotent(s: Seq<char>)
    ensures
        trim_spec(trim_spec(s)) == trim_spec(s),
        trim_spec(s).len() > 0 ==> !is_white_space(trim_spec(s)[0]) && !is_white_space(
            trim_spec(s).last(),
        ),
{
    lemma_trim_start(s);
    let u = trim_start_spec(s);
    lemma_trim_end(u);
    let r = trim_end_spec(u);
    if r.len() > 0 {
        assert(r[0] == u[0]);
    }
    assert(trim_start_spec(r) == r);
    assert(trim_end_spec(r) == r);
}

/// Trimming keeps something whenever `s` holds a character that is not
/// white space.
pub proof fn lemma_trim_nonempty(s: Seq<char>, i: int)
    requires
        0 <= i < s.len(),
        !is_white_space(s[i]),
    ensures
        trim_spec(s).len() > 0,
{
    lemma_trim_start(s);
    let t = trim_start_spec(s);
    if t.len() == 0 {
        assert(is_white_space(s[i]));
    }
    lemma_trim_end(t);
    if trim_end_spec(t).len() == 0 {
        assert(is_white_space(t[0]));
    }
}

/// Every character of `w` is white space.
pub open spec fn all_white_space(w: Seq<char>) -> bool {
    forall|i: int| 0 <= i < w.len() ==> is_white_space(#[trigger] w[i])
}

/// `s` neither starts nor ends with white space.
pub open spec fn edges_not_white_space(s: Seq<char>) -> bool {
    s.len() > 0 ==> !is_white_space(s[0]) && !is_white_space(s.last())
}

/// Trimming text that is padded with white space gives back the text.
pub proof fn lemma_trim_padded(w1: Seq<char>, t: Seq<char>, w2: Seq<char>)
    requires
        all_white_space(w1),
        all_white_space(w2),
        edges_not_white_space(t),
    ensures
        trim_spec(w1 + t + w2) == t,
{
    let s = w1 + t + w2;
    let a = w1.len() as int;
    let b = a + t.len();
    assert forall|i: int| 0 <= i < a implies is_white_space(#[trigger] s[i]) by {
        assert(s[i] == w1[i]);
    }
    assert forall|i: int| b <= i < s.len() implies is_white_space(#[trigger] s[i]) by {
        assert(s[i] == w2[i - b]);
    }
    if a < b {
        assert(s[a] == t[0]);
        assert(s[b - 1] == t.last());
    }
    lemma_trim_bounds(s, a, b);
    assert(s.subrange(a, b) =~= t);
}

/// `s` with leading and trailing Unicode white space removed.
pub fn trim(s: &str) -> (t: String)
    ensures
        t@ == trim_spec(s@),
{
    let n = s.unicode_len();
    let mut a: usize = 0;
    while a < n && is_white_space_char(s.get_char(a))
        invariant
            a <= n,
            n == s@.len(),
            forall|i: int| 0 <= i < a ==> is_white_space(#[trigger] s@[i]),
        decreases n - a,
    {
        a += 1;
    }
    let mut b: usize = n;
    while b > a && is_white_space_char(s.get_char(b - 1))
        invariant
            a <= b <= n,
            n == s@.len(),
            forall|i: int| 0 <= i < a ==> is_white_space(#[trigger] s@[i]),
            forall|i: int| b <= i < n ==> is_white_space(#[trigger] s@[i]),
            a < n ==> !is_white_space(s@[a as int]),
        decreases b - a,
    {
        b -= 1;
    }
    proof {
        lemma_trim_bounds(s@, a as int, b as int);
    }
    let part = s.substring_char(a, b);
    String::from_str(part)
}

/// `i` is the position of the first `c` in `s`.
pub open spec fn is_first_occurrence(s: Seq<char>, c: char, i: int) -> bool {
    &&& 0 <= i < s.len()
    &&& s[i] == c
    &&& forall|j: int| 0 <= j < i ==> s[j] != c
}

/// `s` split around the first `c`, as `str::split_once` with a character
/// pattern gives it: `None` when `c` does not occur.
pub open spec fn split_once_spec(s: Seq<char>, c: char) -> Option<(Seq<char>, Seq<char>)> {
    if exists|i: int| is_first_occurrence(s, c, i) {
        let i = choose|i: int| is_first_occurrence(s, c, i);
        Some((s.take(i), s.skip(i + 1)))
    } else {
        None
    }
}

/// A first occurrence is unique.
pub proof fn lemma_first_occurrence_unique(s: Seq<char>, c: char, i: int, j: int)
    requires
        is_first_occurrence(s, c, i),
        is_first_occurrence(s, c, j),
    ensures
        i == j,
{
    if i < j {
        assert(s[i] == c);
    }
    if j < i {
        assert(s[j] == c);
    }
}

/// The text before and after the first `c` in `s`, or `None` when `s` holds
/// no `c`.
pub fn split_once(s: &str, c: char) -> (r: Option<(String, String)>)
    ensures
        match r {
            Some((a, b)) => split_once_spec(s@, c) == Some((a@, b@)),
            None => split_once_spec(s@, c) is None,
        },
{
    let n = s.unicode_len();
    let mut i: usize = 0;
    while i < n
        invariant
            i <= n,
            n == s@.len(),
            forall|j: int| 0 <= j < i ==> s@[j] != c,
        decreases n - i,
    {
        if s.get_char(i) == c {
            proof {
                assert(is_first_occurrence(s@, c, i as int));
                let k = choose|k: int| is_first_occurrence(s@, c, k);
                lemma_first_occurrence_unique(s@, c, i as int, k);
            }
            let before = String::from_str(s.substring_char(0, i));
            let after = String::from_str(s.substring_char(i + 1, n));
            proof {
                assert(s@.subrange(0, i as int) =~= s@.take(i as int));
                assert(s@.subrange(i + 1, n as int) =~= s@.skip(i + 1));
            }
            return Some((before, after));
        }
        i += 1;
    }
    proof {
        assert forall|k: int| !is_first_occurrence(s@, c, k) by {
            if 0 <= k < n {
                assert(s@[k] != c);
            }
        }
    }
    None
}

/// Whether `a` and `b` hold the same characters.
pub fn same_text(a: &str, b: &str) -> (r: bool)
    ensures
        r == (a@ == b@),
{
    let same = a.unicode_len() == b.unicode_len() && starts_with(a, b);
    proof {
        assert(a@.subrange(0, a@.len() as int) =~= a@);
    }
    same
}

/// `a` followed by `b`.
pub fn concat2(a: &str, b: &str) -> (r: String)
    ensures
        r@ == a@ + b@,
{
    let mut r = String::from_str(a);
    r.append(b);
    r
}

/// `a`, `b` and `c`, one after the other.
pub fn concat3(a: &str, b: &str, c: &str) -> (r: String)
    ensures
        r@ == a@ + b@ + c@,
{
    let mut r = String::from_str(a);
    r.append(b);
    r.append(c);
    r
}

/// The texts of `parts` one after the other, with `sep` between each two.
pub open spec fn join_spec(parts: Seq<Seq<char>>, sep: Seq<char>) -> Seq<char>
    decreases parts.len(),
{
    if parts.len() == 0 {
        Seq::empty()
    } else if parts.len() == 1 {
        parts[0]
    } else {
        join_spec(parts.drop_last(), sep) + sep + parts.last()
    }
}

/// `t` occurs in `s` as a run of consecutive characters.
pub open spec fn occurs_in(t: Seq<char>, s: Seq<char>) -> bool {
    exists|off: int| 0 <= off && off + t.len() <= s.len() && #[trigger] s.subrange(off, off + t.len()) == t
}

/// Each part occurs in the joined text.
pub proof fn lemma_join_contains_parts(parts: Seq<Seq<char>>, sep: Seq<char>, i: int)
    requires
        0 <= i < parts.len(),
    ensures
        occurs_in(parts[i], join_spec(parts, sep)),
    decreases parts.len(),
{
    let j = join_spec(parts, sep);
    let t = parts[i];
    if parts.len() == 1 {
        let off: int = 0;
        assert(j.subrange(off, off + t.len()) =~= t);
    } else if i == parts.len() - 1 {
        let off: int = (join_spec(parts.drop_last(), sep) + sep).len() as int;
        assert(j.subrange(off, off + t.len()) =~= t);
    } else {
        lemma_join_contains_parts(parts.drop_last(), sep, i);
        let front = join_spec(parts.drop_last(), sep);
        assert(parts.drop_last()[i] == t);
        let off = choose|off: int|
            0 <= off && off + t.len() <= front.len() && #[trigger] front.subrange(off, off + t.len()) == t;
        assert(j.subrange(off, off + t.len()) =~= front.subrange(off, off + t.len()));
    }
}

/// The contents of a list of texts.
pub open spec fn texts_view(v: Seq<String>) -> Seq<Seq<char>> {
    v.map_values(|s: String| s@)
}

/// The texts of `parts` one after the other, with `sep` between each two.
pub fn join(parts: &Vec<String>, sep: &str) -> (r: String)
    ensures
        r@ == join_spec(texts_view(parts@), sep@),
{
    let n = parts.len();
    let mut r = String::new();
    let mut i: usize = 0;
    while i < n
        invariant
            i <= n,
            n == parts@.len(),
            r@ == join_spec(texts_view(parts@).take(i as int), sep@),
        decreases n - i,
    {
        proof {
            assert(texts_view(parts@).take(i + 1).drop_last() =~= texts_view(parts@).take(i as int));
        }
        if i > 0 {
            r.append(sep);
        } else {
            proof {
                assert(texts_view(parts@).take(0) =~= Seq::<Seq<char>>::empty());
            }
        }
        r.append(parts[i].as_str());
        proof {
            assert(texts_view(parts@).take(i + 1)[i as int] == parts@[i as int]@);
            if i == 0 {
                assert(r@ =~= parts@[0]@);
            }
        }
        i += 1;
    }
    proof {
        assert(texts_view(parts@).take(n as int) =~= texts_view(parts@));
    }
    r
}

/// The decimal digit for `d`, which is below ten.
pub open spec fn digit_spec(d: int) -> char {
    if d == 0 { '0' } else if d == 1 { '1' } else if d == 2 { '2' } else if d == 3 { '3' }
    else if d == 4 { '4' } else if d == 5 { '5' } else if d == 6 { '6' } else if d == 7 { '7' }
    else if d == 8 { '8' } else { '9' }
}

/// The decimal text of `n`, without leading zeros.
pub open spec fn nat_text_spec(n: nat) -> Seq<char>
    decreases n,
{
    if n < 10 {
        seq![digit_spec(n as int)]
    } else {
        nat_text_spec(n / 10).push(digit_spec((n % 10) as int))
    }
}

/// The decimal text of `i`, with a leading `-` when it is negative, as
/// integers are displayed.
pub open spec fn int_text_spec(i: int) -> Seq<char> {
    if i < 0 {
        seq!['-'] + nat_text_spec((-i) as nat)
    } else {
        nat_text_spec(i as nat)
    }
}

fn digit_text(d: u64) -> (s: &'static str)
    requires
        d < 10,
    ensures
        s@ == seq![digit_spec(d as int)],
{
    proof {
        reveal_strlit("0");
        reveal_strlit("1");
        reveal_strlit("2");
        reveal_strlit("3");
        reveal_strlit("4");
        reveal_strlit("5");
        reveal_strlit("6");
        reveal_strlit("7");
        reveal_strlit("8");
        reveal_strlit("9");
    }
    let s = if d == 0 { "0" } else if d == 1 { "1" } else if d == 2 { "2" } else if d == 3 { "3" }
        else if d == 4 { "4" } else if d == 5 { "5" } else if d == 6 { "6" } else if d == 7 { "7" }
        else if d == 8 { "8" } else { "9" };
    assert(s@ =~= seq![digit_spec(d as int)]);
    s
}

/// The decimal text of `n`.
pub fn nat_text(n: u64) -> (s: String)
    ensures
        s@ == nat_text_spec(n as nat),
    decreases n,
{
    if n < 10 {
        String::from_str(digit_text(n))
    } else {
        let mut s = nat_text(n / 10);
        s.append(digit_text(n % 10));
        proof {
            assert(s@ =~= nat_text_spec((n / 10) as nat).push(digit_spec((n % 10) as int)));
        }
        s
    }
}

/// The decimal text of `i`, as `i32`'s `Display` writes it.
pub fn int_text(i: i32) -> (s: String)
    ensures
        s@ == int_text_spec(i as int),
{
    if i < 0 {
        let magnitude: u64 = (0i64 - (i as i64)) as u64;
        proof {
            reveal_strlit("-");
            assert(magnitude == -(i as int));
        }
        concat2("-", nat_text(magnitude).as_str())
    } else {
        nat_text(i as u64)
    }
}

} // verus!
