//! Character-level helpers on which the rest of the crate builds its text
//! handling. Every function is stated over the `Seq<char>` view of its input.

use vstd::prelude::*;
use vstd::string::*;

verus! {

/// Characters with the Unicode `White_Space` property.
pub open spec fn is_space(c: char) -> bool {
    let n = c as u32;
    ||| 0x09 <= n <= 0x0D
    ||| n == 0x20
    ||| n == 0x85
    ||| n == 0xA0
    ||| n == 0x1680
    ||| 0x2000 <= n <= 0x200A
    ||| n == 0x2028
    ||| n == 0x2029
    ||| n == 0x202F
    ||| n == 0x205F
    ||| n == 0x3000
}

/// `c` folded to lower case if it is an ASCII capital, `c` itself otherwise.
pub open spec fn ascii_lower(c: char) -> char {
    if 'A' as u32 <= c as u32 <= 'Z' as u32 {
        ((c as u32 + 32) as u8) as char
    } else {
        c
    }
}

/// `s` with every ASCII capital folded to lower case.
pub open spec fn ascii_lowered(s: Seq<char>) -> Seq<char> {
    Seq::new(s.len(), |i: int| ascii_lower(s[i]))
}

/// `part` is the tail of `whole`.
pub open spec fn is_suffix(whole: Seq<char>, part: Seq<char>) -> bool {
    part.len() <= whole.len() && whole.subrange(whole.len() - part.len(), whole.len() as int)
        == part
}

/// `needle` stands in `hay` at offset `i`.
pub open spec fn occurs_at(hay: Seq<char>, needle: Seq<char>, i: int) -> bool {
    0 <= i && i + needle.len() <= hay.len() && hay.subrange(i, i + needle.len()) == needle
}

/// `needle` stands somewhere in `hay`.
pub open spec fn occurs_in(hay: Seq<char>, needle: Seq<char>) -> bool {
    exists|i: int| occurs_at(hay, needle, i)
}

/// `s` without its leading white space.
pub open spec fn skip_leading(s: Seq<char>) -> Seq<char>
    decreases s.len(),
{
    if s.len() > 0 && is_space(s[0]) {
        skip_leading(s.drop_first())
    } else {
        s
    }
}

/// `s` without its trailing white space.
pub open spec fn skip_trailing(s: Seq<char>) -> Seq<char>
    decreases s.len(),
{
    if s.len() > 0 && is_space(s.last()) {
        skip_trailing(s.drop_last())
    } else {
        s
    }
}

/// `s` without white space at either end.
pub open spec fn trimmed(s: Seq<char>) -> Seq<char> {
    skip_trailing(skip_leading(s))
}

/// Number of characters at the head of `s` that are not white space.
pub open spec fn word_len(s: Seq<char>) -> nat
    decreases s.len(),
{
    if s.len() > 0 && !is_space(s[0]) {
        1 + word_len(s.drop_first())
    } else {
        0
    }
}

/// The maximal runs of characters of `s` that hold no white space, in order.
pub open spec fn words(s: Seq<char>) -> Seq<Seq<char>>
    decreases s.len(),
    via words_decreases
{
    let rest = skip_leading(s);
    if rest.len() == 0 {
        Seq::empty()
    } else {
        seq![rest.subrange(0, word_len(rest) as int)] + words(
            rest.subrange(word_len(rest) as int, rest.len() as int),
        )
    }
}

#[via_fn]
proof fn words_decreases(s: Seq<char>) {
    let rest = skip_leading(s);
    lemma_skip_leading_head(s);
    lemma_word_len(rest);
}

/// Whether `c` is an ASCII digit.
pub open spec fn is_digit(c: char) -> bool {
    '0' as u32 <= c as u32 <= '9' as u32
}

/// Whether `s` holds ASCII digits only.
pub open spec fn all_digits(s: Seq<char>) -> bool {
    forall|i: int| 0 <= i < s.len() ==> is_digit(#[trigger] s[i])
}

/// The number that the decimal digits `s` write.
pub open spec fn digits_value(s: Seq<char>) -> int
    decreases s.len(),
{
    if s.len() == 0 {
        0
    } else {
        digits_value(s.drop_last()) * 10 + (s.last() as u32 - '0' as u32)
    }
}

/// The digits of a signed decimal numeral, its sign taken off.
pub open spec fn numeral_body(s: Seq<char>) -> Seq<char> {
    if s.len() > 0 && (s[0] == '-' || s[0] == '+') {
        s.drop_first()
    } else {
        s
    }
}

/// The `i32` that `s` writes: an optional sign, then one or more ASCII digits,
/// the whole within the range of `i32`.
pub open spec fn parsed_i32(s: Seq<char>) -> Option<i32> {
    let body = numeral_body(s);
    let magnitude = digits_value(body);
    let value = if s.len() > 0 && s[0] == '-' {
        -magnitude
    } else {
        magnitude
    };
    if body.len() > 0 && all_digits(body) && i32::MIN <= value <= i32::MAX {
        Some(value as i32)
    } else {
        None
    }
}

/// The decimal digit for `d`.
pub open spec fn digit_char(d: int) -> char {
    ((d + 48) as u8) as char
}

/// `n` in decimal, without leading zeros.
pub open spec fn nat_text(n: nat) -> Seq<char>
    decreases n,
{
    if n < 10 {
        seq![digit_char(n as int)]
    } else {
        nat_text(n / 10).push(digit_char((n % 10) as int))
    }
}

/// `n` in decimal, with a minus sign if it is negative.
pub open spec fn int_text(n: int) -> Seq<char> {
    if n < 0 {
        seq!['-'] + nat_text((-n) as nat)
    } else {
        nat_text(n as nat)
    }
}

/// The characters of `s`, in order.
pub fn chars_of(s: &str) -> (r: Vec<char>)
    ensures
        r@ == s@,
{
    let mut out: Vec<char> = Vec::new();
    for c in it: s.chars()
        invariant
            out@ == s@.subrange(0, it.index() as int),
            it.seq() == s@,
    {
        out.push(c);
    }
    out
}

/// Whether `c` is white space.
pub fn char_is_space(c: char) -> (r: bool)
    ensures
        r == is_space(c),
{
    let n: u32 = c as u32;
    (0x09 <= n && n <= 0x0D) || n == 0x20 || n == 0x85 || n == 0xA0 || n == 0x1680 || (0x2000 <= n
        && n <= 0x200A) || n == 0x2028 || n == 0x2029 || n == 0x202F || n == 0x205F || n == 0x3000
}

/// `c` with an ASCII capital folded to lower case.
pub fn char_lower(c: char) -> (r: char)
    ensures
        r == ascii_lower(c),
{
    let n: u32 = c as u32;
    if 65 <= n && n <= 90 {
        let m: u8 = (n + 32) as u8;
        m as char
    } else {
        c
    }
}

/// Whether `whole` ends with `part`.
pub fn ends_with(whole: &str, part: &str) -> (r: bool)
    ensures
        r == is_suffix(whole@, part@),
{
    let w = chars_of(whole);
    let p = chars_of(part);
    if p.len() > w.len() {
        return false;
    }
    let shift: usize = w.len() - p.len();
    let mut i: usize = 0;
    while i < p.len()
        invariant
            w@ == whole@,
            p@ == part@,
            shift + p.len() == w.len(),
            i <= p.len(),
            forall|k: int| 0 <= k < i ==> w@[shift + k] == p@[k],
        decreases p.len() - i,
    {
        if w[shift + i] != p[i] {
            assert(w@.subrange(w@.len() - p@.len(), w@.len() as int)[i as int] == w@[shift + i]);
            return false;
        }
        i += 1;
    }
    assert(w@.subrange(w@.len() - p@.len(), w@.len() as int) =~= p@);
    true
}

/// Whether `whole` ends with `part` once its ASCII capitals are folded to
/// lower case.
pub fn ends_with_ignoring_case(whole: &str, part: &str) -> (r: bool)
    ensures
        r == is_suffix(ascii_lowered(whole@), part@),
{
    let w = chars_of(whole);
    let p = chars_of(part);
    if p.len() > w.len() {
        return false;
    }
    let shift: usize = w.len() - p.len();
    let ghost folded = ascii_lowered(w@);
    let mut i: usize = 0;
    while i < p.len()
        invariant
            w@ == whole@,
            p@ == part@,
            shift + p.len() == w.len(),
            i <= p.len(),
            folded == ascii_lowered(w@),
            forall|k: int| 0 <= k < i ==> folded[shift + k] == p@[k],
        decreases p.len() - i,
    {
        if char_lower(w[shift + i]) != p[i] {
            assert(folded.subrange(folded.len() - p@.len(), folded.len() as int)[i as int]
                == folded[shift + i]);
            return false;
        }
        i += 1;
    }
    assert(folded.subrange(folded.len() - p@.len(), folded.len() as int) =~= p@);
    true
}

/// Whether `needle` stands in `hay` at offset `at`.
fn matches_at(hay: &Vec<char>, needle: &Vec<char>, at: usize) -> (r: bool)
    requires
        at + needle.len() <= hay.len(),
    ensures
        r == occurs_at(hay@, needle@, at as int),
{
    let mut k: usize = 0;
    while k < needle.len()
        invariant
            at + needle.len() <= hay.len(),
            k <= needle.len(),
            forall|j: int| 0 <= j < k ==> hay@[at + j] == needle@[j],
        decreases needle.len() - k,
    {
        if hay[at + k] != needle[k] {
            assert(hay@.subrange(at as int, at + needle@.len())[k as int] == hay@[at + k]);
            return false;
        }
        k += 1;
    }
    assert(hay@.subrange(at as int, at + needle@.len()) =~= needle@);
    true
}

/// Whether `needle` stands somewhere in `hay`. The empty `needle` stands in
/// every `hay`.
pub fn contains_text(hay: &str, needle: &str) -> (r: bool)
    ensures
        r == occurs_in(hay@, needle@),
{
    let h = chars_of(hay);
    let n = chars_of(needle);
    if n.len() > h.len() {
        assert(forall|i: int| !occurs_at(h@, n@, i));
        return false;
    }
    let last: usize = h.len() - n.len();
    let mut i: usize = 0;
    loop
        invariant
            h@ == hay@,
            n@ == needle@,
            last + n.len() == h.len(),
            i <= last,
            forall|j: int| 0 <= j < i ==> !occurs_at(h@, n@, j),
        decreases last - i,
    {
        if matches_at(&h, &n, i) {
            return true;
        }
        if i == last {
            assert(forall|j: int| !occurs_at(h@, n@, j));
            return false;
        }
        i += 1;
    }
}

/// `s` without white space at either end.
pub fn trim(s: &str) -> (r: &str)
    ensures
        r@ == trimmed(s@),
{
    let c = chars_of(s);
    let n: usize = c.len();
    let mut a: usize = 0;
    assert(c@.subrange(0, n as int) =~= c@);
    while a < n && char_is_space(c[a])
        invariant
            c@ == s@,
            n == c.len(),
            a <= n,
            skip_leading(c@) == skip_leading(c@.subrange(a as int, n as int)),
        decreases n - a,
    {
        assert(c@.subrange(a as int, n as int).drop_first() =~= c@.subrange(a + 1, n as int));
        a += 1;
    }
    let ghost head = c@.subrange(a as int, n as int);
    assert(skip_leading(c@) == head);
    let mut b: usize = n;
    while b > a && char_is_space(c[b - 1])
        invariant
            c@ == s@,
            n == c.len(),
            a <= b <= n,
            head == c@.subrange(a as int, n as int),
            skip_trailing(head) == skip_trailing(c@.subrange(a as int, b as int)),
        decreases b - a,
    {
        assert(c@.subrange(a as int, b as int).drop_last() =~= c@.subrange(a as int, b - 1));
        b -= 1;
    }
    s.substring_char(a, b)
}

/// Length of the run of characters without white space that starts at `from`.
fn run_len(c: &Vec<char>, from: usize) -> (r: usize)
    requires
        from <= c.len(),
    ensures
        from + r <= c.len(),
        r == word_len(c@.subrange(from as int, c.len() as int)),
{
    let n: usize = c.len();
    let mut e: usize = from;
    while e < n && !char_is_space(c[e])
        invariant
            n == c.len(),
            from <= e <= n,
            word_len(c@.subrange(from as int, n as int)) == (e - from) + word_len(
                c@.subrange(e as int, n as int),
            ),
        decreases n - e,
    {
        assert(c@.subrange(e as int, n as int).drop_first() =~= c@.subrange(e + 1, n as int));
        e += 1;
    }
    e - from
}

/// Number of white-space characters that stand at `from` and after it, up to
/// the next character that is none.
fn gap_len(c: &Vec<char>, from: usize) -> (r: usize)
    requires
        from <= c.len(),
    ensures
        from + r <= c.len(),
        skip_leading(c@.subrange(from as int, c.len() as int)) == c@.subrange(
            from + r,
            c.len() as int,
        ),
{
    let n: usize = c.len();
    let mut e: usize = from;
    while e < n && char_is_space(c[e])
        invariant
            n == c.len(),
            from <= e <= n,
            skip_leading(c@.subrange(from as int, n as int)) == skip_leading(
                c@.subrange(e as int, n as int),
            ),
        decreases n - e,
    {
        assert(c@.subrange(e as int, n as int).drop_first() =~= c@.subrange(e + 1, n as int));
        e += 1;
    }
    e - from
}

/// The runs of characters of `s` between white space, in order.
pub fn split_words(s: &str) -> (r: Vec<String>)
    ensures
        r.deep_view() == words(s@),
{
    let c = chars_of(s);
    let n: usize = c.len();
    let mut out: Vec<String> = Vec::new();
    let mut at: usize = 0;
    assert(c@.subrange(0, n as int) =~= c@);
    loop
        invariant
            c@ == s@,
            n == c.len(),
            at <= n,
            words(c@) == out.deep_view() + words(c@.subrange(at as int, n as int)),
        decreases n - at,
    {
        let ghost rest = c@.subrange(at as int, n as int);
        let gap = gap_len(&c, at);
        let start: usize = at + gap;
        let ghost t = c@.subrange(start as int, n as int);
        if start == n {
            assert(words(rest) =~= Seq::<Seq<char>>::empty());
            assert(out.deep_view() + Seq::<Seq<char>>::empty() =~= out.deep_view());
            return out;
        }
        let len = run_len(&c, start);
        assert(len > 0) by {
            assert(t[0] == c@[start as int]);
            assert(skip_leading(rest) == t);
            lemma_skip_leading_head(rest);
        }
        let word = s.substring_char(start, start + len);
        let ghost before = out.deep_view();
        out.push(String::from_str(word));
        proof {
            assert(t.subrange(0, len as int) =~= c@.subrange(start as int, start + len));
            assert(t.subrange(len as int, t.len() as int) =~= c@.subrange(start + len, n as int));
            assert(words(rest) == seq![t.subrange(0, len as int)] + words(
                t.subrange(len as int, t.len() as int),
            ));
            assert(out.deep_view() =~= before + seq![t.subrange(0, len as int)]);
            assert(before + (seq![t.subrange(0, len as int)] + words(
                c@.subrange(start + len, n as int),
            )) =~= out.deep_view() + words(c@.subrange(start + len, n as int)));
        }
        at = start + len;
    }
}

/// A word is no longer than the text it starts, and not empty where the text
/// starts with a character that is no white space.
pub proof fn lemma_word_len(s: Seq<char>)
    ensures
        word_len(s) <= s.len(),
        s.len() > 0 && !is_space(s[0]) ==> word_len(s) > 0,
    decreases s.len(),
{
    if s.len() > 0 && !is_space(s[0]) {
        lemma_word_len(s.drop_first());
    }
}

/// What is left after leading white space is empty or starts with a character
/// that is no white space.
pub proof fn lemma_skip_leading_head(s: Seq<char>)
    ensures
        skip_leading(s).len() <= s.len(),
        skip_leading(s).len() > 0 ==> !is_space(skip_leading(s)[0]),
    decreases s.len(),
{
    if s.len() > 0 && is_space(s[0]) {
        lemma_skip_leading_head(s.drop_first());
    }
}

/// Appending a digit never lowers the value written.
pub proof fn lemma_digits_value_grows(s: Seq<char>, k: int)
    requires
        all_digits(s),
        0 <= k <= s.len(),
    ensures
        0 <= digits_value(s.subrange(0, k)) <= digits_value(s),
    decreases s.len() - k,
{
    lemma_digits_value_nonneg(s.subrange(0, k));
    if k < s.len() {
        let next = s.subrange(0, k + 1);
        assert(next.drop_last() =~= s.subrange(0, k));
        assert(is_digit(s[k]));
        assert(next.last() == s[k]);
        lemma_digits_value_grows(s, k + 1);
    } else {
        assert(s.subrange(0, k) =~= s);
    }
}

/// Digits write a number that is not negative.
pub proof fn lemma_digits_value_nonneg(s: Seq<char>)
    requires
        all_digits(s),
    ensures
        0 <= digits_value(s),
    decreases s.len(),
{
    if s.len() > 0 {
        assert(is_digit(s.last()));
        lemma_digits_value_nonneg(s.drop_last());
    }
}

/// The `i32` that `s` writes in decimal, if it writes one.
pub fn parse_i32(s: &str) -> (r: Option<i32>)
    ensures
        r == parsed_i32(s@),
{
    let c = chars_of(s);
    let n: usize = c.len();
    if n == 0 {
        return None;
    }
    let negative: bool = c[0] == '-';
    let first: usize = if c[0] == '-' || c[0] == '+' {
        1
    } else {
        0
    };
    let ghost body = numeral_body(c@);
    assert(body =~= c@.subrange(first as int, n as int));
    if first == n {
        return None;
    }
    let limit: i64 = if negative {
        2147483648
    } else {
        2147483647
    };
    let mut acc: i64 = 0;
    let mut i: usize = first;
    assert(body.subrange(0, 0) =~= Seq::<char>::empty());
    while i < n
        invariant
            c@ == s@,
            n == c.len(),
            first <= i <= n,
            first < n,
            body == c@.subrange(first as int, n as int),
            all_digits(body.subrange(0, i - first)),
            acc == digits_value(body.subrange(0, i - first)),
            0 <= acc <= limit,
            limit == if negative { 2147483648i64 } else { 2147483647i64 },
            negative == (c@[0] == '-'),
            body == numeral_body(c@),
        decreases n - i,
    {
        let d: u32 = c[i] as u32;
        let ghost prefix = body.subrange(0, i - first);
        let ghost next = body.subrange(0, i - first + 1);
        assert(next.drop_last() =~= prefix);
        assert(next.last() == c@[i as int]);
        if d < 48 || d > 57 {
            assert(!is_digit(body[i - first]));
            return None;
        }
        assert(all_digits(next)) by {
            assert forall|k: int| 0 <= k < next.len() implies is_digit(#[trigger] next[k]) by {
                if k < prefix.len() {
                    assert(next[k] == prefix[k]);
                }
            }
        }
        let grown: i64 = acc * 10 + (d as i64 - 48);
        if grown > limit {
            proof {
                if all_digits(body) {
                    lemma_digits_value_grows(body, i - first + 1);
                }
            }
            return None;
        }
        acc = grown;
        i += 1;
    }
    assert(body.subrange(0, n - first) =~= body);
    if negative {
        Some((0 - acc) as i32)
    } else {
        Some(acc as i32)
    }
}

/// The decimal digit for `d`, as a one-character string.
fn digit_text(d: u8) -> (r: &'static str)
    requires
        d < 10,
    ensures
        r@ == seq![digit_char(d as int)],
{
    proof {
        reveal_strlit("0");
        reveal_strlit("1");
        reveal_strlit("2");
        reveal_strlit("3");
        reveal_strlit("4");
        reveal_strlit("5");
        reveal_strlit("6");
        reveal_strlit("7");
        reveal_strlit("8");
        reveal_strlit("9");
    }
    let r = if d == 0 {
        "0"
    } else if d == 1 {
        "1"
    } else if d == 2 {
        "2"
    } else if d == 3 {
        "3"
    } else if d == 4 {
        "4"
    } else if d == 5 {
        "5"
    } else if d == 6 {
        "6"
    } else if d == 7 {
        "7"
    } else if d == 8 {
        "8"
    } else {
        "9"
    };
    assert(r@ =~= seq![digit_char(d as int)]);
    r
}

/// Appends `n` in decimal to `out`.
fn append_nat(out: &mut String, n: u64)
    ensures
        final(out)@ == old(out)@ + nat_text(n as nat),
    decreases n,
{
    if n >= 10 {
        append_nat(out, n / 10);
    }
    let ghost mid = out@;
    out.append(digit_text((n % 10) as u8));
    proof {
        if n >= 10 {
            assert(out@ =~= old(out)@ + nat_text((n / 10) as nat).push(
                digit_char((n % 10) as int),
            ));
        } else {
            assert(out@ =~= old(out)@ + seq![digit_char(n as int)]);
        }
    }
}

/// `n` written in decimal.
pub fn decimal(n: i32) -> (r: String)
    ensures
        r@ == int_text(n as int),
{
    let mut out = String::new();
    if n < 0 {
        proof {
            reveal_strlit("-");
        }
        out.append("-");
        assert(out@ =~= seq!['-']);
        let m: u64 = (0 - n as i64) as u64;
        append_nat(&mut out, m);
    } else {
        append_nat(&mut out, n as u64);
        assert(out@ =~= nat_text(n as nat));
    }
    out
}


/// Whether `a` and `b` hold the same characters.
pub fn same_text(a: &str, b: &str) -> (r: bool)
    ensures
        r == (a@ == b@),
{
    let x = chars_of(a);
    let y = chars_of(b);
    if x.len() != y.len() {
        return false;
    }
    let mut i: usize = 0;
    while i < x.len()
        invariant
            x@ == a@,
            y@ == b@,
            x.len() == y.len(),
            i <= x.len(),
            forall|k: int| 0 <= k < i ==> x@[k] == y@[k],
        decreases x.len() - i,
    {
        if x[i] != y[i] {
            return false;
        }
        i += 1;
    }
    assert(x@ =~= y@);
    true
}

} // verus!
