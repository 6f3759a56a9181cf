//! Character-level helpers shared by the evaluator and the front-end.
use vstd::prelude::*;
use vstd::string::*;

verus! {

/// The five characters that Rust calls ASCII whitespace.
pub open spec fn is_ascii_space(c: char) -> bool {
    c == ' ' || c == '\t' || c == '\n' || c == '\r' || c == '\x0C'
}

/// `s` without its leading and trailing ASCII whitespace.
pub open spec fn trim_ascii(s: Seq<char>) -> Seq<char>
    decreases s.len(),
{
    if s.len() > 0 && is_ascii_space(s[0]) {
        trim_ascii(s.drop_first())
    } else if s.len() > 0 && is_ascii_space(s.last()) {
        trim_ascii(s.drop_last())
    } else {
        s
    }
}

/// The bounds `[i, j)` mark the trimmed part of `s`.
pub open spec fn trim_bounds(s: Seq<char>, i: int, j: int) -> bool {
    &&& 0 <= i <= j <= s.len()
    &&& forall|k: int| 0 <= k < i ==> is_ascii_space(#[trigger] s[k])
    &&& forall|k: int| j <= k < s.len() ==> is_ascii_space(#[trigger] s[k])
    &&& i < j ==> !is_ascii_space(s[i]) && !is_ascii_space(s[j - 1])
}

proof fn lemma_trim_bounds(s: Seq<char>, i: int, j: int)
    requires
        trim_bounds(s, i, j),
    ensures
        trim_ascii(s) == s.subrange(i, j),
    decreases s.len(),
{
    if s.len() > 0 && is_ascii_space(s[0]) {
        let t = s.drop_first();
        if i > 0 {
            assert(trim_bounds(t, i - 1, j - 1)) by {
                assert forall|k: int| 0 <= k < i - 1 implies is_ascii_space(#[trigger] t[k]) by {
                    assert(t[k] == s[k + 1]);
                }
                assert forall|k: int| j - 1 <= k < t.len() implies is_ascii_space(#[trigger] t[k]) by {
                    assert(t[k] == s[k + 1]);
                }
            }
            lemma_trim_bounds(t, i - 1, j - 1);
            assert(t.subrange(i - 1, j - 1) =~= s.subrange(i, j));
        } else {
            assert(trim_bounds(t, 0, 0)) by {
                assert forall|k: int| 0 <= k < t.len() implies is_ascii_space(#[trigger] t[k]) by {
                    assert(t[k] == s[k + 1]);
                }
            }
            lemma_trim_bounds(t, 0, 0);
            assert(t.subrange(0, 0) =~= s.subrange(i, j));
        }
    } else if s.len() > 0 && is_ascii_space(s.last()) {
        let t = s.drop_last();
        if i == j {
            assert(i == 0);
        }
        assert(j < s.len());
        assert(trim_bounds(t, i, j)) by {
            assert forall|k: int| 0 <= k < i implies is_ascii_space(#[trigger] t[k]) by {
                assert(t[k] == s[k]);
            }
            assert forall|k: int| j <= k < t.len() implies is_ascii_space(#[trigger] t[k]) by {
                assert(t[k] == s[k]);
            }
        }
        lemma_trim_bounds(t, i, j);
        assert(t.subrange(i, j) =~= s.subrange(i, j));
    } else {
        if s.len() > 0 {
            if i == j {
                assert(is_ascii_space(s[0]));
            }
            assert(i == 0);
            assert(j == s.len());
        }
        assert(s.subrange(i, j) =~= s);
    }
}

/// The characters of `s`, in order.
pub fn chars_of(s: &str) -> (r: Vec<char>)
    ensures
        r@ == s@,
{
    let mut v: Vec<char> = Vec::new();
    for c in it: s.chars()
        invariant
            v@ == it.seq().take(it.index() as int),
            it.seq() == s@,
    {
        v.push(c);
    }
    v
}

pub fn is_ascii_space_char(c: char) -> (r: bool)
    ensures
        r == is_ascii_space(c),
{
    c == ' ' || c == '\t' || c == '\n' || c == '\r' || c == '\x0C'
}

/// The range of `v` that is left once ASCII whitespace is cut from both ends.
pub fn trimmed_range(v: &Vec<char>) -> (r: (usize, usize))
    ensures
        v@.subrange(r.0 as int, r.1 as int) == trim_ascii(v@),
        r.0 <= r.1 <= v.len(),
{
    let mut i: usize = 0;
    while i < v.len() && is_ascii_space_char(v[i])
        invariant
            i <= v.len(),
            forall|k: int| 0 <= k < i ==> is_ascii_space(#[trigger] v@[k]),
        decreases v.len() - i,
    {
        i = i + 1;
    }
    let mut j: usize = v.len();
    while j > i && is_ascii_space_char(v[j - 1])
        invariant
            i <= j <= v.len(),
            forall|k: int| j <= k < v.len() ==> is_ascii_space(#[trigger] v@[k]),
        decreases j,
    {
        j = j - 1;
    }
    proof {
        lemma_trim_bounds(v@, i as int, j as int);
    }
    (i, j)
}

/// Whether two texts are equal once ASCII whitespace is cut from both ends of each.
pub fn trimmed_eq(a: &str, b: &str) -> (r: bool)
    ensures
        r == (trim_ascii(a@) == trim_ascii(b@)),
{
    let va = chars_of(a);
    let vb = chars_of(b);
    let (ai, aj) = trimmed_range(&va);
    let (bi, bj) = trimmed_range(&vb);
    let ghost ta = va@.subrange(ai as int, aj as int);
    let ghost tb = vb@.subrange(bi as int, bj as int);
    if aj - ai != bj - bi {
        assert(ta.len() != tb.len());
        return false;
    }
    let n = aj - ai;
    let mut k: usize = 0;
    while k < n
        invariant
            k <= n,
            n == aj - ai,
            n == bj - bi,
            ai <= aj <= va.len(),
            bi <= bj <= vb.len(),
            ta == va@.subrange(ai as int, aj as int),
            tb == vb@.subrange(bi as int, bj as int),
            forall|m: int| 0 <= m < k ==> ta[m] == tb[m],
            ta == trim_ascii(a@),
            tb == trim_ascii(b@),
        decreases n - k,
    {
        if va[ai + k] != vb[bi + k] {
            assert(ta[k as int] == va@[ai + k]);
            assert(tb[k as int] == vb@[bi + k]);
            assert(ta != tb);
            return false;
        }
        k = k + 1;
    }
    assert(ta =~= tb);
    true
}

/// `a` followed by `b`, as a new string.
pub fn concat(a: &str, b: &str) -> (r: String)
    ensures
        r@ == a@ + b@,
{
    let mut s = String::from_str(a);
    s.append(b);
    s
}

} // verus!

verus! {

/// The length of `s` in UTF-8 bytes.
pub open spec fn byte_len(s: Seq<char>) -> nat {
    vstd::utf8::encode_utf8(s).len()
}

/// The length of a string in UTF-8 bytes.
pub fn utf8_len(s: &str) -> (r: usize)
    ensures
        r == byte_len(s@),
{
    s.as_bytes().len()
}

/// The characters that carry Unicode's White_Space property.
pub open spec fn is_unicode_space(c: char) -> bool {
    let u = c as u32;
    (9 <= u <= 13) || u == 32 || u == 0x85 || u == 0xA0 || u == 0x1680 || (0x2000 <= u <= 0x200A)
        || u == 0x2028 || u == 0x2029 || u == 0x202F || u == 0x205F || u == 0x3000
}

/// Whether a text holds nothing but whitespace.
pub open spec fn is_blank(s: Seq<char>) -> bool {
    forall|k: int| 0 <= k < s.len() ==> is_unicode_space(#[trigger] s[k])
}

pub fn blank(s: &str) -> (r: bool)
    ensures
        r == is_blank(s@),
{
    let v = chars_of(s);
    for k in 0..v.len()
        invariant
            v@ == s@,
            forall|j: int| 0 <= j < k ==> is_unicode_space(#[trigger] v@[j]),
    {
        let u = v[k] as u32;
        let space = (9 <= u && u <= 13) || u == 32 || u == 0x85 || u == 0xA0 || u == 0x1680 || (
        0x2000 <= u && u <= 0x200A) || u == 0x2028 || u == 0x2029 || u == 0x202F || u == 0x205F
            || u == 0x3000;
        if !space {
            return false;
        }
    }
    true
}

pub open spec fn digit_char(d: nat) -> char {
    seq!['0', '1', '2', '3', '4', '5', '6', '7', '8', '9'][d as int]
}

/// The decimal numeral of `n`, without leading zeros.
pub open spec fn decimal_text(n: nat) -> Seq<char>
    decreases n,
{
    if n < 10 {
        seq![digit_char(n)]
    } else {
        decimal_text(n / 10).push(digit_char(n % 10))
    }
}

fn digit_str(d: u64) -> (r: &'static str)
    requires
        d < 10,
    ensures
        r@ == seq![digit_char(d as nat)],
{
    proof {
        reveal_strlit("0");
        reveal_strlit("1");
        reveal_strlit("2");
        reveal_strlit("3");
        reveal_strlit("4");
        reveal_strlit("5");
        reveal_strlit("6");
        reveal_strlit("7");
        reveal_strlit("8");
        reveal_strlit("9");
    }
    let r = if d == 0 {
        "0"
    } else if d == 1 {
        "1"
    } else if d == 2 {
        "2"
    } else if d == 3 {
        "3"
    } else if d == 4 {
        "4"
    } else if d == 5 {
        "5"
    } else if d == 6 {
        "6"
    } else if d == 7 {
        "7"
    } else if d == 8 {
        "8"
    } else {
        "9"
    };
    assert(r@ =~= seq![digit_char(d as nat)]);
    r
}

/// The decimal numeral of a number.
pub fn decimal(n: u64) -> (r: String)
    ensures
        r@ == decimal_text(n as nat),
{
    if n == 0 {
        return String::from_str(digit_str(0));
    }
    let mut m: u64 = n;
    let mut s = String::new();
    loop
        invariant
            m > 0,
            decimal_text(n as nat) == decimal_text(m as nat) + s@,
        decreases m,
    {
        let d = m % 10;
        let piece = digit_str(d);
        let next = concat(piece, s.as_str());
        if m < 10 {
            assert(next@ =~= decimal_text(m as nat) + s@);
            return next;
        }
        assert(decimal_text(m as nat) == decimal_text((m / 10) as nat).push(digit_char(d as nat)));
        assert(decimal_text((m / 10) as nat) + next@ =~= decimal_text(m as nat) + s@);
        s = next;
        m = m / 10;
    }
}

} // verus!

verus! {

pub open spec fn is_digit(c: char) -> bool {
    '0' <= c && c <= '9'
}

/// The value of a string of decimal digits.
pub open spec fn digits_value(s: Seq<char>) -> nat
    decreases s.len(),
{
    if s.len() == 0 {
        0
    } else {
        digits_value(s.drop_last()) * 10 + (s.last() as nat - '0' as nat) as nat
    }
}

/// How Rust's integer parsing reads an unsigned number no larger than `limit`:
/// an optional `+`, then one or more decimal digits whose value fits.
pub open spec fn parsed_unsigned(s: Seq<char>, limit: nat) -> Option<nat> {
    if all_digits(unsigned_body(s)) && digits_value(unsigned_body(s)) <= limit {
        Some(digits_value(unsigned_body(s)))
    } else {
        None
    }
}

/// The text after an optional leading `+`.
pub open spec fn unsigned_body(s: Seq<char>) -> Seq<char> {
    if s.len() > 0 && s[0] == '+' {
        s.drop_first()
    } else {
        s
    }
}

/// One or more decimal digits, and nothing else.
pub open spec fn all_digits(s: Seq<char>) -> bool {
    s.len() > 0 && forall|k: int| 0 <= k < s.len() ==> is_digit(#[trigger] s[k])
}

proof fn lemma_digits_prefix(s: Seq<char>, j: int)
    requires
        0 <= j <= s.len(),
        forall|k: int| 0 <= k < s.len() ==> is_digit(#[trigger] s[k]),
    ensures
        digits_value(s.take(j)) <= digits_value(s),
    decreases s.len() - j,
{
    if j < s.len() {
        lemma_digits_prefix(s, j + 1);
        let t = s.take(j + 1);
        assert(t.drop_last() =~= s.take(j));
        assert(is_digit(t.last()));
    } else {
        assert(s.take(j) =~= s);
    }
}

/// Reads an unsigned decimal number no larger than `limit`, as Rust's integer
/// parsing does; `None` for anything else.
pub fn parse_unsigned(s: &str, limit: u64) -> (r: Option<u64>)
    ensures
        r == (match parsed_unsigned(s@, limit as nat) {
            Some(v) => Some(v as u64),
            None => None::<u64>,
        }),
{
    let v = chars_of(s);
    let start: usize = if v.len() > 0 && v[0] == '+' {
        1
    } else {
        0
    };
    let ghost body = unsigned_body(s@);
    assert(body =~= v@.subrange(start as int, v@.len() as int));
    if start >= v.len() {
        return None;
    }
    let mut value: u64 = 0;
    let mut i: usize = start;
    while i < v.len()
        invariant
            start <= i <= v.len(),
            v@ == s@,
            body == v@.subrange(start as int, v@.len() as int),
            body == unsigned_body(s@),
            forall|k: int| start <= k < i ==> is_digit(#[trigger] v@[k]),
            value == digits_value(body.take(i - start)),
            value <= limit,
        decreases v.len() - i,
    {
        let c = v[i];
        if !('0' <= c && c <= '9') {
            assert(body[i - start] == v@[i as int]);
            assert(!is_digit(body[i - start]));
            return None;
        }
        let d = (c as u32 - '0' as u32) as u64;
        let ghost t = body.take(i - start + 1);
        assert(t.drop_last() =~= body.take(i - start));
        assert(t.last() == c);
        assert(d == c as nat - '0' as nat);
        assert(digits_value(t) == value * 10 + d);
        let next: u128 = value as u128 * 10 + d as u128;
        if next > limit as u128 {
            proof {
                if all_digits(body) {
                    lemma_digits_prefix(body, i - start + 1);
                }
            }
            return None;
        }
        value = next as u64;
        i = i + 1;
    }
    assert(body.take(body.len() as int) =~= body);
    Some(value)
}

} // verus!
