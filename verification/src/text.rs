//! Character-level helpers on strings, each proved against a spec over `Seq<char>`.
use vstd::prelude::*;
use vstd::string::*;

verus! {

/// Whether two strings hold the same characters.
pub fn str_equals(a: &str, b: &str) -> (res: bool)
    ensures
        res == (a@ == b@),
{
    let n = a.unicode_len();
    let m = b.unicode_len();
    if n != m {
        return false;
    }
    let mut i: usize = 0;
    while i < n
        invariant
            n == a@.len(),
            m == b@.len(),
            n == m,
            i <= n,
            forall|j: int| 0 <= j < i ==> a@[j] == b@[j],
        decreases n - i,
    {
        if a.get_char(i) != b.get_char(i) {
            return false;
        }
        i = i + 1;
    }
    assert(a@ =~= b@);
    true
}

/// Items with `sep` between each two.
pub open spec fn joined(items: Seq<Seq<char>>, sep: Seq<char>) -> Seq<char>
    decreases items.len(),
{
    if items.len() == 0 {
        Seq::empty()
    } else if items.len() == 1 {
        items[0]
    } else {
        joined(items.drop_last(), sep) + sep + items.last()
    }
}

/// Appends the items with `sep` between each two.
pub fn push_joined(out: &mut String, items: &Vec<String>, sep: &str)
    ensures
        final(out)@ == old(out)@ + joined(items.deep_view(), sep@),
{
    let ghost start = out@;
    let mut i: usize = 0;
    while i < items.len()
        invariant
            i <= items.len(),
            out@ == start + joined(items.deep_view().take(i as int), sep@),
        decreases items.len() - i,
    {
        let ghost prefix = items.deep_view().take(i as int);
        assert(items.deep_view().take(i + 1).drop_last() =~= prefix);
        if i > 0 {
            out.append(sep);
        }
        out.append(items[i].as_str());
        i = i + 1;
        assert(out@ =~= start + joined(items.deep_view().take(i as int), sep@));
    }
    assert(items.deep_view().take(items.len() as int) =~= items.deep_view());
}

// ---------------------------------------------------------------------------
// Unicode white space and trimming
// ---------------------------------------------------------------------------

/// The characters of the Unicode `White_Space` property (PropList.txt).
pub open spec fn is_white_space(c: char) -> bool {
    let u = c as u32;
    ||| 0x09 <= u <= 0x0d
    ||| u == 0x20
    ||| u == 0x85
    ||| u == 0xa0
    ||| u == 0x1680
    ||| 0x2000 <= u <= 0x200a
    ||| u == 0x2028
    ||| u == 0x2029
    ||| u == 0x202f
    ||| u == 0x205f
    ||| u == 0x3000
}

pub fn char_is_white_space(c: char) -> (res: bool)
    ensures
        res == is_white_space(c),
{
    let u = c as u32;
    (0x09 <= u && u <= 0x0d) || u == 0x20 || u == 0x85 || u == 0xa0 || u == 0x1680 || (0x2000
        <= u && u <= 0x200a) || u == 0x2028 || u == 0x2029 || u == 0x202f || u == 0x205f || u
        == 0x3000
}

/// Index of the first character at or after `i` that is not white space (or the length).
pub open spec fn lead_end(s: Seq<char>, i: nat) -> nat
    decreases s.len() - i,
{
    if i < s.len() && is_white_space(s[i as int]) {
        lead_end(s, i + 1)
    } else {
        i
    }
}

/// Index just past the last character before `j` (and after `lo`) that is not white space.
pub open spec fn trail_start(s: Seq<char>, j: nat, lo: nat) -> nat
    decreases j,
{
    if j > lo && is_white_space(s[j - 1]) {
        trail_start(s, (j - 1) as nat, lo)
    } else {
        j
    }
}

/// `s` with leading and trailing Unicode white space removed.
pub open spec fn trimmed(s: Seq<char>) -> Seq<char> {
    let a = lead_end(s, 0);
    let b = trail_start(s, s.len(), a);
    s.subrange(a as int, b as int)
}

pub proof fn lemma_lead_end(s: Seq<char>, i: nat)
    requires
        i <= s.len(),
    ensures
        i <= lead_end(s, i) <= s.len(),
        forall|k: int| i <= k < lead_end(s, i) ==> is_white_space(#[trigger] s[k]),
        lead_end(s, i) < s.len() ==> !is_white_space(s[lead_end(s, i) as int]),
    decreases s.len() - i,
{
    if i < s.len() && is_white_space(s[i as int]) {
        lemma_lead_end(s, i + 1);
    }
}

pub proof fn lemma_trail_start(s: Seq<char>, j: nat, lo: nat)
    requires
        lo <= j <= s.len(),
    ensures
        lo <= trail_start(s, j, lo) <= j,
        forall|k: int| trail_start(s, j, lo) <= k < j ==> is_white_space(#[trigger] s[k]),
        trail_start(s, j, lo) > lo ==> !is_white_space(s[trail_start(s, j, lo) - 1]),
    decreases j,
{
    if j > lo && is_white_space(s[j - 1]) {
        lemma_trail_start(s, (j - 1) as nat, lo);
    }
}

/// A sequence that starts and ends with non-white-space characters is its own trim.
pub proof fn lemma_trim_fixed(t: Seq<char>)
    requires
        t.len() > 0 ==> !is_white_space(t[0]) && !is_white_space(t[t.len() - 1]),
    ensures
        trimmed(t) == t,
{
    assert(lead_end(t, 0) == 0);
    if t.len() > 0 {
        assert(trail_start(t, t.len(), 0) == t.len());
    }
    assert(t.subrange(0, t.len() as int) =~= t);
}

/// Trimming twice is trimming once.
pub proof fn lemma_trim_idempotent(s: Seq<char>)
    ensures
        trimmed(trimmed(s)) == trimmed(s),
{
    let a = lead_end(s, 0);
    lemma_lead_end(s, 0);
    lemma_trail_start(s, s.len(), a);
    let b = trail_start(s, s.len(), a);
    let t = trimmed(s);
    if t.len() > 0 {
        assert(t[0] == s[a as int]);
        assert(t[t.len() - 1] == s[b - 1]);
    }
    lemma_trim_fixed(t);
}

/// The trim of `s` as a fresh string.
pub fn trim_string(s: &str) -> (res: String)
    ensures
        res@ == trimmed(s@),
{
    let n = s.unicode_len();
    let mut i: usize = 0;
    while i < n && char_is_white_space(s.get_char(i))
        invariant
            n == s@.len(),
            i <= n,
            lead_end(s@, i as nat) == lead_end(s@, 0),
        decreases n - i,
    {
        i = i + 1;
    }
    let mut j: usize = n;
    while j > i && char_is_white_space(s.get_char(j - 1))
        invariant
            n == s@.len(),
            i == lead_end(s@, 0),
            i <= j <= n,
            trail_start(s@, j as nat, i as nat) == trail_start(s@, n as nat, i as nat),
        decreases j,
    {
        j = j - 1;
    }
    s.substring_char(i, j).to_owned()
}

// ---------------------------------------------------------------------------
// ASCII case folding
// ---------------------------------------------------------------------------

/// The code of `c` with ASCII upper-case letters mapped to lower case.
pub open spec fn ascii_folded(c: char) -> u32 {
    let u = c as u32;
    if 0x41 <= u <= 0x5a {
        (u + 0x20) as u32
    } else {
        u
    }
}

/// `s` equals the lower-case ASCII word `word` up to ASCII letter case.
pub open spec fn equals_ignoring_ascii_case(s: Seq<char>, word: Seq<char>) -> bool {
    &&& s.len() == word.len()
    &&& forall|i: int| 0 <= i < s.len() ==> ascii_folded(#[trigger] s[i]) == word[i] as u32
}

pub fn str_equals_ignoring_ascii_case(s: &str, word: &str) -> (res: bool)
    ensures
        res == equals_ignoring_ascii_case(s@, word@),
{
    let n = s.unicode_len();
    if n != word.unicode_len() {
        return false;
    }
    let mut i: usize = 0;
    while i < n
        invariant
            n == s@.len(),
            n == word@.len(),
            i <= n,
            forall|k: int| 0 <= k < i ==> ascii_folded(#[trigger] s@[k]) == word@[k] as u32,
        decreases n - i,
    {
        let u = s.get_char(i) as u32;
        let f = if 0x41 <= u && u <= 0x5a {
            u + 0x20
        } else {
            u
        };
        if f != word.get_char(i) as u32 {
            return false;
        }
        i = i + 1;
    }
    true
}

// ---------------------------------------------------------------------------
// Decimal integers
// ---------------------------------------------------------------------------

pub open spec fn digit_char(d: nat) -> char {
    seq!['0', '1', '2', '3', '4', '5', '6', '7', '8', '9'][d as int]
}

/// The decimal digits of `n`, most significant first, without leading zeros.
pub open spec fn digits_of(n: nat) -> Seq<char>
    decreases n,
{
    if n < 10 {
        seq![digit_char(n)]
    } else {
        digits_of(n / 10).push(digit_char(n % 10))
    }
}

/// The decimal text of an integer, with a leading `-` when negative.
pub open spec fn decimal(n: int) -> Seq<char> {
    if n < 0 {
        seq!['-'] + digits_of((-n) as nat)
    } else {
        digits_of(n as nat)
    }
}

fn digit_str(d: u64) -> (res: &'static str)
    requires
        d < 10,
    ensures
        res@ == seq![digit_char(d as nat)],
{
    proof {
        reveal_strlit("0");
        reveal_strlit("1");
        reveal_strlit("2");
        reveal_strlit("3");
        reveal_strlit("4");
        reveal_strlit("5");
        reveal_strlit("6");
        reveal_strlit("7");
        reveal_strlit("8");
        reveal_strlit("9");
    }
    if d == 0 {
        assert("0"@ =~= seq![digit_char(0)]);
        "0"
    } else if d == 1 {
        assert("1"@ =~= seq![digit_char(1)]);
        "1"
    } else if d == 2 {
        assert("2"@ =~= seq![digit_char(2)]);
        "2"
    } else if d == 3 {
        assert("3"@ =~= seq![digit_char(3)]);
        "3"
    } else if d == 4 {
        assert("4"@ =~= seq![digit_char(4)]);
        "4"
    } else if d == 5 {
        assert("5"@ =~= seq![digit_char(5)]);
        "5"
    } else if d == 6 {
        assert("6"@ =~= seq![digit_char(6)]);
        "6"
    } else if d == 7 {
        assert("7"@ =~= seq![digit_char(7)]);
        "7"
    } else if d == 8 {
        assert("8"@ =~= seq![digit_char(8)]);
        "8"
    } else {
        assert("9"@ =~= seq![digit_char(9)]);
        "9"
    }
}

fn push_digits(out: &mut String, n: u64)
    ensures
        final(out)@ == old(out)@ + digits_of(n as nat),
    decreases n,
{
    if n >= 10 {
        push_digits(out, n / 10);
    }
    let d = digit_str(n % 10);
    out.append(d);
    proof {
        if n < 10 {
            assert(digits_of(n as nat) == seq![digit_char(n as nat)]);
        }
    }
    assert(final(out)@ =~= old(out)@ + digits_of(n as nat));
}

/// Appends the decimal text of `n`.
pub fn push_decimal(out: &mut String, n: i64)
    ensures
        final(out)@ == old(out)@ + decimal(n as int),
{
    if n < 0 {
        out.append("-");
        proof {
            reveal_strlit("-");
        }
        let mag: u64 = (0i128 - (n as i128)) as u64;
        push_digits(out, mag);
        assert(final(out)@ =~= old(out)@ + decimal(n as int));
    } else {
        push_digits(out, n as u64);
    }
}

/// The decimal text of `n`, as `i64`'s `Display` writes it.
pub fn decimal_string(n: i64) -> (res: String)
    ensures
        res@ == decimal(n as int),
{
    let mut s = String::new();
    push_decimal(&mut s, n);
    assert(s@ =~= decimal(n as int));
    s
}

pub open spec fn is_digit(c: char) -> bool {
    '0' <= c <= '9'
}

pub open spec fn all_digits(s: Seq<char>) -> bool {
    forall|i: int| 0 <= i < s.len() ==> is_digit(#[trigger] s[i])
}

/// The value of a run of decimal digits.
pub open spec fn digits_value(s: Seq<char>) -> nat
    decreases s.len(),
{
    if s.len() == 0 {
        0
    } else {
        digits_value(s.drop_last()) * 10 + (s.last() as nat - '0' as nat) as nat
    }
}

/// What `str::parse::<i64>` accepts: an optional `+` or `-`, then one or more ASCII digits,
/// with the value in range.
pub open spec fn parsed_i64(s: Seq<char>) -> Option<i64> {
    let neg = s.len() > 0 && s[0] == '-';
    let body = if s.len() > 0 && (s[0] == '-' || s[0] == '+') {
        s.drop_first()
    } else {
        s
    };
    if body.len() > 0 && all_digits(body) {
        let v: int = if neg {
            -(digits_value(body) as int)
        } else {
            digits_value(body) as int
        };
        if i64::MIN <= v <= i64::MAX {
            Some(v as i64)
        } else {
            None
        }
    } else {
        None
    }
}

proof fn lemma_digit_char(d: nat)
    requires
        d < 10,
    ensures
        is_digit(digit_char(d)),
        digit_char(d) as nat - '0' as nat == d,
{
    assert(d == 0 || d == 1 || d == 2 || d == 3 || d == 4 || d == 5 || d == 6 || d == 7 || d == 8
        || d == 9);
}

/// The digits of `n` are decimal digits and read back as `n`.
pub proof fn lemma_digits_of(n: nat)
    ensures
        digits_of(n).len() > 0,
        all_digits(digits_of(n)),
        digits_value(digits_of(n)) == n,
    decreases n,
{
    if n < 10 {
        lemma_digit_char(n);
        assert(digits_of(n).drop_last() =~= Seq::<char>::empty());
        assert(digits_value(Seq::<char>::empty()) == 0);
        assert(digits_value(digits_of(n)) == digits_value(digits_of(n).drop_last()) * 10 + (
        digit_char(n) as nat - '0' as nat));
    } else {
        lemma_digits_of(n / 10);
        lemma_digit_char(n % 10);
        let s = digits_of(n);
        assert(s.drop_last() =~= digits_of(n / 10));
        assert(s.last() == digit_char(n % 10));
        assert(digits_value(s) == digits_value(digits_of(n / 10)) * 10 + (n % 10));
        assert((n / 10) * 10 + n % 10 == n) by (nonlinear_arith);
        assert(all_digits(s)) by {
            assert forall|i: int| 0 <= i < s.len() implies is_digit(#[trigger] s[i]) by {
                if i < s.len() - 1 {
                    assert(s[i] == digits_of(n / 10)[i]);
                }
            }
        }
    }
}

/// Writing a non-negative `i64` in decimal and parsing it back gives the same number.
pub proof fn lemma_parse_decimal(n: i64)
    requires
        n >= 0,
    ensures
        parsed_i64(decimal(n as int)) == Some(n),
{
    lemma_digits_of(n as nat);
    let s = digits_of(n as nat);
    assert(is_digit(s[0]));
}

/// Parses a decimal `i64` as `str::parse::<i64>` does.
pub fn parse_i64(s: &str) -> (res: Option<i64>)
    ensures
        res == parsed_i64(s@),
{
    let n = s.unicode_len();
    if n == 0 {
        return None;
    }
    let first = s.get_char(0);
    let neg = first == '-';
    let start: usize = if first == '-' || first == '+' {
        1
    } else {
        0
    };
    let ghost body = if first == '-' || first == '+' {
        s@.drop_first()
    } else {
        s@
    };
    if start == n {
        return None;
    }
    let limit: u128 = 0x1_0000_0000_0000_0000u128;
    let mut acc: u128 = 0;
    let mut big = false;
    let mut i: usize = start;
    while i < n
        invariant
            n == s@.len(),
            start <= i <= n,
            start == 0 || start == 1,
            n > 0,
            start == 1 <==> (s@[0] == '-' || s@[0] == '+'),
            neg == (s@[0] == '-'),
            body =~= s@.subrange(start as int, n as int),
            all_digits(s@.subrange(start as int, i as int)),
            !big ==> acc == digits_value(s@.subrange(start as int, i as int)),
            !big ==> acc < limit,
            big ==> digits_value(s@.subrange(start as int, i as int)) >= limit,
            limit == 0x1_0000_0000_0000_0000u128,
        decreases n - i,
    {
        let c = s.get_char(i);
        if !('0' <= c && c <= '9') {
            assert(body[i - start] == c);
            assert(!is_digit(body[i - start]));
            return None;
        }
        let ghost prev = s@.subrange(start as int, i as int);
        let ghost next = s@.subrange(start as int, i + 1);
        assert(next.drop_last() =~= prev);
        assert(next.last() == c);
        let d = (c as u32 - '0' as u32) as u128;
        if !big {
            let v = acc * 10 + d;
            if v >= limit {
                big = true;
            } else {
                acc = v;
            }
        }
        i = i + 1;
    }
    assert(s@.subrange(start as int, n as int) =~= body);
    if big {
        return None;
    }
    if neg {
        if acc > 0x8000_0000_0000_0000u128 {
            None
        } else {
            Some((0i128 - (acc as i128)) as i64)
        }
    } else {
        if acc > 0x7fff_ffff_ffff_ffffu128 {
            None
        } else {
            Some(acc as i64)
        }
    }
}

} // verus!
