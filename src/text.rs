//! Character-level helpers over `str` views: decimal rendering, substring
//! search, prefixes and suffixes.

use vstd::prelude::*;

verus! {

/// The character for a decimal digit.
pub open spec fn digit_char(d: nat) -> char {
    if d == 0 {
        '0'
    } else if d == 1 {
        '1'
    } else if d == 2 {
        '2'
    } else if d == 3 {
        '3'
    } else if d == 4 {
        '4'
    } else if d == 5 {
        '5'
    } else if d == 6 {
        '6'
    } else if d == 7 {
        '7'
    } else if d == 8 {
        '8'
    } else {
        '9'
    }
}

/// Decimal rendering of a natural number, most significant digit first,
/// without leading zeros.
pub open spec fn decimal(n: nat) -> Seq<char>
    decreases n,
{
    if n < 10 {
        seq![digit_char(n)]
    } else {
        decimal(n / 10) + seq![digit_char(n % 10)]
    }
}

/// Decimal rendering of an integer, with a leading `-` when negative.
pub open spec fn signed_decimal(i: int) -> Seq<char> {
    if i < 0 {
        seq!['-'] + decimal((-i) as nat)
    } else {
        decimal(i as nat)
    }
}

/// `t` occurs in `s` starting at position `i`.
pub open spec fn occurs_at(s: Seq<char>, t: Seq<char>, i: int) -> bool {
    0 <= i && i + t.len() <= s.len() && s.subrange(i, i + t.len()) == t
}

/// `t` occurs somewhere in `s`.
pub open spec fn contains_seq(s: Seq<char>, t: Seq<char>) -> bool {
    exists|i: int| occurs_at(s, t, i)
}

/// `s` begins with `p`.
pub open spec fn has_prefix(s: Seq<char>, p: Seq<char>) -> bool {
    p.len() <= s.len() && s.subrange(0, p.len() as int) == p
}

/// `s` ends with `p`.
pub open spec fn has_suffix(s: Seq<char>, p: Seq<char>) -> bool {
    p.len() <= s.len() && s.subrange(s.len() - p.len(), s.len() as int) == p
}

fn digit_str(d: u64) -> (r: &'static str)
    requires
        d < 10,
    ensures
        r@ == seq![digit_char(d as nat)],
{
    proof {
        reveal_strlit("0");
        reveal_strlit("1");
        reveal_strlit("2");
        reveal_strlit("3");
        reveal_strlit("4");
        reveal_strlit("5");
        reveal_strlit("6");
        reveal_strlit("7");
        reveal_strlit("8");
        reveal_strlit("9");
    }
    let r = if d == 0 {
        "0"
    } else if d == 1 {
        "1"
    } else if d == 2 {
        "2"
    } else if d == 3 {
        "3"
    } else if d == 4 {
        "4"
    } else if d == 5 {
        "5"
    } else if d == 6 {
        "6"
    } else if d == 7 {
        "7"
    } else if d == 8 {
        "8"
    } else {
        "9"
    };
    assert(r@ =~= seq![digit_char(d as nat)]);
    r
}

/// Renders `n` in decimal.
pub fn decimal_string(n: u64) -> (r: String)
    ensures
        r@ == decimal(n as nat),
    decreases n,
{
    if n < 10 {
        String::from_str(digit_str(n))
    } else {
        let mut s = decimal_string(n / 10);
        s.append(digit_str(n % 10));
        s
    }
}

/// Renders `i` in decimal, with a leading `-` when negative.
pub fn signed_decimal_string(i: i64) -> (r: String)
    ensures
        r@ == signed_decimal(i as int),
{
    if i < 0 {
        let mut s = String::from_str("-");
        let magnitude: u64 = if i == i64::MIN {
            9223372036854775808u64
        } else {
            (-i) as u64
        };
        let d = decimal_string(magnitude);
        s.append(d.as_str());
        proof {
            reveal_strlit("-");
        }
        assert(s@ =~= signed_decimal(i as int));
        s
    } else {
        decimal_string(i as u64)
    }
}

/// The characters of `s`, one by one.
pub fn chars_of(s: &str) -> (r: Vec<char>)
    ensures
        r@ == s@,
{
    let n = s.unicode_len();
    let mut r: Vec<char> = Vec::new();
    let mut i: usize = 0;
    while i < n
        invariant
            n == s@.len(),
            i <= n,
            r@ == s@.subrange(0, i as int),
        decreases n - i,
    {
        r.push(s.get_char(i));
        i = i + 1;
        assert(r@ =~= s@.subrange(0, i as int));
    }
    assert(r@ =~= s@);
    r
}

/// Whether `t` occurs in `s` starting at position `i`.
pub fn occurs_at_exec(s: &Vec<char>, t: &Vec<char>, i: usize) -> (r: bool)
    ensures
        r == occurs_at(s@, t@, i as int),
{
    if i > s.len() || t.len() > s.len() - i {
        return false;
    }
    let mut k: usize = 0;
    while k < t.len()
        invariant
            i as int + t@.len() as int <= s@.len() as int,
            s@.len() <= usize::MAX,
            k <= t@.len(),
            forall|j: int| 0 <= j < k ==> s@[i + j] == t@[j],
        decreases t@.len() - k,
    {
        if s[i + k] != t[k] {
            assert(s@.subrange(i as int, i + t@.len())[k as int] != t@[k as int]);
            return false;
        }
        k = k + 1;
    }
    assert(s@.subrange(i as int, i + t@.len()) =~= t@);
    true
}

/// Whether `t` occurs anywhere in `s`.
pub fn contains_chars(s: &Vec<char>, t: &Vec<char>) -> (r: bool)
    ensures
        r == contains_seq(s@, t@),
{
    if t.len() > s.len() {
        return false;
    }
    let last = s.len() - t.len();
    let mut i: usize = 0;
    loop
        invariant
            last == s@.len() - t@.len(),
            i <= last,
            forall|j: int| 0 <= j < i ==> !occurs_at(s@, t@, j),
        decreases last - i,
    {
        if occurs_at_exec(s, t, i) {
            return true;
        }
        if i == last {
            assert forall|j: int| !occurs_at(s@, t@, j) by {
                if 0 <= j < i {
                }
            }
            return false;
        }
        i = i + 1;
    }
}

/// Whether `t` occurs anywhere in `s`.
pub fn str_contains(s: &str, t: &str) -> (r: bool)
    ensures
        r == contains_seq(s@, t@),
{
    let sc = chars_of(s);
    let tc = chars_of(t);
    contains_chars(&sc, &tc)
}

/// Whether `s` begins with `p`.
pub fn str_starts_with(s: &str, p: &str) -> (r: bool)
    ensures
        r == has_prefix(s@, p@),
{
    let sc = chars_of(s);
    let pc = chars_of(p);
    if pc.len() > sc.len() {
        return false;
    }
    let r = occurs_at_exec(&sc, &pc, 0);
    r
}

/// Whether `s` ends with `p`.
pub fn str_ends_with(s: &str, p: &str) -> (r: bool)
    ensures
        r == has_suffix(s@, p@),
{
    let sc = chars_of(s);
    let pc = chars_of(p);
    if pc.len() > sc.len() {
        return false;
    }
    occurs_at_exec(&sc, &pc, sc.len() - pc.len())
}

} // verus!

verus! {

/// What `str::to_lowercase` makes of a string.
pub uninterp spec fn lower_of(s: Seq<char>) -> Seq<char>;

/// Relies on `str::to_lowercase`: Unicode lower-case mapping, which depends
/// on the characters alone.
#[verifier::external_body]
pub(crate) fn lowercase(s: &str) -> (r: String)
    ensures
        r@ == lower_of(s@),
{
    s.to_lowercase()
}

/// Whether two strings hold the same characters.
pub fn str_equals(a: &str, b: &str) -> (r: bool)
    ensures
        r == (a@ == b@),
{
    let ac = chars_of(a);
    let bc = chars_of(b);
    if ac.len() != bc.len() {
        return false;
    }
    let r = occurs_at_exec(&ac, &bc, 0);
    assert(ac@.subrange(0, bc@.len() as int) =~= ac@);
    r
}

} // verus!

verus! {

/// A character's code point with ASCII upper-case letters folded to lower case.
pub open spec fn ascii_fold(c: char) -> u32 {
    if 'A' <= c && c <= 'Z' {
        (c as u32 + 32) as u32
    } else {
        c as u32
    }
}

/// Equality up to ASCII case.
pub open spec fn eq_ignore_ascii_case_spec(a: Seq<char>, b: Seq<char>) -> bool {
    a.len() == b.len() && forall|i: int| 0 <= i < a.len() ==> ascii_fold(a[i]) == ascii_fold(b[i])
}

fn ascii_fold_exec(c: char) -> (r: u32)
    ensures
        r == ascii_fold(c),
{
    if 'A' <= c && c <= 'Z' {
        c as u32 + 32
    } else {
        c as u32
    }
}

/// Whether two strings are equal up to ASCII case.
pub fn eq_ignore_ascii_case(a: &str, b: &str) -> (r: bool)
    ensures
        r == eq_ignore_ascii_case_spec(a@, b@),
{
    let ac = chars_of(a);
    let bc = chars_of(b);
    if ac.len() != bc.len() {
        return false;
    }
    let mut i: usize = 0;
    while i < ac.len()
        invariant
            ac@ == a@,
            bc@ == b@,
            ac@.len() == bc@.len(),
            i <= ac@.len(),
            forall|j: int| 0 <= j < i ==> ascii_fold(a@[j]) == ascii_fold(b@[j]),
        decreases ac@.len() - i,
    {
        if ascii_fold_exec(ac[i]) != ascii_fold_exec(bc[i]) {
            return false;
        }
        i = i + 1;
    }
    true
}

} // verus!

verus! {

/// Unicode `White_Space`, the characters that `char::is_whitespace` accepts.
pub open spec fn is_space(c: char) -> bool {
    let u = c as u32;
    (9 <= u && u <= 13) || u == 32 || u == 0x85 || u == 0xA0 || u == 0x1680 || (0x2000 <= u && u
        <= 0x200A) || u == 0x2028 || u == 0x2029 || u == 0x202F || u == 0x205F || u == 0x3000
}

pub fn is_space_exec(c: char) -> (r: bool)
    ensures
        r == is_space(c),
{
    let u = c as u32;
    (9 <= u && u <= 13) || u == 32 || u == 0x85 || u == 0xA0 || u == 0x1680 || (0x2000 <= u && u
        <= 0x200A) || u == 0x2028 || u == 0x2029 || u == 0x202F || u == 0x205F || u == 0x3000
}

/// Words of `s[..i]` that are complete, and the word still being read.
pub open spec fn words_acc(s: Seq<char>, i: nat) -> (Seq<Seq<char>>, Seq<char>)
    decreases i,
{
    if i == 0 || i > s.len() {
        (seq![], seq![])
    } else {
        let (ws, cur) = words_acc(s, (i - 1) as nat);
        let c = s[i - 1];
        if is_space(c) {
            if cur.len() > 0 {
                (ws.push(cur), seq![])
            } else {
                (ws, cur)
            }
        } else {
            (ws, cur.push(c))
        }
    }
}

/// The maximal runs of non-whitespace characters, in order.
pub open spec fn words(s: Seq<char>) -> Seq<Seq<char>> {
    let (ws, cur) = words_acc(s, s.len());
    if cur.len() > 0 {
        ws.push(cur)
    } else {
        ws
    }
}

pub open spec fn views_of(v: Seq<String>) -> Seq<Seq<char>> {
    v.map_values(|w: String| w@)
}

/// The whitespace-separated words of `s`.
pub fn words_of(s: &str) -> (r: Vec<String>)
    ensures
        views_of(r@) == words(s@),
{
    let cs = chars_of(s);
    let n = cs.len();
    let mut ws: Vec<String> = Vec::new();
    let mut start: usize = 0;
    let mut in_word = false;
    let mut i: usize = 0;
    while i < n
        invariant
            cs@ == s@,
            n == s@.len(),
            i <= n,
            in_word ==> start < i,
            words_acc(s@, i as nat) == (
                views_of(ws@),
                if in_word {
                    s@.subrange(start as int, i as int)
                } else {
                    seq![]
                },
            ),
        decreases n - i,
    {
        let c = cs[i];
        proof {
            let prev = words_acc(s@, i as nat);
            assert(words_acc(s@, (i + 1) as nat) == {
                let (ws0, cur0) = prev;
                if is_space(c) {
                    if cur0.len() > 0 {
                        (ws0.push(cur0), seq![])
                    } else {
                        (ws0, cur0)
                    }
                } else {
                    (ws0, cur0.push(c))
                }
            });
        }
        if is_space_exec(c) {
            if in_word {
                let w = String::from_str(s.substring_char(start, i));
                ws.push(w);
                in_word = false;
                assert(views_of(ws@) =~= views_of(ws@.drop_last()).push(w@));
            }
        } else {
            if !in_word {
                start = i;
                in_word = true;
            }
        }
        i = i + 1;
        proof {
            if in_word {
                assert(s@.subrange(start as int, i as int) =~= s@.subrange(start as int, i - 1).push(c)
                    || start == i - 1);
            }
        }
        assert(words_acc(s@, i as nat) =~= (
            views_of(ws@),
            if in_word {
                s@.subrange(start as int, i as int)
            } else {
                seq![]
            },
        ));
    }
    if in_word {
        let w = String::from_str(s.substring_char(start, n));
        ws.push(w);
        assert(views_of(ws@) =~= views_of(ws@.drop_last()).push(w@));
    }
    assert(s@.len() == n);
    ws
}

} // verus!

verus! {

/// `s` without one trailing carriage return.
pub open spec fn strip_cr(s: Seq<char>) -> Seq<char> {
    if s.len() > 0 && s.last() == '\r' {
        s.drop_last()
    } else {
        s
    }
}

/// Lines of `s[..i]` that are complete, and the line still being read.
pub open spec fn lines_acc(s: Seq<char>, i: nat) -> (Seq<Seq<char>>, Seq<char>)
    decreases i,
{
    if i == 0 || i > s.len() {
        (seq![], seq![])
    } else {
        let (ls, cur) = lines_acc(s, (i - 1) as nat);
        let c = s[i - 1];
        if c == '\n' {
            (ls.push(strip_cr(cur)), seq![])
        } else {
            (ls, cur.push(c))
        }
    }
}

/// The lines of `s` as `str::lines` gives them: split after each `\n`, the
/// `\n` and a `\r` before it removed; a last line without `\n` is kept whole
/// when it is not empty.
pub open spec fn lines(s: Seq<char>) -> Seq<Seq<char>> {
    let (ls, cur) = lines_acc(s, s.len());
    if cur.len() > 0 {
        ls.push(cur)
    } else {
        ls
    }
}

/// The lines of `s`.
pub fn lines_of(s: &str) -> (r: Vec<String>)
    ensures
        views_of(r@) == lines(s@),
{
    let cs = chars_of(s);
    let n = cs.len();
    let mut ls: Vec<String> = Vec::new();
    let mut start: usize = 0;
    let mut i: usize = 0;
    while i < n
        invariant
            cs@ == s@,
            n == s@.len(),
            start <= i <= n,
            lines_acc(s@, i as nat) == (views_of(ls@), s@.subrange(start as int, i as int)),
        decreases n - i,
    {
        let c = cs[i];
        proof {
            let prev = lines_acc(s@, i as nat);
            assert(lines_acc(s@, (i + 1) as nat) == {
                let (ls0, cur0) = prev;
                if c == '\n' {
                    (ls0.push(strip_cr(cur0)), seq![])
                } else {
                    (ls0, cur0.push(c))
                }
            });
        }
        if c == '\n' {
            let end = if i > start && cs[i - 1] == '\r' {
                i - 1
            } else {
                i
            };
            let l = String::from_str(s.substring_char(start, end));
            assert(l@ =~= strip_cr(s@.subrange(start as int, i as int)));
            ls.push(l);
            assert(views_of(ls@) =~= views_of(ls@.drop_last()).push(l@));
            start = i + 1;
        }
        i = i + 1;
        assert(lines_acc(s@, i as nat) =~= (views_of(ls@), s@.subrange(start as int, i as int)));
    }
    if start < n {
        let l = String::from_str(s.substring_char(start, n));
        ls.push(l);
        assert(views_of(ls@) =~= views_of(ls@.drop_last()).push(l@));
    }
    assert(s@.subrange(start as int, n as int).len() == n - start);
    ls
}

/// Index just past the leading whitespace of `s[..]`, searching from `i`.
pub open spec fn skip_space(s: Seq<char>, i: int) -> int
    decreases s.len() - i,
{
    if i < 0 || i >= s.len() || !is_space(s[i]) {
        i
    } else {
        skip_space(s, i + 1)
    }
}

/// Index just past the last non-whitespace character of `s[..j]`.
pub open spec fn trim_end_at(s: Seq<char>, j: int) -> int
    decreases j,
{
    if j <= 0 || j > s.len() || !is_space(s[j - 1]) {
        j
    } else {
        trim_end_at(s, j - 1)
    }
}

/// `s` without leading and trailing whitespace.
pub open spec fn trim(s: Seq<char>) -> Seq<char> {
    let a = skip_space(s, 0);
    if a >= s.len() {
        seq![]
    } else {
        s.subrange(a, trim_end_at(s, s.len() as int))
    }
}

/// `s` without leading and trailing whitespace.
pub fn trimmed(s: &str) -> (r: String)
    ensures
        r@ == trim(s@),
{
    let cs = chars_of(s);
    let n = cs.len();
    let mut a: usize = 0;
    while a < n && is_space_exec(cs[a])
        invariant
            cs@ == s@,
            n == s@.len(),
            a <= n,
            skip_space(s@, a as int) == skip_space(s@, 0),
        decreases n - a,
    {
        a = a + 1;
    }
    if a >= n {
        return String::new();
    }
    let mut b: usize = n;
    while b > a && is_space_exec(cs[b - 1])
        invariant
            cs@ == s@,
            n == s@.len(),
            a < b <= n,
            a == skip_space(s@, 0),
            !is_space(s@[a as int]),
            trim_end_at(s@, b as int) == trim_end_at(s@, n as int),
        decreases b,
    {
        b = b - 1;
    }
    String::from_str(s.substring_char(a, b))
}

} // verus!

verus! {

pub open spec fn is_digit(c: char) -> bool {
    '0' <= c && c <= '9'
}

/// One or more decimal digits.
pub open spec fn all_digits(d: Seq<char>) -> bool {
    d.len() > 0 && forall|i: int| 0 <= i < d.len() ==> is_digit(#[trigger] d[i])
}

/// Value of a run of decimal digits.
pub open spec fn digits_value(d: Seq<char>) -> nat
    decreases d.len(),
{
    if d.len() == 0 {
        0
    } else {
        10 * digits_value(d.drop_last()) + ((d.last() as u32) - ('0' as u32)) as nat
    }
}

/// What `str::parse::<i32>` accepts: an optional sign, then one or more
/// decimal digits whose value fits.
pub open spec fn parse_i32_spec(t: Seq<char>) -> Option<i32> {
    if t.len() > 0 && t[0] == '-' {
        let d = t.drop_first();
        if all_digits(d) && digits_value(d) <= 0x8000_0000 {
            Some((-digits_value(d)) as i32)
        } else {
            None
        }
    } else {
        let d = if t.len() > 0 && t[0] == '+' {
            t.drop_first()
        } else {
            t
        };
        if all_digits(d) && digits_value(d) <= 0x7fff_ffff {
            Some(digits_value(d) as i32)
        } else {
            None
        }
    }
}

/// What `str::parse::<u16>` accepts: an optional `+`, then one or more
/// decimal digits whose value fits.
pub open spec fn parse_u16_spec(t: Seq<char>) -> Option<u16> {
    let d = if t.len() > 0 && t[0] == '+' {
        t.drop_first()
    } else {
        t
    };
    if all_digits(d) && digits_value(d) <= 0xffff {
        Some(digits_value(d) as u16)
    } else {
        None
    }
}

proof fn lemma_digits_prefix_grows(d: Seq<char>, k: int, n: int)
    requires
        0 <= k <= n <= d.len(),
        forall|i: int| 0 <= i < d.len() ==> is_digit(#[trigger] d[i]),
    ensures
        digits_value(d.subrange(0, k)) <= digits_value(d.subrange(0, n)),
    decreases n - k,
{
    if k < n {
        lemma_digits_prefix_grows(d, k, n - 1);
        assert(d.subrange(0, n).drop_last() =~= d.subrange(0, n - 1));
    }
}

/// Value of the digits `d[from..]`, or `None` when one of them is not a
/// digit, there are none, or the value exceeds `limit`.
pub fn digits_up_to(d: &Vec<char>, from: usize, limit: u64) -> (r: Option<u64>)
    requires
        from <= d@.len(),
        9 <= limit <= 0x1_0000_0000,
    ensures
        ({
            let t = d@.subrange(from as int, d@.len() as int);
            match r {
                Some(v) => all_digits(t) && v as int == digits_value(t) && v <= limit,
                None => !(all_digits(t) && digits_value(t) <= limit),
            }
        }),
{
    let ghost t = d@.subrange(from as int, d@.len() as int);
    if from >= d.len() {
        return None;
    }
    let mut acc: u64 = 0;
    let mut i: usize = from;
    while i < d.len()
        invariant
            t == d@.subrange(from as int, d@.len() as int),
            from <= i <= d@.len(),
            9 <= limit <= 0x1_0000_0000,
            forall|j: int| 0 <= j < i - from ==> is_digit(#[trigger] t[j]),
            acc as int == digits_value(t.subrange(0, i - from)),
            acc <= limit,
        decreases d@.len() - i,
    {
        let c = d[i];
        if !('0' <= c && c <= '9') {
            assert(!is_digit(t[i - from]));
            return None;
        }
        let dv = (c as u32 - '0' as u32) as u64;
        assert(t.subrange(0, i + 1 - from).drop_last() =~= t.subrange(0, i - from));
        if acc > (limit - dv) / 10 {
            proof {
                assert(digits_value(t.subrange(0, i + 1 - from)) == 10 * acc + dv);
                assert(10 * acc + dv > limit) by (nonlinear_arith)
                    requires
                        acc > (limit - dv) / 10,
                        dv <= 9,
                        dv <= limit,
                ;
                if all_digits(t) {
                    lemma_digits_prefix_grows(t, i + 1 - from, t.len() as int);
                    assert(t.subrange(0, t.len() as int) =~= t);
                }
            }
            return None;
        }
        assert(10 * acc + dv <= limit) by (nonlinear_arith)
            requires
                acc <= (limit - dv) / 10,
                dv <= limit,
        ;
        acc = acc * 10 + dv;
        i = i + 1;
    }
    assert(t.subrange(0, t.len() as int) =~= t);
    Some(acc)
}

/// Parses a signed 32-bit decimal integer as `str::parse::<i32>` does.
pub fn parse_i32(s: &str) -> (r: Option<i32>)
    ensures
        r == parse_i32_spec(s@),
{
    let cs = chars_of(s);
    if cs.len() > 0 && cs[0] == '-' {
        let v = digits_up_to(&cs, 1, 0x8000_0000);
        assert(cs@.subrange(1, cs@.len() as int) =~= s@.drop_first());
        match v {
            Some(v) => Some((0 - (v as i64)) as i32),
            None => None,
        }
    } else {
        let from: usize = if cs.len() > 0 && cs[0] == '+' {
            1
        } else {
            0
        };
        let v = digits_up_to(&cs, from, 0x7fff_ffff);
        assert(cs@.subrange(1, cs@.len() as int) =~= s@.drop_first());
        assert(cs@.subrange(0, cs@.len() as int) =~= s@);
        match v {
            Some(v) => Some(v as i32),
            None => None,
        }
    }
}

/// Parses an unsigned 16-bit decimal integer as `str::parse::<u16>` does.
pub fn parse_u16(s: &str) -> (r: Option<u16>)
    ensures
        r == parse_u16_spec(s@),
{
    let cs = chars_of(s);
    let from: usize = if cs.len() > 0 && cs[0] == '+' {
        1
    } else {
        0
    };
    let v = digits_up_to(&cs, from, 0xffff);
    assert(cs@.subrange(1, cs@.len() as int) =~= s@.drop_first());
    assert(cs@.subrange(0, cs@.len() as int) =~= s@);
    match v {
        Some(v) => Some(v as u16),
        None => None,
    }
}

} // verus!

verus! {

/// Position of the first `c` in `s` at or after `i`, or `s.len()` when there
/// is none.
pub open spec fn first_pos(s: Seq<char>, c: char, i: int) -> int
    decreases s.len() - i,
{
    if i < 0 || i >= s.len() {
        s.len() as int
    } else if s[i] == c {
        i
    } else {
        first_pos(s, c, i + 1)
    }
}

/// Position of the last `c` in `s[..j]`, or `-1` when there is none.
pub open spec fn last_pos(s: Seq<char>, c: char, j: int) -> int
    decreases j,
{
    if j <= 0 || j > s.len() {
        -1
    } else if s[j - 1] == c {
        j - 1
    } else {
        last_pos(s, c, j - 1)
    }
}

/// The part of `s` before its first `c` (all of `s` when there is none).
pub open spec fn before_first(s: Seq<char>, c: char) -> Seq<char> {
    s.subrange(0, first_pos(s, c, 0))
}

/// The part of `s` after its last `c` (all of `s` when there is none).
pub open spec fn after_last(s: Seq<char>, c: char) -> Seq<char> {
    s.subrange(last_pos(s, c, s.len() as int) + 1, s.len() as int)
}

pub open spec fn has_char(s: Seq<char>, c: char) -> bool {
    first_pos(s, c, 0) < s.len()
}

proof fn lemma_last_pos_bounds(s: Seq<char>, c: char, j: int)
    requires
        0 <= j <= s.len(),
    ensures
        -1 <= last_pos(s, c, j) < j,
    decreases j,
{
    if j > 0 && s[j - 1] != c {
        lemma_last_pos_bounds(s, c, j - 1);
    }
}

/// Position of the first `c` in `cs`, or its length when there is none.
pub fn first_pos_exec(cs: &Vec<char>, c: char) -> (r: usize)
    ensures
        r as int == first_pos(cs@, c, 0),
        r <= cs@.len(),
{
    let mut i: usize = 0;
    while i < cs.len() && cs[i] != c
        invariant
            i <= cs@.len(),
            first_pos(cs@, c, i as int) == first_pos(cs@, c, 0),
        decreases cs@.len() - i,
    {
        i = i + 1;
    }
    i
}

/// Index just past the last `c` in `cs`, or 0 when there is none.
pub fn after_last_pos_exec(cs: &Vec<char>, c: char) -> (r: usize)
    ensures
        r as int == last_pos(cs@, c, cs@.len() as int) + 1,
        r <= cs@.len(),
{
    let mut j: usize = cs.len();
    while j > 0 && cs[j - 1] != c
        invariant
            j <= cs@.len(),
            last_pos(cs@, c, j as int) == last_pos(cs@, c, cs@.len() as int),
        decreases j,
    {
        j = j - 1;
    }
    proof {
        lemma_last_pos_bounds(cs@, c, j as int);
    }
    j
}

/// The part of `s` after its last `c`.
pub fn after_last_of(s: &str, c: char) -> (r: String)
    ensures
        r@ == after_last(s@, c),
{
    let cs = chars_of(s);
    let a = after_last_pos_exec(&cs, c);
    String::from_str(s.substring_char(a, cs.len()))
}

/// The part of `s` before its first `c`.
pub fn before_first_of(s: &str, c: char) -> (r: String)
    ensures
        r@ == before_first(s@, c),
{
    let cs = chars_of(s);
    let a = first_pos_exec(&cs, c);
    String::from_str(s.substring_char(0, a))
}

/// Whether `c` occurs in `s`.
pub fn has_char_exec(s: &str, c: char) -> (r: bool)
    ensures
        r == has_char(s@, c),
{
    let cs = chars_of(s);
    first_pos_exec(&cs, c) < cs.len()
}

} // verus!

verus! {

/// Pieces of `s[..i]` separated by `c` that are complete, and the piece
/// still being read.
pub open spec fn split_acc(s: Seq<char>, c: char, i: nat) -> (Seq<Seq<char>>, Seq<char>)
    decreases i,
{
    if i == 0 || i > s.len() {
        (seq![], seq![])
    } else {
        let (ps, cur) = split_acc(s, c, (i - 1) as nat);
        if s[i - 1] == c {
            (ps.push(cur), seq![])
        } else {
            (ps, cur.push(s[i - 1]))
        }
    }
}

/// The pieces of `s` between occurrences of `c`, as `str::split` gives them
/// (always at least one, possibly empty).
pub open spec fn split_on(s: Seq<char>, c: char) -> Seq<Seq<char>> {
    let (ps, cur) = split_acc(s, c, s.len());
    ps.push(cur)
}

/// The pieces of `s` between occurrences of `c`.
pub fn split_of(s: &str, c: char) -> (r: Vec<String>)
    ensures
        views_of(r@) == split_on(s@, c),
{
    let cs = chars_of(s);
    let n = cs.len();
    let mut ps: Vec<String> = Vec::new();
    let mut start: usize = 0;
    let mut i: usize = 0;
    while i < n
        invariant
            cs@ == s@,
            n == s@.len(),
            start <= i <= n,
            split_acc(s@, c, i as nat) == (views_of(ps@), s@.subrange(start as int, i as int)),
        decreases n - i,
    {
        if cs[i] == c {
            let p = String::from_str(s.substring_char(start, i));
            ps.push(p);
            assert(views_of(ps@) =~= views_of(ps@.drop_last()).push(p@));
            start = i + 1;
        }
        i = i + 1;
        assert(split_acc(s@, c, i as nat) =~= (views_of(ps@), s@.subrange(start as int, i as int)));
    }
    let p = String::from_str(s.substring_char(start, n));
    ps.push(p);
    assert(views_of(ps@) =~= views_of(ps@.drop_last()).push(p@));
    ps
}

/// `s` with every `from` replaced by `to`.
pub open spec fn replace_char(s: Seq<char>, from: char, to: char) -> Seq<char> {
    s.map_values(|x: char| if x == from { to } else { x })
}

/// `s` with every `from` replaced by the one-character string `to`.
pub fn replace_char_of(s: &str, from: char, to: &str) -> (r: String)
    requires
        to@.len() == 1,
    ensures
        r@ == replace_char(s@, from, to@[0]),
{
    let cs = chars_of(s);
    let mut r = String::new();
    let mut i: usize = 0;
    while i < cs.len()
        invariant
            cs@ == s@,
            to@.len() == 1,
            i <= cs@.len(),
            r@ == replace_char(s@.subrange(0, i as int), from, to@[0]),
        decreases cs@.len() - i,
    {
        if cs[i] == from {
            r.append(to);
        } else {
            r.append(s.substring_char(i, i + 1));
        }
        i = i + 1;
        assert(r@ =~= replace_char(s@.subrange(0, i as int), from, to@[0]));
    }
    assert(s@.subrange(0, cs@.len() as int) =~= s@);
    r
}

/// A decimal rendering holds digits only.
pub proof fn lemma_decimal_digits(n: nat)
    ensures
        decimal(n).len() >= 1,
        forall|i: int| 0 <= i < decimal(n).len() ==> is_digit(#[trigger] decimal(n)[i]),
    decreases n,
{
    if n >= 10 {
        lemma_decimal_digits(n / 10);
    }
}

/// Distinct numbers have distinct decimal renderings.
pub proof fn lemma_decimal_injective(n: nat, m: nat)
    requires
        decimal(n) == decimal(m),
    ensures
        n == m,
    decreases n,
{
    lemma_decimal_digits(n / 10);
    lemma_decimal_digits(m / 10);
    if n < 10 && m < 10 {
        assert(decimal(n)[0] == digit_char(n));
        assert(decimal(m)[0] == digit_char(m));
    } else if n >= 10 && m >= 10 {
        let dn = decimal(n);
        assert(dn.drop_last() =~= decimal(n / 10));
        assert(decimal(m).drop_last() =~= decimal(m / 10));
        assert(dn.last() == digit_char(n % 10));
        assert(decimal(m).last() == digit_char(m % 10));
        lemma_decimal_injective(n / 10, m / 10);
    } else {
        assert(decimal(n).len() != decimal(m).len());
    }
}

/// Joining two pieces with a separator that the first pieces do not hold
/// can be undone.
pub proof fn lemma_join_cancel(x1: Seq<char>, y1: Seq<char>, x2: Seq<char>, y2: Seq<char>, c: char)
    requires
        x1 + seq![c] + y1 == x2 + seq![c] + y2,
        forall|i: int| 0 <= i < x1.len() ==> x1[i] != c,
        forall|i: int| 0 <= i < x2.len() ==> x2[i] != c,
    ensures
        x1 == x2,
        y1 == y2,
{
    let s1 = x1 + seq![c] + y1;
    let s2 = x2 + seq![c] + y2;
    if x1.len() < x2.len() {
        assert(s1[x1.len() as int] == c);
        assert(s2[x1.len() as int] == x2[x1.len() as int]);
    } else if x2.len() < x1.len() {
        assert(s2[x2.len() as int] == c);
        assert(s1[x2.len() as int] == x1[x2.len() as int]);
    } else {
        assert(x1 =~= s1.subrange(0, x1.len() as int));
        assert(x2 =~= s2.subrange(0, x2.len() as int));
        assert(y1 =~= s1.subrange(x1.len() as int + 1, s1.len() as int));
        assert(y2 =~= s2.subrange(x2.len() as int + 1, s2.len() as int));
    }
}

} // verus!
