//! Text helpers on character sequences: whitespace trimming, splitting text
//! nodes into list entries, and integer / decimal recognition.
use vstd::prelude::*;
use vstd::string::*;

verus! {

/// The characters that `char::is_whitespace` accepts (Unicode White_Space).
pub open spec fn is_ws(c: char) -> bool {
    c == '\t' || c == '\n' || c == '\u{0B}' || c == '\u{0C}' || c == '\r' || c == ' '
        || c == '\u{85}' || c == '\u{A0}' || c == '\u{1680}' || ('\u{2000}' <= c
        && c <= '\u{200A}') || c == '\u{2028}' || c == '\u{2029}' || c == '\u{202F}'
        || c == '\u{205F}' || c == '\u{3000}'
}

pub fn is_whitespace(c: char) -> (r: bool)
    ensures
        r == is_ws(c),
{
    c == '\t' || c == '\n' || c == '\u{0B}' || c == '\u{0C}' || c == '\r' || c == ' '
        || c == '\u{85}' || c == '\u{A0}' || c == '\u{1680}' || ('\u{2000}' <= c
        && c <= '\u{200A}') || c == '\u{2028}' || c == '\u{2029}' || c == '\u{202F}'
        || c == '\u{205F}' || c == '\u{3000}'
}

/// `s` without its leading whitespace.
pub open spec fn trim_start(s: Seq<char>) -> Seq<char>
    decreases s.len(),
{
    if s.len() > 0 && is_ws(s[0]) {
        trim_start(s.drop_first())
    } else {
        s
    }
}

/// `s` without its trailing whitespace.
pub open spec fn trim_end(s: Seq<char>) -> Seq<char>
    decreases s.len(),
{
    if s.len() > 0 && is_ws(s.last()) {
        trim_end(s.drop_last())
    } else {
        s
    }
}

/// `s` without leading and trailing whitespace.
pub open spec fn trim(s: Seq<char>) -> Seq<char> {
    trim_end(trim_start(s))
}

/// Returns `s` without leading and trailing whitespace.
pub fn trim_str(s: &str) -> (r: String)
    ensures
        r@ == trim(s@),
{
    let n = s.unicode_len();
    let mut a: usize = 0;
    assert(s@.subrange(0, n as int) =~= s@);
    while a < n && is_whitespace(s.get_char(a))
        invariant
            a <= n,
            n == s@.len(),
            trim_start(s@) == trim_start(s@.subrange(a as int, n as int)),
        decreases n - a,
    {
        assert(s@.subrange(a as int, n as int).drop_first() =~= s@.subrange(
            a as int + 1,
            n as int,
        ));
        a = a + 1;
    }
    assert(trim_start(s@) == s@.subrange(a as int, n as int));
    let mut b: usize = n;
    while b > a && is_whitespace(s.get_char(b - 1))
        invariant
            a <= b <= n,
            n == s@.len(),
            trim(s@) == trim_end(s@.subrange(a as int, b as int)),
        decreases b - a,
    {
        assert(s@.subrange(a as int, b as int).drop_last() =~= s@.subrange(
            a as int,
            b as int - 1,
        ));
        b = b - 1;
    }
    s.substring_char(a, b).to_owned()
}

/// Concatenation of a sequence of strings.
pub open spec fn concat(ts: Seq<Seq<char>>) -> Seq<char>
    decreases ts.len(),
{
    if ts.len() == 0 {
        Seq::empty()
    } else {
        concat(ts.drop_last()) + ts.last()
    }
}

/// The character views of a sequence of strings.
pub open spec fn views(v: Seq<String>) -> Seq<Seq<char>> {
    v.map_values(|s: String| s@)
}

/// Joins text nodes into one string.
pub fn join_texts(ts: &Vec<String>) -> (r: String)
    ensures
        r@ == concat(views(ts@)),
{
    let mut r = String::new();
    let mut i: usize = 0;
    while i < ts.len()
        invariant
            i <= ts.len(),
            r@ == concat(views(ts@.subrange(0, i as int))),
        decreases ts.len() - i,
    {
        assert(views(ts@.subrange(0, i as int + 1)).drop_last() =~= views(
            ts@.subrange(0, i as int),
        ));
        r.append(ts[i].as_str());
        i = i + 1;
    }
    assert(ts@.subrange(0, ts.len() as int) =~= ts@);
    r
}

/// Trimmed text content of a sequence of text nodes.
pub open spec fn text_content(ts: Seq<Seq<char>>) -> Seq<char> {
    trim(concat(ts))
}

/// Returns the trimmed concatenation of text nodes.
pub fn trimmed_text(ts: &Vec<String>) -> (r: String)
    ensures
        r@ == text_content(views(ts@)),
{
    let joined = join_texts(ts);
    trim_str(joined.as_str())
}

/// The pieces of `s` between newline characters (always at least one piece).
pub open spec fn lines(s: Seq<char>) -> Seq<Seq<char>>
    decreases s.len(),
{
    if s.len() == 0 {
        seq![Seq::empty()]
    } else {
        let r = lines(s.drop_last());
        if s.last() == '\n' {
            r.push(Seq::empty())
        } else {
            r.update(r.len() - 1, r.last().push(s.last()))
        }
    }
}

/// A trimmed piece is a list entry when it is neither empty nor a lone comma.
pub open spec fn is_entry(t: Seq<char>) -> bool {
    t.len() > 0 && t != seq![',']
}

/// The trimmed pieces of `ps` that are list entries, in order.
pub open spec fn entries(ps: Seq<Seq<char>>) -> Seq<Seq<char>>
    decreases ps.len(),
{
    if ps.len() == 0 {
        Seq::empty()
    } else {
        let r = entries(ps.drop_last());
        if is_entry(trim(ps.last())) {
            r.push(trim(ps.last()))
        } else {
            r
        }
    }
}

/// The list entries of a sequence of text nodes: each node split on newlines,
/// each piece trimmed, empty pieces and lone commas dropped, order kept.
pub open spec fn list_entries(ts: Seq<Seq<char>>) -> Seq<Seq<char>>
    decreases ts.len(),
{
    if ts.len() == 0 {
        Seq::empty()
    } else {
        list_entries(ts.drop_last()) + entries(lines(ts.last()))
    }
}

fn is_lone_comma(t: &str) -> (r: bool)
    ensures
        r == (t@ == seq![',']),
{
    if t.unicode_len() == 1 {
        let c = t.get_char(0);
        if c == ',' {
            assert(t@ =~= seq![',']);
        }
        c == ','
    } else {
        false
    }
}

/// Appends the list entries of one text node to `out`.
fn push_entries(t: &str, out: &mut Vec<String>)
    ensures
        views(final(out)@) == views(old(out)@) + entries(lines(t@)),
{
    let n = t.unicode_len();
    let mut start: usize = 0;
    let mut i: usize = 0;
    let ghost base = views(out@);
    let ghost mut done: Seq<Seq<char>> = Seq::empty();
    assert(t@.subrange(0, 0) =~= Seq::<char>::empty());
    assert(lines(t@.subrange(0, 0)) =~= seq![Seq::<char>::empty()]);
    while i < n
        invariant
            start <= i <= n,
            n == t@.len(),
            lines(t@.subrange(0, i as int)) == done.push(t@.subrange(start as int, i as int)),
            views(out@) == base + entries(done),
        decreases n - i,
    {
        let ghost pre = t@.subrange(0, i as int + 1);
        assert(pre.drop_last() =~= t@.subrange(0, i as int));
        let c = t.get_char(i);
        if c == '\n' {
            let piece = trim_str(t.substring_char(start, i));
            let ghost old_done = done;
            proof {
                done = done.push(t@.subrange(start as int, i as int));
                assert(done.drop_last() =~= old_done);
            }
            if piece.unicode_len() > 0 && !is_lone_comma(piece.as_str()) {
                let ghost before = out@;
                let ghost pv = piece@;
                out.push(piece);
                assert(views(out@) =~= views(before).push(pv));
                assert(entries(done) == entries(old_done).push(pv));
                assert(views(out@) =~= base + entries(done));
            }
            start = i + 1;
            assert(t@.subrange(start as int, i as int + 1) =~= Seq::<char>::empty());
        } else {
            assert(t@.subrange(start as int, i as int + 1) =~= t@.subrange(
                start as int,
                i as int,
            ).push(c));
        }
        i = i + 1;
    }
    assert(t@.subrange(0, n as int) =~= t@);
    let piece = trim_str(t.substring_char(start, n));
    let ghost old_done = done;
    proof {
        done = done.push(t@.subrange(start as int, n as int));
        assert(done.drop_last() =~= old_done);
        assert(done =~= lines(t@));
    }
    if piece.unicode_len() > 0 && !is_lone_comma(piece.as_str()) {
        let ghost before = out@;
        let ghost pv = piece@;
        out.push(piece);
        assert(views(out@) =~= views(before).push(pv));
        assert(entries(done) == entries(old_done).push(pv));
        assert(views(out@) =~= base + entries(done));
    }
}

/// Splits text nodes into list entries.
pub fn split_entries(ts: &Vec<String>) -> (r: Vec<String>)
    ensures
        views(r@) == list_entries(views(ts@)),
{
    let mut out: Vec<String> = Vec::new();
    let mut i: usize = 0;
    assert(views(out@) =~= list_entries(views(ts@.subrange(0, 0))));
    while i < ts.len()
        invariant
            i <= ts.len(),
            views(out@) == list_entries(views(ts@.subrange(0, i as int))),
        decreases ts.len() - i,
    {
        assert(views(ts@.subrange(0, i as int + 1)).drop_last() =~= views(
            ts@.subrange(0, i as int),
        ));
        push_entries(ts[i].as_str(), &mut out);
        i = i + 1;
    }
    assert(ts@.subrange(0, ts.len() as int) =~= ts@);
    out
}

/// Returns whether two strings hold the same characters.
pub fn str_eq(a: &str, b: &str) -> (r: bool)
    ensures
        r == (a@ == b@),
{
    let n = a.unicode_len();
    if n != b.unicode_len() {
        return false;
    }
    let mut i: usize = 0;
    while i < n
        invariant
            i <= n,
            n == a@.len(),
            n == b@.len(),
            forall|j: int| 0 <= j < i ==> a@[j] == b@[j],
        decreases n - i,
    {
        if a.get_char(i) != b.get_char(i) {
            return false;
        }
        i = i + 1;
    }
    assert(a@ =~= b@);
    true
}

pub open spec fn is_digit(c: char) -> bool {
    '0' <= c && c <= '9'
}

pub open spec fn digit_value(c: char) -> int {
    (c as u32) as int - ('0' as u32) as int
}

/// The value of a string of decimal digits.
pub open spec fn digits_value(s: Seq<char>) -> int
    decreases s.len(),
{
    if s.len() == 0 {
        0
    } else {
        digits_value(s.drop_last()) * 10 + digit_value(s.last())
    }
}

/// One or more decimal digits.
pub open spec fn all_digits(s: Seq<char>) -> bool {
    s.len() > 0 && forall|i: int| 0 <= i < s.len() ==> is_digit(#[trigger] s[i])
}

pub open spec fn has_sign(s: Seq<char>) -> bool {
    s.len() > 0 && (s[0] == '+' || s[0] == '-')
}

/// The integer that `s` writes: an optional `+` or `-`, then decimal digits.
pub open spec fn int_value(s: Seq<char>) -> Option<int> {
    if has_sign(s) {
        if all_digits(s.drop_first()) {
            Some(
                if s[0] == '-' {
                    -digits_value(s.drop_first())
                } else {
                    digits_value(s.drop_first())
                },
            )
        } else {
            None
        }
    } else if all_digits(s) {
        Some(digits_value(s))
    } else {
        None
    }
}

/// The `i32` that `s` writes, if it writes one in range.
pub open spec fn i32_value(s: Seq<char>) -> Option<i32> {
    match int_value(s) {
        Some(v) => if i32::MIN <= v <= i32::MAX {
            Some(v as i32)
        } else {
            None
        },
        None => None,
    }
}

pub const MAGNITUDE_CAP: u64 = 2147483649;

/// Reads a 32-bit signed decimal integer.
pub fn parse_i32(s: &str) -> (r: Option<i32>)
    ensures
        r == i32_value(s@),
{
    let n = s.unicode_len();
    if n == 0 {
        return None;
    }
    let first = s.get_char(0);
    let neg = first == '-';
    let start: usize = if first == '+' || first == '-' { 1 } else { 0 };
    if start == n {
        return None;
    }
    let ghost body = s@.subrange(start as int, n as int);
    assert(start == 1 ==> body =~= s@.drop_first());
    assert(start == 0 ==> body =~= s@);
    let mut acc: u64 = 0;
    let mut i: usize = start;
    assert(s@.subrange(start as int, start as int) =~= Seq::<char>::empty());
    while i < n
        invariant
            start <= i <= n,
            n == s@.len(),
            acc <= MAGNITUDE_CAP,
            neg == (s@[0] == '-'),
            body == s@.subrange(start as int, n as int),
            start == 1 ==> body == s@.drop_first(),
            start == 0 ==> body == s@,
            (start == 1) == has_sign(s@),
            start <= 1,
            acc as int == if digits_value(s@.subrange(start as int, i as int)) < MAGNITUDE_CAP {
                digits_value(s@.subrange(start as int, i as int))
            } else {
                MAGNITUDE_CAP as int
            },
            forall|j: int| start <= j < i ==> is_digit(#[trigger] s@[j]),
        decreases n - i,
    {
        let c = s.get_char(i);
        if !('0' <= c && c <= '9') {
            assert(body[i - start] == c);
            assert(!is_digit(body[i - start]));
            return None;
        }
        let d = (c as u32 - '0' as u32) as u64;
        assert(s@.subrange(start as int, i as int + 1).drop_last() =~= s@.subrange(
            start as int,
            i as int,
        ));
        let next = acc * 10 + d;
        acc = if next < MAGNITUDE_CAP { next } else { MAGNITUDE_CAP };
        i = i + 1;
    }
    assert(s@.subrange(start as int, n as int) =~= body);
    assert(all_digits(body)) by {
        assert forall|j: int| 0 <= j < body.len() implies is_digit(#[trigger] body[j]) by {
            assert(body[j] == s@[j + start]);
        }
    }
    if neg {
        if acc <= 2147483648 {
            Some((0 - (acc as i64)) as i32)
        } else {
            None
        }
    } else {
        if acc <= 2147483647 {
            Some(acc as i32)
        } else {
            None
        }
    }
}

/// Number of `.` characters in `s`.
pub open spec fn dot_count(s: Seq<char>) -> nat
    decreases s.len(),
{
    if s.len() == 0 {
        0
    } else {
        dot_count(s.drop_last()) + if s.last() == '.' { 1nat } else { 0nat }
    }
}

/// Digits with at most one `.`, and at least one digit.
pub open spec fn is_decimal_body(s: Seq<char>) -> bool {
    &&& forall|i: int| 0 <= i < s.len() ==> is_digit(#[trigger] s[i]) || s[i] == '.'
    &&& dot_count(s) <= 1
    &&& exists|i: int| 0 <= i < s.len() && is_digit(#[trigger] s[i])
}

/// Returns whether `s` is digits with at most one `.` and at least one digit.
pub fn check_decimal_body(s: &str) -> (r: bool)
    ensures
        r == is_decimal_body(s@),
{
    let n = s.unicode_len();
    let mut dots: usize = 0;
    let mut saw_digit = false;
    let mut i: usize = 0;
    assert(s@.subrange(0, 0) =~= Seq::<char>::empty());
    while i < n
        invariant
            i <= n,
            n == s@.len(),
            dots as nat == dot_count(s@.subrange(0, i as int)),
            dots <= 1,
            saw_digit == exists|j: int| 0 <= j < i && is_digit(#[trigger] s@[j]),
            forall|j: int| 0 <= j < i ==> is_digit(#[trigger] s@[j]) || s@[j] == '.',
        decreases n - i,
    {
        let c = s.get_char(i);
        assert(s@.subrange(0, i as int + 1).drop_last() =~= s@.subrange(0, i as int));
        if '0' <= c && c <= '9' {
            saw_digit = true;
        } else if c == '.' {
            if dots == 1 {
                assert(dot_count(s@.subrange(0, i as int + 1)) == 2);
                proof {
                    lemma_dot_count_prefix(s@, i as int + 1);
                }
                return false;
            }
            dots = dots + 1;
        } else {
            assert(!(is_digit(s@[i as int]) || s@[i as int] == '.'));
            return false;
        }
        i = i + 1;
    }
    assert(s@.subrange(0, n as int) =~= s@);
    saw_digit
}

pub open spec fn is_exp_char(c: char) -> bool {
    c == 'e' || c == 'E'
}

/// An exponent after the `e`: an optional sign, then decimal digits.
pub open spec fn exponent_ok(t: Seq<char>) -> bool {
    all_digits(t) || (has_sign(t) && all_digits(t.drop_first()))
}

/// A number as `f32` parsing writes it: a decimal body, then an optional
/// exponent (`4.5`, `.5`, `5.`, `1e5`, `2.5E-3`).
pub open spec fn is_float_number(b: Seq<char>) -> bool {
    is_decimal_body(b) || exists|k: int|
        0 <= k < b.len() && is_exp_char(#[trigger] b[k]) && is_decimal_body(b.subrange(0, k))
            && exponent_ok(b.subrange(k + 1, b.len() as int))
}

/// `c` is the lower-case letter `l`, or its upper-case form.
pub open spec fn ci_eq(c: char, l: char) -> bool {
    c == l || (c as u32) + 32 == (l as u32)
}

/// `b` spells the lower-case word `w`, letters in either case.
pub open spec fn ci_word(b: Seq<char>, w: Seq<char>) -> bool {
    b.len() == w.len() && forall|i: int| 0 <= i < b.len() ==> ci_eq(#[trigger] b[i], w[i])
}

/// The words that `f32` parsing reads as infinity or not-a-number.
pub open spec fn is_float_special(b: Seq<char>) -> bool {
    ci_word(b, "inf"@) || ci_word(b, "infinity"@) || ci_word(b, "nan"@)
}

/// The text that `f32::from_str` accepts, by the grammar its documentation
/// gives: an optional sign, then `inf`, `infinity` or `nan` in either case,
/// or a number.
pub open spec fn is_float_text(s: Seq<char>) -> bool {
    let b = if has_sign(s) {
        s.drop_first()
    } else {
        s
    };
    is_float_special(b) || is_float_number(b)
}

fn check_ci_word(b: &str, w: &str) -> (r: bool)
    ensures
        r == ci_word(b@, w@),
{
    let n = b.unicode_len();
    if n != w.unicode_len() {
        return false;
    }
    let mut i: usize = 0;
    while i < n
        invariant
            i <= n,
            n == b@.len(),
            n == w@.len(),
            forall|j: int| 0 <= j < i ==> ci_eq(#[trigger] b@[j], w@[j]),
        decreases n - i,
    {
        let c = b.get_char(i);
        let l = w.get_char(i);
        if !(c == l || (c as u32) + 32 == (l as u32)) {
            assert(!ci_eq(b@[i as int], w@[i as int]));
            return false;
        }
        i = i + 1;
    }
    true
}

fn check_digits(t: &str) -> (r: bool)
    ensures
        r == all_digits(t@),
{
    let n = t.unicode_len();
    if n == 0 {
        return false;
    }
    let mut i: usize = 0;
    while i < n
        invariant
            i <= n,
            n == t@.len(),
            forall|j: int| 0 <= j < i ==> is_digit(#[trigger] t@[j]),
        decreases n - i,
    {
        let c = t.get_char(i);
        if !('0' <= c && c <= '9') {
            assert(!is_digit(t@[i as int]));
            return false;
        }
        i = i + 1;
    }
    true
}

fn check_exponent(t: &str) -> (r: bool)
    ensures
        r == exponent_ok(t@),
{
    let n = t.unicode_len();
    if n > 0 {
        let c = t.get_char(0);
        if c == '+' || c == '-' {
            let rest = t.substring_char(1, n);
            assert(rest@ =~= t@.drop_first());
            let r = check_digits(rest);
            assert(!is_digit(t@[0]));
            assert(!all_digits(t@));
            return r;
        }
    }
    check_digits(t)
}

fn check_float_number(b: &str) -> (r: bool)
    ensures
        r == is_float_number(b@),
{
    let n = b.unicode_len();
    let mut k: usize = 0;
    while k < n && !(b.get_char(k) == 'e' || b.get_char(k) == 'E')
        invariant
            k <= n,
            n == b@.len(),
            forall|j: int| 0 <= j < k ==> !is_exp_char(#[trigger] b@[j]),
        decreases n - k,
    {
        k = k + 1;
    }
    if k == n {
        return check_decimal_body(b);
    }
    let mant = b.substring_char(0, k);
    let exp = b.substring_char(k + 1, n);
    let r = check_decimal_body(mant) && check_exponent(exp);
    proof {
        assert(is_exp_char(b@[k as int]));
        assert(!(is_digit(b@[k as int]) || b@[k as int] == '.'));
        assert(!is_decimal_body(b@));
        if !r {
            assert forall|k2: int|
                0 <= k2 < b@.len() && is_exp_char(#[trigger] b@[k2]) implies !(is_decimal_body(
                b@.subrange(0, k2),
            ) && exponent_ok(b@.subrange(k2 + 1, b@.len() as int))) by {
                if k2 > k {
                    let p = b@.subrange(0, k2);
                    assert(p[k as int] == b@[k as int]);
                    assert(!(is_digit(p[k as int]) || p[k as int] == '.'));
                }
            }
        }
    }
    r
}

/// Returns whether `f32` parsing accepts `s`.
pub fn check_float(s: &str) -> (r: bool)
    ensures
        r == is_float_text(s@),
{
    let n = s.unicode_len();
    let b = if n > 0 && (s.get_char(0) == '+' || s.get_char(0) == '-') {
        let rest = s.substring_char(1, n);
        assert(rest@ =~= s@.drop_first());
        rest
    } else {
        s
    };
    check_ci_word(b, "inf") || check_ci_word(b, "infinity") || check_ci_word(b, "nan")
        || check_float_number(b)
}

proof fn lemma_dot_count_prefix(s: Seq<char>, k: int)
    requires
        0 <= k <= s.len(),
    ensures
        dot_count(s.subrange(0, k)) <= dot_count(s),
    decreases s.len() - k,
{
    if k < s.len() {
        assert(s.subrange(0, k + 1).drop_last() =~= s.subrange(0, k));
        lemma_dot_count_prefix(s, k + 1);
    } else {
        assert(s.subrange(0, k) =~= s);
    }
}

} // verus!
