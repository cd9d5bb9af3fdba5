//! Character-level helpers for the strings that pass through the bot.
//!
//! Every helper is specified over `Seq<char>`, the view of `str` and `String`.

use vstd::prelude::*;
use vstd::string::*;

verus! {

/// `String::push` of std, taken on trust from its documentation: it appends the given character
/// to the end of the string and leaves what was there as it was.
pub assume_specification[ String::push ](s: &mut String, c: char)
    ensures
        final(s)@ == old(s)@.push(c),
;

/// The characters of `s`, in order.
pub fn to_chars(s: &str) -> (v: Vec<char>)
    ensures
        v@ == s@,
{
    let mut v: Vec<char> = Vec::new();
    for c in it: s.chars()
        invariant
            v@ == it.seq().take(it.index() as int),
            it.seq() == s@,
    {
        v.push(c);
    }
    v
}

/// The string made of `v[from..to]`.
pub(crate) fn from_chars(v: &Vec<char>, from: usize, to: usize) -> (s: String)
    requires
        from <= to <= v.len(),
    ensures
        s@ == v@.subrange(from as int, to as int),
{
    let mut s = String::new();
    let mut i: usize = from;
    while i < to
        invariant
            from <= i <= to <= v.len(),
            s@ == v@.subrange(from as int, i as int),
        decreases to - i,
    {
        s.push(v[i]);
        i += 1;
    }
    s
}

/// An owned copy of `s`.
pub fn owned(s: &str) -> (r: String)
    ensures
        r@ == s@,
{
    let v = to_chars(s);
    let r = from_chars(&v, 0, v.len());
    assert(v@.subrange(0, v@.len() as int) == v@);
    r
}

/// Whether two strings hold the same characters.
pub fn same_text(a: &str, b: &str) -> (r: bool)
    ensures
        r == (a@ == b@),
{
    let x = to_chars(a);
    let y = to_chars(b);
    if x.len() != y.len() {
        return false;
    }
    let mut i: usize = 0;
    while i < x.len()
        invariant
            i <= x.len(),
            x.len() == y.len(),
            x@ == a@,
            y@ == b@,
            x@.take(i as int) == y@.take(i as int),
        decreases x.len() - i,
    {
        if x[i] != y[i] {
            assert(a@[i as int] != b@[i as int]);
            return false;
        }
        assert(x@.take(i + 1) == x@.take(i as int).push(x@[i as int]));
        assert(y@.take(i + 1) == y@.take(i as int).push(y@[i as int]));
        i += 1;
    }
    assert(x@.take(x@.len() as int) == x@);
    assert(y@.take(y@.len() as int) == y@);
    true
}

/// The code points with the Unicode property `White_Space`.
pub open spec fn is_space(c: char) -> bool {
    let n = c as u32;
    (0x09 <= n <= 0x0D) || n == 0x20 || n == 0x85 || n == 0xA0 || n == 0x1680 || (0x2000 <= n
        <= 0x200A) || n == 0x2028 || n == 0x2029 || n == 0x202F || n == 0x205F || n == 0x3000
}

/// Exec counterpart of [`is_space`].
pub fn is_whitespace(c: char) -> (r: bool)
    ensures
        r == is_space(c),
{
    let n: u32 = c as u32;
    (0x09 <= n && n <= 0x0D) || n == 0x20 || n == 0x85 || n == 0xA0 || n == 0x1680 || (0x2000 <= n
        && n <= 0x200A) || n == 0x2028 || n == 0x2029 || n == 0x202F || n == 0x205F || n == 0x3000
}

/// `s` without its leading whitespace.
pub open spec fn trim_start(s: Seq<char>) -> Seq<char>
    decreases s.len(),
{
    if s.len() > 0 && is_space(s[0]) {
        trim_start(s.drop_first())
    } else {
        s
    }
}

/// `s` without its trailing whitespace.
pub open spec fn trim_end(s: Seq<char>) -> Seq<char>
    decreases s.len(),
{
    if s.len() > 0 && is_space(s.last()) {
        trim_end(s.drop_last())
    } else {
        s
    }
}

/// `s` without leading and trailing whitespace.
pub open spec fn trimmed(s: Seq<char>) -> Seq<char> {
    trim_end(trim_start(s))
}

/// Every character of `s` is whitespace.
pub open spec fn all_space(s: Seq<char>) -> bool {
    forall|i: int| 0 <= i < s.len() ==> is_space(#[trigger] s[i])
}

/// Dropping `i` whitespace characters from the front does not change what `trim_start` gives.
pub proof fn lemma_trim_start_skips(s: Seq<char>, i: int)
    requires
        0 <= i <= s.len(),
        all_space(s.take(i)),
    ensures
        trim_start(s) == trim_start(s.skip(i)),
    decreases i,
{
    if i == 0 {
        assert(s.skip(0) == s);
    } else {
        assert(s.take(i)[0] == s[0]);
        let t = s.drop_first();
        assert forall|k: int| 0 <= k < t.take(i - 1).len() implies is_space(
            #[trigger] t.take(i - 1)[k],
        ) by {
            assert(t.take(i - 1)[k] == s.take(i)[k + 1]);
        }
        lemma_trim_start_skips(t, i - 1);
        assert(t.skip(i - 1) == s.skip(i));
    }
}

/// Dropping whitespace characters from the back does not change what `trim_end` gives.
pub proof fn lemma_trim_end_skips(s: Seq<char>, j: int)
    requires
        0 <= j <= s.len(),
        all_space(s.skip(j)),
    ensures
        trim_end(s) == trim_end(s.take(j)),
    decreases s.len() - j,
{
    if j == s.len() {
        assert(s.take(j) == s);
    } else {
        assert(s.skip(j)[s.len() - j - 1] == s.last());
        let t = s.drop_last();
        assert forall|k: int| 0 <= k < t.skip(j).len() implies is_space(#[trigger] t.skip(j)[k]) by {
            assert(t.skip(j)[k] == s.skip(j)[k]);
        }
        lemma_trim_end_skips(t, j);
        assert(t.take(j) == s.take(j));
    }
}

/// Where all before `i` and all from `j` on is whitespace, and the characters at both ends of
/// the stretch between them are not, `trimmed(s)` is that stretch.
pub proof fn lemma_trimmed_between(s: Seq<char>, i: int, j: int)
    requires
        0 <= i <= j <= s.len(),
        all_space(s.take(i)),
        all_space(s.skip(j)),
        i < j ==> !is_space(s[i]) && !is_space(s[j - 1]),
    ensures
        trimmed(s) == s.subrange(i, j),
{
    if i == j {
        assert forall|k: int| 0 <= k < s.take(s.len() as int).len() implies is_space(
            #[trigger] s.take(s.len() as int)[k],
        ) by {
            if k < i {
                assert(s.take(i)[k] == s[k]);
            } else {
                assert(s.skip(j)[k - j] == s[k]);
            }
        }
        lemma_trim_start_skips(s, s.len() as int);
        assert(s.skip(s.len() as int) == Seq::<char>::empty());
        assert(s.subrange(i, j) == Seq::<char>::empty());
    } else {
        let t = s.skip(i);
        lemma_trim_start_skips(s, i);
        assert(t[0] == s[i]);
        assert(t.skip(j - i) == s.skip(j));
        lemma_trim_end_skips(t, j - i);
        let core = t.take(j - i);
        assert(core.last() == s[j - 1]);
        assert(core == s.subrange(i, j));
    }
}

/// `trimmed(s)` is the stretch of `s` between its first and its last character that is not
/// whitespace; it is empty exactly when `s` holds nothing but whitespace.
pub proof fn lemma_trimmed_is_core(s: Seq<char>)
    ensures
        exists|i: int, j: int|
            #![trigger s.subrange(i, j)]
            0 <= i <= j <= s.len() && trimmed(s) == s.subrange(i, j) && all_space(s.take(i))
                && all_space(s.skip(j)) && (i < j ==> !is_space(s[i]) && !is_space(s[j - 1])),
        trimmed(s).len() == 0 <==> all_space(s),
{
    let i = leading_spaces(s);
    lemma_leading_spaces(s);
    let t = s.skip(i);
    let k = trailing_spaces(t);
    lemma_trailing_spaces(t);
    let j = s.len() - k;
    assert(t.skip(t.len() - k) == s.skip(j));
    if i < j {
        assert(t[j - 1 - i] == s[j - 1]);
    }
    lemma_trimmed_between(s, i, j);
    if all_space(s) && i < s.len() {
        assert(is_space(s[i]));
    }
    if trimmed(s).len() == 0 {
        assert forall|x: int| 0 <= x < s.len() implies is_space(#[trigger] s[x]) by {
            if x < i {
                assert(s.take(i)[x] == s[x]);
            } else {
                assert(s.skip(j)[x - j] == s[x]);
            }
        }
    }
}

/// Trimming what is trimmed changes nothing.
pub proof fn lemma_trimmed_twice(s: Seq<char>)
    ensures
        trimmed(trimmed(s)) == trimmed(s),
{
    lemma_trimmed_is_core(s);
    let t = trimmed(s);
    if t.len() > 0 {
        let (i, j) = choose|i: int, j: int|
            #![trigger s.subrange(i, j)]
            0 <= i <= j <= s.len() && trimmed(s) == s.subrange(i, j) && all_space(s.take(i))
                && all_space(s.skip(j)) && (i < j ==> !is_space(s[i]) && !is_space(s[j - 1]));
        assert(t[0] == s[i]);
        assert(t.last() == s[j - 1]);
    }
}

/// How many whitespace characters `s` starts with.
pub open spec fn leading_spaces(s: Seq<char>) -> int
    decreases s.len(),
{
    if s.len() > 0 && is_space(s[0]) {
        1 + leading_spaces(s.drop_first())
    } else {
        0
    }
}

/// How many whitespace characters `s` ends with.
pub open spec fn trailing_spaces(s: Seq<char>) -> int
    decreases s.len(),
{
    if s.len() > 0 && is_space(s.last()) {
        1 + trailing_spaces(s.drop_last())
    } else {
        0
    }
}

/// `leading_spaces(s)` counts exactly the whitespace prefix of `s`.
pub proof fn lemma_leading_spaces(s: Seq<char>)
    ensures
        0 <= leading_spaces(s) <= s.len(),
        all_space(s.take(leading_spaces(s))),
        leading_spaces(s) < s.len() ==> !is_space(s[leading_spaces(s)]),
    decreases s.len(),
{
    if s.len() > 0 && is_space(s[0]) {
        let t = s.drop_first();
        lemma_leading_spaces(t);
        let n = leading_spaces(s);
        assert forall|k: int| 0 <= k < s.take(n).len() implies is_space(#[trigger] s.take(n)[k]) by {
            if k > 0 {
                assert(s.take(n)[k] == t.take(n - 1)[k - 1]);
            }
        }
        if n < s.len() {
            assert(s[n] == t[n - 1]);
        }
    }
}

/// `trailing_spaces(s)` counts exactly the whitespace suffix of `s`.
pub proof fn lemma_trailing_spaces(s: Seq<char>)
    ensures
        0 <= trailing_spaces(s) <= s.len(),
        all_space(s.skip(s.len() - trailing_spaces(s))),
        trailing_spaces(s) < s.len() ==> !is_space(s[s.len() - trailing_spaces(s) - 1]),
    decreases s.len(),
{
    if s.len() > 0 && is_space(s.last()) {
        let t = s.drop_last();
        lemma_trailing_spaces(t);
        let n = trailing_spaces(s);
        let from = s.len() - n;
        assert forall|k: int| 0 <= k < s.skip(from).len() implies is_space(
            #[trigger] s.skip(from)[k],
        ) by {
            if k < n - 1 {
                assert(s.skip(from)[k] == t.skip(from)[k]);
            }
        }
        if n < s.len() {
            assert(s[from - 1] == t[from - 1]);
        }
    }
}

/// `s` without leading and trailing whitespace, as `str::trim` gives it.
pub fn trim(s: &str) -> (r: String)
    ensures
        r@ == trimmed(s@),
{
    let v = to_chars(s);
    let mut i: usize = 0;
    while i < v.len() && is_whitespace(v[i])
        invariant
            i <= v.len(),
            all_space(v@.take(i as int)),
        decreases v.len() - i,
    {
        assert forall|k: int| 0 <= k < v@.take(i + 1).len() implies is_space(
            #[trigger] v@.take(i + 1)[k],
        ) by {
            if k < i {
                assert(v@.take(i + 1)[k] == v@.take(i as int)[k]);
            }
        }
        i += 1;
    }
    let mut j: usize = v.len();
    while j > i && is_whitespace(v[j - 1])
        invariant
            i <= j <= v.len(),
            all_space(v@.skip(j as int)),
        decreases j,
    {
        assert forall|k: int| 0 <= k < v@.skip(j - 1).len() implies is_space(
            #[trigger] v@.skip(j - 1)[k],
        ) by {
            if k > 0 {
                assert(v@.skip(j - 1)[k] == v@.skip(j as int)[k - 1]);
            }
        }
        j -= 1;
    }
    proof {
        lemma_trimmed_between(v@, i as int, j as int);
    }
    from_chars(&v, i, j)
}

/// Whether `s` holds nothing but whitespace, that is whether `s.trim()` is empty.
pub fn is_blank(s: &str) -> (r: bool)
    ensures
        r == (trimmed(s@).len() == 0),
        r == all_space(s@),
{
    let v = to_chars(s);
    let mut i: usize = 0;
    while i < v.len()
        invariant
            i <= v.len(),
            v@ == s@,
            all_space(v@.take(i as int)),
        decreases v.len() - i,
    {
        if !is_whitespace(v[i]) {
            proof {
                assert(!is_space(s@[i as int]));
                lemma_trimmed_is_core(s@);
            }
            return false;
        }
        assert forall|k: int| 0 <= k < v@.take(i + 1).len() implies is_space(
            #[trigger] v@.take(i + 1)[k],
        ) by {
            if k < i {
                assert(v@.take(i + 1)[k] == v@.take(i as int)[k]);
            }
        }
        i += 1;
    }
    proof {
        assert(v@.take(v@.len() as int) == v@);
        lemma_trimmed_is_core(s@);
    }
    true
}

/// The position of the first `c` in `s` at or after `from`, or `s.len()` where there is none.
pub open spec fn find(s: Seq<char>, c: char, from: int) -> int
    decreases s.len() - from,
{
    if from < 0 || from >= s.len() {
        s.len() as int
    } else if s[from] == c {
        from
    } else {
        find(s, c, from + 1)
    }
}

/// `find` gives the least position at or after `from` that holds `c`.
pub proof fn lemma_find(s: Seq<char>, c: char, from: int)
    requires
        0 <= from <= s.len(),
    ensures
        from <= find(s, c, from) <= s.len(),
        find(s, c, from) < s.len() ==> s[find(s, c, from)] == c,
        forall|k: int| from <= k < find(s, c, from) ==> s[k] != c,
    decreases s.len() - from,
{
    if from < s.len() && s[from] != c {
        lemma_find(s, c, from + 1);
    }
}

/// Exec counterpart of [`find`].
pub(crate) fn find_char(v: &Vec<char>, c: char, from: usize) -> (r: usize)
    requires
        from <= v.len(),
    ensures
        r == find(v@, c, from as int),
        from <= r <= v.len(),
        r < v.len() ==> v@[r as int] == c,
        forall|k: int| from <= k < r ==> v@[k] != c,
{
    proof {
        lemma_find(v@, c, from as int);
    }
    let mut i: usize = from;
    while i < v.len() && v[i] != c
        invariant
            from <= i <= v.len(),
            find(v@, c, from as int) == find(v@, c, i as int),
        decreases v.len() - i,
    {
        i += 1;
    }
    i
}

/// The decimal digit for `d`, which is below ten.
pub open spec fn digit(d: int) -> char {
    if d == 0 {
        '0'
    } else if d == 1 {
        '1'
    } else if d == 2 {
        '2'
    } else if d == 3 {
        '3'
    } else if d == 4 {
        '4'
    } else if d == 5 {
        '5'
    } else if d == 6 {
        '6'
    } else if d == 7 {
        '7'
    } else if d == 8 {
        '8'
    } else {
        '9'
    }
}

/// Exec counterpart of [`digit`].
fn digit_char(d: u64) -> (c: char)
    requires
        d < 10,
    ensures
        c == digit(d as int),
{
    if d == 0 {
        '0'
    } else if d == 1 {
        '1'
    } else if d == 2 {
        '2'
    } else if d == 3 {
        '3'
    } else if d == 4 {
        '4'
    } else if d == 5 {
        '5'
    } else if d == 6 {
        '6'
    } else if d == 7 {
        '7'
    } else if d == 8 {
        '8'
    } else {
        '9'
    }
}

/// The decimal numeral of `n`, without sign or leading zeros.
pub open spec fn decimal_nat(n: nat) -> Seq<char>
    decreases n,
{
    if n < 10 {
        seq![digit(n as int)]
    } else {
        decimal_nat(n / 10).push(digit((n % 10) as int))
    }
}

/// The decimal numeral of `n`, with a leading `-` where `n` is negative.
pub open spec fn decimal(n: int) -> Seq<char> {
    if n < 0 {
        seq!['-'] + decimal_nat((-n) as nat)
    } else {
        decimal_nat(n as nat)
    }
}

/// Appends the decimal numeral of `n` to `out`.
pub fn push_decimal(out: &mut String, n: u64)
    ensures
        final(out)@ == old(out)@ + decimal_nat(n as nat),
{
    let mut low: Vec<char> = Vec::new();
    let mut m: u64 = n;
    while m >= 10
        invariant
            decimal_nat(n as nat) == decimal_nat(m as nat) + low@.reverse(),
        decreases m,
    {
        let c = digit_char(m % 10);
        proof {
            let before = low@;
            let after = low@.push(c);
            assert(after.reverse() == seq![c] + before.reverse());
            assert(decimal_nat(m as nat) == decimal_nat((m / 10) as nat).push(c));
            assert(decimal_nat((m / 10) as nat).push(c) + before.reverse() == decimal_nat(
                (m / 10) as nat,
            ) + (seq![c] + before.reverse()));
        }
        low.push(c);
        m = m / 10;
    }
    out.push(digit_char(m));
    let ghost head = old(out)@ + decimal_nat(m as nat);
    assert(out@ == head);
    let mut k: usize = low.len();
    while k > 0
        invariant
            k <= low.len(),
            out@ == head + low@.reverse().take(low.len() - k),
        decreases k,
    {
        k -= 1;
        out.push(low[k]);
        proof {
            let r = low@.reverse();
            let done = low.len() - k;
            assert(r.take(done) == r.take(done - 1).push(r[done - 1]));
            assert(r[done - 1] == low@[k as int]);
            assert((head + r.take(done - 1)).push(r[done - 1]) == head + r.take(done - 1).push(
                r[done - 1],
            ));
        }
    }
    proof {
        let r = low@.reverse();
        assert(r.take(low.len() as int) == r);
        assert(old(out)@ + decimal_nat(m as nat) + r == old(out)@ + (decimal_nat(m as nat) + r));
    }
}

/// The decimal numeral of `n`, as `n.to_string()` gives it.
pub fn decimal_string(n: i64) -> (r: String)
    ensures
        r@ == decimal(n as int),
{
    let mut out = String::new();
    if n < 0 {
        out.push('-');
        let magnitude: u64 = (-(n + 1)) as u64 + 1;
        assert(out@ == seq!['-']);
        push_decimal(&mut out, magnitude);
    } else {
        push_decimal(&mut out, n as u64);
        assert(Seq::<char>::empty() + decimal_nat(n as nat) == decimal_nat(n as nat));
    }
    out
}

/// The parts of `parts`, with `sep` between each two neighbours.
pub open spec fn joined(parts: Seq<Seq<char>>, sep: Seq<char>) -> Seq<char>
    decreases parts.len(),
{
    if parts.len() == 0 {
        Seq::empty()
    } else if parts.len() == 1 {
        parts[0]
    } else {
        joined(parts.drop_last(), sep) + sep + parts.last()
    }
}

/// The views of the strings of `v`.
pub open spec fn views(v: Seq<String>) -> Seq<Seq<char>> {
    v.map_values(|s: String| s@)
}

/// The strings of `parts` with `sep` between each two neighbours, as `parts.join(sep)` gives it.
pub fn join(parts: &Vec<String>, sep: &str) -> (r: String)
    ensures
        r@ == joined(views(parts@), sep@),
{
    let mut out = String::new();
    let mut i: usize = 0;
    while i < parts.len()
        invariant
            i <= parts.len(),
            out@ == joined(views(parts@).take(i as int), sep@),
        decreases parts.len() - i,
    {
        if i > 0 {
            out.append(sep);
        }
        out.append(parts[i].as_str());
        proof {
            let all = views(parts@);
            let next = all.take(i + 1);
            assert(next.drop_last() == all.take(i as int));
            assert(next.last() == parts@[i as int]@);
            if i == 0 {
                assert(Seq::<char>::empty() + parts@[0]@ == parts@[0]@);
            }
        }
        i += 1;
    }
    assert(views(parts@).take(parts.len() as int) == views(parts@));
    out
}

} // verus!
