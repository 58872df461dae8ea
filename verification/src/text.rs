//! Character-sequence helpers shared by the parsers and the command-line
//! builders: decimal formatting, whitespace, number parsing and string
//! construction.

use vstd::prelude::*;

verus! {

/// Appends one character to a `String` (`String::push`).
/// Trusted: std documents that `push` appends the given `char` to the end.
#[verifier::external_body]
pub(crate) fn push_char(s: &mut String, c: char)
    ensures
        final(s)@ == old(s)@.push(c),
{
    s.push(c)
}

/// Appends a string slice to a `String`.
pub fn push_str(s: &mut String, t: &str)
    ensures
        final(s)@ == old(s)@ + t@,
{
    s.append(t);
}

/// A `String` holding exactly the characters of `t`.
pub fn string_of(t: &str) -> (s: String)
    ensures
        s@ == t@,
{
    String::from_str(t)
}

/// Copies the characters of `s` into a vector, in order.
pub fn chars_of(s: &str) -> (v: Vec<char>)
    ensures
        v@ == s@,
{
    let mut v: Vec<char> = Vec::new();
    for c in it: s.chars()
        invariant
            v@ == it.seq().take(it.index()),
    {
        v.push(c);
    }
    v
}

/// A `String` holding the characters `v[lo..hi]`.
pub fn string_from_chars(v: &Vec<char>, lo: usize, hi: usize) -> (s: String)
    requires
        lo <= hi <= v@.len(),
    ensures
        s@ == v@.subrange(lo as int, hi as int),
{
    let mut s = String::new();
    let mut i = lo;
    while i < hi
        invariant
            lo <= i <= hi <= v@.len(),
            s@ == v@.subrange(lo as int, i as int),
        decreases hi - i,
    {
        push_char(&mut s, v[i]);
        assert(v@.subrange(lo as int, i + 1) =~= v@.subrange(lo as int, i as int).push(v@[i as int]));
        i += 1;
    }
    s
}

// ---------------------------------------------------------------------
// Decimal formatting
// ---------------------------------------------------------------------

/// The ASCII digit for `d` (0..=9).
pub open spec fn digit_char(d: nat) -> char {
    if d == 0 {
        '0'
    } else if d == 1 {
        '1'
    } else if d == 2 {
        '2'
    } else if d == 3 {
        '3'
    } else if d == 4 {
        '4'
    } else if d == 5 {
        '5'
    } else if d == 6 {
        '6'
    } else if d == 7 {
        '7'
    } else if d == 8 {
        '8'
    } else {
        '9'
    }
}

/// The decimal representation of `n`, without leading zeros (as `Display`
/// prints an unsigned integer).
pub open spec fn dec(n: nat) -> Seq<char>
    decreases n,
{
    if n < 10 {
        seq![digit_char(n)]
    } else {
        dec(n / 10).push(digit_char(n % 10))
    }
}

/// The decimal representation of a signed integer: a `-` before the
/// magnitude when negative.
pub open spec fn dec_int(n: int) -> Seq<char> {
    if n < 0 {
        seq!['-'] + dec((-n) as nat)
    } else {
        dec(n as nat)
    }
}

/// `s` left-padded with `'0'` to at least `w` characters (`{:0w}`).
pub open spec fn zero_pad(s: Seq<char>, w: nat) -> Seq<char> {
    if s.len() < w {
        Seq::new((w - s.len()) as nat, |i: int| '0') + s
    } else {
        s
    }
}

fn digit(d: u64) -> (c: char)
    requires
        d < 10,
    ensures
        c == digit_char(d as nat),
{
    if d == 0 {
        '0'
    } else if d == 1 {
        '1'
    } else if d == 2 {
        '2'
    } else if d == 3 {
        '3'
    } else if d == 4 {
        '4'
    } else if d == 5 {
        '5'
    } else if d == 6 {
        '6'
    } else if d == 7 {
        '7'
    } else if d == 8 {
        '8'
    } else {
        '9'
    }
}

/// Appends the decimal representation of `n` to `s`.
pub fn push_dec(s: &mut String, n: u64)
    ensures
        final(s)@ == old(s)@ + dec(n as nat),
    decreases n,
{
    if n < 10 {
        push_char(s, digit(n));
    } else {
        push_dec(s, n / 10);
        push_char(s, digit(n % 10));
    }
}

/// The decimal representation of `n` (`n.to_string()`).
pub fn dec_string(n: u64) -> (s: String)
    ensures
        s@ == dec(n as nat),
{
    let mut s = String::new();
    push_dec(&mut s, n);
    assert(s@ =~= dec(n as nat));
    s
}

/// Appends the decimal representation of the signed `n` to `s`.
pub fn push_dec_i64(s: &mut String, n: i64)
    ensures
        final(s)@ == old(s)@ + dec_int(n as int),
{
    if n < 0 {
        push_char(s, '-');
        let m: u64 = if n == i64::MIN {
            9223372036854775808u64
        } else {
            (-n) as u64
        };
        push_dec(s, m);
        assert(final(s)@ =~= old(s)@ + dec_int(n as int)) by {
            assert(m as int == -(n as int));
        }
    } else {
        push_dec(s, n as u64);
    }
}

/// Appends `n` zero-padded to at least two digits (`{:02}`).
pub fn push_dec_pad2(s: &mut String, n: u64)
    ensures
        final(s)@ == old(s)@ + zero_pad(dec(n as nat), 2),
{
    if n < 10 {
        push_char(s, '0');
        push_char(s, digit(n));
        assert(zero_pad(dec(n as nat), 2) =~= seq!['0', digit_char(n as nat)]);
    } else {
        proof { lemma_dec_len_ge2(n as nat); }
        push_dec(s, n);
    }
}

/// Appends `n` zero-padded to at least four digits (`{:04}`).
pub fn push_dec_pad4(s: &mut String, n: u64)
    ensures
        final(s)@ == old(s)@ + zero_pad(dec(n as nat), 4),
{
    let ghost start = s@;
    if n < 10 {
        push_char(s, '0');
        push_char(s, '0');
        push_char(s, '0');
        push_char(s, digit(n));
        assert(zero_pad(dec(n as nat), 4) =~= seq!['0', '0', '0', digit_char(n as nat)]);
    } else if n < 100 {
        push_char(s, '0');
        push_char(s, '0');
        push_dec(s, n);
        proof { lemma_dec_len_2(n as nat); }
        assert(zero_pad(dec(n as nat), 4) =~= seq!['0', '0'] + dec(n as nat));
        assert(s@ =~= start + zero_pad(dec(n as nat), 4));
    } else if n < 1000 {
        push_char(s, '0');
        push_dec(s, n);
        proof { lemma_dec_len_3(n as nat); }
        assert(zero_pad(dec(n as nat), 4) =~= seq!['0'] + dec(n as nat));
        assert(s@ =~= start + zero_pad(dec(n as nat), 4));
    } else {
        proof { lemma_dec_len_ge4(n as nat); }
        push_dec(s, n);
    }
}

proof fn lemma_dec_len_ge2(n: nat)
    requires
        n >= 10,
    ensures
        dec(n).len() >= 2,
    decreases n,
{
    assert(dec(n / 10).len() >= 1) by {
        reveal_with_fuel(dec, 2);
        lemma_dec_nonempty(n / 10);
    }
}

proof fn lemma_dec_nonempty(n: nat)
    ensures
        dec(n).len() >= 1,
    decreases n,
{
    if n >= 10 {
        lemma_dec_nonempty(n / 10);
    }
}

/// A decimal numeral starts with a digit.
pub proof fn lemma_dec_head(n: nat)
    ensures
        dec(n).len() >= 1,
        is_digit(dec(n)[0]),
    decreases n,
{
    if n >= 10 {
        lemma_dec_head(n / 10);
    }
}

proof fn lemma_dec_len_2(n: nat)
    requires
        10 <= n < 100,
    ensures
        dec(n).len() == 2,
{
    assert(dec(n / 10) == seq![digit_char(n / 10)]);
}

proof fn lemma_dec_len_3(n: nat)
    requires
        100 <= n < 1000,
    ensures
        dec(n).len() == 3,
{
    lemma_dec_len_2(n / 10);
}

proof fn lemma_dec_len_ge4(n: nat)
    requires
        n >= 1000,
    ensures
        dec(n).len() >= 4,
    decreases n,
{
    if n / 10 >= 1000 {
        lemma_dec_len_ge4(n / 10);
    } else {
        lemma_dec_len_3(n / 10);
    }
}

// ---------------------------------------------------------------------
// Whitespace, fields and lines
// ---------------------------------------------------------------------

/// Unicode `White_Space`, as `char::is_whitespace` decides it.
pub open spec fn is_ws(c: char) -> bool {
    let u = c as u32;
    ||| 9 <= u <= 13
    ||| u == 32
    ||| u == 0x85
    ||| u == 0xa0
    ||| u == 0x1680
    ||| 0x2000 <= u <= 0x200a
    ||| u == 0x2028
    ||| u == 0x2029
    ||| u == 0x202f
    ||| u == 0x205f
    ||| u == 0x3000
}

/// Executable `is_ws` (`char::is_whitespace`).
pub fn is_whitespace(c: char) -> (b: bool)
    ensures
        b == is_ws(c),
{
    let u = c as u32;
    (9 <= u && u <= 13) || u == 32 || u == 0x85 || u == 0xa0 || u == 0x1680 || (0x2000 <= u
        && u <= 0x200a) || u == 0x2028 || u == 0x2029 || u == 0x202f || u == 0x205f || u == 0x3000
}

/// The field `cur` when it is non-empty, as a one-element sequence.
pub open spec fn nonempty_field(cur: Seq<char>) -> Seq<Seq<char>> {
    if cur.len() > 0 {
        seq![cur]
    } else {
        seq![]
    }
}

/// The whitespace-separated fields of `s`, after a partial field `cur`
/// (`split_whitespace`: runs of whitespace separate, empty fields vanish).
pub open spec fn fields_from(s: Seq<char>, cur: Seq<char>) -> Seq<Seq<char>>
    decreases s.len(),
{
    if s.len() == 0 {
        nonempty_field(cur)
    } else if is_ws(s[0]) {
        nonempty_field(cur) + fields_from(s.drop_first(), seq![])
    } else {
        fields_from(s.drop_first(), cur.push(s[0]))
    }
}

/// The whitespace-separated fields of `s` (`str::split_whitespace`).
pub open spec fn fields(s: Seq<char>) -> Seq<Seq<char>> {
    fields_from(s, seq![])
}

/// A line without the `'\r'` that ends it, if any.
pub open spec fn strip_cr(line: Seq<char>) -> Seq<char> {
    if line.len() > 0 && line.last() == '\r' {
        line.drop_last()
    } else {
        line
    }
}

/// The lines of `s` after a partial line `cur` (`str::lines`): split at
/// `'\n'`, a `'\r'` before the `'\n'` dropped, no empty last line after
/// a final `'\n'`.
pub open spec fn lines_from(s: Seq<char>, cur: Seq<char>) -> Seq<Seq<char>>
    decreases s.len(),
{
    if s.len() == 0 {
        nonempty_field(cur)
    } else if s[0] == '\n' {
        seq![strip_cr(cur)] + lines_from(s.drop_first(), seq![])
    } else {
        lines_from(s.drop_first(), cur.push(s[0]))
    }
}

/// The lines of `s` (`str::lines`).
pub open spec fn lines(s: Seq<char>) -> Seq<Seq<char>> {
    lines_from(s, seq![])
}

/// Each pair of `r` bounds a part of `v`, and that part is the matching
/// element of `parts`.
pub open spec fn bounds_match(v: Seq<char>, r: Seq<(usize, usize)>, parts: Seq<Seq<char>>) -> bool {
    &&& r.len() == parts.len()
    &&& forall|k: int|
        0 <= k < r.len() ==> {
            &&& #[trigger] r[k].0 <= r[k].1 <= v.len()
            &&& v.subrange(r[k].0 as int, r[k].1 as int) == parts[k]
        }
}

proof fn lemma_bounds_push(
    v: Seq<char>,
    r: Seq<(usize, usize)>,
    parts: Seq<Seq<char>>,
    a: usize,
    b: usize,
    x: Seq<char>,
)
    requires
        bounds_match(v, r, parts),
        a <= b <= v.len(),
        v.subrange(a as int, b as int) == x,
    ensures
        bounds_match(v, r.push((a, b)), parts.push(x)),
{
    assert forall|k: int| 0 <= k < r.push((a, b)).len() implies {
        &&& #[trigger] r.push((a, b))[k].0 <= r.push((a, b))[k].1 <= v.len()
        &&& v.subrange(r.push((a, b))[k].0 as int, r.push((a, b))[k].1 as int) == parts.push(x)[k]
    } by {
        if k < r.len() {
            assert(r.push((a, b))[k] == r[k]);
            assert(parts.push(x)[k] == parts[k]);
            assert(r[k].0 <= r[k].1 <= v.len());
            assert(v.subrange(r[k].0 as int, r[k].1 as int) == parts[k]);
        } else {
            assert(r.push((a, b))[k] == (a, b));
            assert(parts.push(x)[k] == x);
        }
    }
}

/// The bounds `(start, end)` of each whitespace-separated field of `v`,
/// in order.
pub fn field_bounds(v: &Vec<char>) -> (r: Vec<(usize, usize)>)
    ensures
        r@.len() == fields(v@).len(),
        bounds_match(v@, r@, fields(v@)),
{
    let mut r: Vec<(usize, usize)> = Vec::new();
    let mut start: usize = 0;
    let mut i: usize = 0;
    let n = v.len();
    let ghost done: Seq<Seq<char>> = seq![];
    assert(v@.skip(0) =~= v@);
    assert(v@.subrange(0, 0) =~= Seq::<char>::empty());
    while i < n
        invariant
            n == v@.len(),
            start <= i <= n,
            done.len() == r@.len(),
            bounds_match(v@, r@, done),
            fields(v@) == done + fields_from(v@.skip(i as int), v@.subrange(start as int, i as int)),
        decreases n - i,
    {
        let c = v[i];
        let ghost rest = v@.skip(i as int);
        let ghost cur = v@.subrange(start as int, i as int);
        assert(rest[0] == c);
        assert(rest.drop_first() =~= v@.skip(i + 1));
        let ghost old_r = r@;
        if is_whitespace(c) {
            if start < i {
                r.push((start, i));
                proof {
                    lemma_bounds_push(v@, old_r, done, start, i, cur);
                    done = done.push(cur);
                    assert(nonempty_field(cur) =~= seq![cur]);
                }
            } else {
                assert(nonempty_field(cur) =~= Seq::<Seq<char>>::empty());
            }
            proof {
                assert(fields(v@) =~= done + fields_from(v@.skip(i + 1), seq![]));
            }
            start = i + 1;
            assert(v@.subrange(start as int, start as int) =~= Seq::<char>::empty());
        } else {
            assert(cur.push(c) =~= v@.subrange(start as int, i + 1));
        }
        i += 1;
    }
    let ghost cur = v@.subrange(start as int, n as int);
    assert(v@.skip(n as int) =~= Seq::<char>::empty());
    if start < n {
        let ghost old_r = r@;
        r.push((start, n));
        proof {
            lemma_bounds_push(v@, old_r, done, start, n, cur);
            done = done.push(cur);
            assert(fields(v@) =~= done);
        }
    } else {
        assert(fields(v@) =~= done);
    }
    r
}

/// The bounds `(start, end)` of each line of `v` (`str::lines`), in order.
pub fn line_bounds(v: &Vec<char>) -> (r: Vec<(usize, usize)>)
    ensures
        r@.len() == lines(v@).len(),
        bounds_match(v@, r@, lines(v@)),
{
    let mut r: Vec<(usize, usize)> = Vec::new();
    let mut start: usize = 0;
    let mut i: usize = 0;
    let n = v.len();
    let ghost done: Seq<Seq<char>> = seq![];
    assert(v@.skip(0) =~= v@);
    assert(v@.subrange(0, 0) =~= Seq::<char>::empty());
    while i < n
        invariant
            n == v@.len(),
            start <= i <= n,
            done.len() == r@.len(),
            bounds_match(v@, r@, done),
            lines(v@) == done + lines_from(v@.skip(i as int), v@.subrange(start as int, i as int)),
        decreases n - i,
    {
        let c = v[i];
        let ghost rest = v@.skip(i as int);
        let ghost cur = v@.subrange(start as int, i as int);
        assert(rest[0] == c);
        assert(rest.drop_first() =~= v@.skip(i + 1));
        let ghost old_r = r@;
        if c == '\n' {
            let end = if start < i && v[i - 1] == '\r' {
                i - 1
            } else {
                i
            };
            assert(v@.subrange(start as int, end as int) =~= strip_cr(cur));
            r.push((start, end));
            proof {
                lemma_bounds_push(v@, old_r, done, start, end, strip_cr(cur));
                done = done.push(strip_cr(cur));
                assert(lines(v@) =~= done + lines_from(v@.skip(i + 1), seq![]));
            }
            start = i + 1;
            assert(v@.subrange(start as int, start as int) =~= Seq::<char>::empty());
        } else {
            assert(cur.push(c) =~= v@.subrange(start as int, i + 1));
        }
        i += 1;
    }
    let ghost cur = v@.subrange(start as int, n as int);
    assert(v@.skip(n as int) =~= Seq::<char>::empty());
    if start < n {
        let ghost old_r = r@;
        r.push((start, n));
        proof {
            lemma_bounds_push(v@, old_r, done, start, n, cur);
            done = done.push(cur);
            assert(lines(v@) =~= done);
        }
    } else {
        assert(lines(v@) =~= done);
    }
    r
}

// ---------------------------------------------------------------------
// Searching and number parsing
// ---------------------------------------------------------------------

/// The index of the first `c` in `s`, if any.
pub open spec fn index_of(s: Seq<char>, c: char) -> Option<int>
    decreases s.len(),
{
    if s.len() == 0 {
        None
    } else if s[0] == c {
        Some(0)
    } else {
        match index_of(s.drop_first(), c) {
            Some(i) => Some(i + 1),
            None => None,
        }
    }
}

/// `s` up to (not including) its first `c`, or all of `s` without one
/// (the first item of `str::split(c)`).
pub open spec fn before_first(s: Seq<char>, c: char) -> Seq<char> {
    match index_of(s, c) {
        Some(i) => s.take(i),
        None => s,
    }
}

proof fn lemma_index_of_found(s: Seq<char>, c: char, k: int)
    requires
        0 <= k < s.len(),
        s[k] == c,
        forall|j: int| 0 <= j < k ==> s[j] != c,
    ensures
        index_of(s, c) == Some(k),
    decreases k,
{
    if k > 0 {
        lemma_index_of_found(s.drop_first(), c, k - 1);
    }
}

proof fn lemma_index_of_absent(s: Seq<char>, c: char)
    requires
        forall|j: int| 0 <= j < s.len() ==> s[j] != c,
    ensures
        index_of(s, c) is None,
    decreases s.len(),
{
    if s.len() > 0 {
        lemma_index_of_absent(s.drop_first(), c);
    }
}

/// The position of the first `c` in `v[lo..hi]`, as an index into `v`.
pub fn find_char(v: &Vec<char>, lo: usize, hi: usize, c: char) -> (r: Option<usize>)
    requires
        lo <= hi <= v@.len(),
    ensures
        match r {
            Some(j) => lo <= j < hi && index_of(v@.subrange(lo as int, hi as int), c) == Some(
                j - lo,
            ),
            None => index_of(v@.subrange(lo as int, hi as int), c) is None,
        },
{
    let ghost sub = v@.subrange(lo as int, hi as int);
    let mut i = lo;
    while i < hi
        invariant
            lo <= i <= hi <= v@.len(),
            sub == v@.subrange(lo as int, hi as int),
            forall|j: int| 0 <= j < i - lo ==> sub[j] != c,
        decreases hi - i,
    {
        if v[i] == c {
            proof {
                lemma_index_of_found(sub, c, i - lo);
            }
            return Some(i);
        }
        i += 1;
    }
    proof {
        lemma_index_of_absent(sub, c);
    }
    None
}

/// An ASCII decimal digit.
pub open spec fn is_digit(c: char) -> bool {
    48 <= (c as u32) <= 57
}

/// Every character of `s` is an ASCII decimal digit.
pub open spec fn all_digits(s: Seq<char>) -> bool {
    forall|i: int| 0 <= i < s.len() ==> is_digit(#[trigger] s[i])
}

/// The number that the decimal digits `s` denote.
pub open spec fn digits_value(s: Seq<char>) -> nat
    decreases s.len(),
{
    if s.len() == 0 {
        0
    } else {
        digits_value(s.drop_last()) * 10 + ((s.last() as u32) - 48) as nat
    }
}

/// `s` without one leading `'+'`, if it has one.
pub open spec fn drop_plus(s: Seq<char>) -> Seq<char> {
    if s.len() > 0 && s[0] == '+' {
        s.drop_first()
    } else {
        s
    }
}

/// What `u32::from_str` returns on `s`, `Ok` as `Some`: an optional `'+'`,
/// then at least one ASCII digit, and a value that fits in 32 bits.
pub open spec fn parse_u32(s: Seq<char>) -> Option<u32> {
    let body = drop_plus(s);
    if body.len() > 0 && all_digits(body) && digits_value(body) <= u32::MAX {
        Some(digits_value(body) as u32)
    } else {
        None
    }
}

/// What `i32::from_str` returns on `s`, `Ok` as `Some`: an optional sign,
/// then at least one ASCII digit, and a value in the range of `i32`.
pub open spec fn parse_i32(s: Seq<char>) -> Option<i32> {
    if s.len() > 0 && s[0] == '-' {
        let body = s.drop_first();
        if body.len() > 0 && all_digits(body) && digits_value(body) <= 2147483648 {
            Some((-(digits_value(body) as int)) as i32)
        } else {
            None
        }
    } else {
        let body = drop_plus(s);
        if body.len() > 0 && all_digits(body) && digits_value(body) <= 2147483647 {
            Some(digits_value(body) as i32)
        } else {
            None
        }
    }
}

/// Reads the digits `v[lo..hi]`: `None` unless there is at least one and
/// all are ASCII digits; otherwise their value when it fits in 32 bits,
/// and a value above `u32::MAX` when it does not.
fn scan_digits(v: &Vec<char>, lo: usize, hi: usize) -> (r: Option<u64>)
    requires
        lo <= hi <= v@.len(),
    ensures
        r is Some <==> (lo < hi && all_digits(v@.subrange(lo as int, hi as int))),
        r matches Some(x) ==> {
            let d = digits_value(v@.subrange(lo as int, hi as int));
            &&& d <= u32::MAX ==> x == d
            &&& d > u32::MAX ==> x > u32::MAX
        },
{
    if lo == hi {
        return None;
    }
    let mut acc: u64 = 0;
    let mut i = lo;
    assert(v@.subrange(lo as int, lo as int) =~= Seq::<char>::empty());
    while i < hi
        invariant
            lo <= i <= hi <= v@.len(),
            all_digits(v@.subrange(lo as int, i as int)),
            digits_value(v@.subrange(lo as int, i as int)) <= u32::MAX ==> acc == digits_value(
                v@.subrange(lo as int, i as int),
            ),
            digits_value(v@.subrange(lo as int, i as int)) > u32::MAX ==> acc > u32::MAX,
            acc <= 10 * (u32::MAX as u64) + 9,
        decreases hi - i,
    {
        let c = v[i];
        let u = c as u32;
        if !(48 <= u && u <= 57) {
            assert(v@.subrange(lo as int, hi as int)[i - lo] == c);
            return None;
        }
        let ghost pre = v@.subrange(lo as int, i as int);
        let ghost next = v@.subrange(lo as int, i + 1);
        assert(next.drop_last() =~= pre);
        assert(next.last() == c);
        assert(digits_value(next) == digits_value(pre) * 10 + (u - 48) as nat);
        if acc <= 4294967295 {
            acc = acc * 10 + (u - 48) as u64;
        }
        assert(all_digits(next)) by {
            assert forall|j: int| 0 <= j < next.len() implies is_digit(#[trigger] next[j]) by {
                if j < pre.len() {
                    assert(next[j] == pre[j]);
                }
            }
        }
        i += 1;
    }
    Some(acc)
}

/// `u32::from_str` on the characters `v[lo..hi]`.
pub fn parse_u32_at(v: &Vec<char>, lo: usize, hi: usize) -> (r: Option<u32>)
    requires
        lo <= hi <= v@.len(),
    ensures
        r == parse_u32(v@.subrange(lo as int, hi as int)),
{
    let ghost s = v@.subrange(lo as int, hi as int);
    let start = if lo < hi && v[lo] == '+' {
        assert(s.drop_first() =~= v@.subrange(lo + 1, hi as int));
        lo + 1
    } else {
        lo
    };
    assert(drop_plus(s) =~= v@.subrange(start as int, hi as int));
    match scan_digits(v, start, hi) {
        Some(x) => {
            if x <= 4294967295 {
                Some(x as u32)
            } else {
                None
            }
        },
        None => None,
    }
}

/// `i32::from_str` on the characters `v[lo..hi]`.
pub fn parse_i32_at(v: &Vec<char>, lo: usize, hi: usize) -> (r: Option<i32>)
    requires
        lo <= hi <= v@.len(),
    ensures
        r == parse_i32(v@.subrange(lo as int, hi as int)),
{
    let ghost s = v@.subrange(lo as int, hi as int);
    if lo < hi && v[lo] == '-' {
        assert(s.drop_first() =~= v@.subrange(lo + 1, hi as int));
        match scan_digits(v, lo + 1, hi) {
            Some(x) => {
                if x <= 2147483648 {
                    let r: i64 = -(x as i64);
                    Some(r as i32)
                } else {
                    None
                }
            },
            None => None,
        }
    } else {
        let start = if lo < hi && v[lo] == '+' {
            assert(s.drop_first() =~= v@.subrange(lo + 1, hi as int));
            lo + 1
        } else {
            lo
        };
        assert(drop_plus(s) =~= v@.subrange(start as int, hi as int));
        match scan_digits(v, start, hi) {
            Some(x) => {
                if x <= 2147483647 {
                    Some(x as i32)
                } else {
                    None
                }
            },
            None => None,
        }
    }
}

// ---------------------------------------------------------------------
// Argument lists
// ---------------------------------------------------------------------

/// Somewhere in `args`, `a` is directly followed by `b`.
pub open spec fn has_pair(args: Seq<Seq<char>>, a: Seq<char>, b: Seq<char>) -> bool {
    exists|i: int| 0 <= i && i + 1 < args.len() && #[trigger] args[i] == a && args[i + 1] == b
}

/// The characters of each argument of a command line.
pub open spec fn arg_view(v: Seq<String>) -> Seq<Seq<char>> {
    v.map_values(|s: String| s@)
}

/// Appends the argument `s`.
pub fn push_arg(args: &mut Vec<String>, s: &str)
    ensures
        arg_view(final(args)@) == arg_view(old(args)@).push(s@),
{
    let ghost before = args@;
    args.push(string_of(s));
    assert(arg_view(args@) =~= arg_view(before).push(s@));
}

/// Appends the argument `s`.
pub fn push_arg_owned(args: &mut Vec<String>, s: String)
    ensures
        arg_view(final(args)@) == arg_view(old(args)@).push(s@),
{
    let ghost before = args@;
    args.push(s);
    assert(arg_view(args@) =~= arg_view(before).push(s@));
}

/// Appends every argument of `more`, in order.
pub fn append_args(args: &mut Vec<String>, more: Vec<String>)
    ensures
        arg_view(final(args)@) == arg_view(old(args)@) + arg_view(more@),
{
    let ghost before = args@;
    let ghost added = more@;
    let mut more = more;
    args.append(&mut more);
    assert(arg_view(args@) =~= arg_view(before) + arg_view(added));
}


/// Whether `a` and `b` hold the same characters.
pub fn str_equal(a: &str, b: &str) -> (r: bool)
    ensures
        r == (a@ == b@),
{
    let va = chars_of(a);
    let vb = chars_of(b);
    if va.len() != vb.len() {
        return false;
    }
    let mut i: usize = 0;
    while i < va.len()
        invariant
            va@ == a@,
            vb@ == b@,
            va@.len() == vb@.len(),
            i <= va@.len(),
            forall|j: int| 0 <= j < i ==> va@[j] == vb@[j],
        decreases va@.len() - i,
    {
        if va[i] != vb[i] {
            return false;
        }
        i += 1;
    }
    assert(va@ =~= vb@);
    true
}

} // verus!
