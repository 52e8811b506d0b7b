//! Character-level string operations with exact specifications.
use vstd::prelude::*;

verus! {

/// Appends one character to a string (`String::push`).
/// Trusted: the character is appended after the existing contents.
#[verifier::external_body]
pub(crate) fn push_char(s: &mut String, c: char)
    ensures
        final(s)@ == old(s)@.push(c),
{
    s.push(c);
}

/// The characters of `s`, in order.
pub fn chars_of(s: &str) -> (res: Vec<char>)
    ensures
        res@ == s@,
{
    let mut res: Vec<char> = Vec::new();
    for c in it: s.chars()
        invariant
            res@ == it.seq().take(it.index() as int),
            it.seq() == s@,
    {
        res.push(c);
    }
    res
}


/// A string built from a sequence of characters.
pub fn string_from_chars(cs: &Vec<char>) -> (res: String)
    ensures
        res@ == cs@,
{
    let mut res = String::new();
    let mut i: usize = 0;
    while i < cs.len()
        invariant
            i <= cs.len(),
            res@ == cs@.take(i as int),
        decreases cs.len() - i,
    {
        push_char(&mut res, cs[i]);
        assert(cs@.take(i + 1) == cs@.take(i as int).push(cs@[i as int]));
        i = i + 1;
    }
    assert(cs@.take(cs.len() as int) == cs@);
    res
}

/// Pieces of `s` between occurrences of `sep`, as `str::split` with a
/// character pattern yields them: `k` separators give `k + 1` pieces,
/// empty ones included.
pub open spec fn split_on(s: Seq<char>, sep: char) -> Seq<Seq<char>>
    decreases s.len(),
{
    if s.len() == 0 {
        seq![Seq::<char>::empty()]
    } else {
        let pieces = split_on(s.drop_last(), sep);
        if s.last() == sep {
            pieces.push(Seq::<char>::empty())
        } else {
            pieces.update(pieces.len() - 1, pieces.last().push(s.last()))
        }
    }
}

/// The pieces joined again, with `sep` between neighbours.
pub open spec fn join_with(pieces: Seq<Seq<char>>, sep: char) -> Seq<char>
    decreases pieces.len(),
{
    if pieces.len() == 0 {
        Seq::<char>::empty()
    } else if pieces.len() == 1 {
        pieces[0]
    } else {
        join_with(pieces.drop_last(), sep).push(sep) + pieces.last()
    }
}

/// The views of a vector of strings.
pub open spec fn views(v: Seq<String>) -> Seq<Seq<char>> {
    v.map_values(|x: String| x@)
}

/// Splitting never yields an empty list of pieces.
pub proof fn lemma_split_nonempty(s: Seq<char>, sep: char)
    ensures
        split_on(s, sep).len() >= 1,
    decreases s.len(),
{
    if s.len() > 0 {
        lemma_split_nonempty(s.drop_last(), sep);
    }
}

/// Splits `s` at every `sep` (as `s.split(sep).collect()`).
pub fn split_string(s: &str, sep: char) -> (res: Vec<String>)
    ensures
        views(res@) == split_on(s@, sep),
{
    let cs = chars_of(s);
    let mut done: Vec<String> = Vec::new();
    let mut current = String::new();
    let mut i: usize = 0;
    while i < cs.len()
        invariant
            i <= cs.len(),
            cs@ == s@,
            views(done@).push(current@) == split_on(cs@.take(i as int), sep),
        decreases cs.len() - i,
    {
        let c = cs[i];
        let ghost prefix = cs@.take(i as int);
        assert(cs@.take(i + 1).drop_last() == prefix);
        proof { lemma_split_nonempty(prefix, sep); }
        if c == sep {
            let piece = current;
            done.push(piece);
            current = String::new();
            assert(views(done@) == views(done@).drop_last().push(piece@));
        } else {
            push_char(&mut current, c);
        }
        assert(views(done@).push(current@) =~= split_on(cs@.take(i + 1), sep));
        i = i + 1;
    }
    done.push(current);
    assert(cs@.take(cs.len() as int) == cs@);
    assert(views(done@) =~= split_on(s@, sep));
    done
}


/// Joining the pieces of a split with the same separator gives back the
/// original string: `split` loses nothing.
pub proof fn law_join_split(s: Seq<char>, sep: char)
    ensures
        join_with(split_on(s, sep), sep) == s,
    decreases s.len(),
{
    if s.len() > 0 {
        let t = s.drop_last();
        let c = s.last();
        let p = split_on(t, sep);
        law_join_split(t, sep);
        lemma_split_nonempty(t, sep);
        if c == sep {
            assert(split_on(s, sep).drop_last() =~= p);
            assert(join_with(split_on(s, sep), sep) =~= s);
        } else {
            let q = split_on(s, sep);
            if p.len() == 1 {
                assert(q[0] == p[0].push(c));
                assert(join_with(q, sep) =~= s);
            } else {
                assert(q.drop_last() =~= p.drop_last());
                assert(join_with(q, sep) == join_with(p.drop_last(), sep).push(sep) + p.last().push(c));
                assert(join_with(p, sep) == join_with(p.drop_last(), sep).push(sep) + p.last());
                assert(join_with(q, sep) =~= join_with(p, sep).push(c));
            }
        }
    }
}

/// No piece of a split holds the separator.
pub proof fn law_split_pieces_free_of_separator(s: Seq<char>, sep: char)
    ensures
        forall|i: int| #![trigger split_on(s, sep)[i]]
            0 <= i < split_on(s, sep).len() ==> !split_on(s, sep)[i].contains(sep),
    decreases s.len(),
{
    if s.len() > 0 {
        let t = s.drop_last();
        law_split_pieces_free_of_separator(t, sep);
        lemma_split_nonempty(t, sep);
        let p = split_on(t, sep);
        let q = split_on(s, sep);
        assert forall|i: int| 0 <= i < q.len() implies !#[trigger] q[i].contains(sep) by {
            if s.last() != sep && i == q.len() - 1 {
                assert(!p[i].contains(sep));
                if q[i].contains(sep) {
                    let k = choose|k: int| 0 <= k < q[i].len() && q[i][k] == sep;
                    assert(p[i].push(s.last())[k] == sep);
                    if k < p[i].len() {
                        assert(p[i][k] == sep);
                    }
                }
            } else if i < p.len() {
                assert(q[i] == p[i]);
            } else {
                assert(q[i] =~= Seq::<char>::empty());
            }
        }
    }
}


/// Whether `pat` occurs in `s` starting at position `i`.
pub open spec fn occurs_at(s: Seq<char>, pat: Seq<char>, i: int) -> bool {
    0 <= i && i + pat.len() <= s.len() && s.subrange(i, i + pat.len()) == pat
}

/// Whether `pat` occurs anywhere in `s` (as `str::contains`).
pub open spec fn has_substring(s: Seq<char>, pat: Seq<char>) -> bool {
    exists|i: int| occurs_at(s, pat, i)
}

/// Whether `pat` occurs in `s` at position `i`.
pub fn occurs_at_exec(s: &Vec<char>, pat: &Vec<char>, i: usize) -> (res: bool)
    ensures
        res == occurs_at(s@, pat@, i as int),
{
    if i > s.len() || pat.len() > s.len() - i {
        return false;
    }
    let mut k: usize = 0;
    while k < pat.len()
        invariant
            i + pat.len() <= s.len(),
            k <= pat.len(),
            forall|j: int| 0 <= j < k ==> s@[i + j] == pat@[j],
        decreases pat.len() - k,
    {
        if s[i + k] != pat[k] {
            assert(s@.subrange(i as int, i + pat.len())[k as int] != pat@[k as int]);
            return false;
        }
        k = k + 1;
    }
    assert(s@.subrange(i as int, i + pat.len()) =~= pat@);
    true
}

/// Whether `pat` occurs in `s`.
pub fn contains_str(s: &str, pat: &str) -> (res: bool)
    ensures
        res == has_substring(s@, pat@),
{
    let sc = chars_of(s);
    let pc = chars_of(pat);
    let mut i: usize = 0;
    loop
        invariant
            i <= sc.len(),
            sc@ == s@,
            pc@ == pat@,
            forall|j: int| 0 <= j < i ==> !occurs_at(s@, pat@, j),
        decreases sc.len() - i,
    {
        if occurs_at_exec(&sc, &pc, i) {
            return true;
        }
        if i == sc.len() {
            assert forall|j: int| !occurs_at(s@, pat@, j) by {
                if 0 <= j < i {
                }
            }
            return false;
        }
        i = i + 1;
    }
}


/// `s` with every occurrence of `from` replaced by `to`, as `str::replace`
/// computes it: a non-empty pattern is matched left to right, never inside
/// a replaced occurrence; the empty pattern matches before every character
/// and at the end.
pub open spec fn replaced(s: Seq<char>, from: Seq<char>, to: Seq<char>) -> Seq<char>
    decreases s.len(),
{
    if from.len() == 0 {
        if s.len() == 0 {
            to
        } else {
            to + seq![s[0]] + replaced(s.skip(1), from, to)
        }
    } else if s.len() == 0 {
        s
    } else if occurs_at(s, from, 0) {
        to + replaced(s.skip(from.len() as int), from, to)
    } else {
        seq![s[0]] + replaced(s.skip(1), from, to)
    }
}

/// Replaces every occurrence of `from` in `s` by `to` (as `s.replace(from, to)`).
pub fn replace_all(s: &str, from: &str, to: &str) -> (res: String)
    ensures
        res@ == replaced(s@, from@, to@),
{
    if from.is_empty() {
        replace_empty_pattern(s, from, to)
    } else {
        replace_pattern(s, from, to)
    }
}

fn replace_empty_pattern(s: &str, from: &str, to: &str) -> (res: String)
    requires
        from@.len() == 0,
    ensures
        res@ == replaced(s@, from@, to@),
{
    let sc = chars_of(s);
    let mut out = String::new();
    let mut i: usize = 0;
    assert(sc@.skip(0) =~= sc@);
    while i < sc.len()
        invariant
            i <= sc.len(),
            sc@ == s@,
            from@.len() == 0,
            out@ + replaced(sc@.skip(i as int), from@, to@) == replaced(sc@, from@, to@),
        decreases sc.len() - i,
    {
        let ghost r = sc@.skip(i as int);
        assert(r.skip(1) =~= sc@.skip(i + 1));
        assert(r[0] == sc@[i as int]);
        let ghost before = out@;
        out.append(to);
        push_char(&mut out, sc[i]);
        assert(out@ + replaced(sc@.skip(i + 1), from@, to@) =~= before + replaced(r, from@, to@));
        i = i + 1;
    }
    let ghost before = out@;
    assert(sc@.skip(i as int) =~= Seq::<char>::empty());
    out.append(to);
    assert(out@ =~= before + replaced(sc@.skip(i as int), from@, to@));
    out
}

fn replace_pattern(s: &str, from: &str, to: &str) -> (res: String)
    requires
        from@.len() > 0,
    ensures
        res@ == replaced(s@, from@, to@),
{
    let sc = chars_of(s);
    let fc = chars_of(from);
    let mut out = String::new();
    let mut i: usize = 0;
    assert(sc@.skip(0) =~= sc@);
    while i < sc.len()
        invariant
            i <= sc.len(),
            sc@ == s@,
            fc@ == from@,
            fc@.len() > 0,
            out@ + replaced(sc@.skip(i as int), fc@, to@) == replaced(sc@, fc@, to@),
        decreases sc.len() - i,
    {
        let ghost r = sc@.skip(i as int);
        let hit = occurs_at_exec(&sc, &fc, i);
        if hit {
            assert(r.subrange(0, fc@.len() as int) =~= sc@.subrange(i as int, i + fc@.len()));
            assert(r.skip(fc@.len() as int) =~= sc@.skip(i + fc@.len()));
            let ghost before = out@;
            out.append(to);
            assert(out@ + replaced(sc@.skip(i + fc@.len()), fc@, to@)
                =~= before + replaced(r, fc@, to@));
            i = i + fc.len();
        } else {
            assert(fc@.len() <= r.len() ==> r.subrange(0, fc@.len() as int) =~= sc@.subrange(i as int, i + fc@.len()));
            assert(r.skip(1) =~= sc@.skip(i + 1));
            let ghost before = out@;
            push_char(&mut out, sc[i]);
            assert(r[0] == sc@[i as int]);
            assert(out@ + replaced(sc@.skip(i + 1), fc@, to@)
                =~= before + replaced(r, fc@, to@));
            i = i + 1;
        }
    }
    assert(sc@.skip(i as int) =~= Seq::<char>::empty());
    assert(out@ =~= out@ + Seq::<char>::empty());
    out
}


/// The decimal digit character for `d` in `0..10`.
pub open spec fn digit_char(d: int) -> char {
    if d == 0 { '0' }
    else if d == 1 { '1' }
    else if d == 2 { '2' }
    else if d == 3 { '3' }
    else if d == 4 { '4' }
    else if d == 5 { '5' }
    else if d == 6 { '6' }
    else if d == 7 { '7' }
    else if d == 8 { '8' }
    else { '9' }
}

/// Whether `c` is one of the ASCII digits `0`..`9`.
pub open spec fn is_digit(c: char) -> bool {
    '0' <= c && c <= '9'
}

/// The value of an ASCII digit.
pub open spec fn digit_value(c: char) -> int {
    c as int - '0' as int
}

/// Whether every character of `d` is an ASCII digit.
pub open spec fn all_digits(d: Seq<char>) -> bool {
    forall|i: int| 0 <= i < d.len() ==> is_digit(#[trigger] d[i])
}

/// The number that a string of digits denotes in base ten.
pub open spec fn digits_value(d: Seq<char>) -> int
    decreases d.len(),
{
    if d.len() == 0 {
        0
    } else {
        digits_value(d.drop_last()) * 10 + digit_value(d.last())
    }
}

/// The shortest decimal notation of `n` (as `n.to_string()` writes it).
pub open spec fn decimal(n: nat) -> Seq<char>
    decreases n,
{
    if n < 10 {
        seq![digit_char(n as int)]
    } else {
        decimal(n / 10).push(digit_char((n % 10) as int))
    }
}

/// Decimal notation of a signed integer, with a leading `-` when negative.
pub open spec fn signed_decimal(n: int) -> Seq<char> {
    if n < 0 {
        seq!['-'] + decimal((-n) as nat)
    } else {
        decimal(n as nat)
    }
}

/// What `s.parse::<i32>()` yields: an optional `+` or `-` sign followed by
/// one or more ASCII digits, whose value lies in the range of `i32`;
/// anything else (an empty string, a lone sign, any other character, an
/// overflow) is rejected.
pub open spec fn parse_i32_spec(s: Seq<char>) -> Option<int> {
    let signed = s.len() > 0 && (s[0] == '-' || s[0] == '+');
    let negative = s.len() > 0 && s[0] == '-';
    let d = if signed { s.skip(1) } else { s };
    if d.len() == 0 || !all_digits(d) {
        None
    } else {
        let v = if negative { -digits_value(d) } else { digits_value(d) };
        if i32::MIN <= v <= i32::MAX { Some(v) } else { None }
    }
}

fn digit_of(d: u64) -> (c: char)
    requires
        d < 10,
    ensures
        c == digit_char(d as int),
{
    if d == 0 { '0' }
    else if d == 1 { '1' }
    else if d == 2 { '2' }
    else if d == 3 { '3' }
    else if d == 4 { '4' }
    else if d == 5 { '5' }
    else if d == 6 { '6' }
    else if d == 7 { '7' }
    else if d == 8 { '8' }
    else { '9' }
}

fn push_decimal(out: &mut String, n: u64)
    ensures
        final(out)@ == old(out)@ + decimal(n as nat),
    decreases n,
{
    if n >= 10 {
        push_decimal(out, n / 10);
    }
    let c = digit_of(n % 10);
    push_char(out, c);
    assert(out@ =~= old(out)@ + decimal(n as nat));
}

/// Decimal notation of an unsigned number (as `n.to_string()`).
pub fn u32_to_string(n: u32) -> (res: String)
    ensures
        res@ == decimal(n as nat),
{
    let mut res = String::new();
    push_decimal(&mut res, n as u64);
    assert(res@ =~= decimal(n as nat));
    res
}

/// Decimal notation of a signed number (as `n.to_string()`).
pub fn i32_to_string(n: i32) -> (res: String)
    ensures
        res@ == signed_decimal(n as int),
{
    let mut res = String::new();
    if n < 0 {
        push_char(&mut res, '-');
        let m: i64 = -(n as i64);
        push_decimal(&mut res, m as u64);
    } else {
        push_decimal(&mut res, n as u64);
    }
    assert(res@ =~= signed_decimal(n as int));
    res
}

/// Parses a decimal `i32` (as `s.parse::<i32>().ok()`).
pub fn parse_i32(s: &str) -> (res: Option<i32>)
    ensures
        match res {
            Some(v) => parse_i32_spec(s@) == Some(v as int),
            None => parse_i32_spec(s@) is None,
        },
{
    let cs = chars_of(s);
    let n = cs.len();
    let mut start: usize = 0;
    let mut negative = false;
    if n > 0 && (cs[0] == '-' || cs[0] == '+') {
        start = 1;
        negative = cs[0] == '-';
    }
    let ghost d = if start == 1 { s@.skip(1) } else { s@ };
    assert(d =~= cs@.skip(start as int));
    if start == n {
        return None;
    }
    let cap: u64 = 2147483649;
    let mut acc: u64 = 0;
    let mut i: usize = start;
    assert(cs@.subrange(start as int, start as int) =~= Seq::<char>::empty());
    while i < n
        invariant
            start <= i <= n,
            n == cs@.len(),
            acc <= cap,
            cap == 2147483649,
            start == (if s@.len() > 0 && (s@[0] == '-' || s@[0] == '+') { 1int } else { 0int }),
            negative == (s@.len() > 0 && s@[0] == '-'),
            d == (if start == 1 { s@.skip(1) } else { s@ }),
            cs@ == s@,
            d =~= cs@.skip(start as int),
            all_digits(cs@.subrange(start as int, i as int)),
            acc as int == if digits_value(cs@.subrange(start as int, i as int)) < cap {
                digits_value(cs@.subrange(start as int, i as int))
            } else {
                cap as int
            },
            digits_value(cs@.subrange(start as int, i as int)) >= 0,
        decreases n - i,
    {
        let c = cs[i];
        if !('0' <= c && c <= '9') {
            assert(d[i - start] == c);
            assert(!is_digit(d[i - start]));
            return None;
        }
        let dv: u64 = (c as u32 - '0' as u32) as u64;
        let ghost pre = cs@.subrange(start as int, i as int);
        let ghost next = cs@.subrange(start as int, i + 1);
        assert(next.drop_last() =~= pre);
        assert(next.last() == c);
        assert(dv as int == digit_value(c));
        let t = acc * 10 + dv;
        if t >= cap {
            acc = cap;
        } else {
            acc = t;
        }
        assert(all_digits(next)) by {
            assert forall|j: int| 0 <= j < next.len() implies is_digit(#[trigger] next[j]) by {
                if j < pre.len() {
                    assert(next[j] == pre[j]);
                }
            }
        }
        i = i + 1;
    }
    assert(cs@.subrange(start as int, n as int) =~= d);
    if negative {
        if acc <= 2147483648 {
            let v: i64 = -(acc as i64);
            Some(v as i32)
        } else {
            None
        }
    } else {
        if acc <= 2147483647 {
            Some(acc as i32)
        } else {
            None
        }
    }
}

/// The digit characters denote their values.
pub proof fn lemma_digit_char(d: int)
    requires
        0 <= d < 10,
    ensures
        is_digit(digit_char(d)),
        digit_value(digit_char(d)) == d,
{
}

/// Facts about the decimal notation of `n`: non-empty, digits only, and
/// denoting `n`.
pub proof fn lemma_decimal(n: nat)
    ensures
        decimal(n).len() >= 1,
        all_digits(decimal(n)),
        digits_value(decimal(n)) == n,
    decreases n,
{
    if n < 10 {
        lemma_digit_char(n as int);
        assert(decimal(n).drop_last() =~= Seq::<char>::empty());
        assert(digits_value(decimal(n)) == digits_value(decimal(n).drop_last()) * 10 + digit_value(decimal(n).last()));
    }
    if n >= 10 {
        lemma_decimal(n / 10);
        lemma_digit_char((n % 10) as int);
        assert((n / 10) * 10 + n % 10 == n);
        let p = decimal(n / 10);
        let q = decimal(n);
        assert(q.drop_last() =~= p);
        assert(q.last() == digit_char((n % 10) as int));
        assert(digits_value(q) == digits_value(p) * 10 + digit_value(q.last()));
        assert forall|i: int| 0 <= i < q.len() implies is_digit(#[trigger] q[i]) by {
            if i < p.len() {
                assert(q[i] == p[i]);
            }
        }
    }
}

/// Parsing the decimal notation of an `i32` gives the number back.
pub proof fn law_parse_formatted(n: int)
    requires
        i32::MIN <= n <= i32::MAX,
    ensures
        parse_i32_spec(signed_decimal(n)) == Some(n),
{
    if n < 0 {
        let m = (-n) as nat;
        lemma_decimal(m);
        let s = signed_decimal(n);
        assert(s.skip(1) =~= decimal(m));
    } else {
        lemma_decimal(n as nat);
        let s = decimal(n as nat);
        assert(is_digit(s[0]));
    }
}

} // verus!
