//! Small verified text utilities: decimal rendering of integers, joining a
//! list of words with a separator, trimming surrounding whitespace, and
//! splitting process output into its non-empty lines.

use vstd::prelude::*;
use vstd::string::*;

verus! {

/// The decimal digit character for a value in `0 ..= 9`.
pub open spec fn spec_digit(d: int) -> char {
    if d == 0 {
        '0'
    } else if d == 1 {
        '1'
    } else if d == 2 {
        '2'
    } else if d == 3 {
        '3'
    } else if d == 4 {
        '4'
    } else if d == 5 {
        '5'
    } else if d == 6 {
        '6'
    } else if d == 7 {
        '7'
    } else if d == 8 {
        '8'
    } else {
        '9'
    }
}

/// The usual decimal rendering of a non-negative integer, without sign or
/// leading zeroes.
pub open spec fn spec_decimal(n: int) -> Seq<char>
    recommends
        n >= 0,
    decreases n,
{
    if n < 10 {
        seq![spec_digit(n)]
    } else {
        spec_decimal(n / 10).push(spec_digit(n % 10))
    }
}

/// The decimal rendering of any integer, with a leading minus sign when
/// negative.
pub open spec fn spec_decimal_int(n: int) -> Seq<char> {
    if n >= 0 {
        spec_decimal(n)
    } else {
        seq!['-'] + spec_decimal(-n)
    }
}

fn digit_str(d: u64) -> (r: &'static str)
    requires
        d < 10,
    ensures
        r@ == seq![spec_digit(d as int)],
{
    proof {
        reveal_strlit("0");
        reveal_strlit("1");
        reveal_strlit("2");
        reveal_strlit("3");
        reveal_strlit("4");
        reveal_strlit("5");
        reveal_strlit("6");
        reveal_strlit("7");
        reveal_strlit("8");
        reveal_strlit("9");
    }
    let r: &'static str = if d == 0 {
        "0"
    } else if d == 1 {
        "1"
    } else if d == 2 {
        "2"
    } else if d == 3 {
        "3"
    } else if d == 4 {
        "4"
    } else if d == 5 {
        "5"
    } else if d == 6 {
        "6"
    } else if d == 7 {
        "7"
    } else if d == 8 {
        "8"
    } else {
        "9"
    };
    proof {
        assert(r@ =~= seq![spec_digit(d as int)]);
    }
    r
}

/// Renders an unsigned integer in decimal.
pub fn u64_string(n: u64) -> (r: String)
    ensures
        r@ == spec_decimal(n as int),
    decreases n,
{
    if n < 10 {
        digit_str(n).to_owned()
    } else {
        let mut s = u64_string(n / 10);
        s.append(digit_str(n % 10));
        proof {
            assert(spec_decimal((n / 10) as int).push(spec_digit((n % 10) as int)) =~= spec_decimal(
                (n / 10) as int,
            ) + seq![spec_digit((n % 10) as int)]);
        }
        s
    }
}

/// Renders a signed integer in decimal, with a minus sign when negative.
pub fn i32_string(n: i32) -> (r: String)
    ensures
        r@ == spec_decimal_int(n as int),
{
    let wide: i64 = n as i64;
    if wide >= 0 {
        u64_string(wide as u64)
    } else {
        proof {
            reveal_strlit("-");
        }
        let mut s: String = "-".to_owned();
        proof {
            assert(s@ =~= seq!['-']);
        }
        let digits = u64_string((-wide) as u64);
        s.append(digits.as_str());
        s
    }
}

/// The parts joined in order, with the separator between neighbours.
pub open spec fn spec_join(parts: Seq<Seq<char>>, sep: Seq<char>) -> Seq<char>
    decreases parts.len(),
{
    if parts.len() == 0 {
        seq![]
    } else if parts.len() == 1 {
        parts[0]
    } else {
        spec_join(parts.drop_last(), sep) + sep + parts.last()
    }
}

/// Joins the parts with the separator between neighbours.
pub fn join_strings(parts: &Vec<String>, sep: &str) -> (r: String)
    ensures
        r@ == spec_join(parts.deep_view(), sep@),
{
    let mut r = String::new();
    let mut i: usize = 0;
    while i < parts.len()
        invariant
            i <= parts.len(),
            r@ == spec_join(parts.deep_view().take(i as int), sep@),
        decreases parts.len() - i,
    {
        if i > 0 {
            r.append(sep);
        }
        r.append(parts[i].as_str());
        proof {
            let dv = parts.deep_view();
            assert(dv.take(i + 1).drop_last() =~= dv.take(i as int));
            assert(dv.take(i + 1).last() == dv[i as int]);
            if i == 0 {
                assert(spec_join(dv.take(1), sep@) == dv[0]);
                assert(r@ =~= dv[0]);
            }
        }
        i = i + 1;
    }
    proof {
        assert(parts.deep_view().take(parts.len() as int) =~= parts.deep_view());
    }
    r
}

/// Whether a character counts as whitespace for trimming; the result depends
/// on the character alone.
pub uninterp spec fn is_space(c: char) -> bool;

/// Relies on char::is_whitespace: true exactly for characters with the
/// Unicode White_Space property, a function of the character alone.
#[verifier::external_body]
pub fn char_is_whitespace(c: char) -> (r: bool)
    ensures
        r == is_space(c),
{
    c.is_whitespace()
}

/// The text with its leading whitespace removed.
pub open spec fn spec_trim_start(s: Seq<char>) -> Seq<char>
    decreases s.len(),
{
    if s.len() == 0 {
        s
    } else if is_space(s[0]) {
        spec_trim_start(s.drop_first())
    } else {
        s
    }
}

/// The text with its trailing whitespace removed.
pub open spec fn spec_trim_end(s: Seq<char>) -> Seq<char>
    decreases s.len(),
{
    if s.len() == 0 {
        s
    } else if is_space(s.last()) {
        spec_trim_end(s.drop_last())
    } else {
        s
    }
}

/// The text with whitespace removed from both ends.
pub open spec fn spec_trim(s: Seq<char>) -> Seq<char> {
    spec_trim_end(spec_trim_start(s))
}

proof fn lemma_trim_start_chop(s: Seq<char>, i: int)
    requires
        0 <= i <= s.len(),
        forall|j: int| 0 <= j < i ==> is_space(s[j]),
        i < s.len() ==> !is_space(s[i]),
    ensures
        spec_trim_start(s) == s.subrange(i, s.len() as int),
    decreases i,
{
    if i == 0 {
        assert(s.subrange(0, s.len() as int) =~= s);
    } else {
        lemma_trim_start_chop(s.drop_first(), i - 1);
        assert(s.drop_first().subrange(i - 1, s.drop_first().len() as int) =~= s.subrange(
            i,
            s.len() as int,
        ));
    }
}

proof fn lemma_trim_end_chop(s: Seq<char>, e: int)
    requires
        0 <= e <= s.len(),
        forall|j: int| e <= j < s.len() ==> is_space(s[j]),
        e > 0 ==> !is_space(s[e - 1]),
    ensures
        spec_trim_end(s) == s.subrange(0, e),
    decreases s.len() - e,
{
    if e == s.len() {
        assert(s.subrange(0, s.len() as int) =~= s);
    } else {
        lemma_trim_end_chop(s.drop_last(), e);
        assert(s.drop_last().subrange(0, e) =~= s.subrange(0, e));
    }
}

/// Removes leading and trailing whitespace.
pub fn trim_str(s: &str) -> (r: String)
    ensures
        r@ == spec_trim(s@),
{
    let n = s.unicode_len();
    let mut start: usize = 0;
    while start < n && char_is_whitespace(s.get_char(start))
        invariant
            start <= n,
            n == s@.len(),
            forall|j: int| 0 <= j < start ==> is_space(s@[j]),
        decreases n - start,
    {
        start = start + 1;
    }
    let mut end: usize = n;
    while end > start && char_is_whitespace(s.get_char(end - 1))
        invariant
            start <= end <= n,
            n == s@.len(),
            forall|j: int| end <= j < n ==> is_space(s@[j]),
        decreases end,
    {
        end = end - 1;
    }
    let r = s.substring_char(start, end).to_owned();
    proof {
        lemma_trim_start_chop(s@, start as int);
        let t = s@.subrange(start as int, n as int);
        assert(forall|j: int| end - start <= j < t.len() ==> is_space(t[j]));
        lemma_trim_end_chop(t, end - start);
        assert(t.subrange(0, end - start) =~= s@.subrange(start as int, end as int));
    }
    r
}

/// The lines of the text, split on newline characters, with empty lines left
/// out; `cur` is the part of the current line already seen.
pub open spec fn spec_lines(s: Seq<char>, cur: Seq<char>) -> Seq<Seq<char>>
    decreases s.len(),
{
    if s.len() == 0 {
        if cur.len() == 0 {
            seq![]
        } else {
            seq![cur]
        }
    } else if s[0] == '\n' {
        (if cur.len() == 0 {
            seq![]
        } else {
            seq![cur]
        }) + spec_lines(s.drop_first(), seq![])
    } else {
        spec_lines(s.drop_first(), cur.push(s[0]))
    }
}

/// The non-empty lines of the text, in order.
pub open spec fn spec_non_empty_lines(s: Seq<char>) -> Seq<Seq<char>> {
    spec_lines(s, seq![])
}

/// Splits the text on newline characters and keeps the non-empty lines.
pub fn non_empty_lines(s: &str) -> (r: Vec<String>)
    ensures
        r.deep_view() == spec_non_empty_lines(s@),
{
    let n = s.unicode_len();
    let mut r: Vec<String> = Vec::new();
    let mut line_start: usize = 0;
    let mut i: usize = 0;
    proof {
        assert(s@.skip(0) =~= s@);
        assert(s@.subrange(0, 0) =~= seq![]);
        assert(r.deep_view() =~~= Seq::<Seq<char>>::empty());
        assert(r.deep_view() + spec_lines(s@, seq![]) =~~= spec_lines(s@, seq![]));
    }
    while i < n
        invariant
            line_start <= i <= n,
            n == s@.len(),
            r.deep_view() + spec_lines(
                s@.skip(i as int),
                s@.subrange(line_start as int, i as int),
            ) == spec_non_empty_lines(s@),
        decreases n - i,
    {
        let ghost pre = r.deep_view();
        let ghost cur = s@.subrange(line_start as int, i as int);
        proof {
            assert(s@.skip(i as int)[0] == s@[i as int]);
            assert(s@.skip(i as int).drop_first() =~= s@.skip(i + 1));
        }
        let c = s.get_char(i);
        if c == '\n' {
            if i > line_start {
                r.push(s.substring_char(line_start, i).to_owned());
                proof {
                    assert(r.deep_view() =~~= pre.push(cur));
                    assert(pre.push(cur) =~~= pre + seq![cur]);
                    assert((pre + seq![cur]) + spec_lines(s@.skip(i + 1), seq![]) =~~= pre + (
                    seq![cur] + spec_lines(s@.skip(i + 1), seq![])));
                }
            }
            line_start = i + 1;
            proof {
                assert(s@.subrange(line_start as int, i + 1) =~= Seq::<char>::empty());
                assert(Seq::<char>::empty() =~= seq![]);
            }
        } else {
            proof {
                assert(s@.subrange(line_start as int, i + 1) =~= cur.push(s@[i as int]));
            }
        }
        i = i + 1;
    }
    if i > line_start {
        let ghost pre = r.deep_view();
        let ghost cur = s@.subrange(line_start as int, i as int);
        r.push(s.substring_char(line_start, i).to_owned());
        proof {
            assert(s@.skip(n as int).len() == 0);
            assert(r.deep_view() =~~= pre.push(cur));
            assert(pre.push(cur) =~~= pre + seq![cur]);
        }
    } else {
        proof {
            assert(s@.skip(n as int).len() == 0);
            assert(s@.subrange(line_start as int, i as int).len() == 0);
            assert(r.deep_view() + seq![] =~~= r.deep_view());
        }
    }
    r
}

} // verus!
