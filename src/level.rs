use vstd::prelude::*;

verus! {

/// The parameters of one level: arena size, number of asteroids, lives.
#[derive(Clone, Copy, Debug, PartialEq, Eq, Structural)]
pub struct Level {
    pub width: u32,
    pub height: u32,
    pub asteroids: u32,
    pub lives: u32,
}

/// Why a level file could not be read.
#[derive(Clone, Copy, Debug, PartialEq, Eq, Structural)]
pub enum LevelLoaderError {
    /// A line is missing or does not hold an unsigned 32-bit integer.
    FormatError,
}

/// Reads level files: four lines holding width, height, asteroid count and
/// starting lives, in that order.
#[derive(Clone, Copy, Debug, Default)]
pub struct LevelLoader;

pub open spec fn is_digit(c: char) -> bool {
    '0' <= c && c <= '9'
}

pub open spec fn all_digits(s: Seq<char>) -> bool {
    forall|i: int| 0 <= i < s.len() ==> is_digit(#[trigger] s[i])
}

/// The number that a string of decimal digits denotes.
pub open spec fn digits_value(s: Seq<char>) -> nat
    decreases s.len(),
{
    if s.len() == 0 {
        0
    } else {
        digits_value(s.drop_last()) * 10 + (s.last() as nat - '0' as nat) as nat
    }
}

/// How `u32` is read from text: an optional `+`, then one or more decimal
/// digits whose value fits in 32 bits.
pub open spec fn parse_u32(s: Seq<char>) -> Option<u32> {
    let d = if s.len() > 0 && s[0] == '+' {
        s.drop_first()
    } else {
        s
    };
    if d.len() > 0 && all_digits(d) && digits_value(d) <= u32::MAX {
        Some(digits_value(d) as u32)
    } else {
        None
    }
}

/// Length of the first line of `s`, without its line feed.
pub open spec fn line_len(s: Seq<char>) -> nat
    decreases s.len(),
{
    if s.len() == 0 || s[0] == '\n' {
        0
    } else {
        1 + line_len(s.drop_first())
    }
}

/// The first line of `s`: up to the first line feed, without a carriage
/// return just before that line feed.
pub open spec fn first_line(s: Seq<char>) -> Seq<char> {
    let e = line_len(s) as int;
    if e < s.len() && e > 0 && s[e - 1] == '\r' {
        s.take(e - 1)
    } else {
        s.take(e)
    }
}

/// What follows the first line feed of `s`; empty where there is none.
#[verifier::opaque]
pub open spec fn rest_lines(s: Seq<char>) -> Seq<char> {
    let e = line_len(s) as int;
    if e < s.len() {
        s.skip(e + 1)
    } else {
        Seq::empty()
    }
}

/// The number on the first line of `s`; `None` where `s` has no line left.
#[verifier::opaque]
pub open spec fn field(s: Seq<char>) -> Option<u32> {
    if s.len() == 0 {
        None
    } else {
        parse_u32(first_line(s))
    }
}

/// The level that a text describes, if its first four lines are numbers.
pub open spec fn level_of(s: Seq<char>) -> Option<Level> {
    let s1 = rest_lines(s);
    let s2 = rest_lines(s1);
    let s3 = rest_lines(s2);
    match (field(s), field(s1), field(s2), field(s3)) {
        (Some(width), Some(height), Some(asteroids), Some(lives)) => Some(
            Level { width, height, asteroids, lives },
        ),
        _ => None,
    }
}

proof fn lemma_line_len_step(s: Seq<char>, i: int)
    requires
        0 <= i < s.len(),
        s[i] != '\n',
    ensures
        line_len(s.skip(i)) == 1 + line_len(s.skip(i + 1)),
{
    assert(s.skip(i).drop_first() =~= s.skip(i + 1));
}

proof fn lemma_digits_step(s: Seq<char>, i: int)
    requires
        0 <= i < s.len(),
    ensures
        digits_value(s.take(i + 1)) == digits_value(s.take(i)) * 10 + (s[i] as nat - '0' as nat) as nat,
{
    assert(s.take(i + 1).drop_last() =~= s.take(i));
}

/// Index just past the first line of `cs` that starts at `start`.
fn line_end(cs: &Vec<char>, start: usize) -> (end: usize)
    requires
        start <= cs.len(),
    ensures
        end == start + line_len(cs@.skip(start as int)),
        end <= cs.len(),
{
    let mut i = start;
    while i < cs.len() && cs[i] != '\n'
        invariant
            start <= i <= cs.len(),
            line_len(cs@.skip(start as int)) == (i - start) + line_len(cs@.skip(i as int)),
        decreases cs.len() - i,
    {
        proof {
            lemma_line_len_step(cs@, i as int);
        }
        i = i + 1;
    }
    proof {
        if i < cs.len() {
            assert(cs@.skip(i as int)[0] == '\n');
        }
    }
    i
}

/// Reads `cs[from..to]` as a `u32`.
fn parse_number(cs: &Vec<char>, from: usize, to: usize) -> (r: Option<u32>)
    requires
        from <= to <= cs.len(),
    ensures
        r == parse_u32(cs@.subrange(from as int, to as int)),
{
    let ghost s = cs@.subrange(from as int, to as int);
    let mut i = from;
    if i < to && cs[i] == '+' {
        i = i + 1;
    }
    let ghost d = cs@.subrange(i as int, to as int);
    proof {
        if from < to && cs@[from as int] == '+' {
            assert(d =~= s.drop_first());
        } else {
            assert(d =~= s);
        }
        assert(d == if s.len() > 0 && s[0] == '+' {
            s.drop_first()
        } else {
            s
        });
    }
    if i == to {
        return None;
    }
    let ghost first = i;
    // The value read so far, held at one past `u32::MAX` once it is larger.
    let mut acc: u64 = 0;
    while i < to
        invariant
            first <= i <= to <= cs.len(),
            first < to,
            s == cs@.subrange(from as int, to as int),
            d == cs@.subrange(first as int, to as int),
            d == if s.len() > 0 && s[0] == '+' {
                s.drop_first()
            } else {
                s
            },
            all_digits(d.take(i - first)),
            acc == if digits_value(d.take(i - first)) > u32::MAX {
                u32::MAX as nat + 1
            } else {
                digits_value(d.take(i - first))
            },
        decreases to - i,
    {
        let c = cs[i];
        if c < '0' || c > '9' {
            proof {
                assert(d[i - first] == c);
                assert(!is_digit(d[i - first]));
                assert(!all_digits(d));
            }
            return None;
        }
        let digit = (c as u32 - '0' as u32) as u64;
        proof {
            lemma_digits_step(d, i - first);
            assert(d[i - first] == c);
            assert forall|j: int| 0 <= j < d.take(i - first + 1).len() implies is_digit(
                #[trigger] d.take(i - first + 1)[j],
            ) by {
                if j < i - first {
                    assert(d.take(i - first + 1)[j] == d.take(i - first)[j]);
                }
            }
        }
        let next = acc * 10 + digit;
        acc = if next > u32::MAX as u64 {
            u32::MAX as u64 + 1
        } else {
            next
        };
        proof {
            let v = digits_value(d.take(i - first));
            let v2 = digits_value(d.take(i - first + 1));
            assert(v2 == v * 10 + digit);
            if v > u32::MAX {
                assert(v2 > u32::MAX) by (nonlinear_arith)
                    requires
                        v > u32::MAX,
                        v2 == v * 10 + digit,
                ;
            }
        }
        i = i + 1;
    }
    assert(d.take(i - first) =~= d);
    if acc > u32::MAX as u64 {
        None
    } else {
        Some(acc as u32)
    }
}

/// Reads the number on the line of `cs` that starts at `start`, and the index
/// of the line after it.
fn next_field(cs: &Vec<char>, start: usize) -> (r: Option<(u32, usize)>)
    requires
        start <= cs.len(),
    ensures
        match r {
            Some((v, next)) => field(cs@.skip(start as int)) == Some(v) && next <= cs.len()
                && cs@.skip(next as int) == rest_lines(cs@.skip(start as int)),
            None => field(cs@.skip(start as int)) is None,
        },
{
    let ghost s = cs@.skip(start as int);
    proof {
        reveal(field);
        reveal(rest_lines);
    }
    if start == cs.len() {
        return None;
    }
    let end = line_end(cs, start);
    let stop = if end < cs.len() && end > start && cs[end - 1] == '\r' {
        end - 1
    } else {
        end
    };
    assert(first_line(s) =~= cs@.subrange(start as int, stop as int));
    let value = parse_number(cs, start, stop);
    match value {
        Some(v) => {
            let next = if end < cs.len() {
                end + 1
            } else {
                end
            };
            Some((v, next))
        },
        None => None,
    }
}

/// A line that holds a number: no line feed in it, and it reads as a `u32`.
pub open spec fn numeric_line(l: Seq<char>) -> bool {
    &&& forall|i: int| 0 <= i < l.len() ==> #[trigger] l[i] != '\n'
    &&& parse_u32(l) is Some
}

proof fn lemma_line_len_prefix(l: Seq<char>, r: Seq<char>)
    requires
        forall|i: int| 0 <= i < l.len() ==> #[trigger] l[i] != '\n',
        r.len() == 0 || r[0] == '\n',
    ensures
        line_len(l + r) == l.len(),
    decreases l.len(),
{
    if l.len() == 0 {
        assert(l + r =~= r);
    } else {
        assert((l + r).drop_first() =~= l.drop_first() + r);
        lemma_line_len_prefix(l.drop_first(), r);
    }
}

/// The first line of `l + r` is `l`, and `r` after its line feed follows.
proof fn lemma_split_numeric_line(l: Seq<char>, r: Seq<char>)
    requires
        numeric_line(l),
        r.len() == 0 || r[0] == '\n',
    ensures
        field(l + r) == parse_u32(l),
        rest_lines(l + r) == if r.len() == 0 {
            Seq::<char>::empty()
        } else {
            r.drop_first()
        },
{
    reveal(field);
    reveal(rest_lines);
    lemma_line_len_prefix(l, r);
    let d = if l.len() > 0 && l[0] == '+' {
        l.drop_first()
    } else {
        l
    };
    assert(d.len() > 0 && all_digits(d));
    assert(d[d.len() - 1] == l[l.len() - 1]);
    assert((l + r).take(l.len() as int) =~= l);
    if r.len() > 0 {
        assert((l + r).skip(l.len() as int + 1) =~= r.drop_first());
    }
}

/// A text whose first four lines each hold a number describes the level
/// with those four numbers, in order; whatever follows the fourth line does
/// not matter.
pub proof fn lemma_four_numeric_lines(
    l1: Seq<char>,
    l2: Seq<char>,
    l3: Seq<char>,
    l4: Seq<char>,
    tail: Seq<char>,
)
    requires
        numeric_line(l1),
        numeric_line(l2),
        numeric_line(l3),
        numeric_line(l4),
        tail.len() == 0 || tail[0] == '\n',
    ensures
        level_of(l1 + seq!['\n'] + l2 + seq!['\n'] + l3 + seq!['\n'] + l4 + tail) == Some(
            Level {
                width: parse_u32(l1)->0,
                height: parse_u32(l2)->0,
                asteroids: parse_u32(l3)->0,
                lives: parse_u32(l4)->0,
            },
        ),
{
    let r3 = seq!['\n'] + (l4 + tail);
    let r2 = seq!['\n'] + (l3 + r3);
    let r1 = seq!['\n'] + (l2 + r2);
    assert(l1 + seq!['\n'] + l2 + seq!['\n'] + l3 + seq!['\n'] + l4 + tail =~= l1 + r1);
    lemma_line_then_rest(l1, l2 + r2);
    lemma_line_then_rest(l2, l3 + r3);
    lemma_line_then_rest(l3, l4 + tail);
    lemma_split_numeric_line(l4, tail);
    lemma_level_of_fields(l1 + r1, l2 + r2, l3 + r3, l4 + tail);
}

proof fn lemma_line_then_rest(l: Seq<char>, next: Seq<char>)
    requires
        numeric_line(l),
    ensures
        field(l + (seq!['\n'] + next)) == parse_u32(l),
        rest_lines(l + (seq!['\n'] + next)) == next,
{
    let r = seq!['\n'] + next;
    lemma_split_numeric_line(l, r);
    assert(r.drop_first() =~= next);
}

proof fn lemma_level_of_fields(s0: Seq<char>, s1: Seq<char>, s2: Seq<char>, s3: Seq<char>)
    requires
        rest_lines(s0) == s1,
        rest_lines(s1) == s2,
        rest_lines(s2) == s3,
    ensures
        level_of(s0) == match (field(s0), field(s1), field(s2), field(s3)) {
            (Some(width), Some(height), Some(asteroids), Some(lives)) => Some(
                Level { width, height, asteroids, lives },
            ),
            _ => None,
        },
{
}

/// A text that runs out of lines before its fourth describes no level.
pub proof fn lemma_fewer_than_four_lines(text: Seq<char>)
    requires
        rest_lines(rest_lines(rest_lines(text))).len() == 0,
    ensures
        level_of(text) is None,
{
    reveal(field);
}

/// A text with a line among its first four that does not read as a number
/// describes no level.
pub proof fn lemma_non_numeric_line(text: Seq<char>, k: int)
    requires
        0 <= k < 4,
        ({
            let s = if k == 0 {
                text
            } else if k == 1 {
                rest_lines(text)
            } else if k == 2 {
                rest_lines(rest_lines(text))
            } else {
                rest_lines(rest_lines(rest_lines(text)))
            };
            parse_u32(first_line(s)) is None
        }),
    ensures
        level_of(text) is None,
{
    reveal(field);
}

impl LevelLoader {
    /// The file extensions of level files.
    pub fn extensions(&self) -> (r: &'static [&'static str])
        ensures
            r@.len() == 1,
            r@[0]@ == "bw"@,
    {
        &["bw"]
    }

    /// Reads a level from the text of a level file. Lines after the fourth
    /// are ignored.
    pub fn load(&self, text: &str) -> (r: Result<Level, LevelLoaderError>)
        ensures
            r == match level_of(text@) {
                Some(level) => Ok::<Level, LevelLoaderError>(level),
                None => Err(LevelLoaderError::FormatError),
            },
    {
        let n = text.unicode_len();
        let mut cs: Vec<char> = Vec::new();
        let mut i: usize = 0;
        while i < n
            invariant
                n == text@.len(),
                i <= n,
                cs@ == text@.take(i as int),
            decreases n - i,
        {
            cs.push(text.get_char(i));
            i = i + 1;
            assert(cs@ =~= text@.take(i as int));
        }
        assert(cs@ =~= text@);
        assert(cs@.skip(0) =~= cs@);
        let (width, s1) = match next_field(&cs, 0) {
            Some(p) => p,
            None => return Err(LevelLoaderError::FormatError),
        };
        let (height, s2) = match next_field(&cs, s1) {
            Some(p) => p,
            None => return Err(LevelLoaderError::FormatError),
        };
        let (asteroids, s3) = match next_field(&cs, s2) {
            Some(p) => p,
            None => return Err(LevelLoaderError::FormatError),
        };
        let (lives, _) = match next_field(&cs, s3) {
            Some(p) => p,
            None => return Err(LevelLoaderError::FormatError),
        };
        Ok(Level { width, height, asteroids, lives })
    }
}

} // verus!
