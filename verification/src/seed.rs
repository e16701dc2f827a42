//! Where a connection's seed comes from.
//!
//! A seed is read from the client, drawn afresh, fixed by the configuration,
//! or not needed at all because the generator is split off a shared one. The
//! line a client sends is a signed decimal integer between optional white
//! space; a line that is none yields `DEFAULT_SEED`.

use crate::generator::draw_fresh_seed;
use vstd::prelude::*;

verus! {

/// The seed used where none is configured and where a client's line is no
/// integer.
pub const DEFAULT_SEED: u64 = 1234;

/// How a connection comes by its generator.
#[derive(Clone, Copy, Debug, PartialEq, Eq, Structural)]
pub enum SeedPolicy {
    /// The client sends the seed as the first line.
    AskClient,
    /// The seed is drawn from the system's entropy.
    Random,
    /// Every connection uses the configured seed.
    Fixed,
    /// Every connection gets the next substream of one shared generator.
    JumpDerived,
}

/// A character with the Unicode property White_Space.
pub open spec fn is_space(c: char) -> bool {
    let n = c as u32;
    ||| 0x09 <= n <= 0x0d
    ||| n == 0x20
    ||| n == 0x85
    ||| n == 0xa0
    ||| n == 0x1680
    ||| 0x2000 <= n <= 0x200a
    ||| n == 0x2028
    ||| n == 0x2029
    ||| n == 0x202f
    ||| n == 0x205f
    ||| n == 0x3000
}

/// One of the ten ASCII digits.
pub open spec fn is_digit(c: char) -> bool {
    0x30 <= c as u32 <= 0x39
}

/// The number a digit stands for; zero for any other character.
pub open spec fn digit_value(c: char) -> nat {
    if is_digit(c) {
        (c as u32 - 0x30) as nat
    } else {
        0
    }
}

/// Every character is a digit.
pub open spec fn all_digits(s: Seq<char>) -> bool {
    forall|i: int| 0 <= i < s.len() ==> is_digit(#[trigger] s[i])
}

/// The number that a string of digits writes in base ten.
pub open spec fn digits_value(s: Seq<char>) -> nat
    decreases s.len(),
{
    if s.len() == 0 {
        0
    } else {
        digits_value(s.drop_last()) * 10 + digit_value(s.last())
    }
}

/// `s` without the white space it starts with.
pub open spec fn trim_start(s: Seq<char>) -> Seq<char>
    decreases s.len(),
{
    if s.len() > 0 && is_space(s[0]) {
        trim_start(s.drop_first())
    } else {
        s
    }
}

/// `s` without the white space it ends with.
pub open spec fn trim_end(s: Seq<char>) -> Seq<char>
    decreases s.len(),
{
    if s.len() > 0 && is_space(s.last()) {
        trim_end(s.drop_last())
    } else {
        s
    }
}

/// `s` without the white space around it.
pub open spec fn trimmed(s: Seq<char>) -> Seq<char> {
    trim_end(trim_start(s))
}

/// The integer that `s` writes: an optional `+` or `-`, then one digit or
/// more, the whole within 64 signed bits. Nothing for any other string.
pub open spec fn signed_value(s: Seq<char>) -> Option<int> {
    if s.len() == 0 {
        None
    } else {
        let signed = s[0] == '-' || s[0] == '+';
        let body = if signed {
            s.drop_first()
        } else {
            s
        };
        let value = if s[0] == '-' {
            -(digits_value(body) as int)
        } else {
            digits_value(body) as int
        };
        if body.len() > 0 && all_digits(body) && i64::MIN <= value <= i64::MAX {
            Some(value)
        } else {
            None
        }
    }
}

/// A signed integer read as 64 unsigned bits, in two's complement.
pub open spec fn as_unsigned(v: int) -> int {
    if v >= 0 {
        v
    } else {
        v + 0x1_0000_0000_0000_0000
    }
}

/// The seed that a client's line asks for.
pub open spec fn seed_of_line(line: Seq<char>) -> int {
    match signed_value(trimmed(line)) {
        Some(v) => as_unsigned(v),
        None => DEFAULT_SEED as int,
    }
}

/// The seed of a connection, given what each source would supply: the
/// client's line, a fresh draw, and the configured seed. A connection on a
/// shared generator has no seed of its own; the configured one stands for it.
pub open spec fn seed_for(policy: SeedPolicy, line: Seq<char>, fresh: u64, configured: u64) -> int {
    match policy {
        SeedPolicy::AskClient => seed_of_line(line),
        SeedPolicy::Random => fresh as int,
        SeedPolicy::Fixed => configured as int,
        SeedPolicy::JumpDerived => configured as int,
    }
}

/// The policy that two configuration flags select: asking the client comes
/// before drawing afresh, and the configured seed is used where neither is
/// set.
pub open spec fn policy_of_flags(ask_seed: bool, random_seed: bool) -> SeedPolicy {
    if ask_seed {
        SeedPolicy::AskClient
    } else if random_seed {
        SeedPolicy::Random
    } else {
        SeedPolicy::Fixed
    }
}

/// The number written by the digits read so far is no more than the number
/// written by all of them.
pub proof fn lemma_digits_prefix(s: Seq<char>, k: int)
    requires
        0 <= k <= s.len(),
    ensures
        digits_value(s.take(k)) <= digits_value(s),
    decreases s.len() - k,
{
    if k < s.len() {
        assert(s.take(k + 1).drop_last() =~= s.take(k));
        lemma_digits_prefix(s, k + 1);
    } else {
        assert(s.take(k) =~= s);
    }
}

/// A string with a character that is no digit is not all digits.
proof fn lemma_not_all_digits(s: Seq<char>, k: int)
    requires
        0 <= k < s.len(),
        !is_digit(s[k]),
    ensures
        !all_digits(s),
{
}

fn space(c: char) -> (b: bool)
    ensures
        b == is_space(c),
{
    let n: u32 = c as u32;
    (0x09 <= n && n <= 0x0d) || n == 0x20 || n == 0x85 || n == 0xa0 || n == 0x1680 || (0x2000 <= n
        && n <= 0x200a) || n == 0x2028 || n == 0x2029 || n == 0x202f || n == 0x205f || n == 0x3000
}

/// The characters of a string, in order.
fn chars_of(s: &str) -> (v: Vec<char>)
    ensures
        v@ == s@,
{
    let mut v: Vec<char> = Vec::new();
    for c in it: s.chars()
        invariant
            v@ == it.seq().take(it.index()),
    {
        v.push(c);
    }
    v
}

/// The bounds of `s` without the white space around it.
fn trim_bounds(s: &Vec<char>) -> (r: (usize, usize))
    ensures
        r.0 <= r.1 <= s@.len(),
        s@.subrange(r.0 as int, r.1 as int) == trimmed(s@),
{
    let mut start: usize = 0;
    assert(s@.subrange(0, s@.len() as int) =~= s@);
    while start < s.len() && space(s[start])
        invariant
            start <= s@.len(),
            trim_start(s@) == trim_start(s@.subrange(start as int, s@.len() as int)),
        decreases s@.len() - start,
    {
        proof {
            assert(s@.subrange(start as int, s@.len() as int).drop_first() =~= s@.subrange(
                start + 1,
                s@.len() as int,
            ));
        }
        start = start + 1;
    }
    let ghost rest = s@.subrange(start as int, s@.len() as int);
    assert(trim_start(s@) == rest);
    let mut end: usize = s.len();
    while end > start && space(s[end - 1])
        invariant
            start <= end <= s@.len(),
            rest == s@.subrange(start as int, s@.len() as int),
            trim_end(rest) == trim_end(s@.subrange(start as int, end as int)),
        decreases end,
    {
        proof {
            assert(s@.subrange(start as int, end as int).drop_last() =~= s@.subrange(
                start as int,
                end - 1,
            ));
        }
        end = end - 1;
    }
    (start, end)
}

/// Reads the digits of `s` from `from` on as a number of at most `limit`.
fn read_digits(s: &Vec<char>, from: usize, to: usize, limit: u64) -> (r: Option<u64>)
    requires
        from <= to <= s@.len(),
    ensures
        ({
            let body = s@.subrange(from as int, to as int);
            match r {
                Some(v) => all_digits(body) && v == digits_value(body) && v <= limit,
                None => !all_digits(body) || digits_value(body) > limit,
            }
        }),
{
    let ghost body = s@.subrange(from as int, to as int);
    let mut acc: u64 = 0;
    let mut i: usize = from;
    while i < to
        invariant
            from <= i <= to <= s@.len(),
            body == s@.subrange(from as int, to as int),
            all_digits(body.take(i - from)),
            acc == digits_value(body.take(i - from)),
            acc <= limit,
        decreases to - i,
    {
        let c: char = s[i];
        let n: u32 = c as u32;
        proof {
            assert(body.take(i - from + 1).drop_last() =~= body.take(i - from));
            assert(body[i - from] == s@[i as int]);
            lemma_digits_prefix(body, i - from + 1);
        }
        if n < 0x30 || n > 0x39 {
            proof {
                lemma_not_all_digits(body, i - from);
            }
            return None;
        }
        let d: u64 = (n - 0x30) as u64;
        if d > limit || acc > (limit - d) / 10 {
            return None;
        }
        acc = acc * 10 + d;
        i = i + 1;
    }
    proof {
        assert(body.take(i - from) =~= body);
    }
    Some(acc)
}

/// Reads a client's line as a signed integer: white space around it is
/// dropped, then an optional sign and decimal digits are read. Yields the
/// integer exactly where the line writes one within 64 signed bits.
pub fn parse_seed(line: &str) -> (r: Option<i64>)
    ensures
        match r {
            Some(v) => signed_value(trimmed(line@)) == Some(v as int),
            None => signed_value(trimmed(line@)) is None,
        },
{
    let s = chars_of(line);
    let (start, end) = trim_bounds(&s);
    let ghost t = s@.subrange(start as int, end as int);
    if start == end {
        return None;
    }
    let first: char = s[start];
    assert(t[0] == first);
    let negative = first == '-';
    let signed = negative || first == '+';
    let from: usize = if signed { start + 1 } else { start };
    let ghost body = s@.subrange(from as int, end as int);
    proof {
        assert(negative == (t[0] == '-'));
        assert(signed == (t[0] == '-' || t[0] == '+'));
        if signed {
            assert(t.drop_first() =~= body);
        } else {
            assert(t =~= body);
        }
    }
    if from == end {
        return None;
    }
    if negative {
        match read_digits(&s, from, end, 0x8000_0000_0000_0000) {
            None => None,
            Some(m) => {
                if m == 0x8000_0000_0000_0000 {
                    Some(i64::MIN)
                } else {
                    Some(0 - (m as i64))
                }
            },
        }
    } else {
        match read_digits(&s, from, end, 0x7fff_ffff_ffff_ffff) {
            None => None,
            Some(m) => Some(m as i64),
        }
    }
}

/// The seed that a client's line asks for: the integer it writes, read as 64
/// unsigned bits, or `DEFAULT_SEED` where it writes none.
pub fn seed_from_line(line: &str) -> (seed: u64)
    ensures
        seed == seed_of_line(line@),
{
    match parse_seed(line) {
        None => DEFAULT_SEED,
        Some(v) => {
            if v >= 0 {
                v as u64
            } else {
                ((v - i64::MIN) as u64) + 0x8000_0000_0000_0000
            }
        },
    }
}

impl SeedPolicy {
    /// The policy that the two flags of a configuration select.
    pub fn from_flags(ask_seed: bool, random_seed: bool) -> (policy: SeedPolicy)
        ensures
            policy == policy_of_flags(ask_seed, random_seed),
    {
        if ask_seed {
            SeedPolicy::AskClient
        } else if random_seed {
            SeedPolicy::Random
        } else {
            SeedPolicy::Fixed
        }
    }

    /// Whether a line must be read from the client before anything is sent.
    pub fn reads_client_line(&self) -> (b: bool)
        ensures
            b == (*self == SeedPolicy::AskClient),
    {
        match self {
            SeedPolicy::AskClient => true,
            _ => false,
        }
    }

    /// Whether a fresh seed must be drawn for the connection.
    pub fn draws_fresh_seed(&self) -> (b: bool)
        ensures
            b == (*self == SeedPolicy::Random),
    {
        match self {
            SeedPolicy::Random => true,
            _ => false,
        }
    }
}

/// Picks a connection's seed among what each source supplies: the client's
/// line under `AskClient`, the fresh draw under `Random`, the configured
/// seed otherwise.
pub fn resolve_seed(policy: SeedPolicy, line: &str, fresh: u64, configured: u64) -> (seed: u64)
    ensures
        seed == seed_for(policy, line@, fresh, configured),
{
    match policy {
        SeedPolicy::AskClient => seed_from_line(line),
        SeedPolicy::Random => fresh,
        SeedPolicy::Fixed => configured,
        SeedPolicy::JumpDerived => configured,
    }
}

/// The seed of a connection under `policy`: what the client's line asks for,
/// a fresh draw from the system's entropy, or the configured seed.
pub fn derive_seed(policy: SeedPolicy, line: &str, configured: u64) -> (seed: u64)
    ensures
        match policy {
            SeedPolicy::Random => seed < u64::MAX,
            _ => seed == seed_for(policy, line@, 0, configured),
        },
{
    let fresh = if policy.draws_fresh_seed() {
        draw_fresh_seed()
    } else {
        0
    };
    resolve_seed(policy, line, fresh, configured)
}

} // verus!
