//! Scanning text: lines, words, trimming and the reading of numbers.

use vstd::prelude::*;

verus! {

/// The views of a sequence of character vectors.
pub open spec fn pieces(s: Seq<Vec<char>>) -> Seq<Seq<char>> {
    Seq::new(s.len(), |i: int| s[i]@)
}

/// The place of the first `c` at or after `i`, or the length of the text.
pub open spec fn find_from(s: Seq<char>, c: char, i: int) -> int
    decreases s.len() - i,
{
    if i < 0 || i >= s.len() {
        s.len() as int
    } else if s[i] == c {
        i
    } else {
        find_from(s, c, i + 1)
    }
}

/// What `find_from` finds is the first one.
pub proof fn lemma_find_from(s: Seq<char>, c: char, i: int)
    requires
        0 <= i <= s.len(),
    ensures
        i <= find_from(s, c, i) <= s.len(),
        find_from(s, c, i) < s.len() ==> s[find_from(s, c, i)] == c,
        forall|k: int| i <= k < find_from(s, c, i) ==> s[k] != c,
    decreases s.len() - i,
{
    if i < s.len() && s[i] != c {
        lemma_find_from(s, c, i + 1);
    }
}

/// Finds the first `c` at or after `from`.
pub fn find(s: &[char], c: char, from: usize) -> (r: usize)
    requires
        from <= s.len(),
    ensures
        r == find_from(s@, c, from as int),
        from <= r <= s.len(),
{
    let mut i: usize = from;
    while i < s.len() && s[i] != c
        invariant
            from <= i <= s.len(),
            find_from(s@, c, i as int) == find_from(s@, c, from as int),
        decreases s.len() - i,
    {
        i += 1;
    }
    i
}

/// A line without the carriage return that ends it, if one does.
pub open spec fn strip_return(s: Seq<char>) -> Seq<char> {
    if s.len() > 0 && s.last() == '\r' {
        s.drop_last()
    } else {
        s
    }
}

/// The lines of a text from place `i` on: each ends at a line feed, with or
/// without a carriage return before it; the last one may lack its line feed.
pub open spec fn lines_from(s: Seq<char>, i: int) -> Seq<Seq<char>>
    decreases s.len() - i,
{
    let j = find_from(s, '\n', i);
    if i < 0 || i >= s.len() {
        Seq::empty()
    } else if i <= j && j < s.len() {
        seq![strip_return(s.subrange(i, j))] + lines_from(s, j + 1)
    } else {
        seq![s.subrange(i, s.len() as int)]
    }
}

/// The lines of a text.
pub open spec fn lines_of_text(s: Seq<char>) -> Seq<Seq<char>> {
    lines_from(s, 0)
}

/// A copy of part of a text.
pub fn part(s: &[char], from: usize, to: usize) -> (r: Vec<char>)
    requires
        from <= to <= s.len(),
    ensures
        r@ == s@.subrange(from as int, to as int),
{
    let mut out: Vec<char> = Vec::new();
    let mut i: usize = from;
    while i < to
        invariant
            from <= i <= to,
            to <= s.len(),
            out@ == s@.subrange(from as int, i as int),
        decreases to - i,
    {
        out.push(s[i]);
        i += 1;
        assert(out@ =~= s@.subrange(from as int, i as int));
    }
    out
}

/// Splits a text into its lines.
pub fn split_lines(s: &[char]) -> (r: Vec<Vec<char>>)
    ensures
        pieces(r@) == lines_of_text(s@),
{
    let mut out: Vec<Vec<char>> = Vec::new();
    let mut i: usize = 0;
    assert(pieces(out@) + lines_from(s@, 0) =~= lines_of_text(s@));
    while i < s.len()
        invariant
            i <= s.len(),
            pieces(out@) + lines_from(s@, i as int) == lines_of_text(s@),
        decreases s.len() - i,
    {
        let ghost before = out@;
        let j = find(s, '\n', i);
        if j < s.len() {
            let end = if j > i && s[j - 1] == '\r' {
                j - 1
            } else {
                j
            };
            let line = part(s, i, end);
            assert(line@ =~= strip_return(s@.subrange(i as int, j as int)));
            out.push(line);
            assert(pieces(out@) =~= pieces(before).push(line@));
            assert(pieces(out@) + lines_from(s@, j + 1) =~= pieces(before) + lines_from(
                s@,
                i as int,
            ));
            i = j + 1;
        } else {
            let line = part(s, i, s.len());
            out.push(line);
            assert(pieces(out@) =~= pieces(before).push(line@));
            i = s.len();
            assert(pieces(out@) + lines_from(s@, i as int) =~= lines_of_text(s@));
        }
    }
    assert(pieces(out@) =~= lines_of_text(s@));
    out
}

/// Whether a character is white space in the sense of Unicode.
pub open spec fn is_white(c: char) -> bool {
    let n = c as u32;
    ||| 9 <= n <= 13
    ||| n == 0x20
    ||| n == 0x85
    ||| n == 0xa0
    ||| n == 0x1680
    ||| 0x2000 <= n <= 0x200a
    ||| n == 0x2028
    ||| n == 0x2029
    ||| n == 0x202f
    ||| n == 0x205f
    ||| n == 0x3000
}

/// Whether a character is white space.
pub fn white(c: char) -> (r: bool)
    ensures
        r == is_white(c),
{
    let n: u32 = c as u32;
    (9 <= n && n <= 13) || n == 0x20 || n == 0x85 || n == 0xa0 || n == 0x1680 || (0x2000 <= n && n
        <= 0x200a) || n == 0x2028 || n == 0x2029 || n == 0x202f || n == 0x205f || n == 0x3000
}

/// The first place at or after `i` whose character is white space just when
/// `kind` says so, or the length of the text.
pub open spec fn run_end(s: Seq<char>, kind: bool, i: int) -> int
    decreases s.len() - i,
{
    if i < 0 || i >= s.len() {
        s.len() as int
    } else if is_white(s[i]) == kind {
        i
    } else {
        run_end(s, kind, i + 1)
    }
}

/// Finds where white space starts (`kind`) or ends (not `kind`).
pub fn find_run(s: &[char], kind: bool, from: usize) -> (r: usize)
    requires
        from <= s.len(),
    ensures
        r == run_end(s@, kind, from as int),
        from <= r <= s.len(),
        r < s.len() ==> is_white(s@[r as int]) == kind,
{
    let mut i: usize = from;
    while i < s.len() && white(s[i]) != kind
        invariant
            from <= i <= s.len(),
            run_end(s@, kind, i as int) == run_end(s@, kind, from as int),
        decreases s.len() - i,
    {
        i += 1;
    }
    i
}

/// The words of a text from place `i` on: the longest runs without white space.
pub open spec fn words_from(s: Seq<char>, i: int) -> Seq<Seq<char>>
    decreases s.len() - i,
{
    let a = run_end(s, false, i);
    let b = run_end(s, true, a);
    if i < 0 || i > a || a >= b || b > s.len() {
        Seq::empty()
    } else {
        seq![s.subrange(a, b)] + words_from(s, b)
    }
}

/// The words of a text.
pub open spec fn words_of(s: Seq<char>) -> Seq<Seq<char>> {
    words_from(s, 0)
}

/// Splits a text at white space.
pub fn split_words(s: &[char]) -> (r: Vec<Vec<char>>)
    ensures
        pieces(r@) == words_of(s@),
{
    let mut out: Vec<Vec<char>> = Vec::new();
    let mut i: usize = 0;
    assert(pieces(out@) + words_from(s@, 0) =~= words_of(s@));
    loop
        invariant
            i <= s.len(),
            pieces(out@) + words_from(s@, i as int) == words_of(s@),
        ensures
            pieces(out@) == words_of(s@),
        decreases s.len() - i,
    {
        let a = find_run(s, false, i);
        if a >= s.len() {
            assert(words_from(s@, i as int) =~= Seq::empty());
            assert(pieces(out@) =~= words_of(s@));
            break;
        }
        let ghost before = out@;
        let b = find_run(s, true, a);
        assert(a < b);
        let word = part(s, a, b);
        out.push(word);
        assert(pieces(out@) =~= pieces(before).push(word@));
        assert(pieces(out@) + words_from(s@, b as int) =~= pieces(before) + words_from(
            s@,
            i as int,
        ));
        i = b;
    }
    out
}

/// The place after the last character that is not white space.
pub open spec fn trimmed_end(s: Seq<char>) -> int
    decreases s.len(),
{
    if s.len() > 0 && is_white(s.last()) {
        trimmed_end(s.drop_last())
    } else {
        s.len() as int
    }
}

/// A text without the white space around it.
pub open spec fn trimmed(s: Seq<char>) -> Seq<char> {
    let a = run_end(s, false, 0);
    let b = trimmed_end(s);
    if a <= b {
        s.subrange(a, b)
    } else {
        Seq::empty()
    }
}

/// Takes the white space around a text away.
pub fn trim(s: &[char]) -> (r: Vec<char>)
    ensures
        r@ == trimmed(s@),
{
    let a = find_run(s, false, 0);
    let mut b: usize = s.len();
    assert(s@.take(b as int) =~= s@);
    while b > 0 && white(s[b - 1])
        invariant
            b <= s.len(),
            trimmed_end(s@.take(b as int)) == trimmed_end(s@),
        decreases b,
    {
        assert(s@.take(b as int).drop_last() =~= s@.take(b - 1));
        assert(s@.take(b as int).last() == s@[b - 1]);
        b = b - 1;
    }
    if a <= b {
        part(s, a, b)
    } else {
        Vec::new()
    }
}

/// Whether two runs of characters are the same.
pub fn same_chars(a: &[char], b: &[char]) -> (r: bool)
    ensures
        r == (a@ == b@),
{
    if a.len() != b.len() {
        return false;
    }
    let mut i: usize = 0;
    while i < a.len()
        invariant
            i <= a.len(),
            a.len() == b.len(),
            forall|k: int| 0 <= k < i ==> a@[k] == b@[k],
        decreases a.len() - i,
    {
        if a[i] != b[i] {
            return false;
        }
        i += 1;
    }
    assert(a@ =~= b@);
    true
}

/// Why a text is no number.
#[derive(Clone, Copy, Debug, PartialEq, Eq, Structural)]
pub enum NumberFault {
    Empty,
    InvalidDigit,
    TooLarge,
    TooSmall,
}

impl NumberFault {
    /// What the fault says.
    pub open spec fn says(self) -> &'static str {
        match self {
            NumberFault::Empty => "cannot parse integer from empty string",
            NumberFault::InvalidDigit => "invalid digit found in string",
            NumberFault::TooLarge => "number too large to fit in target type",
            NumberFault::TooSmall => "number too small to fit in target type",
        }
    }

    /// What the fault says.
    pub fn text(self) -> (r: &'static str)
        ensures
            r == self.says(),
    {
        match self {
            NumberFault::Empty => "cannot parse integer from empty string",
            NumberFault::InvalidDigit => "invalid digit found in string",
            NumberFault::TooLarge => "number too large to fit in target type",
            NumberFault::TooSmall => "number too small to fit in target type",
        }
    }
}

/// The worth of a digit in the given base.
pub open spec fn digit_worth(c: char, base: nat) -> Option<nat> {
    let n = c as nat;
    let worth = if '0' <= c <= '9' {
        n - 48
    } else if 'a' <= c <= 'z' {
        n - 87
    } else if 'A' <= c <= 'Z' {
        n - 55
    } else {
        99
    };
    if 0 <= worth < base {
        Some(worth as nat)
    } else {
        None
    }
}

/// Reads digits from place `i` on, onto the number read before them. The first
/// place that is no digit, or takes the number past `max`, decides the fault.
pub open spec fn read_digits(s: Seq<char>, i: int, acc: nat, base: nat, max: nat) -> Result<
    nat,
    NumberFault,
>
    decreases s.len() - i,
{
    if i < 0 || i >= s.len() {
        Ok(acc)
    } else {
        match digit_worth(s[i], base) {
            None => Err(NumberFault::InvalidDigit),
            Some(d) => if acc * base + d > max {
                Err(NumberFault::TooLarge)
            } else {
                read_digits(s, i + 1, acc * base + d, base, max)
            },
        }
    }
}

/// The number that a text writes in the given base, with or without a plus sign.
pub open spec fn number_in(s: Seq<char>, base: nat, max: nat) -> Result<nat, NumberFault> {
    if s.len() == 0 {
        Err(NumberFault::Empty)
    } else if s[0] == '+' {
        if s.len() == 1 {
            Err(NumberFault::InvalidDigit)
        } else {
            read_digits(s, 1, 0, base, max)
        }
    } else {
        read_digits(s, 0, 0, base, max)
    }
}

/// The integer that a text writes in decimal, with or without a sign.
pub open spec fn integer_in(s: Seq<char>, max: nat) -> Result<int, NumberFault> {
    if s.len() > 1 && s[0] == '-' {
        match read_digits(s, 1, 0, 10, max + 1) {
            Ok(n) => Ok(-(n as int)),
            Err(NumberFault::TooLarge) => Err(NumberFault::TooSmall),
            Err(fault) => Err(fault),
        }
    } else {
        match number_in(s, 10, max) {
            Ok(n) => Ok(n as int),
            Err(fault) => Err(fault),
        }
    }
}

/// The worth of a digit in a base up to sixteen.
fn worth(c: char, base: u64) -> (r: Option<u64>)
    requires
        base <= 16,
    ensures
        match r {
            Some(d) => digit_worth(c, base as nat) == Some(d as nat) && d < base,
            None => digit_worth(c, base as nat) is None,
        },
{
    let n: u32 = c as u32;
    let d: u64 = if '0' <= c && c <= '9' {
        (n - 48) as u64
    } else if 'a' <= c && c <= 'z' {
        (n - 87) as u64
    } else if 'A' <= c && c <= 'Z' {
        (n - 55) as u64
    } else {
        99
    };
    if d < base {
        Some(d)
    } else {
        None
    }
}

/// Reads the digits of a text from place `from` on.
fn digits_from(s: &[char], from: usize, base: u64, max: u64) -> (r: Result<u64, NumberFault>)
    requires
        2 <= base <= 16,
        from <= s.len(),
    ensures
        match r {
            Ok(n) => read_digits(s@, from as int, 0, base as nat, max as nat) == Ok::<
                nat,
                NumberFault,
            >(n as nat) && n <= max,
            Err(fault) => read_digits(s@, from as int, 0, base as nat, max as nat) == Err::<
                nat,
                NumberFault,
            >(fault),
        },
{
    let mut acc: u64 = 0;
    let mut i: usize = from;
    while i < s.len()
        invariant
            from <= i <= s.len(),
            2 <= base <= 16,
            acc <= max,
            read_digits(s@, i as int, acc as nat, base as nat, max as nat) == read_digits(
                s@,
                from as int,
                0,
                base as nat,
                max as nat,
            ),
        decreases s.len() - i,
    {
        match worth(s[i], base) {
            None => {
                return Err(NumberFault::InvalidDigit);
            },
            Some(d) => {
                assert(acc as nat * base as nat <= u64::MAX * 16) by (nonlinear_arith)
                    requires
                        acc <= u64::MAX,
                        base <= 16,
                ;
                let next: u128 = acc as u128 * base as u128 + d as u128;
                if next > max as u128 {
                    return Err(NumberFault::TooLarge);
                }
                acc = next as u64;
                i += 1;
            },
        }
    }
    Ok(acc)
}

/// Reads a number in a base up to sixteen that is at most `max`.
pub fn parse_number(s: &[char], base: u64, max: u64) -> (r: Result<u64, NumberFault>)
    requires
        2 <= base <= 16,
    ensures
        match r {
            Ok(n) => number_in(s@, base as nat, max as nat) == Ok::<nat, NumberFault>(n as nat) && n
                <= max,
            Err(fault) => number_in(s@, base as nat, max as nat) == Err::<nat, NumberFault>(fault),
        },
{
    if s.len() == 0 {
        return Err(NumberFault::Empty);
    }
    if s[0] == '+' {
        if s.len() == 1 {
            return Err(NumberFault::InvalidDigit);
        }
        return digits_from(s, 1, base, max);
    }
    digits_from(s, 0, base, max)
}

/// Reads a decimal integer of 32 bits.
pub fn parse_i32(s: &[char]) -> (r: Result<i32, NumberFault>)
    ensures
        match r {
            Ok(n) => integer_in(s@, i32::MAX as nat) == Ok::<int, NumberFault>(n as int),
            Err(fault) => integer_in(s@, i32::MAX as nat) == Err::<int, NumberFault>(fault),
        },
{
    if s.len() > 1 && s[0] == '-' {
        match digits_from(s, 1, 10, 2_147_483_648) {
            Ok(n) => Ok((0 - n as i64) as i32),
            Err(NumberFault::TooLarge) => Err(NumberFault::TooSmall),
            Err(fault) => Err(fault),
        }
    } else {
        match parse_number(s, 10, 2_147_483_647) {
            Ok(n) => Ok(n as i32),
            Err(fault) => Err(fault),
        }
    }
}

/// Whether `needle` stands at `i` in a text.
pub open spec fn stands_at(s: Seq<char>, needle: Seq<char>, i: int) -> bool {
    0 <= i <= s.len() - needle.len() && s.subrange(i, i + needle.len()) == needle
}

/// Whether `needle` stands somewhere in a text.
pub open spec fn contains_text(s: Seq<char>, needle: Seq<char>) -> bool {
    exists|i: int| stands_at(s, needle, i)
}

/// Tells whether `needle` stands somewhere in a text.
pub fn text_contains(s: &[char], needle: &[char]) -> (r: bool)
    ensures
        r == contains_text(s@, needle@),
{
    if needle.len() > s.len() {
        return false;
    }
    let last: usize = s.len() - needle.len();
    let mut i: usize = 0;
    while i <= last
        invariant
            last == s.len() - needle.len(),
            i <= last + 1,
            s.len() <= usize::MAX,
            forall|k: int| 0 <= k < i ==> !stands_at(s@, needle@, k),
        decreases last + 1 - i,
    {
        let piece = part(s, i, i + needle.len());
        if same_chars(piece.as_slice(), needle) {
            assert(stands_at(s@, needle@, i as int));
            return true;
        }
        assert(!stands_at(s@, needle@, i as int));
        if i == last {
            return false;
        }
        i += 1;
    }
    false
}

} // verus!
