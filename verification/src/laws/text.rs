//! Numbers, lines and words in text.

use vstd::prelude::*;

use crate::scan::{
    digit_worth, find, find_from, lemma_find_from, lines_from, parse_i32, parse_number, pieces,
    read_digits, run_end, split_lines, split_words, strip_return, text_contains, trim, trimmed_end,
    white, words_from, NumberFault,
};
use crate::text::{
    decimal, decimal_text, hex_number, hex_number_text, hex_text, join_texts, joined, signed_text,
};

verus! {

/// What a character stands for as a digit; -1 where it is none.
pub open spec fn digit(c: char) -> int {
    if '0' <= c && c <= '9' {
        c as int - '0' as int
    } else if 'a' <= c && c <= 'f' {
        c as int - 'a' as int + 10
    } else if 'A' <= c && c <= 'F' {
        c as int - 'A' as int + 10
    } else {
        -1
    }
}

/// The number that digits stand for: each counts a base's power more than the one behind it.
pub open spec fn value(s: Seq<char>, base: int) -> int
    decreases s.len(),
{
    if s.len() == 0 {
        0
    } else {
        value(s.drop_last(), base) * base + digit(s.last())
    }
}

/// Whether all characters are digits of a base.
pub open spec fn all_digits(s: Seq<char>, base: int) -> bool {
    forall|i: int| 0 <= i < s.len() ==> 0 <= digit(#[trigger] s[i]) < base
}

/// What stands behind a plus sign, if there is one.
pub open spec fn unsigned(s: Seq<char>) -> Seq<char> {
    if s.len() > 0 && s[0] == '+' {
        s.skip(1)
    } else {
        s
    }
}

proof fn digits_are_worth(c: char, base: nat)
    requires
        2 <= base <= 16,
    ensures
        0 <= digit(c) < base ==> digit_worth(c, base) == Some(digit(c) as nat),
        !(0 <= digit(c) < base) ==> digit_worth(c, base) is None,
{
}

proof fn values_do_not_shrink(s: Seq<char>, i: int, base: int)
    requires
        0 <= i <= s.len(),
        base >= 1,
        all_digits(s, base),
    ensures
        0 <= value(s.take(i), base) <= value(s, base),
    decreases s.len(),
{
    if s.len() == 0 {
        assert(s.take(i) =~= s);
    } else if i == s.len() {
        assert(s.take(i) =~= s);
        let front = s.drop_last();
        assert forall|k: int| 0 <= k < front.len() implies 0 <= digit(#[trigger] front[k]) < base by {
            assert(front[k] == s[k]);
        }
        values_do_not_shrink(front, 0, base);
        let v = value(front, base);
        assert(0 <= digit(s[s.len() - 1]));
        assert(v * base >= 0) by (nonlinear_arith)
            requires
                v >= 0,
                base >= 1,
        ;
    } else {
        let front = s.drop_last();
        assert forall|k: int| 0 <= k < front.len() implies 0 <= digit(#[trigger] front[k]) < base by {
            assert(front[k] == s[k]);
        }
        values_do_not_shrink(front, i, base);
        assert(front.take(i) =~= s.take(i));
        let v = value(front, base);
        assert(0 <= digit(s[s.len() - 1]));
        assert(v * base >= v) by (nonlinear_arith)
            requires
                v >= 0,
                base >= 1,
        ;
    }
}

proof fn digits_are_summed(s: Seq<char>, i: int, base: nat, max: nat)
    requires
        2 <= base <= 16,
        0 <= i <= s.len(),
        all_digits(s.take(i), base as int),
        0 <= value(s.take(i), base as int) <= max,
    ensures
        ({
            let r = read_digits(s, i, value(s.take(i), base as int) as nat, base, max);
            &&& r is Ok <==> all_digits(s, base as int) && value(s, base as int) <= max
            &&& r matches Ok(n) ==> n == value(s, base as int)
            &&& r == Err::<nat, NumberFault>(NumberFault::InvalidDigit) || r == Err::<
                nat,
                NumberFault,
            >(NumberFault::TooLarge) || r is Ok
            &&& all_digits(s, base as int) && value(s, base as int) > max ==> r == Err::<
                nat,
                NumberFault,
            >(NumberFault::TooLarge)
        }),
    decreases s.len() - i,
{
    let b = base as int;
    let acc = value(s.take(i), b);
    if i == s.len() {
        assert(s.take(i) =~= s);
    } else {
        digits_are_worth(s[i], base);
        let more = s.take(i + 1);
        assert(more.drop_last() =~= s.take(i));
        assert(more.last() == s[i]);
        if 0 <= digit(s[i]) < base {
            assert forall|k: int| 0 <= k < more.len() implies 0 <= digit(#[trigger] more[k]) < b by {
                if k < i {
                    assert(more[k] == s.take(i)[k]);
                }
            }
            assert(value(more, b) == acc * b + digit(s[i]));
            assert(acc * b >= 0) by (nonlinear_arith)
                requires
                    acc >= 0,
                    b >= 0,
            ;
            assert((acc as nat) * base + digit(s[i]) as nat == value(more, b));
            if value(more, b) <= max {
                digits_are_summed(s, i + 1, base, max);
            } else if all_digits(s, b) {
                values_do_not_shrink(s, i + 1, b);
            }
        }
    }
}

/// A number is read just where there are digits, all of them of the base, and what they
/// stand for fits; it is then what they stand for.
pub proof fn numbers_are_what_their_digits_stand_for(
    s: &[char],
    base: u64,
    max: u64,
    r: Result<u64, NumberFault>,
)
    requires
        2 <= base <= 16,
        call_ensures(parse_number, (s, base, max), r),
    ensures
        r is Ok <==> unsigned(s@).len() > 0 && all_digits(unsigned(s@), base as int) && value(
            unsigned(s@),
            base as int,
        ) <= max,
        r matches Ok(n) ==> n == value(unsigned(s@), base as int),
        r == Err::<u64, NumberFault>(NumberFault::Empty) <==> s@.len() == 0,
        unsigned(s@).len() > 0 && all_digits(unsigned(s@), base as int) && value(
            unsigned(s@),
            base as int,
        ) > max ==> r == Err::<u64, NumberFault>(NumberFault::TooLarge),
{
    if s@.len() > 0 {
        if s@[0] == '+' {
            let rest = s@.skip(1);
            shifted_digits(s@, 1, 0, base as nat, max as nat);
            assert(rest.take(0) =~= Seq::<char>::empty());
            assert(s@.skip(1).skip(0) =~= rest);
            digits_are_summed(rest, 0, base as nat, max as nat);
        } else {
            assert(s@.take(0) =~= Seq::<char>::empty());
            digits_are_summed(s@, 0, base as nat, max as nat);
        }
    }
}

proof fn shifted_digits(s: Seq<char>, i: int, acc: nat, base: nat, max: nat)
    requires
        1 <= i <= s.len(),
    ensures
        read_digits(s, i, acc, base, max) == read_digits(s.skip(1), i - 1, acc, base, max),
    decreases s.len() - i,
{
    if i < s.len() {
        assert(s.skip(1)[i - 1] == s[i]);
        if let Some(d) = digit_worth(s[i], base) {
            if acc * base + d <= max {
                shifted_digits(s, i + 1, acc * base + d, base, max);
            }
        }
    }
}

/// A signed number has at most one sign, and a minus turns what its digits stand for round.
pub proof fn signs_turn_numbers_round(s: &[char], r: Result<i32, NumberFault>)
    requires
        call_ensures(parse_i32, (s,), r),
    ensures
        s@.len() > 1 && s@[0] == '-' ==> (r is Ok <==> all_digits(s@.skip(1), 10) && value(
            s@.skip(1),
            10,
        ) <= 2147483648),
        s@.len() > 1 && s@[0] == '-' && r is Ok ==> r->Ok_0 == -value(s@.skip(1), 10),
        s@.len() > 0 && s@[0] != '-' ==> (r is Ok <==> unsigned(s@).len() > 0 && all_digits(
            unsigned(s@),
            10,
        ) && value(unsigned(s@), 10) <= 2147483647),
        s@.len() > 0 && s@[0] != '-' && r is Ok ==> r->Ok_0 == value(unsigned(s@), 10),
        s@.len() == 0 ==> r == Err::<i32, NumberFault>(NumberFault::Empty),
{
    if s@.len() > 0 {
        let rest = s@.skip(1);
        assert(rest.take(0) =~= Seq::<char>::empty());
        assert(s@.take(0) =~= Seq::<char>::empty());
        shifted_digits(s@, 1, 0, 10, 2147483648);
        shifted_digits(s@, 1, 0, 10, 2147483647);
        digits_are_summed(rest, 0, 10, 2147483648);
        digits_are_summed(rest, 0, 10, 2147483647);
        digits_are_summed(s@, 0, 10, 2147483647);
    }
}

proof fn decimals_stand_for_themselves(n: nat)
    ensures
        decimal(n).len() > 0,
        all_digits(decimal(n), 10),
        value(decimal(n), 10) == n,
        decimal(n)[0] == '0' ==> n == 0 && decimal(n).len() == 1,
    decreases n,
{
    let s = decimal(n);
    if n < 10 {
        assert(s.drop_last() =~= Seq::<char>::empty());
        assert(value(s.drop_last(), 10) == 0);
    } else {
        decimals_stand_for_themselves(n / 10);
        let front = decimal(n / 10);
        assert(s.drop_last() =~= front);
        assert forall|k: int| 0 <= k < s.len() implies 0 <= digit(#[trigger] s[k]) < 10 by {
            if k < front.len() {
                assert(s[k] == front[k]);
            }
        }
        assert(s[0] == front[0]);
    }
}

/// A number is written with decimal digits that stand for it, without zeros in front.
pub proof fn decimals_are_written(n: u64, r: String, z: i32, t: String)
    requires
        call_ensures(decimal_text, (n,), r),
        call_ensures(signed_text, (z,), t),
    ensures
        all_digits(r@, 10) && r@.len() > 0 && value(r@, 10) == n,
        r@[0] == '0' ==> r@.len() == 1,
        z < 0 ==> t@.len() > 1 && t@[0] == '-' && all_digits(t@.skip(1), 10) && value(
            t@.skip(1),
            10,
        ) == -z && t@[1] != '0',
        z >= 0 ==> all_digits(t@, 10) && t@.len() > 0 && value(t@, 10) == z && (t@[0] == '0'
            ==> t@.len() == 1),
{
    decimals_stand_for_themselves(n as nat);
    if z < 0 {
        reveal_strlit("-");
        decimals_stand_for_themselves((-z) as nat);
        assert(t@.skip(1) =~= decimal((-z) as nat));
        assert(t@[1] == t@.skip(1)[0]);
    } else {
        decimals_stand_for_themselves(z as nat);
    }
}

/// What is written is read back.
pub proof fn written_numbers_are_read_back(
    n: u64,
    text: String,
    chars: &[char],
    max: u64,
    r: Result<u64, NumberFault>,
)
    requires
        call_ensures(decimal_text, (n,), text),
        chars@ == text@,
        call_ensures(parse_number, (chars, 10, max), r),
    ensures
        n <= max ==> r == Ok::<u64, NumberFault>(n),
        n > max ==> r == Err::<u64, NumberFault>(NumberFault::TooLarge),
{
    decimals_stand_for_themselves(n as nat);
    assert(0 <= digit(chars@[0]));
    numbers_are_what_their_digits_stand_for(chars, 10, max, r);
}

/// Bytes are written as two digits each, in lower case, the high one first.
pub proof fn bytes_are_written_in_hex(bytes: &[u8], r: String)
    requires
        call_ensures(hex_text, (bytes,), r),
    ensures
        r@.len() == 2 * bytes@.len(),
        forall|i: int|
            #![trigger bytes@[i]]
            0 <= i < bytes@.len() ==> digit(r@[2 * i]) * 16 + digit(r@[2 * i + 1]) == bytes@[i] && 0
                <= digit(r@[2 * i]) && 0 <= digit(r@[2 * i + 1]) < 16,
        forall|i: int| 0 <= i < r@.len() ==> !('A' <= #[trigger] r@[i] && r@[i] <= 'F'),
{
    assert forall|i: int|
        #![trigger bytes@[i]]
        0 <= i < bytes@.len() implies digit(r@[2 * i]) * 16 + digit(r@[2 * i + 1]) == bytes@[i] && 0
        <= digit(r@[2 * i]) && 0 <= digit(r@[2 * i + 1]) < 16 by {
        assert((2 * i) % 2 == 0 && (2 * i) / 2 == i);
        assert((2 * i + 1) % 2 == 1 && (2 * i + 1) / 2 == i);
    }
}

proof fn hex_numbers_stand_for_themselves(n: nat)
    ensures
        hex_number(n).len() > 0,
        all_digits(hex_number(n), 16),
        value(hex_number(n), 16) == n,
        hex_number(n)[0] == '0' ==> n == 0 && hex_number(n).len() == 1,
        forall|i: int|
            0 <= i < hex_number(n).len() ==> !('A' <= #[trigger] hex_number(n)[i] && hex_number(
                n,
            )[i] <= 'F'),
    decreases n,
{
    let s = hex_number(n);
    if n < 16 {
        assert(s.drop_last() =~= Seq::<char>::empty());
        assert(value(s.drop_last(), 16) == 0);
    } else {
        hex_numbers_stand_for_themselves(n / 16);
        let front = hex_number(n / 16);
        assert(s.drop_last() =~= front);
        assert forall|k: int| 0 <= k < s.len() implies 0 <= digit(#[trigger] s[k]) < 16 && !('A'
            <= s[k] && s[k] <= 'F') by {
            if k < front.len() {
                assert(s[k] == front[k]);
            }
        }
        assert(s[0] == front[0]);
    }
}

/// A number is written in hex with digits that stand for it, in lower case and without zeros
/// in front.
pub proof fn hex_numbers_are_written(n: u128, r: String)
    requires
        call_ensures(hex_number_text, (n,), r),
    ensures
        all_digits(r@, 16) && r@.len() > 0 && value(r@, 16) == n,
        r@[0] == '0' ==> r@.len() == 1,
        forall|i: int| 0 <= i < r@.len() ==> !('A' <= #[trigger] r@[i] && r@[i] <= 'F'),
{
    hex_numbers_stand_for_themselves(n as nat);
}

/// A search finds the first one, or the end where there is none.
pub proof fn searches_find_the_first(s: &[char], c: char, from: usize, r: usize)
    requires
        from <= s@.len(),
        call_ensures(find, (s, c, from), r),
    ensures
        from <= r <= s@.len(),
        r < s@.len() ==> s@[r as int] == c,
        forall|i: int| from <= i < r ==> #[trigger] s@[i] != c,
{
    lemma_find_from(s@, c, from as int);
}

/// A text contains another just where it is some text, that one, and some more.
pub proof fn texts_contain_their_parts(
    s: &[char],
    needle: &[char],
    before: Seq<char>,
    after: Seq<char>,
    r: bool,
)
    requires
        call_ensures(text_contains, (s, needle), r),
    ensures
        s@ == before + needle@ + after ==> r,
        r ==> exists|i: int|
            0 <= i <= s@.len() - needle@.len() && #[trigger] s@.subrange(
                i,
                i + needle@.len() as int,
            ) == needle@,
{
    if s@ == before + needle@ + after {
        let i = before.len() as int;
        assert(s@.subrange(i, i + needle@.len()) =~= needle@);
        assert(crate::scan::stands_at(s@, needle@, i));
    }
}

proof fn found_where_it_stands(s: Seq<char>, c: char, i: int, j: int)
    requires
        0 <= i <= j <= s.len(),
        forall|k: int| i <= k < j ==> s[k] != c,
        j < s.len() ==> s[j] == c,
    ensures
        find_from(s, c, i) == j,
    decreases j - i,
{
    if i < j {
        found_where_it_stands(s, c, i + 1, j);
    }
}

proof fn found_further_on(s: Seq<char>, c: char, from: int, i: int)
    requires
        0 <= from <= i <= s.len(),
    ensures
        find_from(s.skip(from), c, i - from) + from == find_from(s, c, i),
    decreases s.len() - i,
{
    if i < s.len() {
        assert(s.skip(from)[i - from] == s[i]);
        if s[i] != c {
            found_further_on(s, c, from, i + 1);
        }
    }
}

proof fn lines_further_on(s: Seq<char>, from: int, i: int)
    requires
        0 <= from <= i <= s.len(),
    ensures
        lines_from(s.skip(from), i - from) == lines_from(s, i),
    decreases s.len() - i,
{
    if i < s.len() {
        let rest = s.skip(from);
        let j = find_from(s, '\n', i);
        lemma_find_from(s, '\n', i);
        found_further_on(s, '\n', from, i);
        if j < s.len() {
            lines_further_on(s, from, j + 1);
            assert(rest.subrange(i - from, j - from) =~= s.subrange(i, j));
        } else {
            assert(rest.subrange(i - from, rest.len() as int) =~= s.subrange(i, s.len() as int));
        }
    }
}

/// A text without a line feed is one line, and an empty one is none. In front of a line feed
/// stands one line, which loses a carriage return at its end, and behind it stand the lines
/// of the rest.
pub proof fn lines_end_at_line_feeds(
    s: &[char],
    r: Vec<Vec<char>>,
    line: Seq<char>,
    rest: &[char],
    more: Vec<Vec<char>>,
)
    requires
        forall|i: int| 0 <= i < line.len() ==> #[trigger] line[i] != '\n',
        call_ensures(split_lines, (s,), r),
        call_ensures(split_lines, (rest,), more),
    ensures
        s@.len() == 0 ==> r@.len() == 0,
        s@ == line && line.len() > 0 ==> r@.len() == 1 && r@[0]@ == line,
        (s@ == line.push('\n') + rest@ && !(line.len() > 0 && line.last() == '\r')) || s@
            == line.push('\r').push('\n') + rest@ ==> {
            &&& r@.len() == 1 + more@.len()
            &&& r@[0]@ == line
            &&& forall|i: int| 0 <= i < more@.len() ==> (#[trigger] more@[i])@ == r@[i + 1]@
        },
{
    let t = s@;
    let all = pieces(r@);
    assert(all == lines_from(t, 0));
    assert(all.len() == r@.len());
    if t == line && line.len() > 0 {
        found_where_it_stands(t, '\n', 0, t.len() as int);
        assert(t.subrange(0, t.len() as int) =~= t);
        assert(all[0] == r@[0]@);
    }
    let plain = t == line.push('\n') + rest@ && !(line.len() > 0 && line.last() == '\r');
    let both = t == line.push('\r').push('\n') + rest@;
    if plain || both {
        let j: int = if plain {
            line.len() as int
        } else {
            line.len() as int + 1
        };
        let head = t.subrange(0, j);
        if plain {
            assert(head =~= line);
        } else {
            assert(head =~= line.push('\r'));
            assert(head.drop_last() =~= line);
        }
        assert(t[j] == '\n');
        assert forall|k: int| 0 <= k < j implies t[k] != '\n' by {
            assert(t[k] == head[k]);
        }
        found_where_it_stands(t, '\n', 0, j);
        assert(t.skip(j + 1) =~= rest@);
        lines_further_on(t, j + 1, j + 1);
        assert(strip_return(head) == line);
        let others = pieces(more@);
        assert(all == seq![line] + others);
        assert(all[0] == r@[0]@);
        assert forall|i: int| 0 <= i < more@.len() implies (#[trigger] more@[i])@ == r@[i + 1]@ by {
            assert(others[i] == more@[i]@);
            assert(all[i + 1] == r@[i + 1]@);
            assert(all[i + 1] == others[i]);
        }
    }
}

/// White space is what Unicode says it is: among the plain characters the blank, and those
/// from the tab to the carriage return.
pub proof fn white_space_is_as_defined(c: char, r: bool)
    requires
        call_ensures(white, (c,), r),
    ensures
        c == ' ' || c == '\t' || c == '\n' || c == '\r' ==> r,
        '!' <= c && c <= '~' ==> !r,
        (c as u32) < 128 ==> (r <==> c == ' ' || '\t' <= c && c <= '\r'),
        (c as u32) >= 128 ==> (r <==> c as u32 == 133 || c as u32 == 160 || c as u32 == 5760 || (
        8192 <= c as u32 && c as u32 <= 8202) || c as u32 == 8232 || c as u32 == 8233 || c as u32
            == 8239 || c as u32 == 8287 || c as u32 == 12288),
{
}

proof fn runs_end_where_they_end(s: Seq<char>, kind: bool, i: int, j: int)
    requires
        0 <= i <= j <= s.len(),
        forall|k: int| i <= k < j ==> crate::scan::is_white(#[trigger] s[k]) != kind,
        j < s.len() ==> crate::scan::is_white(s[j]) == kind,
    ensures
        run_end(s, kind, i) == j,
    decreases j - i,
{
    if i < j {
        assert(crate::scan::is_white(s[i]) != kind);
        runs_end_where_they_end(s, kind, i + 1, j);
    }
}

proof fn runs_end_further_on(s: Seq<char>, kind: bool, from: int, i: int)
    requires
        0 <= from <= i <= s.len(),
    ensures
        run_end(s.skip(from), kind, i - from) + from == run_end(s, kind, i),
        i <= run_end(s, kind, i) <= s.len(),
        run_end(s, kind, i) < s.len() ==> crate::scan::is_white(s[run_end(s, kind, i)]) == kind,
        forall|k: int| i <= k < run_end(s, kind, i) ==> crate::scan::is_white(#[trigger] s[k]) != kind,
    decreases s.len() - i,
{
    if i < s.len() {
        assert(s.skip(from)[i - from] == s[i]);
        if crate::scan::is_white(s[i]) != kind {
            runs_end_further_on(s, kind, from, i + 1);
        }
    }
}

proof fn words_further_on(s: Seq<char>, from: int, i: int)
    requires
        0 <= from <= i <= s.len(),
    ensures
        words_from(s.skip(from), i - from) == words_from(s, i),
    decreases s.len() - i,
{
    let rest = s.skip(from);
    let a = run_end(s, false, i);
    runs_end_further_on(s, false, from, i);
    let b = run_end(s, true, a);
    runs_end_further_on(s, true, from, a);
    if a < b {
        words_further_on(s, from, b);
        assert(rest.subrange(a - from, b - from) =~= s.subrange(a, b));
    }
}

/// White space in front of a text changes none of its words; text without white space, up to
/// its end or to white space, is one word, and behind it stand the words of the rest.
pub proof fn words_end_at_white_space(
    s: &[char],
    r: Vec<Vec<char>>,
    word: Seq<char>,
    rest: &[char],
    more: Vec<Vec<char>>,
    c: char,
    is: bool,
)
    requires
        forall|i: int| 0 <= i < word.len() ==> !crate::scan::is_white(#[trigger] word[i]),
        call_ensures(white, (c,), is),
        call_ensures(split_words, (s,), r),
        call_ensures(split_words, (rest,), more),
    ensures
        s@.len() == 0 ==> r@.len() == 0,
        is && s@ == seq![c] + rest@ ==> {
            &&& r@.len() == more@.len()
            &&& forall|i: int| 0 <= i < more@.len() ==> (#[trigger] r@[i])@ == more@[i]@
        },
        s@ == word && word.len() > 0 ==> r@.len() == 1 && r@[0]@ == word,
        is && word.len() > 0 && s@ == word.push(c) + rest@ ==> {
            &&& r@.len() == 1 + more@.len()
            &&& r@[0]@ == word
            &&& forall|i: int| 0 <= i < more@.len() ==> (#[trigger] more@[i])@ == r@[i + 1]@
        },
{
    let t = s@;
    let all = pieces(r@);
    let others = pieces(more@);
    assert(all == words_from(t, 0) && others == words_from(rest@, 0));
    if t.len() == 0 {
        assert(all.len() == 0);
    }
    if is && t == seq![c] + rest@ {
        assert(t.skip(1) =~= rest@);
        white_in_front(t);
        assert forall|i: int| 0 <= i < more@.len() implies (#[trigger] r@[i])@ == more@[i]@ by {
            assert(all[i] == r@[i]@ && others[i] == more@[i]@);
        }
    }
    if word.len() > 0 && t == word {
        assert(!crate::scan::is_white(word[0]));
        runs_end_where_they_end(t, false, 0, 0);
        runs_end_where_they_end(t, true, 0, t.len() as int);
        assert(t.subrange(0, t.len() as int) =~= t);
        let end = t.len() as int;
        assert(run_end(t, false, end) == end && run_end(t, true, end) == end);
        assert(words_from(t, end) == Seq::<Seq<char>>::empty());
        assert(all == seq![word]);
        assert(all[0] == r@[0]@);
    }
    if is && word.len() > 0 && t == word.push(c) + rest@ {
        let j = word.len() as int;
        assert(t[0] == word[0] && !crate::scan::is_white(word[0]));
        assert forall|k: int| 0 <= k < j implies crate::scan::is_white(#[trigger] t[k]) != true by {
            assert(t[k] == word[k]);
        }
        assert(t[j] == c);
        runs_end_where_they_end(t, false, 0, 0);
        runs_end_where_they_end(t, true, 0, j);
        assert(t.subrange(0, j) =~= word);
        words_further_on(t, j, j);
        let tail = t.skip(j);
        assert(tail.skip(1) =~= rest@);
        white_in_front(tail);
        assert(all == seq![word] + others);
        assert(all[0] == r@[0]@);
        assert forall|i: int| 0 <= i < more@.len() implies (#[trigger] more@[i])@ == r@[i + 1]@ by {
            assert(others[i] == more@[i]@);
            assert(all[i + 1] == r@[i + 1]@);
            assert(all[i + 1] == others[i]);
        }
    }
}

proof fn white_in_front(s: Seq<char>)
    requires
        s.len() > 0,
        crate::scan::is_white(s[0]),
    ensures
        words_from(s, 0) == words_from(s.skip(1), 0),
{
    words_further_on(s, 1, 1);
    assert(run_end(s, false, 0) == run_end(s, false, 1));
    runs_end_further_on(s, false, 0, 1);
    let a = run_end(s, false, 1);
    runs_end_further_on(s, true, 0, a);
}

proof fn ends_are_trimmed(s: Seq<char>)
    ensures
        0 <= trimmed_end(s) <= s.len(),
        trimmed_end(s) > 0 ==> !crate::scan::is_white(s[trimmed_end(s) - 1]),
        forall|i: int| trimmed_end(s) <= i < s.len() ==> crate::scan::is_white(#[trigger] s[i]),
    decreases s.len(),
{
    if s.len() > 0 && crate::scan::is_white(s.last()) {
        let front = s.drop_last();
        ends_are_trimmed(front);
        let e = trimmed_end(front);
        assert forall|i: int| e <= i < s.len() implies crate::scan::is_white(#[trigger] s[i]) by {
            if i < front.len() {
                assert(front[i] == s[i]);
            }
        }
        if e > 0 {
            assert(front[e - 1] == s[e - 1]);
        }
    }
}

/// Trimming takes away white space at both ends and nothing else.
pub proof fn only_white_space_is_trimmed(s: &[char], r: Vec<char>)
    requires
        call_ensures(trim, (s,), r),
    ensures
        r@.len() > 0 ==> !crate::scan::is_white(r@[0]) && !crate::scan::is_white(r@.last()),
        exists|a: int|
            #![trigger s@.skip(a)]
            0 <= a && a + r@.len() <= s@.len() && s@.subrange(a, a + r@.len() as int) == r@ && (
            forall|i: int|
                0 <= i < s@.len() && !(a <= i < a + r@.len()) ==> crate::scan::is_white(
                    #[trigger] s@[i],
                )),
{
    let t = s@;
    runs_end_further_on(t, false, 0, 0);
    ends_are_trimmed(t);
    let a = run_end(t, false, 0);
    let b = trimmed_end(t);
    if a <= b {
        assert(t.subrange(a, a + r@.len() as int) =~= r@);
        assert(t.skip(a).len() == t.len() - a);
        if a < b {
            assert(r@[0] == t[a]);
            assert(r@.last() == t[b - 1]);
        }
    } else {
        assert(t.skip(0).len() == t.len());
        assert(t.subrange(0, 0 + r@.len() as int) =~= r@);
        assert forall|i: int| 0 <= i < t.len() && !(0 <= i < 0 + r@.len()) implies crate::scan::is_white(
            #[trigger] t[i],
        ) by {}
    }
}

/// Joining puts the separator between any two pieces, and nowhere else.
pub proof fn separators_stand_between(
    list: &Vec<String>,
    separator: &str,
    r: String,
    longer: &Vec<String>,
    last: String,
    t: String,
)
    requires
        call_ensures(join_texts, (list, separator), r),
        longer@ == list@.push(last),
        call_ensures(join_texts, (longer, separator), t),
    ensures
        list@.len() == 0 ==> r@.len() == 0 && t@ == last@,
        list@.len() > 0 ==> t@ == r@ + separator@ + last@,
{
    let a = crate::model::texts(list@);
    let b = crate::model::texts(longer@);
    assert(b.len() == a.len() + 1);
    assert(b.drop_last() =~= a);
    assert(b.last() == last@);
    if list@.len() == 0 {
        assert(b[0] == last@);
    }
    assert(joined(b, separator@) == t@);
}

} // verus!
