//! Text as sequences of characters: decimal numerals, separated lists and searching.
use vstd::prelude::*;
use vstd::string::*;

verus! {

/// The numeral of a single decimal digit.
pub open spec fn digit_char(d: nat) -> char {
    (d + '0' as nat) as char
}

/// The decimal numeral of `n`, without leading zeros.
pub open spec fn decimal(n: nat) -> Seq<char>
    decreases n,
{
    if n < 10 {
        seq![digit_char(n)]
    } else {
        decimal(n / 10).push(digit_char(n % 10))
    }
}

/// Whether `c` is one of the characters `0` to `9`.
pub open spec fn is_digit(c: char) -> bool {
    '0' <= c <= '9'
}

/// The number that a sequence of digits denotes in base ten.
pub open spec fn digits_value(s: Seq<char>) -> nat
    decreases s.len(),
{
    if s.len() == 0 {
        0
    } else {
        10 * digits_value(s.drop_last()) + (s.last() as nat - '0' as nat) as nat
    }
}

/// A text without the one plus sign that a numeral may start with.
pub open spec fn unsigned_part(s: Seq<char>) -> Seq<char> {
    if s.len() > 0 && s[0] == '+' {
        s.skip(1)
    } else {
        s
    }
}

/// Whether `s` is a numeral: an optional plus sign, then one digit or more and nothing else.
pub open spec fn is_numeral(s: Seq<char>) -> bool {
    let digits = unsigned_part(s);
    digits.len() > 0 && forall|i: int| 0 <= i < digits.len() ==> is_digit(#[trigger] digits[i])
}

/// The 32-bit number that `s` denotes, if it is a numeral of one.
pub open spec fn numeral_u32(s: Seq<char>) -> Option<u32> {
    if is_numeral(s) && digits_value(unsigned_part(s)) <= u32::MAX {
        Some(digits_value(unsigned_part(s)) as u32)
    } else {
        None
    }
}

/// The position of the first `c` in `s`, or the length of `s` where there is none.
pub open spec fn first_index(s: Seq<char>, c: char) -> int
    decreases s.len(),
{
    if s.len() == 0 || s[0] == c {
        0
    } else {
        1 + first_index(s.skip(1), c)
    }
}

/// The members of `list`, with `sep` between each two neighbours.
pub open spec fn separated(list: Seq<Seq<char>>, sep: Seq<char>) -> Seq<char>
    decreases list.len(),
{
    if list.len() == 0 {
        Seq::empty()
    } else if list.len() == 1 {
        list[0]
    } else {
        separated(list.drop_last(), sep) + sep + list.last()
    }
}

/// The texts that a sequence of strings holds.
pub open spec fn texts(list: Seq<String>) -> Seq<Seq<char>> {
    list.map_values(|s: String| s@)
}

/// `first_index` is where the search first succeeds, or the length.
pub proof fn lemma_first_index(s: Seq<char>, c: char)
    ensures
        0 <= first_index(s, c) <= s.len(),
        first_index(s, c) < s.len() ==> s[first_index(s, c)] == c,
        forall|i: int| 0 <= i < first_index(s, c) ==> #[trigger] s[i] != c,
    decreases s.len(),
{
    if s.len() > 0 && s[0] != c {
        lemma_first_index(s.skip(1), c);
        assert forall|i: int| 0 <= i < first_index(s, c) implies #[trigger] s[i] != c by {
            if i > 0 {
                assert(s.skip(1)[i - 1] == s[i]);
            }
        }
    }
}

/// A position before which `c` does not occur, and at which it occurs or the text ends, is
/// `first_index`.
pub proof fn lemma_first_index_unique(s: Seq<char>, c: char, k: int)
    requires
        0 <= k <= s.len(),
        k < s.len() ==> s[k] == c,
        forall|i: int| 0 <= i < k ==> #[trigger] s[i] != c,
    ensures
        first_index(s, c) == k,
{
    lemma_first_index(s, c);
    let f = first_index(s, c);
    if f < k {
        assert(s[f] != c);
    } else if k < f {
        assert(s[k] != c);
    }
}

/// The characters of a string slice, in order.
pub fn to_chars(s: &str) -> (res: Vec<char>)
    ensures
        res@ == s@,
{
    let mut res: Vec<char> = Vec::new();
    for c in it: s.chars()
        invariant
            it.seq() == s@,
            res@ == s@.take(it.index() as int),
    {
        res.push(c);
    }
    res
}

/// The position of the first `c` in `chars[from..to]`, or `to` where there is none.
pub fn find_char(chars: &Vec<char>, c: char, from: usize, to: usize) -> (res: usize)
    requires
        from <= to <= chars@.len(),
    ensures
        res == from + first_index(chars@.subrange(from as int, to as int), c),
        from <= res <= to,
{
    let mut i: usize = from;
    while i < to && chars[i] != c
        invariant
            from <= i <= to <= chars@.len(),
            forall|j: int| from <= j < i ==> #[trigger] chars@[j] != c,
        decreases to - i,
    {
        i = i + 1;
    }
    proof {
        lemma_first_index_unique(chars@.subrange(from as int, to as int), c, i - from);
    }
    i
}

/// Longer prefixes of a numeral denote numbers at least as large.
proof fn lemma_digits_value_prefix(s: Seq<char>, k: int)
    requires
        0 <= k <= s.len(),
    ensures
        digits_value(s.take(k)) <= digits_value(s),
    decreases s.len() - k,
{
    if k < s.len() {
        lemma_digits_value_prefix(s, k + 1);
        assert(s.take(k + 1).drop_last() =~= s.take(k));
    } else {
        assert(s.take(k) =~= s);
    }
}

/// Reads `chars[from..to]` as the numeral of a 32-bit number.
///
/// One leading plus sign is accepted; an empty text, any other character, and a number that is
/// too large give `None`.
pub fn parse_u32(chars: &Vec<char>, from: usize, to: usize) -> (res: Option<u32>)
    requires
        from <= to <= chars@.len(),
    ensures
        res == numeral_u32(chars@.subrange(from as int, to as int)),
{
    let ghost whole = chars@.subrange(from as int, to as int);
    let ghost digits = unsigned_part(whole);
    let start: usize = if from < to && chars[from] == '+' { from + 1 } else { from };
    assert(digits =~= chars@.subrange(start as int, to as int));
    if start == to {
        return None;
    }
    let mut i: usize = start;
    let mut value: u32 = 0;
    while i < to
        invariant
            start <= i <= to <= chars@.len(),
            digits == chars@.subrange(start as int, to as int),
            whole == chars@.subrange(from as int, to as int),
            digits == unsigned_part(whole),
            value == digits_value(digits.take(i - start)),
            forall|j: int| 0 <= j < i - start ==> is_digit(#[trigger] digits[j]),
        decreases to - i,
    {
        let c: char = chars[i];
        assert(digits[i - start] == c);
        if c < '0' || c > '9' {
            assert(!is_digit(digits[i - start]));
            return None;
        }
        let d: u32 = c as u32 - '0' as u32;
        assert(digits.take(i + 1 - start).drop_last() =~= digits.take(i - start));
        assert(digits_value(digits.take(i + 1 - start)) == 10 * value + d);
        if value > (u32::MAX - d) / 10 {
            proof {
                lemma_digits_value_prefix(digits, i + 1 - start);
            }
            return None;
        }
        value = 10 * value + d;
        i = i + 1;
    }
    assert(digits.take(to - start) =~= digits);
    Some(value)
}

/// The numeral of a decimal digit.
fn digit_text(d: u64) -> (res: &'static str)
    requires
        d < 10,
    ensures
        res@ == seq![digit_char(d as nat)],
{
    proof {
        reveal_strlit("0");
        reveal_strlit("1");
        reveal_strlit("2");
        reveal_strlit("3");
        reveal_strlit("4");
        reveal_strlit("5");
        reveal_strlit("6");
        reveal_strlit("7");
        reveal_strlit("8");
        reveal_strlit("9");
    }
    let res: &'static str = match d {
        0 => "0",
        1 => "1",
        2 => "2",
        3 => "3",
        4 => "4",
        5 => "5",
        6 => "6",
        7 => "7",
        8 => "8",
        _ => "9",
    };
    assert(res@ =~= seq![digit_char(d as nat)]);
    res
}

/// Writes `n` in base ten.
pub fn format_u64(n: u64) -> (res: String)
    ensures
        res@ == decimal(n as nat),
    decreases n,
{
    if n < 10 {
        String::from_str(digit_text(n))
    } else {
        let mut res: String = format_u64(n / 10);
        res.append(digit_text(n % 10));
        assert(res@ =~= decimal(n as nat));
        res
    }
}

/// The texts `a` and `b`, one after the other.
pub fn concat(a: &str, b: &str) -> (res: String)
    ensures
        res@ == a@ + b@,
{
    let mut res: String = String::from_str(a);
    res.append(b);
    res
}

/// The same strings in the same order.
pub fn clone_strings(list: &Vec<String>) -> (res: Vec<String>)
    ensures
        res@ == list@,
{
    let mut res: Vec<String> = Vec::new();
    let mut i: usize = 0;
    while i < list.len()
        invariant
            i <= list@.len(),
            res@ == list@.take(i as int),
        decreases list.len() - i,
    {
        res.push(list[i].clone());
        i = i + 1;
    }
    assert(res@ =~= list@);
    res
}

/// Joins the members of `list` with `sep` between each two neighbours.
pub fn join(list: &[String], sep: &str) -> (res: String)
    ensures
        res@ == separated(texts(list@), sep@),
{
    let mut res: String = String::new();
    let mut i: usize = 0;
    while i < list.len()
        invariant
            i <= list@.len(),
            res@ == separated(texts(list@).take(i as int), sep@),
        decreases list.len() - i,
    {
        if i > 0 {
            res.append(sep);
        }
        res.append(list[i].as_str());
        proof {
            let next = texts(list@).take(i + 1);
            assert(next.drop_last() =~= texts(list@).take(i as int));
            assert(next.last() == list@[i as int]@);
            assert(res@ =~= separated(next, sep@));
        }
        i = i + 1;
    }
    assert(texts(list@).take(i as int) =~= texts(list@));
    res
}

/// The numeral of a number is made of digits only and denotes that number.
pub proof fn lemma_decimal_digits(n: nat)
    ensures
        decimal(n).len() > 0,
        forall|i: int| 0 <= i < decimal(n).len() ==> is_digit(#[trigger] decimal(n)[i]),
        digits_value(decimal(n)) == n,
    decreases n,
{
    if n < 10 {
        let s = decimal(n);
        assert(s.drop_last() =~= Seq::<char>::empty());
        assert(s.last() as nat == n + '0' as nat);
        reveal_with_fuel(digits_value, 2);
    } else {
        lemma_decimal_digits(n / 10);
        let s = decimal(n);
        assert(s.drop_last() =~= decimal(n / 10));
        assert(s.last() as nat == n % 10 + '0' as nat);
    }
}

/// Writing a 32-bit number in base ten and reading it back gives the number.
pub proof fn law_numeral_round_trip(n: u32)
    ensures
        numeral_u32(decimal(n as nat)) == Some(n),
{
    lemma_decimal_digits(n as nat);
    let s = decimal(n as nat);
    assert(is_digit(s[0]));
    assert(unsigned_part(s) == s);
}

/// Counted from the right and from 0, character `i` of a numeral says how many times 10 to the
/// power of `i` the number holds, beyond the higher powers.
pub proof fn law_decimal_places(n: nat, i: nat)
    requires
        i < decimal(n).len(),
    ensures
        decimal(n)[decimal(n).len() - 1 - i] as int == 48 + (n as int
            / vstd::arithmetic::power::pow(10, i)) % 10,
    decreases n,
{
    let s = decimal(n);
    let last = s.len() - 1 - i;
    vstd::arithmetic::power::lemma_pow0(10);
    if i == 0 {
        assert(s[last] == digit_char(n % 10));
    } else {
        let m = (i - 1) as nat;
        law_decimal_places(n / 10, m);
        reveal(vstd::arithmetic::power::pow);
        vstd::arithmetic::power::lemma_pow_positive(10, m);
        vstd::arithmetic::div_mod::lemma_div_denominator(
            n as int,
            10,
            vstd::arithmetic::power::pow(10, m),
        );
        assert(s[last] == decimal(n / 10)[decimal(n / 10).len() - 1 - m]);
    }
}

/// A numeral is as long as the number needs: it starts with a zero only where it is that one digit.
pub proof fn law_decimal_is_shortest(n: nat)
    ensures
        decimal(n).len() >= 1,
        decimal(n).len() > 1 ==> decimal(n)[0] != '0',
        n < vstd::arithmetic::power::pow(10, decimal(n).len()),
    decreases n,
{
    reveal(vstd::arithmetic::power::pow);
    vstd::arithmetic::power::lemma_pow1(10);
    if n >= 10 {
        law_decimal_is_shortest(n / 10);
        assert(decimal(n)[0] == decimal(n / 10)[0]);
        if n / 10 < 10 {
            assert(decimal(n / 10)[0] as nat == n / 10 + '0' as nat);
        }
        let p = vstd::arithmetic::power::pow(10, decimal(n / 10).len());
        assert(vstd::arithmetic::power::pow(10, decimal(n).len()) == 10 * p);
    }
}

/// Two numbers that are written alike are the same number.
pub proof fn law_decimal_injective(m: nat, n: nat)
    requires
        decimal(m) == decimal(n),
    ensures
        m == n,
{
    lemma_decimal_digits(m);
    lemma_decimal_digits(n);
}

/// What is read as a number is a digit or more, with at most a plus sign before them.
pub proof fn law_numeral_is_digits(s: Seq<char>, i: int)
    requires
        numeral_u32(s) is Some,
        0 <= i < s.len(),
    ensures
        '0' <= s[i] <= '9' || (i == 0 && s[0] == '+' && s.len() > 1),
{
    if s[0] == '+' {
        if i > 0 {
            assert(is_digit(unsigned_part(s)[i - 1]));
            assert(s.skip(1)[i - 1] == s[i]);
        }
    } else {
        assert(is_digit(unsigned_part(s)[i]));
    }
}

/// A single digit is read as its value.
pub proof fn law_numeral_of_digit(d: char)
    requires
        '0' <= d <= '9',
    ensures
        numeral_u32(seq![d]) == Some((d as u32 - 48) as u32),
{
    let s = seq![d];
    assert(unsigned_part(s) == s);
    assert(s.drop_last() =~= Seq::<char>::empty());
    reveal_with_fuel(digits_value, 2);
    assert(is_digit(s[0]));
}

/// A digit behind a numeral makes the number ten times as large and adds the digit, and nothing is
/// read where that no longer fits in 32 bits.
pub proof fn law_numeral_grows(s: Seq<char>, v: u32, d: char)
    requires
        numeral_u32(s) == Some(v),
        '0' <= d <= '9',
    ensures
        10 * v + (d as int - 48) <= u32::MAX ==> numeral_u32(s.push(d)) == Some(
            (10 * v + (d as int - 48)) as u32,
        ),
        10 * v + (d as int - 48) > u32::MAX ==> numeral_u32(s.push(d)) is None,
{
    let digits = unsigned_part(s);
    let longer = unsigned_part(s.push(d));
    assert(longer =~= digits.push(d));
    assert(longer.drop_last() =~= digits);
    assert forall|i: int| 0 <= i < longer.len() implies is_digit(#[trigger] longer[i]) by {
        if i < digits.len() {
            assert(is_digit(digits[i]));
        }
    }
}

/// A plus sign before digits does not matter.
pub proof fn law_numeral_plus(s: Seq<char>)
    requires
        s.len() > 0,
        s[0] != '+',
    ensures
        numeral_u32(seq!['+'] + s) == numeral_u32(s),
{
    assert((seq!['+'] + s).skip(1) =~= s);
}

/// Nothing is no number.
pub proof fn law_numeral_of_nothing()
    ensures
        numeral_u32(Seq::empty()) is None,
        numeral_u32(seq!['+']) is None,
{
    assert(seq!['+'].skip(1) =~= Seq::<char>::empty());
}

/// The pieces of a text that `c` separates.
pub open spec fn pieces(s: Seq<char>, c: char) -> Seq<Seq<char>>
    decreases s.len(),
{
    let end = first_index(s, c);
    if 0 <= end < s.len() {
        seq![s.take(end)] + pieces(s.skip(end + 1), c)
    } else {
        seq![s]
    }
}

/// A list is its first member, a separator, and the rest of the list.
proof fn lemma_separated_front(list: Seq<Seq<char>>, sep: Seq<char>)
    requires
        list.len() > 1,
    ensures
        separated(list, sep) == list[0] + sep + separated(list.skip(1), sep),
    decreases list.len(),
{
    let rest = list.skip(1);
    if list.len() == 2 {
        assert(list.drop_last().len() == 1);
        assert(separated(list.drop_last(), sep) == list[0]);
        assert(separated(rest, sep) == list[1]);
    } else {
        lemma_separated_front(list.drop_last(), sep);
        assert(list.drop_last().skip(1) =~= rest.drop_last());
        assert(separated(list, sep) =~= list[0] + sep + separated(rest, sep));
    }
}

/// Whoever takes a list apart at its separators gets its members back, all of them, in order and
/// unchanged, where none of them holds the separator.
pub proof fn law_separated_can_be_taken_apart(list: Seq<Seq<char>>, c: char)
    requires
        list.len() > 0,
        forall|i: int| 0 <= i < list.len() ==> !(#[trigger] list[i]).contains(c),
    ensures
        pieces(separated(list, seq![c]), c) == list,
    decreases list.len(),
{
    let whole = separated(list, seq![c]);
    let first = list[0];
    assert forall|i: int| 0 <= i < first.len() implies #[trigger] first[i] != c by {
        assert(first.contains(first[i]));
    }
    if list.len() == 1 {
        lemma_first_index_unique(first, c, first.len() as int);
        assert(list =~= seq![first]);
    } else {
        let rest = list.skip(1);
        lemma_separated_front(list, seq![c]);
        assert forall|i: int| 0 <= i < rest.len() implies !(#[trigger] rest[i]).contains(c) by {
            assert(rest[i] == list[i + 1]);
        }
        law_separated_can_be_taken_apart(rest, c);
        assert(whole[first.len() as int] == c);
        assert forall|i: int| 0 <= i < first.len() implies #[trigger] whole[i] != c by {
            assert(whole[i] == first[i]);
        }
        lemma_first_index_unique(whole, c, first.len() as int);
        assert(whole.take(first.len() as int) =~= first);
        assert(whole.skip(first.len() as int + 1) =~= separated(rest, seq![c]));
        assert(list =~= seq![first] + rest);
    }
}

/// Two lists one after the other are written as the first, a separator and the second, and a list
/// of one is written as its member, whatever characters they hold.
pub proof fn law_separated_of_two_lists(a: Seq<Seq<char>>, b: Seq<Seq<char>>, x: Seq<char>, sep: Seq<char>)
    requires
        a.len() > 0,
        b.len() > 0,
    ensures
        separated(a + b, sep) == separated(a, sep) + sep + separated(b, sep),
        separated(seq![x], sep) == x,
        separated(Seq::empty(), sep).len() == 0,
    decreases b.len(),
{
    let all = a + b;
    if b.len() == 1 {
        assert(all.drop_last() =~= a);
    } else {
        law_separated_of_two_lists(a, b.drop_last(), x, sep);
        assert(all.drop_last() =~= a + b.drop_last());
        assert(separated(all, sep) =~= separated(a, sep) + sep + separated(b, sep));
    }
}

} // verus!
