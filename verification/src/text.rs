//! Conversions between strings and character vectors, and the small text
//! utilities the rest of the crate is built from.

use vstd::prelude::*;
use vstd::std_specs::iter::IteratorSpec;

verus! {

/// `String::push` appends one character to the end of the string.
pub assume_specification[ String::push ](s: &mut String, ch: char)
    ensures
        final(s)@ == old(s)@.push(ch),
;

/// The characters of `s`, in order.
pub fn chars_of(s: &str) -> (out: Vec<char>)
    ensures
        out@ == s@,
{
    let mut out: Vec<char> = Vec::new();
    let mut it = s.chars();
    loop
        invariant
            it.obeys_prophetic_iter_laws(),
            it.decrease() is Some,
            out@ + it.remaining() == s@,
        ensures
            out@ == s@,
        decreases it.decrease()->0,
    {
        let ghost before = it;
        let next = it.next();
        match next {
            Some(c) => {
                assert(out@.push(c) + it.remaining() =~= out@ + before.remaining());
                out.push(c);
            },
            None => {
                assert(out@ + before.remaining() =~= out@);
                break ;
            },
        }
    }
    out
}

/// The string made of the characters of `chars`, in order.
pub fn string_of(chars: &Vec<char>) -> (out: String)
    ensures
        out@ == chars@,
{
    let mut out = String::new();
    let mut i: usize = 0;
    while i < chars.len()
        invariant
            i <= chars.len(),
            out@ == chars@.subrange(0, i as int),
        decreases chars.len() - i,
    {
        out.push(chars[i]);
        assert(chars@.subrange(0, i as int).push(chars@[i as int]) =~= chars@.subrange(0, i + 1));
        i += 1;
    }
    assert(chars@.subrange(0, chars.len() as int) =~= chars@);
    out
}

/// The views of a vector of character vectors, piece by piece.
pub open spec fn views(pieces: Seq<Vec<char>>) -> Seq<Seq<char>> {
    Seq::new(pieces.len(), |i: int| pieces[i]@)
}

/// The pieces of `s` between separators, where a character is a separator
/// when it equals `a` or `b`. Every separator closes the piece before it and
/// opens a new one, so a text with `n` separators has `n + 1` pieces, some
/// of which may be empty.
pub open spec fn split_any(s: Seq<char>, a: char, b: char) -> Seq<Seq<char>>
    decreases s.len(),
{
    if s.len() == 0 {
        seq![Seq::<char>::empty()]
    } else {
        let before = split_any(s.drop_last(), a, b);
        if s.last() == a || s.last() == b {
            before.push(Seq::<char>::empty())
        } else {
            before.update(before.len() - 1, before.last().push(s.last()))
        }
    }
}

/// The pieces of `s` between occurrences of `sep`.
pub open spec fn split_on(s: Seq<char>, sep: char) -> Seq<Seq<char>> {
    split_any(s, sep, sep)
}

/// A split always yields at least one piece.
pub proof fn lemma_split_nonempty(s: Seq<char>, a: char, b: char)
    ensures
        split_any(s, a, b).len() >= 1,
    decreases s.len(),
{
    if s.len() > 0 {
        lemma_split_nonempty(s.drop_last(), a, b);
    }
}

/// Splits `s` at every character equal to `a` or `b`.
pub fn split_chars(s: &Vec<char>, a: char, b: char) -> (out: Vec<Vec<char>>)
    ensures
        views(out@) == split_any(s@, a, b),
        out.len() >= 1,
{
    let mut done: Vec<Vec<char>> = Vec::new();
    let mut piece: Vec<char> = Vec::new();
    let mut i: usize = 0;
    assert(s@.subrange(0, 0) =~= Seq::<char>::empty());
    assert(views(done@).push(piece@) =~= seq![Seq::<char>::empty()]);
    while i < s.len()
        invariant
            i <= s.len(),
            views(done@).push(piece@) == split_any(s@.subrange(0, i as int), a, b),
        decreases s.len() - i,
    {
        let c = s[i];
        let ghost prefix = s@.subrange(0, i as int);
        let ghost longer = s@.subrange(0, i + 1);
        let ghost before = views(done@).push(piece@);
        assert(longer.drop_last() =~= prefix);
        assert(longer.last() == c);
        if c == a || c == b {
            done.push(piece);
            piece = Vec::new();
            assert(views(done@) =~= before);
            assert(views(done@).push(piece@) =~= before.push(Seq::<char>::empty()));
        } else {
            piece.push(c);
            assert(views(done@).push(piece@) =~= before.update(
                before.len() - 1,
                before.last().push(c),
            ));
        }
        i += 1;
    }
    assert(s@.subrange(0, s.len() as int) =~= s@);
    let ghost before = views(done@).push(piece@);
    done.push(piece);
    assert(views(done@) =~= before);
    done
}

/// Whether `s` begins with `prefix`.
pub open spec fn has_prefix(s: Seq<char>, prefix: Seq<char>) -> bool {
    prefix.len() <= s.len() && s.subrange(0, prefix.len() as int) == prefix
}

/// Tests whether `s` begins with `prefix`.
pub fn starts_with(s: &Vec<char>, prefix: &Vec<char>) -> (out: bool)
    ensures
        out == has_prefix(s@, prefix@),
{
    if prefix.len() > s.len() {
        return false;
    }
    let mut i: usize = 0;
    while i < prefix.len()
        invariant
            i <= prefix.len() <= s.len(),
            s@.subrange(0, i as int) == prefix@.subrange(0, i as int),
        decreases prefix.len() - i,
    {
        if s[i] != prefix[i] {
            assert(s@.subrange(0, prefix.len() as int)[i as int] != prefix@[i as int]);
            return false;
        }
        assert(s@.subrange(0, i + 1) =~= s@.subrange(0, i as int).push(s@[i as int]));
        assert(prefix@.subrange(0, i + 1) =~= prefix@.subrange(0, i as int).push(
            prefix@[i as int],
        ));
        i += 1;
    }
    assert(prefix@.subrange(0, prefix.len() as int) =~= prefix@);
    true
}

/// The character of a decimal digit.
pub open spec fn digit(d: nat) -> char
    recommends
        d < 10,
{
    (0x30 + d) as u8 as char
}

/// The decimal numeral of a natural number, without leading zeros.
pub open spec fn decimal(n: nat) -> Seq<char>
    decreases n,
{
    if n < 10 {
        seq![digit(n)]
    } else {
        decimal(n / 10).push(digit(n % 10))
    }
}

/// The decimal numeral of an integer: a minus sign before the numeral of a
/// negative number's size.
pub open spec fn signed_decimal(n: int) -> Seq<char> {
    if n < 0 {
        seq!['-'] + decimal((-n) as nat)
    } else {
        decimal(n as nat)
    }
}

/// Appends the decimal numeral of `n` to `out`.
pub fn push_decimal(out: &mut String, n: u64)
    ensures
        final(out)@ == old(out)@ + decimal(n as nat),
    decreases n,
{
    if n >= 10 {
        push_decimal(out, n / 10);
    }
    let d: u8 = (n % 10) as u8;
    out.push((0x30u8 + d) as char);
    assert(final(out)@ =~= old(out)@ + decimal(n as nat)) by {
        if n >= 10 {
            assert(old(out)@ + decimal(n as nat) =~= (old(out)@ + decimal((n / 10) as nat)).push(
                digit((n % 10) as nat),
            ));
        }
    }
}

/// Appends the decimal numeral of `n` to `out`.
pub fn push_signed_decimal(out: &mut String, n: i64)
    ensures
        final(out)@ == old(out)@ + signed_decimal(n as int),
{
    if n < 0 {
        out.push('-');
        let size: u64 = if n == i64::MIN {
            0x8000_0000_0000_0000u64
        } else {
            (-n) as u64
        };
        push_decimal(out, size);
        assert(final(out)@ =~= old(out)@ + signed_decimal(n as int));
    } else {
        push_decimal(out, n as u64);
    }
}

/// Whether a character is a decimal digit.
pub open spec fn is_digit(c: char) -> bool {
    '0' <= c && c <= '9'
}

/// Whether every character of `s` is a decimal digit.
pub open spec fn all_digits(s: Seq<char>) -> bool {
    forall|i: int| 0 <= i < s.len() ==> is_digit(#[trigger] s[i])
}

/// The number that a row of decimal digits spells.
pub open spec fn digits_value(s: Seq<char>) -> nat
    decreases s.len(),
{
    if s.len() == 0 {
        0
    } else {
        digits_value(s.drop_last()) * 10 + ((s.last() as nat) - 0x30) as nat
    }
}

/// The integer that a text spells: at least one decimal digit, with at most
/// one sign before them.
pub open spec fn number_of(s: Seq<char>) -> Option<int> {
    if s.len() > 0 && (s[0] == '-' || s[0] == '+') {
        let digits = s.drop_first();
        if digits.len() > 0 && all_digits(digits) {
            Some(
                if s[0] == '-' {
                    -(digits_value(digits) as int)
                } else {
                    digits_value(digits) as int
                },
            )
        } else {
            None
        }
    } else if s.len() > 0 && all_digits(s) {
        Some(digits_value(s) as int)
    } else {
        None
    }
}

/// The integer that a text spells, if it lies between `min` and `max`.
pub open spec fn number_within(s: Seq<char>, min: int, max: int) -> Option<int> {
    match number_of(s) {
        Some(n) => if min <= n <= max {
            Some(n)
        } else {
            None
        },
        None => None,
    }
}

/// A row of digits spells at least what any of its beginnings spells.
pub proof fn lemma_digits_value_grows(s: Seq<char>, i: int)
    requires
        all_digits(s),
        0 <= i <= s.len(),
    ensures
        digits_value(s.subrange(0, i)) <= digits_value(s),
    decreases s.len(),
{
    if i == s.len() {
        assert(s.subrange(0, i) =~= s);
    } else {
        let shorter = s.drop_last();
        assert(all_digits(shorter)) by {
            assert forall|j: int| 0 <= j < shorter.len() implies is_digit(#[trigger] shorter[j]) by {
                assert(shorter[j] == s[j]);
            }
        }
        lemma_digits_value_grows(shorter, i);
        assert(shorter.subrange(0, i) =~= s.subrange(0, i));
        assert(is_digit(s[s.len() - 1]));
    }
}

/// Reads the digits of `s` from position `from` on, as a number of at most
/// `limit`.
fn parse_digits(s: &Vec<char>, from: usize, limit: u64) -> (out: Option<u64>)
    requires
        from <= s.len(),
        limit >= 9,
    ensures
        out is Some <==> from < s.len() && all_digits(s@.subrange(from as int, s.len() as int))
            && digits_value(s@.subrange(from as int, s.len() as int)) <= limit,
        out matches Some(n) ==> n == digits_value(s@.subrange(from as int, s.len() as int)),
{
    let ghost digits = s@.subrange(from as int, s.len() as int);
    if from == s.len() {
        return None;
    }
    let mut acc: u64 = 0;
    let mut i: usize = from;
    assert(digits.subrange(0, 0) =~= Seq::<char>::empty());
    while i < s.len()
        invariant
            from <= i <= s.len(),
            digits == s@.subrange(from as int, s.len() as int),
            all_digits(digits.subrange(0, i - from)),
            acc == digits_value(digits.subrange(0, i - from)),
            acc <= limit,
            limit >= 9,
        decreases s.len() - i,
    {
        let c = s[i];
        let ghost longer = digits.subrange(0, i - from + 1);
        assert(longer.drop_last() =~= digits.subrange(0, i - from));
        assert(longer.last() == c);
        assert(digits[i - from] == c);
        if !('0' <= c && c <= '9') {
            assert(!is_digit(digits[i - from]));
            return None;
        }
        assert(all_digits(longer)) by {
            assert forall|j: int| 0 <= j < longer.len() implies is_digit(#[trigger] longer[j]) by {
                if j < longer.len() - 1 {
                    assert(digits.subrange(0, i - from)[j] == longer[j]);
                }
            }
        }
        let d: u64 = (c as u32 - 0x30) as u64;
        assert(d <= 9 && d == (c as nat) - 0x30);
        if acc > (limit - d) / 10 {
            proof {
                if all_digits(digits) {
                    lemma_digits_value_grows(digits, i - from + 1);
                }
            }
            return None;
        }
        acc = acc * 10 + d;
        i += 1;
    }
    assert(digits.subrange(0, s.len() - from) =~= digits);
    Some(acc)
}

/// Reads the 64-bit integer that a text spells.
pub fn parse_i64(s: &Vec<char>) -> (out: Option<i64>)
    ensures
        out is Some <==> number_within(s@, i64::MIN as int, i64::MAX as int) is Some,
        out matches Some(n) ==> number_of(s@) == Some(n as int),
{
    if s.len() == 0 {
        return None;
    }
    if s[0] == '-' {
        assert(s@.drop_first() =~= s@.subrange(1, s.len() as int));
        match parse_digits(s, 1, 0x8000_0000_0000_0000u64) {
            Some(size) => if size == 0x8000_0000_0000_0000u64 {
                Some(i64::MIN)
            } else {
                Some(-(size as i64))
            },
            None => None,
        }
    } else if s[0] == '+' {
        assert(s@.drop_first() =~= s@.subrange(1, s.len() as int));
        match parse_digits(s, 1, 0x7fff_ffff_ffff_ffffu64) {
            Some(size) => Some(size as i64),
            None => None,
        }
    } else {
        assert(s@ =~= s@.subrange(0, s.len() as int));
        match parse_digits(s, 0, 0x7fff_ffff_ffff_ffffu64) {
            Some(size) => Some(size as i64),
            None => None,
        }
    }
}

/// Reads the 32-bit integer that a text spells.
pub fn parse_i32(s: &Vec<char>) -> (out: Option<i32>)
    ensures
        out is Some <==> number_within(s@, i32::MIN as int, i32::MAX as int) is Some,
        out matches Some(n) ==> number_of(s@) == Some(n as int),
{
    match parse_i64(s) {
        Some(n) => if -0x8000_0000i64 <= n && n <= 0x7fff_ffffi64 {
            Some(n as i32)
        } else {
            None
        },
        None => None,
    }
}

/// The decimal numeral of a number is a row of at least one digit that
/// spells the number.
pub proof fn lemma_decimal_spells(n: nat)
    ensures
        decimal(n).len() >= 1,
        all_digits(decimal(n)),
        digits_value(decimal(n)) == n,
    decreases n,
{
    if n < 10 {
        assert(decimal(n).drop_last() =~= Seq::<char>::empty());
        assert(digits_value(decimal(n).drop_last()) == 0);
    } else {
        lemma_decimal_spells(n / 10);
        let shorter = decimal(n / 10);
        assert(decimal(n).drop_last() =~= shorter);
        assert forall|i: int| 0 <= i < decimal(n).len() implies is_digit(
            #[trigger] decimal(n)[i],
        ) by {
            if i < shorter.len() {
                assert(shorter[i] == decimal(n)[i]);
            }
        }
    }
}

/// Reading the numeral of an integer gives the integer back.
pub proof fn lemma_signed_decimal_read_back(n: int)
    ensures
        number_of(signed_decimal(n)) == Some(n),
{
    if n < 0 {
        lemma_decimal_spells((-n) as nat);
        assert(signed_decimal(n).drop_first() =~= decimal((-n) as nat));
    } else {
        lemma_decimal_spells(n as nat);
        assert(is_digit(decimal(n as nat)[0]));
    }
}

/// Whether `s` holds neither `a` nor `b`.
pub open spec fn free_of(s: Seq<char>, a: char, b: char) -> bool {
    forall|i: int| 0 <= i < s.len() ==> #[trigger] s[i] != a && s[i] != b
}

/// A text without separators is one piece.
pub proof fn lemma_split_unbroken(s: Seq<char>, a: char, b: char)
    requires
        free_of(s, a, b),
    ensures
        split_any(s, a, b) == seq![s],
    decreases s.len(),
{
    if s.len() == 0 {
        assert(s =~= Seq::<char>::empty());
    } else {
        let shorter = s.drop_last();
        assert(free_of(shorter, a, b)) by {
            assert forall|i: int| 0 <= i < shorter.len() implies #[trigger] shorter[i] != a
                && shorter[i] != b by {
                assert(shorter[i] == s[i]);
            }
        }
        lemma_split_unbroken(shorter, a, b);
        assert(s[s.len() - 1] != a && s[s.len() - 1] != b);
        assert(shorter.push(s.last()) =~= s);
        assert(split_any(s, a, b) =~= seq![s]);
    }
}

/// The pieces of two texts with a separator between them are the pieces of
/// the first followed by the pieces of the second.
pub proof fn lemma_split_joined(x: Seq<char>, sep: char, y: Seq<char>, a: char, b: char)
    requires
        sep == a || sep == b,
    ensures
        split_any(x.push(sep) + y, a, b) == split_any(x, a, b) + split_any(y, a, b),
    decreases y.len(),
{
    let whole = x.push(sep) + y;
    if y.len() == 0 {
        assert(whole =~= x.push(sep));
        assert(whole.drop_last() =~= x);
        assert(split_any(whole, a, b) =~= split_any(x, a, b) + split_any(y, a, b));
    } else {
        let shorter = y.drop_last();
        lemma_split_joined(x, sep, shorter, a, b);
        lemma_split_nonempty(shorter, a, b);
        assert(whole.drop_last() =~= x.push(sep) + shorter);
        assert(whole.last() == y.last());
        assert(split_any(whole, a, b) =~= split_any(x, a, b) + split_any(y, a, b));
    }
}

/// Ten to the power of `k`.
pub open spec fn ten_to(k: nat) -> nat
    decreases k,
{
    if k == 0 {
        1
    } else {
        10 * ten_to((k - 1) as nat)
    }
}

/// A number below ten to the `k` has a numeral of at most `k` digits.
pub proof fn lemma_decimal_len(n: nat, k: nat)
    requires
        k >= 1,
        n < ten_to(k),
    ensures
        decimal(n).len() <= k,
    decreases k,
{
    if n >= 10 {
        assert(ten_to(1) == 10) by {
            reveal_with_fuel(ten_to, 2);
        }
        assert(k >= 2);
        lemma_decimal_len(n / 10, (k - 1) as nat);
    }
}

/// The numeral of a 32-bit integer has at most 11 characters, each a digit
/// or a minus sign.
pub proof fn lemma_signed_decimal_shape(n: int)
    requires
        i32::MIN <= n <= i32::MAX,
    ensures
        1 <= signed_decimal(n).len() <= 11,
        forall|i: int|
            0 <= i < signed_decimal(n).len() ==> is_digit(#[trigger] signed_decimal(n)[i])
                || signed_decimal(n)[i] == '-',
{
    assert(ten_to(10) == 10_000_000_000) by {
        reveal_with_fuel(ten_to, 11);
    }
    if n < 0 {
        lemma_decimal_len((-n) as nat, 10);
        lemma_decimal_spells((-n) as nat);
        assert forall|i: int| 0 <= i < signed_decimal(n).len() implies is_digit(
            #[trigger] signed_decimal(n)[i],
        ) || signed_decimal(n)[i] == '-' by {
            if i > 0 {
                assert(signed_decimal(n)[i] == decimal((-n) as nat)[i - 1]);
            }
        }
    } else {
        lemma_decimal_len(n as nat, 10);
        lemma_decimal_spells(n as nat);
    }
}

/// A line without the carriage return that may end it.
pub open spec fn without_return(line: Seq<char>) -> Seq<char> {
    if line.len() > 0 && line.last() == '\r' {
        line.drop_last()
    } else {
        line
    }
}

/// The lines of a text. A line ends with a line feed, or with a carriage
/// return and a line feed; neither belongs to the line. What follows the
/// last line feed is a line of its own unless it is empty.
pub open spec fn lines_of(text: Seq<char>) -> Seq<Seq<char>> {
    let parts = split_on(text, '\n');
    let closed = Seq::new((parts.len() - 1) as nat, |i: int| without_return(parts[i]));
    if parts.last().len() == 0 {
        closed
    } else {
        closed.push(parts.last())
    }
}

/// The lines of a text.
pub fn lines(text: &str) -> (out: Vec<String>)
    ensures
        out@.len() == lines_of(text@).len(),
        forall|i: int| 0 <= i < out@.len() ==> (#[trigger] out@[i])@ == lines_of(text@)[i],
{
    let chars = chars_of(text);
    let parts = split_chars(&chars, '\n', '\n');
    assert(views(parts@).len() == parts@.len());
    let mut out: Vec<String> = Vec::new();
    let mut i: usize = 0;
    while i + 1 < parts.len()
        invariant
            i + 1 <= parts.len(),
            views(parts@) == split_on(text@, '\n'),
            out@.len() == i,
            forall|j: int|
                0 <= j < i ==> (#[trigger] out@[j])@ == without_return(split_on(text@, '\n')[j]),
        decreases parts.len() - i,
    {
        let part = &parts[i];
        assert(views(parts@)[i as int] == part@);
        let line = if part.len() > 0 && part[part.len() - 1] == '\r' {
            let mut shorter = part.clone();
            shorter.pop();
            assert(shorter@ =~= part@.drop_last());
            string_of(&shorter)
        } else {
            string_of(part)
        };
        out.push(line);
        i += 1;
    }
    let last = &parts[parts.len() - 1];
    assert(views(parts@).last() == last@);
    if last.len() > 0 {
        out.push(string_of(last));
    }
    out
}

} // verus!
