use vstd::prelude::*;
use vstd::string::StrSliceExecFns;

verus! {

/// `String::push` appends the character to the end of the string.
pub assume_specification[ String::push ](s: &mut String, c: char)
    ensures
        final(s)@ == old(s)@.push(c),
;

/// The character for a digit below ten.
pub open spec fn digit_char(d: nat) -> char {
    if d == 0 {
        '0'
    } else if d == 1 {
        '1'
    } else if d == 2 {
        '2'
    } else if d == 3 {
        '3'
    } else if d == 4 {
        '4'
    } else if d == 5 {
        '5'
    } else if d == 6 {
        '6'
    } else if d == 7 {
        '7'
    } else if d == 8 {
        '8'
    } else {
        '9'
    }
}

/// `n` in decimal, without leading zeros; "0" for zero.
pub open spec fn decimal(n: nat) -> Seq<char>
    decreases n,
{
    if n < 10 {
        seq![digit_char(n)]
    } else {
        decimal(n / 10).push(digit_char(n % 10))
    }
}

/// `n` in decimal with leading zeros up to `width` characters; numbers that
/// need more keep all their digits.
pub open spec fn decimal_padded(n: nat, width: nat) -> Seq<char>
    decreases width,
{
    if decimal(n).len() >= width {
        decimal(n)
    } else {
        seq!['0'] + decimal_padded(n, (width - 1) as nat)
    }
}

pub fn digit_to_char(d: u8) -> (c: char)
    requires
        d < 10,
    ensures
        c == digit_char(d as nat),
{
    if d == 0 {
        '0'
    } else if d == 1 {
        '1'
    } else if d == 2 {
        '2'
    } else if d == 3 {
        '3'
    } else if d == 4 {
        '4'
    } else if d == 5 {
        '5'
    } else if d == 6 {
        '6'
    } else if d == 7 {
        '7'
    } else if d == 8 {
        '8'
    } else {
        '9'
    }
}

/// Appends the characters of `chars` to `s`.
pub fn push_chars(s: &mut String, chars: &Vec<char>)
    ensures
        final(s)@ == old(s)@ + chars@,
{
    let mut i: usize = 0;
    while i < chars.len()
        invariant
            i <= chars@.len(),
            s@ == old(s)@ + chars@.subrange(0, i as int),
        decreases chars@.len() - i,
    {
        s.push(chars[i]);
        i += 1;
        assert(s@ =~= old(s)@ + chars@.subrange(0, i as int));
    }
    assert(chars@.subrange(0, chars@.len() as int) =~= chars@);
}

/// The decimal digits of `n`.
pub fn decimal_chars(n: u64) -> (digits: Vec<char>)
    ensures
        digits@ == decimal(n as nat),
{
    let mut reversed: Vec<char> = Vec::new();
    let mut rest: u64 = n;
    while rest >= 10
        invariant
            decimal(n as nat) == decimal(rest as nat) + reversed@.reverse(),
        decreases rest,
    {
        let ghost before = reversed@;
        reversed.push(digit_to_char((rest % 10) as u8));
        proof {
            assert(reversed@.reverse() =~= seq![digit_char((rest % 10) as nat)]
                + before.reverse());
            assert(decimal(rest as nat) == decimal((rest / 10) as nat).push(
                digit_char((rest % 10) as nat),
            ));
            assert(decimal(rest as nat) + before.reverse() =~= decimal((rest / 10) as nat)
                + reversed@.reverse());
        }
        rest = rest / 10;
    }
    let mut digits: Vec<char> = Vec::new();
    digits.push(digit_to_char(rest as u8));
    let mut i: usize = reversed.len();
    while i > 0
        invariant
            i <= reversed@.len(),
            digits@ == decimal(rest as nat) + reversed@.reverse().subrange(
                0,
                reversed@.len() - i,
            ),
        decreases i,
    {
        i -= 1;
        digits.push(reversed[i]);
        assert(digits@ =~= decimal(rest as nat) + reversed@.reverse().subrange(
            0,
            reversed@.len() - i,
        ));
    }
    assert(reversed@.reverse().subrange(0, reversed@.len() as int) =~= reversed@.reverse());
    digits
}

/// Appends `n` in decimal to `s`.
pub fn push_decimal(s: &mut String, n: u64)
    ensures
        final(s)@ == old(s)@ + decimal(n as nat),
{
    let digits = decimal_chars(n);
    push_chars(s, &digits);
}

/// Appends `n` in decimal to `s`, with leading zeros up to `width`
/// characters.
pub fn push_decimal_padded(s: &mut String, n: u64, width: usize)
    ensures
        final(s)@ == old(s)@ + decimal_padded(n as nat, width as nat),
{
    let digits = decimal_chars(n);
    let mut w: usize = width;
    while w > digits.len()
        invariant
            digits@ == decimal(n as nat),
            w <= width,
            s@ + decimal_padded(n as nat, w as nat) == old(s)@ + decimal_padded(
                n as nat,
                width as nat,
            ),
        decreases w,
    {
        let ghost before = s@;
        s.push('0');
        proof {
            assert(decimal_padded(n as nat, w as nat) == seq!['0'] + decimal_padded(
                n as nat,
                (w - 1) as nat,
            ));
            assert(before + (seq!['0'] + decimal_padded(n as nat, (w - 1) as nat)) =~= s@
                + decimal_padded(n as nat, (w - 1) as nat));
        }
        w -= 1;
    }
    assert(decimal_padded(n as nat, w as nat) == decimal(n as nat));
    push_chars(s, &digits);
}

/// The characters of `s`.
pub fn chars_of(s: &str) -> (chars: Vec<char>)
    ensures
        chars@ == s@,
{
    let n = s.unicode_len();
    let mut chars: Vec<char> = Vec::new();
    let mut i: usize = 0;
    while i < n
        invariant
            i <= n,
            n == s@.len(),
            chars@ == s@.subrange(0, i as int),
        decreases n - i,
    {
        chars.push(s.get_char(i));
        i += 1;
        assert(chars@ =~= s@.subrange(0, i as int));
    }
    assert(s@.subrange(0, n as int) =~= s@);
    chars
}

/// The characters of `chars` from `from` up to `to`, as a string.
pub fn string_of(chars: &Vec<char>, from: usize, to: usize) -> (s: String)
    requires
        from <= to <= chars@.len(),
    ensures
        s@ == chars@.subrange(from as int, to as int),
{
    let mut s = String::new();
    let mut i: usize = from;
    while i < to
        invariant
            from <= i <= to <= chars@.len(),
            s@ == chars@.subrange(from as int, i as int),
        decreases to - i,
    {
        s.push(chars[i]);
        i += 1;
        assert(s@ =~= chars@.subrange(from as int, i as int));
    }
    s
}

/// A text in UTF-8 takes at most four bytes for each character.
pub proof fn lemma_utf8_len(chars: Seq<char>)
    ensures
        vstd::utf8::encode_utf8(chars).len() <= 4 * chars.len(),
    decreases chars.len(),
{
    if chars.len() > 0 {
        lemma_utf8_len(chars.drop_first());
    }
}

/// A number below 100000 has at most five digits.
pub proof fn lemma_decimal_len(n: nat)
    requires
        n < 100000,
    ensures
        1 <= decimal(n).len() <= 5,
{
    reveal_with_fuel(decimal, 6);
}

/// A padded number is as wide as asked for, or as wide as its digits.
pub proof fn lemma_decimal_padded_len(n: nat, width: nat)
    ensures
        decimal_padded(n, width).len() == (if decimal(n).len() >= width {
            decimal(n).len()
        } else {
            width
        }),
    decreases width,
{
    if decimal(n).len() < width {
        lemma_decimal_padded_len(n, (width - 1) as nat);
    }
}

/// The number that a decimal digit stands for.
pub open spec fn digit_value(c: char) -> Option<nat> {
    if 48 <= c as u32 <= 57 {
        Some((c as u32 - 48) as nat)
    } else {
        None
    }
}

pub open spec fn all_digits(text: Seq<char>) -> bool {
    forall|i: int| 0 <= i < text.len() ==> (#[trigger] digit_value(text[i])) is Some
}

/// The number that a run of decimal digits spells.
pub open spec fn number_of(text: Seq<char>) -> nat
    decreases text.len(),
{
    if text.len() == 0 {
        0
    } else {
        number_of(text.drop_last()) * 10 + digit_value(text.last())->Some_0
    }
}

/// The number that `text` spells, as Rust reads an unsigned number no
/// greater than `max`: decimal digits, at least one, after an optional plus
/// sign.
pub open spec fn parsed_unsigned(text: Seq<char>, max: u64) -> Option<u64> {
    let digits = if text.len() > 0 && text[0] == '+' {
        text.skip(1)
    } else {
        text
    };
    if digits.len() > 0 && all_digits(digits) && number_of(digits) <= max {
        Some(number_of(digits) as u64)
    } else {
        None
    }
}

pub proof fn lemma_number_grows(text: Seq<char>, upto: int)
    requires
        0 <= upto <= text.len(),
        all_digits(text),
    ensures
        number_of(text.take(upto)) <= number_of(text),
    decreases text.len() - upto,
{
    if upto < text.len() {
        lemma_number_grows(text, upto + 1);
        assert(text.take(upto + 1).drop_last() =~= text.take(upto));
    } else {
        assert(text.take(upto) =~= text);
    }
}

/// Reads the characters from `from` up to `to` as an unsigned number no
/// greater than `max`.
pub fn parse_unsigned(text: &Vec<char>, from: usize, to: usize, max: u64) -> (r: Option<u64>)
    requires
        from <= to <= text@.len(),
    ensures
        r == parsed_unsigned(text@.subrange(from as int, to as int), max),
{
    let ghost whole = text@.subrange(from as int, to as int);
    let first = if from < to && text[from] == '+' {
        from + 1
    } else {
        from
    };
    let ghost digits = text@.subrange(first as int, to as int);
    proof {
        if first > from {
            assert(whole.skip(1) =~= digits);
        } else {
            assert(whole =~= digits);
        }
    }
    if first == to {
        return None;
    }
    let mut value: u64 = 0;
    let mut i: usize = first;
    proof {
        assert(digits.take(0) =~= Seq::<char>::empty());
    }
    while i < to
        invariant
            first <= i <= to <= text@.len(),
            first < to,
            digits == text@.subrange(first as int, to as int),
            whole == text@.subrange(from as int, to as int),
            digits == (if whole.len() > 0 && whole[0] == '+' {
                whole.skip(1)
            } else {
                whole
            }),
            all_digits(digits.take(i - first)),
            value == number_of(digits.take(i - first)),
            value <= max,
        decreases to - i,
    {
        let c = text[i] as u32;
        proof {
            assert(digits[i - first] == text@[i as int]);
            assert(digits.take(i - first + 1).drop_last() =~= digits.take(i - first));
        }
        if c < 48 || c > 57 {
            assert(!all_digits(digits)) by {
                assert(digit_value(digits[i - first]) is None);
            }
            return None;
        }
        let next: u128 = value as u128 * 10 + (c - 48) as u128;
        proof {
            let taken = digits.take(i - first + 1);
            assert forall|j: int| 0 <= j < taken.len() implies (#[trigger] digit_value(
                taken[j],
            )) is Some by {
                if j < i - first {
                    assert(taken[j] == digits.take(i - first)[j]);
                }
            }
        }
        if next > max as u128 {
            proof {
                if all_digits(digits) {
                    lemma_number_grows(digits, i - first + 1);
                }
            }
            return None;
        }
        value = next as u64;
        i += 1;
    }
    proof {
        assert(digits.take(to - first) =~= digits);
    }
    Some(value)
}

/// Where the first `mark` of `text` stands; the length of `text` if it has
/// none.
pub open spec fn first_index(text: Seq<char>, mark: char) -> int
    decreases text.len(),
{
    if text.len() == 0 || text[0] == mark {
        0
    } else {
        1 + first_index(text.drop_first(), mark)
    }
}

pub proof fn lemma_first_index(text: Seq<char>, mark: char, at: int)
    requires
        0 <= at <= text.len(),
        forall|i: int| 0 <= i < at ==> text[i] != mark,
        at == text.len() || text[at] == mark,
    ensures
        first_index(text, mark) == at,
    decreases at,
{
    if at > 0 {
        lemma_first_index(text.drop_first(), mark, at - 1);
    }
}

/// Where the first `mark` stands among the characters from `from` on,
/// counted from `from`.
pub fn find_first(text: &Vec<char>, from: usize, mark: char) -> (at: usize)
    requires
        from <= text@.len(),
    ensures
        at == first_index(text@.skip(from as int), mark),
        from + at <= text@.len(),
{
    let mut i: usize = from;
    while i < text.len() && text[i] != mark
        invariant
            from <= i <= text@.len(),
            forall|j: int| from <= j < i ==> text@[j] != mark,
        decreases text@.len() - i,
    {
        i += 1;
    }
    proof {
        lemma_first_index(text@.skip(from as int), mark, i - from);
    }
    i - from
}

/// `text` without the white space at its two ends, as `str::trim` gives it.
pub uninterp spec fn trimmed(text: Seq<char>) -> Seq<char>;

/// `str::trim`: the text without leading and trailing white space. It
/// depends on the text alone.
#[verifier::external_body]
pub(crate) fn trim(text: &str) -> (r: &str)
    ensures
        r@ == trimmed(text@),
{
    text.trim()
}

/// Whether `text` starts with the characters of `prefix`.
pub open spec fn starts_with(text: Seq<char>, prefix: Seq<char>) -> bool {
    text.len() >= prefix.len() && text.take(prefix.len() as int) == prefix
}

/// Whether the characters of `text` from `from` on start with `prefix`.
pub fn has_prefix_at(text: &Vec<char>, from: usize, prefix: &Vec<char>) -> (r: bool)
    requires
        from <= text@.len(),
    ensures
        r == starts_with(text@.skip(from as int), prefix@),
{
    let total = text.len();
    if total - from < prefix.len() {
        return false;
    }
    let mut i: usize = 0;
    while i < prefix.len()
        invariant
            i <= prefix@.len(),
            total == text@.len(),
            from + prefix@.len() <= text@.len(),
            forall|j: int| 0 <= j < i ==> text@[from + j] == prefix@[j],
        decreases prefix@.len() - i,
    {
        if text[from + i] != prefix[i] {
            assert(text@.skip(from as int).take(prefix@.len() as int)[i as int] != prefix@[
                i as int
            ]);
            return false;
        }
        i += 1;
    }
    assert(text@.skip(from as int).take(prefix@.len() as int) =~= prefix@);
    true
}

/// Where `pattern` first occurs in `text`; the length of `text` if it
/// does not.
pub open spec fn first_match(text: Seq<char>, pattern: Seq<char>) -> int
    decreases text.len(),
{
    if text.len() == 0 || starts_with(text, pattern) {
        0
    } else {
        1 + first_match(text.drop_first(), pattern)
    }
}

pub proof fn lemma_first_match(text: Seq<char>, pattern: Seq<char>, at: int)
    requires
        0 <= at <= text.len(),
        forall|i: int| 0 <= i < at ==> !starts_with(#[trigger] text.skip(i), pattern),
        at == text.len() || starts_with(text.skip(at), pattern),
    ensures
        first_match(text, pattern) == at,
    decreases at,
{
    assert(text.skip(0) =~= text);
    if at > 0 {
        let rest = text.drop_first();
        assert forall|i: int| 0 <= i < at - 1 implies !starts_with(
            #[trigger] rest.skip(i),
            pattern,
        ) by {
            assert(rest.skip(i) =~= text.skip(i + 1));
        }
        if at < text.len() {
            assert(rest.skip(at - 1) =~= text.skip(at));
        }
        lemma_first_match(rest, pattern, at - 1);
    }
}

/// Where `pattern` first occurs in `text`.
pub fn find_match(text: &Vec<char>, pattern: &Vec<char>) -> (at: usize)
    ensures
        at == first_match(text@, pattern@),
        at <= text@.len(),
{
    let mut i: usize = 0;
    while i < text.len()
        invariant
            i <= text@.len(),
            forall|j: int| 0 <= j < i ==> !starts_with(#[trigger] text@.skip(j), pattern@),
        decreases text@.len() - i,
    {
        if has_prefix_at(text, i, pattern) {
            proof {
                lemma_first_match(text@, pattern@, i as int);
            }
            return i;
        }
        i += 1;
    }
    proof {
        lemma_first_match(text@, pattern@, i as int);
    }
    i
}

/// The characters of `text` from `from` up to `to`.
pub fn slice_chars(text: &Vec<char>, from: usize, to: usize) -> (part: Vec<char>)
    requires
        from <= to <= text@.len(),
    ensures
        part@ == text@.subrange(from as int, to as int),
{
    let mut part: Vec<char> = Vec::new();
    let mut i: usize = from;
    while i < to
        invariant
            from <= i <= to <= text@.len(),
            part@ == text@.subrange(from as int, i as int),
        decreases to - i,
    {
        part.push(text[i]);
        i += 1;
        assert(part@ =~= text@.subrange(from as int, i as int));
    }
    part
}

/// `text` without the `mark`s at its end.
pub open spec fn without_trailing(text: Seq<char>, mark: char) -> Seq<char>
    decreases text.len(),
{
    if text.len() > 0 && text.last() == mark {
        without_trailing(text.drop_last(), mark)
    } else {
        text
    }
}

/// How many characters of `text` are left when the `mark`s at its end are
/// taken away.
pub fn trailing_cut(text: &Vec<char>, mark: char) -> (n: usize)
    ensures
        n <= text@.len(),
        text@.take(n as int) == without_trailing(text@, mark),
{
    let mut n: usize = text.len();
    proof {
        assert(text@.take(n as int) =~= text@);
    }
    while n > 0 && text[n - 1] == mark
        invariant
            n <= text@.len(),
            without_trailing(text@, mark) == without_trailing(text@.take(n as int), mark),
        decreases n,
    {
        proof {
            assert(text@.take(n as int).drop_last() =~= text@.take(n - 1));
        }
        n -= 1;
    }
    n
}

/// Where `first_match` points within the text, the pattern stands.
pub proof fn lemma_first_match_found(text: Seq<char>, pattern: Seq<char>)
    requires
        first_match(text, pattern) < text.len(),
    ensures
        0 <= first_match(text, pattern),
        starts_with(text.skip(first_match(text, pattern)), pattern),
    decreases text.len(),
{
    assert(text.skip(0) =~= text);
    if !(text.len() == 0 || starts_with(text, pattern)) {
        let rest = text.drop_first();
        lemma_first_match_found(rest, pattern);
        assert(rest.skip(first_match(rest, pattern)) =~= text.skip(first_match(text, pattern)));
    }
}

} // verus!
