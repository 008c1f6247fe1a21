//! Text on the wire: tokens, decimal numbers and keywords.
//!
//! A frame is a sequence of characters. Everything here is stated over
//! `Seq<char>`, the view of a `str`.

use vstd::prelude::*;
use vstd::string::*;

verus! {

/// Whether a character is one of the ten decimal digits.
pub open spec fn is_digit(c: char) -> bool {
    '0' <= c <= '9'
}

/// The value of a decimal digit.
pub open spec fn digit_value(c: char) -> nat {
    (c as u32 - '0' as u32) as nat
}

/// The decimal digit of a value under ten.
pub open spec fn digit_char(d: nat) -> char {
    (('0' as u32 + d) as u8) as char
}

/// Whether every character of a text is a decimal digit.
pub open spec fn all_digits(s: Seq<char>) -> bool {
    forall|i: int| 0 <= i < s.len() ==> is_digit(#[trigger] s[i])
}

/// The number that a text of decimal digits spells.
pub open spec fn decimal_value(s: Seq<char>) -> nat
    decreases s.len(),
{
    if s.len() == 0 {
        0
    } else {
        decimal_value(s.drop_last()) * 10 + digit_value(s.last())
    }
}

/// The decimal spelling of a number, without leading zeros.
pub open spec fn decimal_text(n: nat) -> Seq<char>
    decreases n,
{
    if n < 10 {
        seq![digit_char(n)]
    } else {
        decimal_text(n / 10).push(digit_char(n % 10))
    }
}

/// The number that a text spells as an unsigned decimal integer of at most
/// `max`: an optional `+`, then one or more decimal digits.
pub open spec fn unsigned_value(s: Seq<char>, max: nat) -> Option<nat> {
    let digits = if s.len() > 0 && s[0] == '+' {
        s.skip(1)
    } else {
        s
    };
    if digits.len() > 0 && all_digits(digits) && decimal_value(digits) <= max {
        Some(decimal_value(digits))
    } else {
        None
    }
}

/// The pieces of a text between the occurrences of a separator. A text
/// without the separator is one piece, and the empty text is one empty piece.
pub open spec fn split_text(s: Seq<char>, separator: char) -> Seq<Seq<char>>
    decreases s.len(),
{
    if s.len() == 0 {
        seq![Seq::<char>::empty()]
    } else {
        let head = split_text(s.drop_last(), separator);
        if s.last() == separator {
            head.push(Seq::<char>::empty())
        } else {
            head.drop_last().push(head.last().push(s.last()))
        }
    }
}

/// The pieces, put together again with the separator between them.
pub open spec fn join_text(pieces: Seq<Seq<char>>, separator: char) -> Seq<char>
    decreases pieces.len(),
{
    if pieces.len() == 0 {
        Seq::<char>::empty()
    } else if pieces.len() == 1 {
        pieces[0]
    } else {
        join_text(pieces.drop_last(), separator).push(separator) + pieces.last()
    }
}

/// The texts of a sequence of string slices.
pub open spec fn texts(pieces: Seq<&str>) -> Seq<Seq<char>> {
    Seq::new(pieces.len(), |i: int| pieces[i]@)
}

/// A character with the upper-case ASCII letters mapped to lower case.
pub open spec fn lower_char(c: char) -> char {
    if 'A' <= c <= 'Z' {
        ((c as u32 + 32) as u8) as char
    } else {
        c
    }
}

/// A text with its upper-case ASCII letters mapped to lower case.
pub open spec fn lower_text(s: Seq<char>) -> Seq<char> {
    Seq::new(s.len(), |i: int| lower_char(s[i]))
}

/// `String::push` appends one character.
#[verifier::external_body]
pub(crate) fn push_char(s: &mut String, c: char)
    ensures
        final(s)@ == old(s)@.push(c),
{
    s.push(c)
}

/// The characters of a string slice.
pub fn chars_of(s: &str) -> (chars: Vec<char>)
    ensures
        chars@ == s@,
{
    let mut chars: Vec<char> = Vec::new();
    for c in it: s.chars()
        invariant
            chars@ == s@.take(it.index() as int),
            it.seq() == s@,
    {
        chars.push(c);
    }
    chars
}

/// Splits a string slice at every occurrence of a separator.
pub fn split<'a>(s: &'a str, separator: char) -> (pieces: Vec<&'a str>)
    ensures
        texts(pieces@) == split_text(s@, separator),
{
    let chars = chars_of(s);
    let mut pieces: Vec<&'a str> = Vec::new();
    let mut start: usize = 0;
    let mut i: usize = 0;
    assert(s@.take(0) =~= Seq::<char>::empty());
    assert(texts(pieces@).push(s@.subrange(0, 0)) =~= seq![Seq::<char>::empty()]);
    while i < chars.len()
        invariant
            chars@ == s@,
            start <= i <= chars.len(),
            split_text(s@.take(i as int), separator) == texts(pieces@).push(
                s@.subrange(start as int, i as int),
            ),
        decreases chars.len() - i,
    {
        let ghost before = texts(pieces@);
        let ghost prefix = s@.take(i as int + 1);
        assert(prefix.drop_last() =~= s@.take(i as int));
        assert(prefix.last() == s@[i as int]);
        if chars[i] == separator {
            let piece = s.substring_char(start, i);
            pieces.push(piece);
            start = i + 1;
            assert(texts(pieces@) =~= before.push(piece@));
            assert(s@.subrange(start as int, i as int + 1) =~= Seq::<char>::empty());
        } else {
            let ghost head = before.push(s@.subrange(start as int, i as int));
            assert(head.drop_last() =~= before);
            assert(head.last().push(s@[i as int]) =~= s@.subrange(start as int, i as int + 1));
        }
        i += 1;
    }
    assert(s@.take(i as int) =~= s@);
    let ghost before = texts(pieces@);
    let piece = s.substring_char(start, i);
    pieces.push(piece);
    assert(texts(pieces@) =~= before.push(piece@));
    pieces
}

/// Each step of reading a decimal number from the left only makes it larger.
pub proof fn lemma_decimal_value_grows(s: Seq<char>, k: int)
    requires
        0 <= k <= s.len(),
    ensures
        decimal_value(s.take(k)) <= decimal_value(s),
    decreases s.len() - k,
{
    if k < s.len() {
        lemma_decimal_value_grows(s, k + 1);
        assert(s.take(k + 1).drop_last() =~= s.take(k));
    } else {
        assert(s.take(k) =~= s);
    }
}

/// Parses an unsigned decimal integer of at most `max`: an optional `+`
/// followed by one or more digits.
pub fn parse_unsigned(s: &str, max: u32) -> (r: Option<u32>)
    ensures
        r matches Some(v) ==> unsigned_value(s@, max as nat) == Some(v as nat),
        r is None ==> unsigned_value(s@, max as nat) is None,
{
    let chars = chars_of(s);
    let first: usize = if chars.len() > 0 && chars[0] == '+' {
        1
    } else {
        0
    };
    let ghost digits = s@.skip(first as int);
    assert(s@.skip(0) =~= s@);
    if first >= chars.len() {
        return None;
    }
    let mut value: u64 = 0;
    let mut i: usize = first;
    assert(digits.take(0) =~= Seq::<char>::empty());
    while i < chars.len()
        invariant
            chars@ == s@,
            digits == s@.skip(first as int),
            digits == if s@.len() > 0 && s@[0] == '+' {
                s@.skip(1)
            } else {
                s@
            },
            first <= i <= chars.len(),
            all_digits(digits.take(i - first)),
            value == decimal_value(digits.take(i - first)),
            value <= max,
        decreases chars.len() - i,
    {
        let c = chars[i];
        let ghost next = digits.take(i - first + 1);
        assert(next.drop_last() =~= digits.take(i - first));
        assert(next.last() == c);
        if !(c >= '0' && c <= '9') {
            assert(!is_digit(digits[i - first]));
            return None;
        }
        let d: u64 = (c as u32 - '0' as u32) as u64;
        let larger: u64 = value * 10 + d;
        if larger > max as u64 {
            proof {
                lemma_decimal_value_grows(digits, i - first + 1);
            }
            return None;
        }
        value = larger;
        i += 1;
    }
    assert(digits.take(i - first) =~= digits);
    Some(value as u32)
}

/// Appends the decimal spelling of a number to a string.
pub fn push_decimal(out: &mut String, n: u64)
    ensures
        final(out)@ == old(out)@ + decimal_text(n as nat),
    decreases n,
{
    if n >= 10 {
        push_decimal(out, n / 10);
    }
    let d: u8 = (n % 10) as u8;
    push_char(out, (48u8 + d) as char);
    assert(final(out)@ =~= old(out)@ + decimal_text(n as nat));
}

/// Tells whether a token is a keyword, whatever the case of its ASCII
/// letters. The keyword is given in lower case.
pub fn is_keyword(token: &str, keyword: &str) -> (r: bool)
    ensures
        r == (lower_text(token@) == keyword@),
{
    let token_chars = chars_of(token);
    let keyword_chars = chars_of(keyword);
    if token_chars.len() != keyword_chars.len() {
        return false;
    }
    let mut i: usize = 0;
    while i < token_chars.len()
        invariant
            token_chars@ == token@,
            keyword_chars@ == keyword@,
            token_chars.len() == keyword_chars.len(),
            i <= token_chars.len(),
            forall|j: int| 0 <= j < i ==> lower_char(token@[j]) == keyword@[j],
        decreases token_chars.len() - i,
    {
        let c = token_chars[i];
        let lower = if c >= 'A' && c <= 'Z' {
            ((c as u32 + 32) as u8) as char
        } else {
            c
        };
        if lower != keyword_chars[i] {
            assert(lower_text(token@)[i as int] != keyword@[i as int]);
            return false;
        }
        i += 1;
    }
    assert(lower_text(token@) =~= keyword@);
    true
}

/// Whether a text holds a character.
pub open spec fn has_char(s: Seq<char>, c: char) -> bool {
    exists|i: int| 0 <= i < s.len() && s[i] == c
}

/// The decimal spelling of a number is one or more digits, and spells that
/// number.
pub proof fn lemma_decimal_text(n: nat)
    ensures
        decimal_text(n).len() > 0,
        all_digits(decimal_text(n)),
        decimal_value(decimal_text(n)) == n,
    decreases n,
{
    if n < 10 {
        let s = decimal_text(n);
        assert(s.drop_last() =~= Seq::<char>::empty());
        assert(decimal_value(s) == n) by {
            reveal_with_fuel(decimal_value, 2);
        }
    } else {
        lemma_decimal_text(n / 10);
        let s = decimal_text(n);
        assert(s.drop_last() =~= decimal_text(n / 10));
        assert(s.last() == digit_char(n % 10));
    }
}

/// A number of at most `max` is read back from its decimal spelling.
pub proof fn lemma_unsigned_value_of_decimal_text(n: nat, max: nat)
    requires
        n <= max,
    ensures
        unsigned_value(decimal_text(n), max) == Some(n),
{
    lemma_decimal_text(n);
    assert(is_digit(decimal_text(n)[0]));
}

/// A text of digits holds no character that is not a digit.
pub proof fn lemma_digits_lack(s: Seq<char>, c: char)
    requires
        all_digits(s),
        !is_digit(c),
    ensures
        !has_char(s, c),
{
}

/// Splitting always gives at least one piece, and no piece holds the
/// separator.
pub proof fn lemma_split_pieces(s: Seq<char>, separator: char)
    ensures
        split_text(s, separator).len() >= 1,
        forall|i: int|
            0 <= i < split_text(s, separator).len() ==> !has_char(
                #[trigger] split_text(s, separator)[i],
                separator,
            ),
    decreases s.len(),
{
    if s.len() > 0 {
        lemma_split_pieces(s.drop_last(), separator);
        let head = split_text(s.drop_last(), separator);
        let pieces = split_text(s, separator);
        if s.last() == separator {
            assert forall|i: int| 0 <= i < pieces.len() implies !has_char(
                #[trigger] pieces[i],
                separator,
            ) by {
                if i < head.len() {
                    assert(pieces[i] == head[i]);
                }
            }
        } else {
            assert forall|i: int| 0 <= i < pieces.len() implies !has_char(
                #[trigger] pieces[i],
                separator,
            ) by {
                if i < head.len() - 1 {
                    assert(pieces[i] == head[i]);
                } else {
                    assert(!has_char(head[head.len() - 1], separator));
                    if has_char(pieces[i], separator) {
                        let k = choose|k: int| 0 <= k < pieces[i].len() && pieces[i][k] == separator;
                        assert(head.last()[k] == separator);
                    }
                }
            }
        }
    }
}

/// A text without the separator, appended to another, lengthens its last
/// piece.
pub proof fn lemma_split_append(s: Seq<char>, t: Seq<char>, separator: char)
    requires
        !has_char(t, separator),
    ensures
        split_text(s + t, separator) == split_text(s, separator).drop_last().push(
            split_text(s, separator).last() + t,
        ),
    decreases t.len(),
{
    lemma_split_pieces(s, separator);
    let pieces = split_text(s, separator);
    if t.len() == 0 {
        assert(s + t =~= s);
        assert(pieces.last() + t =~= pieces.last());
        assert(pieces.drop_last().push(pieces.last()) =~= pieces);
    } else {
        let shorter = t.drop_last();
        assert(!has_char(shorter, separator)) by {
            if has_char(shorter, separator) {
                let k = choose|k: int| 0 <= k < shorter.len() && shorter[k] == separator;
                assert(t[k] == separator);
            }
        }
        lemma_split_append(s, shorter, separator);
        assert((s + t).drop_last() =~= s + shorter);
        assert((s + t).last() == t.last());
        assert(t[t.len() - 1] != separator);
        let head = split_text(s + shorter, separator);
        assert(head.drop_last() =~= pieces.drop_last());
        assert(head.last().push(t.last()) =~= pieces.last() + t);
    }
}

/// Pieces without the separator, joined with it, split into the same pieces.
pub proof fn lemma_split_join(pieces: Seq<Seq<char>>, separator: char)
    requires
        pieces.len() >= 1,
        forall|i: int| 0 <= i < pieces.len() ==> !has_char(#[trigger] pieces[i], separator),
    ensures
        split_text(join_text(pieces, separator), separator) == pieces,
    decreases pieces.len(),
{
    if pieces.len() == 1 {
        let empty = Seq::<char>::empty();
        lemma_split_append(empty, pieces[0], separator);
        assert(empty + pieces[0] =~= pieces[0]);
        assert(split_text(empty, separator) =~= seq![empty]);
        assert(seq![empty].drop_last().push(empty + pieces[0]) =~= pieces);
    } else {
        let front = pieces.drop_last();
        assert forall|i: int| 0 <= i < front.len() implies !has_char(
            #[trigger] front[i],
            separator,
        ) by {
            assert(front[i] == pieces[i]);
        }
        lemma_split_join(front, separator);
        let joined = join_text(front, separator).push(separator);
        assert(joined.drop_last() =~= join_text(front, separator));
        assert(split_text(joined, separator) == front.push(Seq::<char>::empty()));
        lemma_split_append(joined, pieces.last(), separator);
        assert(front.push(Seq::<char>::empty()).drop_last() =~= front);
        assert(Seq::<char>::empty() + pieces.last() =~= pieces.last());
        assert(front.push(pieces.last()) =~= pieces);
    }
}

/// Two texts without the separator, with the separator between them, split
/// into the two.
pub proof fn lemma_split_two(a: Seq<char>, b: Seq<char>, separator: char)
    requires
        !has_char(a, separator),
        !has_char(b, separator),
    ensures
        split_text(a.push(separator) + b, separator) == seq![a, b],
{
    let pieces = seq![a, b];
    assert(pieces.drop_last() =~= seq![a]);
    assert(join_text(seq![a], separator) == a);
    assert(join_text(pieces, separator) =~= a.push(separator) + b);
    lemma_split_join(pieces, separator);
}

/// Three texts without the separator, with the separator between them, split
/// into the three.
pub proof fn lemma_split_three(a: Seq<char>, b: Seq<char>, c: Seq<char>, separator: char)
    requires
        !has_char(a, separator),
        !has_char(b, separator),
        !has_char(c, separator),
    ensures
        split_text(a.push(separator) + b + seq![separator] + c, separator) == seq![a, b, c],
{
    let pieces = seq![a, b, c];
    assert(pieces.drop_last() =~= seq![a, b]);
    assert(pieces.drop_last().drop_last() =~= seq![a]);
    assert(join_text(seq![a], separator) == a);
    assert(join_text(seq![a, b], separator) =~= a.push(separator) + b);
    assert(join_text(pieces, separator) =~= a.push(separator) + b + seq![separator] + c);
    lemma_split_join(pieces, separator);
}

} // verus!
