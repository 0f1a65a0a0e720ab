//! Text: what the agents need of strings beyond concatenation.
use vstd::prelude::*;
use vstd::string::*;

verus! {

/// `needle` occurs somewhere in `text`.
pub open spec fn contains_text(text: Seq<char>, needle: Seq<char>) -> bool {
    exists|at: int|
        0 <= at <= text.len() - needle.len() && #[trigger] text.subrange(
            at,
            at + needle.len(),
        ) == needle
}

/// `text` without the slashes at its end.
pub open spec fn without_end_slashes(text: Seq<char>) -> Seq<char>
    decreases text.len(),
{
    if text.len() > 0 && text.last() == '/' {
        without_end_slashes(text.drop_last())
    } else {
        text
    }
}

/// The parts one after another, with a line break between any two.
pub open spec fn joined_lines(parts: Seq<Seq<char>>) -> Seq<char>
    decreases parts.len(),
{
    if parts.len() == 0 {
        Seq::empty()
    } else if parts.len() == 1 {
        parts[0]
    } else {
        joined_lines(parts.drop_last()) + seq!['\n'] + parts.last()
    }
}

/// The character that stands for a digit.
pub open spec fn digit(value: nat) -> char {
    ('0' as nat + value) as char
}

/// A number in decimal notation, without leading zeros.
pub open spec fn decimal(value: nat) -> Seq<char>
    decreases value,
{
    if value < 10 {
        seq![digit(value)]
    } else {
        decimal(value / 10).push(digit(value % 10))
    }
}

/// A number in decimal notation, with a minus sign where it is negative.
pub open spec fn signed_decimal(value: int) -> Seq<char> {
    if value < 0 {
        seq!['-'] + decimal((-value) as nat)
    } else {
        decimal(value as nat)
    }
}

/// The characters of `text`.
pub fn chars_of(text: &str) -> (chars: Vec<char>)
    ensures
        chars@ == text@,
{
    let mut chars: Vec<char> = Vec::new();
    for c in it: text.chars()
        invariant
            chars@ == it.seq().take(it.index()),
            it.seq() == text@,
    {
        chars.push(c);
    }
    chars
}

fn digit_text(value: u64) -> (text: &'static str)
    requires
        value < 10,
    ensures
        text@ == seq![digit(value as nat)],
{
    proof {
        reveal_strlit("0");
        reveal_strlit("1");
        reveal_strlit("2");
        reveal_strlit("3");
        reveal_strlit("4");
        reveal_strlit("5");
        reveal_strlit("6");
        reveal_strlit("7");
        reveal_strlit("8");
        reveal_strlit("9");
    }
    match value {
        0 => "0",
        1 => "1",
        2 => "2",
        3 => "3",
        4 => "4",
        5 => "5",
        6 => "6",
        7 => "7",
        8 => "8",
        _ => "9",
    }
}

/// Writes a number in decimal notation.
pub fn decimal_text(value: u64) -> (text: String)
    ensures
        text@ == decimal(value as nat),
    decreases value,
{
    if value < 10 {
        digit_text(value).to_owned()
    } else {
        let mut text = decimal_text(value / 10);
        text.append(digit_text(value % 10));
        text
    }
}

/// Writes a number in decimal notation, with a minus sign where it is negative.
pub fn signed_decimal_text(value: i64) -> (text: String)
    ensures
        text@ == signed_decimal(value as int),
{
    if value < 0 {
        proof {
            reveal_strlit("-");
        }
        let mut text = "-".to_owned();
        let magnitude: u64 = (-(value as i128)) as u64;
        let digits = decimal_text(magnitude);
        text.append(digits.as_str());
        assert("-"@ == seq!['-']);
        text
    } else {
        decimal_text(value as u64)
    }
}

/// The two texts one after the other.
pub fn concat(left: &str, right: &str) -> (text: String)
    ensures
        text@ == left@ + right@,
{
    let mut text = left.to_owned();
    text.append(right);
    text
}

/// The three texts one after the other.
pub fn concat3(first: &str, second: &str, third: &str) -> (text: String)
    ensures
        text@ == first@ + second@ + third@,
{
    let mut text = concat(first, second);
    text.append(third);
    text
}

/// Whether the characters `part` stand in `chars` at position `at`.
fn matches_at(chars: &Vec<char>, at: usize, part: &Vec<char>) -> (found: bool)
    requires
        at + part@.len() <= chars@.len(),
    ensures
        found == (chars@.subrange(at as int, at + part@.len()) == part@),
{
    let mut i: usize = 0;
    while i < part.len()
        invariant
            i <= part@.len(),
            at + part@.len() <= chars.len(),
            forall|j: int| 0 <= j < i ==> chars@[at + j] == part@[j],
        decreases part@.len() - i,
    {
        if chars[at + i] != part[i] {
            assert(chars@.subrange(at as int, at + part@.len())[i as int] != part@[i as int]);
            return false;
        }
        i = i + 1;
    }
    assert(chars@.subrange(at as int, at + part@.len()) =~= part@);
    true
}

/// Whether the two texts are the same.
pub fn same_text(left: &str, right: &str) -> (same: bool)
    ensures
        same == (left@ == right@),
{
    let a = chars_of(left);
    let b = chars_of(right);
    if a.len() != b.len() {
        return false;
    }
    let same = matches_at(&a, 0, &b);
    assert(a@.subrange(0, b@.len() as int) =~= a@);
    same
}

/// Whether `text` begins with `prefix`.
pub fn starts_with(text: &str, prefix: &str) -> (found: bool)
    ensures
        found == prefix@.is_prefix_of(text@),
{
    let chars = chars_of(text);
    let part = chars_of(prefix);
    part.len() <= chars.len() && matches_at(&chars, 0, &part)
}

/// Whether `text` ends with `suffix`.
pub fn ends_with(text: &str, suffix: &str) -> (found: bool)
    ensures
        found == suffix@.is_suffix_of(text@),
{
    let chars = chars_of(text);
    let part = chars_of(suffix);
    part.len() <= chars.len() && matches_at(&chars, chars.len() - part.len(), &part)
}

/// Whether `needle` occurs somewhere in `text`.
pub fn contains(text: &str, needle: &str) -> (found: bool)
    ensures
        found == contains_text(text@, needle@),
{
    let chars = chars_of(text);
    let part = chars_of(needle);
    if part.len() > chars.len() {
        return false;
    }
    let last: usize = chars.len() - part.len();
    let mut at: usize = 0;
    while at <= last
        invariant
            chars@ == text@,
            part@ == needle@,
            last == chars@.len() - part@.len(),
            at <= last + 1,
            forall|j: int|
                0 <= j < at ==> #[trigger] text@.subrange(j, j + needle@.len()) != needle@,
        decreases last + 1 - at,
    {
        if matches_at(&chars, at, &part) {
            return true;
        }
        if at == last {
            return false;
        }
        at = at + 1;
    }
    false
}

/// `text` without the slashes at its end.
pub fn trim_end_slashes(text: &str) -> (trimmed: String)
    ensures
        trimmed@ == without_end_slashes(text@),
{
    let chars = chars_of(text);
    let mut end: usize = chars.len();
    assert(text@.take(end as int) =~= text@);
    while end > 0 && chars[end - 1] == '/'
        invariant
            chars@ == text@,
            end <= chars@.len(),
            without_end_slashes(text@.take(end as int)) == without_end_slashes(text@),
        decreases end,
    {
        assert(text@.take(end as int).drop_last() =~= text@.take(end - 1));
        end = end - 1;
    }
    text.substring_char(0, end).to_owned()
}

/// The parts one after another, with a line break between any two.
pub fn join_lines(parts: &Vec<String>) -> (text: String)
    ensures
        text@ == joined_lines(parts@.map_values(|part: String| part@)),
{
    let ghost views = parts@.map_values(|part: String| part@);
    let mut text = String::new();
    let mut i: usize = 0;
    assert(views.take(0) =~= Seq::empty());
    while i < parts.len()
        invariant
            i <= parts@.len(),
            views == parts@.map_values(|part: String| part@),
            text@ == joined_lines(views.take(i as int)),
        decreases parts@.len() - i,
    {
        if i > 0 {
            proof {
                reveal_strlit("\n");
                assert("\n"@ =~= seq!['\n']);
            }
            text.append("\n");
        }
        text.append(parts[i].as_str());
        proof {
            let next = views.take(i + 1);
            assert(next.drop_last() =~= views.take(i as int));
            assert(next.last() == parts@[i as int]@);
        }
        i = i + 1;
    }
    assert(views.take(i as int) =~= views);
    text
}

/// A text occurs in another exactly where the other is it with something before
/// and something behind it.
pub proof fn law_occurs_between_two_parts(text: Seq<char>, needle: Seq<char>)
    ensures
        contains_text(text, needle) <==> exists|before: Seq<char>, after: Seq<char>|
            text == #[trigger] (before + needle + after),
{
    if contains_text(text, needle) {
        let at = choose|at: int|
            0 <= at <= text.len() - needle.len() && #[trigger] text.subrange(
                at,
                at + needle.len(),
            ) == needle;
        let before = text.take(at);
        let after = text.skip(at + needle.len());
        assert forall|i: int| 0 <= i < text.len() implies text[i] == (before + needle + after)[i] by {
            if at <= i < at + needle.len() {
                assert(text.subrange(at, at + needle.len())[i - at] == text[i]);
            }
        }
        assert(text =~= before + needle + after);
    }
    if exists|before: Seq<char>, after: Seq<char>| text == #[trigger] (before + needle + after) {
        let (before, after) = choose|before: Seq<char>, after: Seq<char>|
            text == #[trigger] (before + needle + after);
        let at = before.len() as int;
        assert(text.subrange(at, at + needle.len()) =~= needle);
    }
}

/// A text without the slashes at its end is the text up to a place behind which
/// only slashes stand, and before which none does.
pub proof fn law_only_end_slashes_go(text: Seq<char>)
    ensures
        without_end_slashes(text).len() <= text.len(),
        without_end_slashes(text) == text.take(without_end_slashes(text).len() as int),
        forall|i: int|
            without_end_slashes(text).len() <= i < text.len() ==> #[trigger] text[i] == '/',
        without_end_slashes(text).len() > 0 ==> without_end_slashes(text).last() != '/',
    decreases text.len(),
{
    if text.len() > 0 && text.last() == '/' {
        let rest = text.drop_last();
        law_only_end_slashes_go(rest);
        let kept = without_end_slashes(rest).len() as int;
        assert(rest.take(kept) =~= text.take(kept));
        assert forall|i: int| kept <= i < text.len() implies #[trigger] text[i] == '/' by {
            if i < rest.len() {
                assert(rest[i] == '/');
            }
        }
    } else {
        assert(text.take(text.len() as int) =~= text);
    }
}

/// Lines joined to lines are the first, a line break, and the others. One line
/// is itself, and no line is the empty text.
pub proof fn law_lines_join_to_lines(first: Seq<Seq<char>>, others: Seq<Seq<char>>)
    ensures
        first.len() == 0 ==> joined_lines(first) == Seq::<char>::empty(),
        first.len() == 1 ==> joined_lines(first) == first[0],
        first.len() > 0 && others.len() > 0 ==> joined_lines(first + others) == joined_lines(first)
            + seq!['\n'] + joined_lines(others),
    decreases others.len(),
{
    if first.len() > 0 && others.len() > 0 {
        let all = first + others;
        let rest = others.drop_last();
        assert(all.drop_last() =~= first + rest);
        assert(all.last() == others.last());
        if others.len() == 1 {
            assert(first + rest =~= first);
        } else {
            law_lines_join_to_lines(first, rest);
            assert(joined_lines(all) =~= joined_lines(first) + seq!['\n'] + joined_lines(others));
        }
    }
}

/// Every line stands in the joined lines as it is.
pub proof fn law_every_line_is_kept(parts: Seq<Seq<char>>, at: int)
    requires
        0 <= at < parts.len(),
    ensures
        contains_text(joined_lines(parts), parts[at]),
    decreases parts.len(),
{
    let text = joined_lines(parts);
    if parts.len() == 1 {
        let from: int = 0;
        assert(text.subrange(from, from + parts[at].len()) =~= parts[at]);
    } else if at == parts.len() - 1 {
        let from = text.len() - parts[at].len();
        assert(text.subrange(from, from + parts[at].len()) =~= parts[at]);
    } else {
        let earlier = parts.drop_last();
        law_every_line_is_kept(earlier, at);
        let before = joined_lines(earlier);
        let from = choose|from: int|
            0 <= from <= before.len() - earlier[at].len() && #[trigger] before.subrange(
                from,
                from + earlier[at].len(),
            ) == earlier[at];
        assert(text.subrange(from, from + parts[at].len()) =~= before.subrange(
            from,
            from + earlier[at].len(),
        ));
    }
}

/// The number that decimal digits say.
pub open spec fn number_of(digits: Seq<char>) -> int
    decreases digits.len(),
{
    if digits.len() == 0 {
        0
    } else {
        10 * number_of(digits.drop_last()) + (digits.last() as int - '0' as int)
    }
}

/// A number in decimal notation is digits from 0 to 9, does not begin with a 0
/// unless it is 0, and says the number. The number without its last digit is a
/// tenth of it.
pub proof fn law_decimal_says_the_number(value: nat)
    ensures
        decimal(value).len() > 0,
        forall|i: int| 0 <= i < decimal(value).len() ==> '0' <= #[trigger] decimal(value)[i] <= '9',
        decimal(value)[0] == '0' ==> value == 0 && decimal(value).len() == 1,
        number_of(decimal(value)) == value,
        decimal(value).last() as int == 48 + value % 10,
        value >= 10 ==> decimal(value).drop_last() == decimal(value / 10),
        value < 10 ==> decimal(value).len() == 1,
    decreases value,
{
    if value < 10 {
        assert(decimal(value).drop_last() =~= Seq::empty());
        assert(number_of(decimal(value).drop_last()) == 0);
    } else {
        law_decimal_says_the_number(value / 10);
        assert(decimal(value).drop_last() =~= decimal(value / 10));
        assert forall|i: int| 0 <= i < decimal(value).len() implies '0' <= #[trigger] decimal(
            value,
        )[i] <= '9' by {
            if i < decimal(value / 10).len() {
                assert(decimal(value)[i] == decimal(value / 10)[i]);
            }
        }
        assert(decimal(value)[0] == decimal(value / 10)[0]);
    }
}

/// Different numbers are written differently.
pub proof fn law_decimal_tells_numbers_apart(one: nat, other: nat)
    requires
        one != other,
    ensures
        decimal(one) != decimal(other),
{
    law_decimal_says_the_number(one);
    law_decimal_says_the_number(other);
}

/// A negative number is written as a minus sign before what stands for its
/// magnitude, and no other number has a minus sign.
pub proof fn law_minus_sign_says_negative(value: int)
    ensures
        value < 0 ==> signed_decimal(value) == seq!['-'] + signed_decimal(-value),
        value >= 0 ==> signed_decimal(value)[0] != '-' && number_of(signed_decimal(value)) == value,
        value >= 0 ==> signed_decimal(value) == decimal(value as nat),
{
    if value >= 0 {
        law_decimal_says_the_number(value as nat);
    }
}

} // verus!
