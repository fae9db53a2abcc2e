//! Text made of parts: decimal numbers and joined lists.

use vstd::prelude::*;

verus! {

/// The decimal digit of `d`, for `d` below ten.
pub open spec fn digit(d: int) -> char {
    if d == 0 {
        '0'
    } else if d == 1 {
        '1'
    } else if d == 2 {
        '2'
    } else if d == 3 {
        '3'
    } else if d == 4 {
        '4'
    } else if d == 5 {
        '5'
    } else if d == 6 {
        '6'
    } else if d == 7 {
        '7'
    } else if d == 8 {
        '8'
    } else {
        '9'
    }
}

/// `n` in decimal, without leading zeros.
pub open spec fn decimal(n: nat) -> Seq<char>
    decreases n,
{
    if n < 10 {
        seq![digit(n as int)]
    } else {
        decimal(n / 10).push(digit((n % 10) as int))
    }
}

/// Appends the digit of `d` to `text`.
fn append_digit(text: &mut String, d: usize)
    requires
        d < 10,
    ensures
        final(text)@ == old(text)@.push(digit(d as int)),
{
    let digit_text = match d {
        0 => "0",
        1 => "1",
        2 => "2",
        3 => "3",
        4 => "4",
        5 => "5",
        6 => "6",
        7 => "7",
        8 => "8",
        _ => "9",
    };
    proof {
        reveal_strlit("0");
        reveal_strlit("1");
        reveal_strlit("2");
        reveal_strlit("3");
        reveal_strlit("4");
        reveal_strlit("5");
        reveal_strlit("6");
        reveal_strlit("7");
        reveal_strlit("8");
        reveal_strlit("9");
        assert(digit_text@ =~= seq![digit(d as int)]);
    }
    text.append(digit_text);
    assert(text@ =~= old(text)@.push(digit(d as int)));
}

/// Appends `n` in decimal to `text`.
pub fn append_decimal(text: &mut String, n: usize)
    ensures
        final(text)@ == old(text)@ + decimal(n as nat),
    decreases n,
{
    if n >= 10 {
        append_decimal(text, n / 10);
    }
    append_digit(text, n % 10);
    proof {
        if n >= 10 {
            assert(text@ =~= old(text)@ + decimal(n as nat / 10).push(digit((n % 10) as int)));
        } else {
            assert(text@ =~= old(text)@ + seq![digit(n as int)]);
        }
    }
}

/// Distinct numbers have distinct decimals.
pub proof fn decimal_is_injective(m: nat, n: nat)
    ensures
        decimal(m) == decimal(n) ==> m == n,
    decreases m,
{
    if decimal(m) == decimal(n) {
        decimal_is_not_empty(m / 10);
        decimal_is_not_empty(n / 10);
        let last_m = decimal(m).last();
        let last_n = decimal(n).last();
        assert(last_m == digit((m % 10) as int));
        assert(last_n == digit((n % 10) as int));
        assert(m % 10 == n % 10);
        if m >= 10 && n >= 10 {
            assert(decimal(m).drop_last() =~= decimal(m / 10));
            assert(decimal(n).drop_last() =~= decimal(n / 10));
            decimal_is_injective(m / 10, n / 10);
        }
    }
}

/// A decimal has at least one digit.
proof fn decimal_is_not_empty(n: nat)
    ensures
        decimal(n).len() > 0,
    decreases n,
{
    if n >= 10 {
        decimal_is_not_empty(n / 10);
    }
}

/// `parts` with `separator` between each two neighbours.
pub open spec fn joined(parts: Seq<Seq<char>>, separator: Seq<char>) -> Seq<char>
    decreases parts.len(),
{
    if parts.len() == 0 {
        Seq::empty()
    } else if parts.len() == 1 {
        parts[0]
    } else {
        joined(parts.drop_last(), separator) + separator + parts.last()
    }
}

/// What each of some strings reads.
pub open spec fn texts(parts: Seq<String>) -> Seq<Seq<char>> {
    parts.map_values(|part: String| part@)
}

/// Joins `parts` with `separator` between each two neighbours.
pub fn join(parts: &Vec<String>, separator: &str) -> (text: String)
    ensures
        text@ == joined(texts(parts@), separator@),
{
    let mut text = String::new();
    let mut i: usize = 0;
    while i < parts.len()
        invariant
            i <= parts.len(),
            text@ == joined(texts(parts@).take(i as int), separator@),
        decreases parts.len() - i,
    {
        let ghost shorter = texts(parts@).take(i as int);
        let ghost longer = texts(parts@).take(i + 1);
        if i > 0 {
            text.append(separator);
        }
        text.append(parts[i].as_str());
        proof {
            assert(longer.drop_last() =~= shorter);
            assert(longer.last() == parts[i as int]@);
            if i == 0 {
                assert(text@ =~= longer[0]);
            }
        }
        i += 1;
    }
    assert(texts(parts@).take(i as int) =~= texts(parts@));
    text
}

/// The value of a decimal digit.
pub open spec fn digit_value(c: char) -> int {
    c as int - '0' as int
}

/// The number that a text of decimal digits stands for.
pub open spec fn number_of(digits: Seq<char>) -> int
    decreases digits.len(),
{
    if digits.len() == 0 {
        0
    } else {
        10 * number_of(digits.drop_last()) + digit_value(digits.last())
    }
}

/// A decimal is made of digits, stands for its number and does not start with a zero, except
/// for zero itself.
pub proof fn decimal_stands_for_its_number(n: nat)
    ensures
        decimal(n).len() > 0,
        forall|i: int| 0 <= i < decimal(n).len() ==> '0' <= #[trigger] decimal(n)[i] <= '9',
        number_of(decimal(n)) == n,
        n > 0 ==> decimal(n)[0] != '0',
    decreases n,
{
    if n < 10 {
        assert(decimal(n).drop_last() =~= Seq::<char>::empty());
        assert(number_of(decimal(n).drop_last()) == 0);
    } else {
        decimal_stands_for_its_number(n / 10);
        assert(decimal(n).drop_last() =~= decimal(n / 10));
        assert(decimal(n)[0] == decimal(n / 10)[0]);
    }
}

/// A number that is appended stands behind the text that was there, and reads back as itself.
pub proof fn appended_number_reads_back(before: Seq<char>, after: Seq<char>, n: nat)
    requires
        after == before + decimal(n),
    ensures
        after.take(before.len() as int) == before,
        number_of(after.skip(before.len() as int)) == n,
{
    assert(after.take(before.len() as int) =~= before);
    assert(after.skip(before.len() as int) =~= decimal(n));
    decimal_stands_for_its_number(n);
}

/// One part is itself, and each further part follows behind one separator.
pub proof fn parts_follow_each_other(parts: Seq<Seq<char>>, part: Seq<char>, separator: Seq<char>)
    ensures
        joined(Seq::empty(), separator) == Seq::<char>::empty(),
        joined(seq![part], separator) == part,
        parts.len() > 0 ==> joined(parts.push(part), separator) == joined(parts, separator)
            + separator + part,
{
    assert(parts.push(part).drop_last() =~= parts);
}

/// What is joined is what the strings read, each in its place.
pub proof fn texts_are_read_in_order(parts: Seq<String>, i: int)
    requires
        0 <= i < parts.len(),
    ensures
        texts(parts).len() == parts.len(),
        texts(parts)[i] == parts[i]@,
{
}

/// Joining one part more appends a separator and that part.
pub proof fn joined_so_far(parts: Seq<Seq<char>>, separator: Seq<char>, n: int)
    requires
        0 < n < parts.len(),
    ensures
        joined(parts.take(1), separator) == parts[0],
        joined(parts.take(n + 1), separator) == joined(parts.take(n), separator) + separator
            + parts[n],
        parts.take(parts.len() as int) == parts,
{
    assert(parts.take(n + 1).drop_last() =~= parts.take(n));
    assert(parts.take(parts.len() as int) =~= parts);
}

} // verus!
