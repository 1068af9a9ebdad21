//! Text for people: pieces put together, and numbers in decimal.
use vstd::prelude::*;

verus! {

/// The three pieces one after the other.
pub fn join3(a: &str, b: &str, c: &str) -> (joined: String)
    ensures
        joined@ == a@ + b@ + c@,
{
    let mut joined = a.to_string();
    joined.append(b);
    joined.append(c);
    joined
}

/// The decimal digit of a number below ten.
pub open spec fn digit(d: nat) -> char {
    if d == 0 {
        '0'
    } else if d == 1 {
        '1'
    } else if d == 2 {
        '2'
    } else if d == 3 {
        '3'
    } else if d == 4 {
        '4'
    } else if d == 5 {
        '5'
    } else if d == 6 {
        '6'
    } else if d == 7 {
        '7'
    } else if d == 8 {
        '8'
    } else {
        '9'
    }
}

/// A number in decimal, most significant digit first, without leading zeros.
pub open spec fn decimal_digits(n: nat) -> Seq<char>
    decreases n,
{
    if n < 10 {
        seq![digit(n)]
    } else {
        decimal_digits(n / 10).push(digit(n % 10))
    }
}

fn digit_text(d: usize) -> (text: &'static str)
    requires
        d < 10,
    ensures
        text@ == seq![digit(d as nat)],
{
    proof {
        reveal_strlit("0");
        reveal_strlit("1");
        reveal_strlit("2");
        reveal_strlit("3");
        reveal_strlit("4");
        reveal_strlit("5");
        reveal_strlit("6");
        reveal_strlit("7");
        reveal_strlit("8");
        reveal_strlit("9");
    }
    match d {
        0 => "0",
        1 => "1",
        2 => "2",
        3 => "3",
        4 => "4",
        5 => "5",
        6 => "6",
        7 => "7",
        8 => "8",
        _ => "9",
    }
}

/// Writes a number in decimal.
pub fn decimal(n: usize) -> (text: String)
    ensures
        text@ == decimal_digits(n as nat),
    decreases n,
{
    if n < 10 {
        digit_text(n).to_string()
    } else {
        let mut text = decimal(n / 10);
        text.append(digit_text(n % 10));
        proof {
            assert(text@ =~= decimal_digits((n / 10) as nat).push(digit((n % 10) as nat)));
        }
        text
    }
}

/// The texts of a list of strings.
pub open spec fn views(list: Seq<String>) -> Seq<Seq<char>> {
    list.map_values(|s: String| s@)
}

/// The texts one after the other.
pub open spec fn all_of(texts: Seq<Seq<char>>) -> Seq<char>
    decreases texts.len(),
{
    if texts.len() == 0 {
        Seq::empty()
    } else {
        all_of(texts.drop_last()) + texts.last()
    }
}

/// Puts the strings of a list together.
pub fn join_all(list: &Vec<String>) -> (joined: String)
    ensures
        joined@ == all_of(views(list@)),
{
    proof {
        reveal_strlit("");
    }
    let mut joined = "".to_string();
    for i in 0..list.len()
        invariant
            joined@ == all_of(views(list@).take(i as int)),
    {
        joined.append(list[i].as_str());
        proof {
            let next = views(list@).take(i + 1);
            assert(next.drop_last() =~= views(list@).take(i as int));
            assert(next.last() == list@[i as int]@);
        }
    }
    assert(views(list@).take(list@.len() as int) =~= views(list@));
    joined
}

/// A reply that succeeds or fails as expected, and with the expected text.
pub open spec fn says(
    reply: Result<String, String>,
    expected: Result<Seq<char>, Seq<char>>,
) -> bool {
    match (reply, expected) {
        (Ok(text), Ok(wanted)) => text@ == wanted,
        (Err(text), Err(wanted)) => text@ == wanted,
        _ => false,
    }
}

/// Texts that are put together stay whole and in order: those of two lists are those of the
/// first followed by those of the second, and one text alone is itself.
pub proof fn all_texts_are_joined(a: Seq<Seq<char>>, b: Seq<Seq<char>>, one: Seq<char>)
    ensures
        all_of(a + b) == all_of(a) + all_of(b),
        all_of(seq![one]) == one,
        all_of(Seq::empty()) == Seq::<char>::empty(),
    decreases b.len(),
{
    let single = seq![one];
    assert(single.drop_last() =~= Seq::empty());
    assert(all_of(single.drop_last()) =~= Seq::empty());
    assert(all_of(single) =~= one);
    if b.len() == 0 {
        assert(a + b =~= a);
        assert(all_of(a) + all_of(b) =~= all_of(a));
    } else {
        all_texts_are_joined(a, b.drop_last(), one);
        assert((a + b).drop_last() =~= a + b.drop_last());
        assert(all_of(a + b) =~= all_of(a) + all_of(b));
    }
}

/// How long texts are when they are put together.
pub open spec fn total_length(texts: Seq<Seq<char>>) -> nat
    decreases texts.len(),
{
    if texts.len() == 0 {
        0
    } else {
        texts[0].len() + total_length(texts.drop_first())
    }
}

/// Each text of a list stands whole in the joined text, right behind those before it, and
/// nothing else does: the length is the sum of the lengths.
pub proof fn every_text_stands_in_its_place(texts: Seq<Seq<char>>, i: int)
    requires
        0 <= i < texts.len(),
    ensures
        all_of(texts).len() == total_length(texts),
        ({
            let at = total_length(texts.take(i)) as int;
            at + texts[i].len() <= all_of(texts).len() && all_of(texts).subrange(
                at,
                at + texts[i].len(),
            ) == texts[i]
        }),
{
    let one = seq![texts[i]];
    let tail = texts.skip(i + 1);
    assert(texts =~= texts.take(i) + one + tail);
    all_texts_are_joined(texts.take(i) + one, tail, texts[i]);
    all_texts_are_joined(texts.take(i), one, texts[i]);
    length_of_all(texts);
    length_of_all(texts.take(i));
    assert(all_of(texts).subrange(
        total_length(texts.take(i)) as int,
        total_length(texts.take(i)) as int + texts[i].len(),
    ) =~= texts[i]);
}

proof fn length_of_all(texts: Seq<Seq<char>>)
    ensures
        all_of(texts).len() == total_length(texts),
    decreases texts.len(),
{
    if texts.len() > 0 {
        let one = seq![texts[0]];
        length_of_all(texts.drop_first());
        all_texts_are_joined(one, texts.drop_first(), texts[0]);
        assert(one + texts.drop_first() =~= texts);
    }
}

/// The texts of a list of strings are one for each string, in order.
pub proof fn every_string_has_its_text(list: Seq<String>, i: int)
    requires
        0 <= i < list.len(),
    ensures
        views(list).len() == list.len(),
        views(list)[i] == list[i]@,
{
}

/// The number that decimal digits stand for.
pub open spec fn value_of(digits: Seq<char>) -> int
    decreases digits.len(),
{
    if digits.len() == 0 {
        0
    } else {
        10 * value_of(digits.drop_last()) + (digits.last() as int - '0' as int)
    }
}

/// A number in decimal is made of digits alone, begins with a zero only where it is zero, and
/// stands for the number.
pub proof fn decimal_digits_stand_for_the_number(n: nat)
    ensures
        value_of(decimal_digits(n)) == n,
        decimal_digits(n).len() > 0,
        forall|i: int|
            0 <= i < decimal_digits(n).len() ==> '0' <= #[trigger] decimal_digits(n)[i] <= '9',
        decimal_digits(n)[0] == '0' <==> n == 0,
    decreases n,
{
    if n < 10 {
        assert(decimal_digits(n).drop_last() =~= Seq::empty());
        assert(value_of(decimal_digits(n).drop_last()) == 0);
    } else {
        decimal_digits_stand_for_the_number(n / 10);
        assert(decimal_digits(n).drop_last() =~= decimal_digits(n / 10));
    }
}

/// A reply is as expected exactly where it succeeds or fails as expected and holds the very
/// text expected.
pub proof fn a_reply_says_one_thing(reply: Result<String, String>, text: Seq<char>)
    ensures
        says(reply, Ok(text)) <==> reply is Ok && reply->Ok_0@ == text,
        says(reply, Err(text)) <==> reply is Err && reply->Err_0@ == text,
{
}

} // verus!
