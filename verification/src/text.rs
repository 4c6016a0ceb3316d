//! Text that is built from numbers.

use vstd::prelude::*;

verus! {

/// The lower case digit that stands for `d`, in bases up to 16.
pub open spec fn digit(d: int) -> char {
    if d < 10 {
        (48 + d) as char
    } else {
        (87 + d) as char
    }
}

/// The digits of `n` in the given base, most significant first, without leading zeros.
pub open spec fn digits(n: nat, base: nat) -> Seq<char>
    decreases n,
{
    if n < base || base < 2 {
        seq![digit(n as int)]
    } else {
        proof {
            vstd::arithmetic::div_mod::lemma_div_decreases(n as int, base as int);
        }
        digits(n / base, base).push(digit((n % base) as int))
    }
}

/// `text` with spaces put in front of it up to the given width.
pub open spec fn padded(text: Seq<char>, width: nat) -> Seq<char> {
    if text.len() < width {
        Seq::new((width - text.len()) as nat, |i: int| ' ') + text
    } else {
        text
    }
}

fn digit_text(d: u64) -> (res: &'static str)
    requires
        d < 16,
    ensures
        res@ == seq![digit(d as int)],
{
    proof {
        reveal_strlit("0");
        reveal_strlit("1");
        reveal_strlit("2");
        reveal_strlit("3");
        reveal_strlit("4");
        reveal_strlit("5");
        reveal_strlit("6");
        reveal_strlit("7");
        reveal_strlit("8");
        reveal_strlit("9");
        reveal_strlit("a");
        reveal_strlit("b");
        reveal_strlit("c");
        reveal_strlit("d");
        reveal_strlit("e");
        reveal_strlit("f");
    }
    match d {
        0 => "0",
        1 => "1",
        2 => "2",
        3 => "3",
        4 => "4",
        5 => "5",
        6 => "6",
        7 => "7",
        8 => "8",
        9 => "9",
        10 => "a",
        11 => "b",
        12 => "c",
        13 => "d",
        14 => "e",
        _ => "f",
    }
}

/// The digits of `n` in a base from 2 to 16.
pub fn number_text(n: u64, base: u64) -> (res: String)
    requires
        2 <= base <= 16,
    ensures
        res@ == digits(n as nat, base as nat),
    decreases n,
{
    if n < base {
        let only = digit_text(n);
        only.to_owned()
    } else {
        proof {
            vstd::arithmetic::div_mod::lemma_div_decreases(n as int, base as int);
        }
        let front = number_text(n / base, base);
        let last = digit_text(n % base);
        let ghost front_view = front@;
        let res = front.concat(last);
        assert(res@ == front_view.push(digit((n % base) as int)));
        res
    }
}

/// `text` with spaces put in front of it up to the given width.
pub fn padded_text(text: &str, width: usize) -> (res: String)
    ensures
        res@ == padded(text@, width as nat),
{
    let length: usize = text.unicode_len();
    let mut spaces = String::new();
    let mut count: usize = length;
    proof {
        reveal_strlit(" ");
    }
    while count < width
        invariant
            length <= count,
            length < width ==> count <= width,
            length >= width ==> count == length,
            spaces@ == Seq::new((count - length) as nat, |i: int| ' '),
            " "@ == seq![' '],
        decreases width - count,
    {
        spaces.append(" ");
        count = count + 1;
    }
    spaces.append(text);
    spaces
}

/// The number that a text stands for in a base, read from its most significant digit on. Characters
/// that are no lower case digits of the base have no meaning.
pub open spec fn read_number(text: Seq<char>, base: nat) -> int
    decreases text.len(),
{
    if text.len() == 0 {
        0
    } else {
        let c = text.last();
        let d = if '0' <= c && c <= '9' {
            c as int - '0' as int
        } else {
            c as int - 'a' as int + 10
        };
        read_number(text.drop_last(), base) * base + d
    }
}

/// The digits of a number read back as that number, without a leading zero.
pub proof fn law_digits_read_back(n: nat, base: nat)
    requires
        2 <= base <= 16,
    ensures
        read_number(digits(n, base), base) == n,
        digits(n, base).len() > 0,
        n > 0 ==> digits(n, base)[0] != '0',
        n == 0 ==> digits(n, base) =~= seq!['0'],
    decreases n,
{
    if n < base {
        let text = digits(n, base);
        assert(text.drop_last() =~= Seq::empty());
        assert(read_number(text.drop_last(), base) == 0);
        assert(text.last() == digit(n as int));
        assert(0 * base == 0) by (nonlinear_arith);
    } else {
        vstd::arithmetic::div_mod::lemma_div_decreases(n as int, base as int);
        vstd::arithmetic::div_mod::lemma_fundamental_div_mod(n as int, base as int);
        vstd::arithmetic::div_mod::lemma_mod_bound(n as int, base as int);
        assert(n / base > 0) by (nonlinear_arith)
            requires
                n >= base,
                base >= 2,
        ;
        law_digits_read_back(n / base, base);
        let front = digits(n / base, base);
        let text = digits(n, base);
        assert(text == front.push(digit((n % base) as int)));
        assert(text.drop_last() =~= front);
        assert(text[0] == front[0]);
        assert((n / base) * base == base * (n / base)) by (nonlinear_arith);
    }
}

/// A text that is filled up keeps all its characters at the end, and everything before them is a
/// space. It is as long as asked for, unless the text is longer.
pub proof fn law_padding_stands_before_the_text(text: Seq<char>, width: nat, i: int)
    ensures
        padded(text, width).len() == if text.len() < width {
            width
        } else {
            text.len()
        },
        0 <= i < text.len() ==> padded(text, width)[padded(text, width).len() - text.len() + i]
            == text[i],
        0 <= i < padded(text, width).len() - text.len() ==> padded(text, width)[i] == ' ',
{
}

/// A number is written in digits that read back as the number.
pub proof fn law_numbers_are_written_in_digits(n: u64, base: u64, res: String)
    requires
        call_ensures(number_text, (n, base), res),
        2 <= base <= 16,
    ensures
        read_number(res@, base as nat) == n,
        n > 0 ==> res@[0] != '0',
        n == 0 ==> res@ =~= seq!['0'],
{
    law_digits_read_back(n as nat, base as nat);
}

/// A text is filled up with spaces in front of it.
pub proof fn law_texts_are_filled_up_in_front(text: &str, width: usize, res: String, i: int)
    requires
        call_ensures(padded_text, (text, width), res),
    ensures
        res@.len() >= text@.len(),
        res@.len() == width || res@.len() == text@.len() && text@.len() > width,
        res@.skip(res@.len() - text@.len()) =~= text@,
        0 <= i < res@.len() - text@.len() ==> res@[i] == ' ',
{
}

} // verus!
