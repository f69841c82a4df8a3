//! How a container is written out as text.

use vstd::prelude::*;
use vstd::string::StringExecFns;

verus! {

/// The rendered elements one after another: a space before each, a comma between two.
pub open spec fn items_text(parts: Seq<Seq<char>>) -> Seq<char>
    decreases parts.len(),
{
    if parts.len() == 0 {
        Seq::<char>::empty()
    } else if parts.len() == 1 {
        seq![' '] + parts[0]
    } else {
        items_text(parts.drop_last()) + seq![',', ' '] + parts.last()
    }
}

/// The bracket-delimited list: `[]` for no element, else `[ a, b, c ]`.
pub open spec fn bracket_text(parts: Seq<Seq<char>>) -> Seq<char> {
    if parts.len() == 0 {
        seq!['[', ']']
    } else {
        seq!['['] + items_text(parts) + seq![' ', ']']
    }
}

/// The text of each rendered element.
pub open spec fn texts(parts: Seq<String>) -> Seq<Seq<char>> {
    Seq::new(parts.len(), |i: int| parts[i]@)
}

/// The character that stands for a digit below ten.
pub open spec fn digit_char(d: nat) -> char {
    if d == 0 {
        '0'
    } else if d == 1 {
        '1'
    } else if d == 2 {
        '2'
    } else if d == 3 {
        '3'
    } else if d == 4 {
        '4'
    } else if d == 5 {
        '5'
    } else if d == 6 {
        '6'
    } else if d == 7 {
        '7'
    } else if d == 8 {
        '8'
    } else {
        '9'
    }
}

/// A number in decimal, without leading zeros.
pub open spec fn decimal_text(n: nat) -> Seq<char>
    decreases n,
{
    if n < 10 {
        seq![digit_char(n)]
    } else {
        decimal_text(n / 10).push(digit_char(n % 10))
    }
}

/// The name under which a container of capacity `cap` is written out for debugging.
pub open spec fn name_text(cap: nat) -> Seq<char> {
    seq!['S', 'V', 'e', 'c'] + decimal_text(cap)
}

fn digit_str(d: usize) -> (r: &'static str)
    requires
        d < 10,
    ensures
        r@ == seq![digit_char(d as nat)],
{
    proof {
        reveal_strlit("0");
        reveal_strlit("1");
        reveal_strlit("2");
        reveal_strlit("3");
        reveal_strlit("4");
        reveal_strlit("5");
        reveal_strlit("6");
        reveal_strlit("7");
        reveal_strlit("8");
        reveal_strlit("9");
    }
    let r = if d == 0 {
        "0"
    } else if d == 1 {
        "1"
    } else if d == 2 {
        "2"
    } else if d == 3 {
        "3"
    } else if d == 4 {
        "4"
    } else if d == 5 {
        "5"
    } else if d == 6 {
        "6"
    } else if d == 7 {
        "7"
    } else if d == 8 {
        "8"
    } else {
        "9"
    };
    assert(r@ =~= seq![digit_char(d as nat)]);
    r
}

/// Writes `n` in decimal.
pub fn decimal(n: usize) -> (r: String)
    ensures
        r@ == decimal_text(n as nat),
    decreases n,
{
    if n < 10 {
        String::from_str(digit_str(n))
    } else {
        let mut s = decimal(n / 10);
        s.append(digit_str(n % 10));
        assert(s@ =~= decimal_text(n as nat));
        s
    }
}

/// Writes the name of the container type of capacity `cap`.
pub fn name_of(cap: usize) -> (r: String)
    ensures
        r@ == name_text(cap as nat),
{
    proof {
        reveal_strlit("SVec");
    }
    let mut s = String::from_str("SVec");
    let digits = decimal(cap);
    s.append(digits.as_str());
    assert(s@ =~= name_text(cap as nat));
    s
}

/// Writes the rendered elements as a bracket-delimited, comma-separated list.
pub fn bracketed(parts: &Vec<String>) -> (r: String)
    ensures
        r@ == bracket_text(texts(parts@)),
{
    proof {
        reveal_strlit("[");
        reveal_strlit(" ");
        reveal_strlit("]");
    }
    let ghost all = texts(parts@);
    let mut out = String::from_str("[");
    let mut i: usize = 0;
    while i < parts.len()
        invariant
            i <= parts.len(),
            all == texts(parts@),
            out@ == seq!['['] + items_text(all.take(i as int)),
        decreases parts.len() - i,
    {
        let ghost before = out@;
        if i > 0 {
            out.append(",");
        }
        out.append(" ");
        out.append(parts[i].as_str());
        proof {
            reveal_strlit(",");
            reveal_strlit(" ");
            let done = all.take(i as int);
            let now = all.take(i + 1);
            assert(all.len() == parts@.len());
            assert(now.len() == i + 1);
            assert(now.drop_last() =~= done);
            assert(now.last() == parts[i as int]@);
            if i == 0 {
                assert(items_text(done) =~= Seq::<char>::empty());
                assert(items_text(now) =~= seq![' '] + parts[0]@);
                assert(out@ =~= before + seq![' '] + parts[0]@);
            } else {
                assert(items_text(now) =~= items_text(done) + seq![',', ' '] + parts[i as int]@);
                assert(out@ =~= before + seq![','] + seq![' '] + parts[i as int]@);
            }
            assert(out@ =~= seq!['['] + items_text(now));
        }
        i += 1;
    }
    assert(all.take(i as int) =~= all);
    if i > 0 {
        out.append(" ");
    }
    out.append("]");
    assert(out@ =~= bracket_text(all));
    out
}

} // verus!
