//! Small string helpers used by the protocol encoder: decimal rendering of
//! integers and comma joining of labels.

use vstd::prelude::*;

verus! {

/// The character of a decimal digit.
pub open spec fn digit_char(d: nat) -> char {
    if d == 0 { '0' }
    else if d == 1 { '1' }
    else if d == 2 { '2' }
    else if d == 3 { '3' }
    else if d == 4 { '4' }
    else if d == 5 { '5' }
    else if d == 6 { '6' }
    else if d == 7 { '7' }
    else if d == 8 { '8' }
    else { '9' }
}

/// The decimal digits of a natural number, most significant first, without
/// leading zeros (zero itself is `"0"`).
pub open spec fn digits_of(n: nat) -> Seq<char>
    decreases n,
{
    if n < 10 {
        seq![digit_char(n)]
    } else {
        digits_of(n / 10).push(digit_char(n % 10))
    }
}

/// The canonical decimal form of an integer, with a leading `-` when negative.
pub open spec fn decimal_of(n: int) -> Seq<char> {
    if n < 0 {
        seq!['-'] + digits_of((-n) as nat)
    } else {
        digits_of(n as nat)
    }
}

/// The labels joined into one string, separated by commas.
pub open spec fn comma_joined(items: Seq<Seq<char>>) -> Seq<char>
    decreases items.len(),
{
    if items.len() == 0 {
        Seq::empty()
    } else if items.len() == 1 {
        items[0]
    } else {
        comma_joined(items.drop_last()) + seq![','] + items.last()
    }
}

/// The views of a slice of string slices.
pub open spec fn str_views(items: Seq<&str>) -> Seq<Seq<char>> {
    items.map_values(|s: &str| s@)
}

/// The views of a sequence of owned strings.
pub open spec fn string_views(items: Seq<String>) -> Seq<Seq<char>> {
    items.map_values(|s: String| s@)
}

fn digit_string(d: u64) -> (r: String)
    requires
        d < 10,
    ensures
        r@ == seq![digit_char(d as nat)],
{
    let digits: &str = "0123456789";
    proof {
        reveal_strlit("0123456789");
    }
    let one = digits.substring_char(d as usize, d as usize + 1);
    let r = one.to_owned();
    assert(r@ =~= seq![digit_char(d as nat)]);
    r
}

/// Renders an integer in decimal.
pub fn decimal_string(n: i64) -> (r: String)
    ensures
        r@ == decimal_of(n as int),
{
    let m: u64 = if n < 0 { (0i128 - n as i128) as u64 } else { n as u64 };
    let mut cur: u64 = m;
    let mut out = String::new();
    while cur >= 10
        invariant
            digits_of(m as nat) == digits_of(cur as nat) + out@,
        decreases cur,
    {
        let d = digit_string(cur % 10);
        proof {
            assert(digits_of(cur as nat) == digits_of((cur / 10) as nat).push(
                digit_char((cur % 10) as nat),
            ));
            assert(digits_of(cur as nat) + out@ =~= digits_of((cur / 10) as nat) + (d@ + out@));
        }
        out = d.concat(out.as_str());
        cur = cur / 10;
    }
    let last = digit_string(cur);
    out = last.concat(out.as_str());
    proof {
        assert(digits_of(cur as nat) == seq![digit_char(cur as nat)]);
    }
    if n < 0 {
        let minus = "-".to_owned();
        proof {
            reveal_strlit("-");
        }
        let r = minus.concat(out.as_str());
        assert(r@ =~= decimal_of(n as int));
        r
    } else {
        out
    }
}

/// Joins the labels with a comma between each two of them.
pub fn join_with_commas(items: &[&str]) -> (r: String)
    ensures
        r@ == comma_joined(str_views(items@)),
{
    let mut out = String::new();
    let mut i: usize = 0;
    while i < items.len()
        invariant
            i <= items@.len(),
            out@ == comma_joined(str_views(items@).take(i as int)),
        decreases items@.len() - i,
    {
        let ghost views = str_views(items@);
        proof {
            assert(views.take(i as int + 1).drop_last() =~= views.take(i as int));
            assert(views.take(i as int + 1).last() == items@[i as int]@);
        }
        if i > 0 {
            out.append(",");
            proof {
                reveal_strlit(",");
            }
        }
        out.append(items[i]);
        proof {
            if i == 0 {
                assert(out@ =~= comma_joined(views.take(1)));
            } else {
                assert(out@ =~= comma_joined(views.take(i as int + 1)));
            }
        }
        i = i + 1;
    }
    assert(str_views(items@).take(items@.len() as int) =~= str_views(items@));
    out
}

} // verus!
