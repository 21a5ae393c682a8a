//! Strings of the command line: decimal numbers, lists joined by a separator,
//! and the decoding of pandoc's output.

use vstd::prelude::*;
use vstd::string::*;
use vstd::utf8::{decode_utf8, partial_valid_utf8, valid_utf8};
use itertools::Itertools;

verus! {

broadcast use vstd::seq_lib::group_seq_properties;

/// The character of the decimal digit `d` (`d < 10`).
pub open spec fn digit_char(d: nat) -> char {
    if d == 0 {
        '0'
    } else if d == 1 {
        '1'
    } else if d == 2 {
        '2'
    } else if d == 3 {
        '3'
    } else if d == 4 {
        '4'
    } else if d == 5 {
        '5'
    } else if d == 6 {
        '6'
    } else if d == 7 {
        '7'
    } else if d == 8 {
        '8'
    } else {
        '9'
    }
}

/// The decimal notation of `n`: its digits, most significant first, without
/// leading zeros (so `0` is written `"0"`).
pub open spec fn decimal(n: nat) -> Seq<char>
    decreases n,
{
    if n < 10 {
        seq![digit_char(n)]
    } else {
        decimal(n / 10).push(digit_char(n % 10))
    }
}

/// The views of a sequence of strings.
pub open spec fn views(v: Seq<String>) -> Seq<Seq<char>> {
    v.map_values(|s: String| s@)
}

/// `items` with `sep` between each two neighbours, as `Itertools::intersperse`
/// yields them: the first item, then a separator and an item for each further one.
pub open spec fn interspersed(items: Seq<Seq<char>>, sep: Seq<char>) -> Seq<Seq<char>>
    decreases items.len(),
{
    if items.len() <= 1 {
        items
    } else {
        interspersed(items.drop_last(), sep).push(sep).push(items.last())
    }
}

/// The text of `items` joined by `sep`.
pub open spec fn joined(items: Seq<Seq<char>>, sep: Seq<char>) -> Seq<char> {
    interspersed(items, sep).flatten()
}

/// The numbers of `nums` in decimal, separated by a comma and a space.
pub open spec fn number_list(nums: Seq<u32>) -> Seq<char> {
    joined(nums.map_values(|n: u32| decimal(n as nat)), ", "@)
}

fn digit_str(d: u64) -> (s: &'static str)
    requires
        d < 10,
    ensures
        s@ == seq![digit_char(d as nat)],
{
    match d {
        0 => {
            proof {
                reveal_strlit("0");
            }
            "0"
        },
        1 => {
            proof {
                reveal_strlit("1");
            }
            "1"
        },
        2 => {
            proof {
                reveal_strlit("2");
            }
            "2"
        },
        3 => {
            proof {
                reveal_strlit("3");
            }
            "3"
        },
        4 => {
            proof {
                reveal_strlit("4");
            }
            "4"
        },
        5 => {
            proof {
                reveal_strlit("5");
            }
            "5"
        },
        6 => {
            proof {
                reveal_strlit("6");
            }
            "6"
        },
        7 => {
            proof {
                reveal_strlit("7");
            }
            "7"
        },
        8 => {
            proof {
                reveal_strlit("8");
            }
            "8"
        },
        _ => {
            proof {
                reveal_strlit("9");
            }
            "9"
        },
    }
}

/// Appends the decimal notation of `n` to `s`.
pub fn push_decimal(s: &mut String, n: u64)
    ensures
        final(s)@ == old(s)@ + decimal(n as nat),
    decreases n,
{
    if n >= 10 {
        push_decimal(s, n / 10);
    }
    let ghost before = s@;
    s.append(digit_str(n % 10));
    proof {
        if n >= 10 {
            assert(old(s)@ + decimal(n as nat) =~= old(s)@ + decimal((n / 10) as nat) + seq![
                digit_char((n % 10) as nat),
            ]);
        } else {
            assert(old(s)@ + decimal(n as nat) =~= before + seq![digit_char((n % 10) as nat)]);
        }
    }
}

/// The numbers of `nums` in decimal, separated by `", "`.
pub fn number_list_string(nums: &Vec<u32>) -> (s: String)
    ensures
        s@ == number_list(nums@),
{
    let mut s = String::new();
    let ghost ds = nums@.map_values(|n: u32| decimal(n as nat));
    let mut i: usize = 0;
    while i < nums.len()
        invariant
            i <= nums.len(),
            ds == nums@.map_values(|n: u32| decimal(n as nat)),
            s@ == joined(ds.take(i as int), ", "@),
        decreases nums.len() - i,
    {
        proof {
            let t = ds.take(i as int + 1);
            assert(t.drop_last() =~= ds.take(i as int));
            if i >= 1 {
                lemma_joined_push(ds.take(i as int), ", "@, ds[i as int]);
                assert(ds.take(i as int).push(ds[i as int]) =~= t);
            } else {
                assert(t =~= seq![ds[0]]);
                assert(interspersed(t, ", "@) == t);
                t.lemma_flatten_one_element();
                assert(ds.take(0) =~= Seq::<Seq<char>>::empty());
                assert(interspersed(ds.take(0), ", "@) =~= Seq::<Seq<char>>::empty());
            }
        }
        if i >= 1 {
            s.append(", ");
        }
        push_decimal(&mut s, nums[i] as u64);
        i += 1;
    }
    assert(ds.take(nums.len() as int) =~= ds);
    s
}

/// Joining one more item adds the separator and the item at the end.
pub proof fn lemma_joined_push(items: Seq<Seq<char>>, sep: Seq<char>, item: Seq<char>)
    requires
        items.len() >= 1,
    ensures
        joined(items.push(item), sep) == joined(items, sep) + sep + item,
{
    let p = items.push(item);
    assert(p.drop_last() =~= items);
    let base = interspersed(items, sep);
    base.lemma_flatten_push(sep);
    base.push(sep).lemma_flatten_push(item);
}

/// The text of all `parts`, one after the other.
pub fn concat_strings(parts: &Vec<String>) -> (s: String)
    ensures
        s@ == views(parts@).flatten(),
{
    let mut s = String::new();
    let mut i: usize = 0;
    while i < parts.len()
        invariant
            i <= parts.len(),
            s@ == views(parts@.take(i as int)).flatten(),
        decreases parts.len() - i,
    {
        proof {
            assert(views(parts@.take(i as int + 1)) =~= views(parts@.take(i as int)).push(
                parts@[i as int]@,
            ));
            views(parts@.take(i as int)).lemma_flatten_push(parts@[i as int]@);
        }
        s.append(parts[i].as_str());
        i += 1;
    }
    assert(parts@.take(parts.len() as int) =~= parts@);
    s
}

/// Calls `Itertools::intersperse` on the items and collects what it yields:
/// the items in their order, with a clone of `sep` between each two neighbours.
#[verifier::external_body]
fn intersperse_strings(items: Vec<String>, sep: String) -> (r: Vec<String>)
    ensures
        views(r@) == interspersed(views(items@), sep@),
{
    Itertools::intersperse(items.into_iter(), sep).collect()
}

/// The text of `items` joined by `sep`, the separator put in by `Itertools::intersperse`.
pub fn join_strings(items: Vec<String>, sep: &str) -> (s: String)
    ensures
        s@ == joined(views(items@), sep@),
{
    let parts = intersperse_strings(items, String::from_str(sep));
    concat_strings(&parts)
}

/// Calls `String::from_utf8`. On success the text is the bytes decoded; on
/// failure the result is `Utf8Error::valid_up_to` of the error, which its
/// documentation gives as the largest index up to which the bytes are valid UTF-8.
#[verifier::external_body]
pub(crate) fn string_from_utf8(bytes: Vec<u8>) -> (r: Result<String, usize>)
    ensures
        r is Ok <==> valid_utf8(bytes@),
        r matches Ok(s) ==> s@ == decode_utf8(bytes@),
        r matches Err(n) ==> {
            &&& partial_valid_utf8(bytes@, n as int)
            &&& forall|j: int| n < j <= bytes@.len() ==> !partial_valid_utf8(bytes@, j)
        },
{
    String::from_utf8(bytes).map_err(|e| e.utf8_error().valid_up_to())
}

} // verus!
