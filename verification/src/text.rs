use vstd::prelude::*;
use vstd::string::StringExecFns;
use crate::decimal::{decimal, decimal_value, is_numeral, lemma_numeral_reads_back, push_unsigned};

verus! {

/// `c` is one of the ASCII capital letters `A` to `Z`.
pub open spec fn is_ascii_upper(c: char) -> bool {
    'A' <= c && c <= 'Z'
}

/// `c` is one of the ASCII small letters `a` to `z`.
pub open spec fn is_ascii_lower(c: char) -> bool {
    'a' <= c && c <= 'z'
}

/// The letter of the other case for an ASCII letter; any other char stays.
pub open spec fn swap_case(c: char) -> char {
    if is_ascii_upper(c) {
        ((c as u32) + 32) as char
    } else if is_ascii_lower(c) {
        ((c as u32) - 32) as char
    } else {
        c
    }
}

/// Flips the case of one ASCII letter in place; any other char is left as it is.
pub fn inverse_case(symbol: &mut char)
    ensures
        *final(symbol) == swap_case(*old(symbol)),
{
    let c = *symbol;
    if 'A' <= c && c <= 'Z' {
        let code: u8 = (c as u8) + 32;
        *symbol = code as char;
    } else if 'a' <= c && c <= 'z' {
        let code: u8 = (c as u8) - 32;
        *symbol = code as char;
    }
}

} // verus!

verus! {

/// Every char of `s` with the case of its ASCII letters flipped.
pub open spec fn swap_case_all(s: Seq<char>) -> Seq<char> {
    s.map_values(|c: char| swap_case(c))
}

/// How many chars of `s` are ASCII capital letters.
pub open spec fn uppercase_count(s: Seq<char>) -> nat {
    s.filter(|c: char| is_ascii_upper(c)).len()
}

/// How many chars of `s` are ASCII small letters.
pub open spec fn lowercase_count(s: Seq<char>) -> nat {
    s.filter(|c: char| is_ascii_lower(c)).len()
}

/// The small letters `a` to `z`, in order.
pub open spec fn lowercase_alphabet() -> Seq<char> {
    Seq::new(26, |i: int| (97 + i) as char)
}

/// Reverses the table in place, by swapping the two ends and moving inwards.
pub fn reverse_characters(characters: &mut Vec<char>)
    requires
        old(characters).len() > 0,
    ensures
        final(characters)@ == old(characters)@.reverse(),
{
    let ghost original = characters@;
    let n = characters.len();
    let mut left: usize = 0;
    let mut right: usize = n - 1;
    loop
        invariant_except_break
            left + right == n - 1,
            left <= n / 2,
        invariant
            n == original.len(),
            n > 0,
            characters@.len() == n,
            left <= right + 1,
            right < n,
            forall|k: int| 0 <= k < left ==> #[trigger] characters@[k] == original[n - 1 - k],
            forall|k: int| right < k < n ==> #[trigger] characters@[k] == original[n - 1 - k],
            forall|k: int| left <= k <= right ==> #[trigger] characters@[k] == original[k],
        ensures
            left >= right,
            left + right == n - 1,
        decreases right + 1 - left,
    {
        if left < right {
            let tmp = characters[left];
            let other = characters[right];
            characters.set(left, other);
            characters.set(right, tmp);
            right -= 1;
            left += 1;
        } else {
            break;
        }
    }
    assert(characters@ =~= original.reverse());
}

/// Flips the case of every ASCII letter of the table.
pub fn inverse_characters(characters: &mut Vec<char>)
    ensures
        final(characters)@ == swap_case_all(old(characters)@),
{
    let ghost original = characters@;
    let n = characters.len();
    for i in 0..n
        invariant
            n == original.len(),
            characters@.len() == n,
            forall|k: int| 0 <= k < i ==> #[trigger] characters@[k] == swap_case(original[k]),
            forall|k: int| i <= k < n ==> #[trigger] characters@[k] == original[k],
    {
        let mut symbol = characters[i];
        inverse_case(&mut symbol);
        characters.set(i, symbol);
    }
    assert(characters@ =~= swap_case_all(original));
}

/// Counts the ASCII capital letters of the table.
pub fn count_uppercase(characters: &Vec<char>) -> (count: usize)
    ensures
        count == uppercase_count(characters@),
{
    let mut count: usize = 0;
    for i in 0..characters.len()
        invariant
            count == uppercase_count(characters@.take(i as int)),
            count <= i,
    {
        proof {
            assert(characters@.take(i + 1) =~= characters@.take(i as int).push(characters@[i as int]));
            characters@.take(i as int).lemma_filter_len_push(|c: char| is_ascii_upper(c), characters@[i as int]);
        }
        let c = characters[i];
        if 'A' <= c && c <= 'Z' {
            count += 1;
        }
    }
    assert(characters@.take(characters@.len() as int) =~= characters@);
    count
}

/// The table every program starts from: `a` to `z`.
pub fn alphabet() -> (characters: Vec<char>)
    ensures
        characters@ == lowercase_alphabet(),
{
    let mut characters: Vec<char> = Vec::with_capacity(26);
    let mut code: u8 = 0x61;
    while code < 0x7B
        invariant
            0x61 <= code <= 0x7B,
            characters@.len() == code - 0x61,
            forall|k: int| 0 <= k < characters@.len() ==> #[trigger] characters@[k] == (97 + k) as char,
        decreases 0x7B - code,
    {
        characters.push(code as char);
        code += 1;
    }
    assert(characters@ =~= lowercase_alphabet());
    characters
}

/// The line by which the counting thread reports a number of capital letters.
pub open spec fn count_report_text(count: nat) -> Seq<char> {
    "Amount of uppercase symbols: "@ + decimal(count)
}

/// The report line is its fixed label and then a numeral that reads back to the count.
pub proof fn lemma_count_report_reads_back(count: nat)
    ensures
        exists|d: Seq<char>|
            #![trigger is_numeral(d)]
            is_numeral(d) && decimal_value(d) == count && count_report_text(count)
                == "Amount of uppercase symbols: "@ + d,
{
    lemma_numeral_reads_back(count);
    assert(is_numeral(decimal(count)));
}

/// The line by which the counting thread reports the number of capital letters.
pub fn count_report(count: usize) -> (line: String)
    ensures
        line@ == count_report_text(count as nat),
{
    let mut line = String::from_str("Amount of uppercase symbols: ");
    push_unsigned(&mut line, count as u64);
    line
}

} // verus!
