use vstd::prelude::*;
use crate::text::{
    is_ascii_lower, is_ascii_upper, lowercase_alphabet, lowercase_count, swap_case, swap_case_all,
    uppercase_count,
};

verus! {

/// Flipping the case moves an ASCII capital letter 32 code points up to its small letter, a
/// small letter 32 down to its capital, and leaves every other char as it is.
pub proof fn lemma_case_flip_changes_letters_only(c: char)
    ensures
        'A' <= c <= 'Z' ==> swap_case(c) as u32 == c as u32 + 32 && 'a' <= swap_case(c) <= 'z',
        'a' <= c <= 'z' ==> swap_case(c) as u32 == c as u32 - 32 && 'A' <= swap_case(c) <= 'Z',
        !('A' <= c <= 'Z') && !('a' <= c <= 'z') ==> swap_case(c) == c,
{
}

/// Flipping the case of a table keeps its length, flips each ASCII letter, and leaves every
/// other char where and as it was.
pub proof fn lemma_inverse_changes_letters_only(s: Seq<char>)
    ensures
        swap_case_all(s).len() == s.len(),
        forall|k: int|
            0 <= k < s.len() && !('A' <= s[k] <= 'Z') && !('a' <= s[k] <= 'z') ==> #[trigger] swap_case_all(s)[k] == s[k],
        forall|k: int|
            0 <= k < s.len() && 'A' <= s[k] <= 'Z' ==> #[trigger] swap_case_all(s)[k] as u32 == s[k] as u32 + 32,
        forall|k: int|
            0 <= k < s.len() && 'a' <= s[k] <= 'z' ==> #[trigger] swap_case_all(s)[k] as u32 == s[k] as u32 - 32,
{
    assert forall|k: int| 0 <= k < s.len() implies #[trigger] swap_case_all(s)[k] == swap_case(s[k]) by {
        lemma_case_flip_changes_letters_only(s[k]);
    }
}

/// Counting capitals: none in an empty table, and one more for each char `A` to `Z` added.
pub proof fn lemma_uppercase_count_by_chars(s: Seq<char>, c: char)
    ensures
        uppercase_count(Seq::<char>::empty()) == 0,
        uppercase_count(s.push(c)) == uppercase_count(s) + if 'A' <= c <= 'Z' {
            1int
        } else {
            0int
        },
{
    reveal(Seq::filter);
    s.lemma_filter_len_push(|x: char| is_ascii_upper(x), c);
}

/// The starting table holds the 26 code points from `a` on, in order.
pub proof fn lemma_alphabet_codes()
    ensures
        lowercase_alphabet().len() == 26,
        forall|k: int| 0 <= k < 26 ==> #[trigger] lowercase_alphabet()[k] as u32 == 97 + k,
{
}

/// Flipping the case of a char twice gives the char back.
pub proof fn lemma_swap_case_involutive(c: char)
    ensures
        swap_case(swap_case(c)) == c,
{
}

/// Flipping the case of every char of a table twice gives the table back.
pub proof fn lemma_inverse_involutive(s: Seq<char>)
    ensures
        swap_case_all(swap_case_all(s)) == s,
{
    assert forall|k: int| 0 <= k < s.len() implies #[trigger] swap_case_all(swap_case_all(s))[k] == s[k] by {
        lemma_swap_case_involutive(s[k]);
    }
    assert(swap_case_all(swap_case_all(s)) =~= s);
}

/// Reversing a table twice gives the table back.
pub proof fn lemma_reverse_involutive(s: Seq<char>)
    ensures
        s.reverse().reverse() == s,
{
    assert(s.reverse().reverse() =~= s);
}

/// Reversing and flipping the case may be done in either order: the table is the same.
pub proof fn lemma_reverse_inverse_commute(s: Seq<char>)
    ensures
        swap_case_all(s.reverse()) == swap_case_all(s).reverse(),
{
    assert(swap_case_all(s.reverse()) =~= swap_case_all(s).reverse());
}


/// Reversing a table does not change how many capital letters it holds.
pub proof fn lemma_uppercase_count_reverse(s: Seq<char>)
    ensures
        uppercase_count(s.reverse()) == uppercase_count(s),
    decreases s.len(),
{
    let p = |c: char| is_ascii_upper(c);
    if s.len() > 0 {
        let init = s.drop_last();
        let x = s.last();
        lemma_uppercase_count_reverse(init);
        assert(s =~= init.push(x));
        assert(s.reverse() =~= seq![x] + init.reverse());
        Seq::filter_distributes_over_add(seq![x], init.reverse(), p);
        Seq::<char>::empty().lemma_filter_len_push(p, x);
        assert(Seq::<char>::empty().push(x) =~= seq![x]);
        reveal(Seq::filter);
        init.lemma_filter_len_push(p, x);
    } else {
        assert(s.reverse() =~= s);
    }
}

/// After the case of every letter is flipped, the capital letters are exactly the
/// letters that were small before.
pub proof fn lemma_uppercase_count_inverse(s: Seq<char>)
    ensures
        uppercase_count(swap_case_all(s)) == lowercase_count(s),
    decreases s.len(),
{
    let up = |c: char| is_ascii_upper(c);
    let low = |c: char| is_ascii_lower(c);
    if s.len() > 0 {
        let init = s.drop_last();
        let x = s.last();
        lemma_uppercase_count_inverse(init);
        assert(s =~= init.push(x));
        assert(swap_case_all(s) =~= swap_case_all(init).push(swap_case(x)));
        swap_case_all(init).lemma_filter_len_push(up, swap_case(x));
        init.lemma_filter_len_push(low, x);
    } else {
        reveal(Seq::filter);
    }
}

/// The two ways the worker threads change the shared table.
pub enum Transform {
    Reverse,
    Inverse,
}

/// The table after one worker has changed it.
pub open spec fn apply_transform(s: Seq<char>, t: Transform) -> Seq<char> {
    match t {
        Transform::Reverse => s.reverse(),
        Transform::Inverse => swap_case_all(s),
    }
}

/// The table after the workers have changed it, in the order given.
pub open spec fn apply_transforms(s: Seq<char>, ts: Seq<Transform>) -> Seq<char>
    decreases ts.len(),
{
    if ts.len() == 0 {
        s
    } else {
        apply_transform(apply_transforms(s, ts.drop_last()), ts.last())
    }
}

/// How many of the changes reverse the table.
pub open spec fn reversal_count(ts: Seq<Transform>) -> nat {
    ts.filter(|t: Transform| t is Reverse).len()
}

/// How many of the changes flip the case.
pub open spec fn inversion_count(ts: Seq<Transform>) -> nat {
    ts.filter(|t: Transform| t is Inverse).len()
}

/// The table, flipped in case when `inverted`, then reversed when `reversed`.
pub open spec fn oriented(s: Seq<char>, reversed: bool, inverted: bool) -> Seq<char> {
    let t = if inverted {
        swap_case_all(s)
    } else {
        s
    };
    if reversed {
        t.reverse()
    } else {
        t
    }
}

/// Whatever order the workers take turns in, the table only depends on whether each kind of
/// change happened an odd number of times: it is one of four tables.
pub proof fn lemma_transforms_by_parity(s: Seq<char>, ts: Seq<Transform>)
    ensures
        apply_transforms(s, ts) == oriented(
            s,
            reversal_count(ts) % 2 == 1,
            inversion_count(ts) % 2 == 1,
        ),
    decreases ts.len(),
{
    let is_rev = |t: Transform| t is Reverse;
    let is_inv = |t: Transform| t is Inverse;
    if ts.len() == 0 {
        reveal(Seq::filter);
        assert(reversal_count(ts) == 0);
        assert(inversion_count(ts) == 0);
    } else {
        let init = ts.drop_last();
        let t = ts.last();
        lemma_transforms_by_parity(s, init);
        assert(ts =~= init.push(t));
        init.lemma_filter_len_push(is_rev, t);
        init.lemma_filter_len_push(is_inv, t);
        let r = reversal_count(init) % 2 == 1;
        let i = inversion_count(init) % 2 == 1;
        let prev = oriented(s, r, i);
        match t {
            Transform::Reverse => {
                if r {
                    let u = if i { swap_case_all(s) } else { s };
                    lemma_reverse_involutive(u);
                }
            },
            Transform::Inverse => {
                let u = if i { swap_case_all(s) } else { s };
                if i {
                    lemma_inverse_involutive(s);
                }
                if r {
                    lemma_reverse_inverse_commute(u);
                }
            },
        }
    }
}

/// From the alphabet the programs start with, the table holds either no capital letter or
/// 26 of them, the latter exactly when the case was flipped an odd number of times.
pub proof fn lemma_alphabet_uppercase_count(ts: Seq<Transform>)
    ensures
        uppercase_count(apply_transforms(lowercase_alphabet(), ts)) == if inversion_count(ts) % 2
            == 1 {
            26nat
        } else {
            0nat
        },
{
    let a = lowercase_alphabet();
    lemma_transforms_by_parity(a, ts);
    lemma_alphabet_counts();
    lemma_uppercase_count_inverse(a);
    lemma_uppercase_count_reverse(a);
    lemma_uppercase_count_reverse(swap_case_all(a));
}

/// The alphabet holds 26 small letters and no capital letter.
pub proof fn lemma_alphabet_counts()
    ensures
        lowercase_count(lowercase_alphabet()) == 26,
        uppercase_count(lowercase_alphabet()) == 0,
{
    let a = lowercase_alphabet();
    let up = |c: char| is_ascii_upper(c);
    let low = |c: char| is_ascii_lower(c);
    assert forall|k: int| 0 <= k <= 26 implies #[trigger] a.take(k).filter(low).len() == k
        && a.take(k).filter(up).len() == 0 by {
        lemma_alphabet_prefix_counts(k);
    }
    assert(a.take(26) =~= a);
}

proof fn lemma_alphabet_prefix_counts(k: int)
    requires
        0 <= k <= 26,
    ensures
        lowercase_alphabet().take(k).filter(|c: char| is_ascii_lower(c)).len() == k,
        lowercase_alphabet().take(k).filter(|c: char| is_ascii_upper(c)).len() == 0,
    decreases k,
{
    let a = lowercase_alphabet();
    if k == 0 {
        reveal(Seq::filter);
    } else {
        lemma_alphabet_prefix_counts(k - 1);
        assert(a.take(k) =~= a.take(k - 1).push(a[k - 1]));
        a.take(k - 1).lemma_filter_len_push(|c: char| is_ascii_lower(c), a[k - 1]);
        a.take(k - 1).lemma_filter_len_push(|c: char| is_ascii_upper(c), a[k - 1]);
    }
}

} // verus!
