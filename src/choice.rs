use vstd::prelude::*;

verus! {

/// `c` is one of the ten decimal digits.
pub open spec fn is_digit(c: char) -> bool {
    '0' <= c && c <= '9'
}

/// The number that a run of decimal digits writes.
pub open spec fn digits_value(s: Seq<char>) -> int
    decreases s.len(),
{
    if s.len() == 0 {
        0
    } else {
        digits_value(s.drop_last()) * 10 + (s.last() as u32 - '0' as u32)
    }
}

/// The row that a typed answer picks from a numbered list of `count` items
/// numbered from one: the answer must be a run of decimal digits that writes
/// a number from one to `count`.
pub open spec fn chosen_row(s: Seq<char>, count: nat) -> Option<usize> {
    if s.len() > 0 && (forall|i: int| 0 <= i < s.len() ==> is_digit(#[trigger] s[i])) && 1
        <= digits_value(s) <= count {
        Some((digits_value(s) - 1) as usize)
    } else {
        None
    }
}

proof fn lemma_digits_value_grows(s: Seq<char>)
    requires
        forall|i: int| 0 <= i < s.len() ==> is_digit(#[trigger] s[i]),
    ensures
        digits_value(s) >= 0,
        s.len() > 0 ==> digits_value(s) >= digits_value(s.drop_last()),
    decreases s.len(),
{
    if s.len() > 0 {
        let t = s.drop_last();
        assert forall|i: int| 0 <= i < t.len() implies is_digit(#[trigger] t[i]) by {
            assert(t[i] == s[i]);
        }
        lemma_digits_value_grows(t);
    }
}

/// The row that the typed answer `input` picks from a numbered list of
/// `count` items, or `None` when it picks none.
pub fn parse_space_choice(input: &str, count: usize) -> (r: Option<usize>)
    ensures
        r == chosen_row(input@, count as nat),
{
    let n = input.unicode_len();
    if n == 0 {
        return None;
    }
    let mut acc: u128 = 0;
    let mut big = false;
    let mut i: usize = 0;
    while i < n
        invariant
            n == input@.len(),
            i <= n,
            forall|k: int| 0 <= k < i ==> is_digit(#[trigger] input@[k]),
            big ==> digits_value(input@.take(i as int)) > count,
            !big ==> acc == digits_value(input@.take(i as int)) && acc <= count,
        decreases n - i,
    {
        let c = input.get_char(i);
        if !('0' <= c && c <= '9') {
            proof {
                assert(!is_digit(input@[i as int]));
            }
            return None;
        }
        let ghost before = input@.take(i as int);
        proof {
            assert(input@.take(i + 1).drop_last() =~= before);
            assert(input@.take(i + 1).last() == c);
            assert forall|k: int| 0 <= k < before.len() implies is_digit(#[trigger] before[k]) by {
                assert(before[k] == input@[k]);
            }
            lemma_digits_value_grows(before);
        }
        if !big {
            let d = (c as u32 - '0' as u32) as u128;
            acc = acc * 10 + d;
            if acc > count as u128 {
                big = true;
            }
        }
        i += 1;
    }
    proof {
        assert(input@.take(n as int) =~= input@);
    }
    if big || acc == 0 {
        None
    } else {
        Some((acc - 1) as usize)
    }
}

/// Whether the answer to "Publish page: y/n?" says yes: `y`, `Y`, `yes` or
/// `Yes`.
pub fn accepts_publish(answer: &str) -> (r: bool)
    ensures
        r == (answer@ == "y"@ || answer@ == "Y"@ || answer@ == "yes"@ || answer@ == "Yes"@),
{
    crate::text::same_text(answer, "y") || crate::text::same_text(answer, "Y")
        || crate::text::same_text(answer, "yes") || crate::text::same_text(answer, "Yes")
}

} // verus!
