//! The adaptive tutor's own rules: the hint for each level and the small
//! letter sequences shown around a task.

use vstd::prelude::*;
use crate::text::owned;

verus! {

pub open spec fn hint_text(level: usize) -> Seq<char> {
    if level == 0 {
        "Take your time and think about the pattern."@
    } else if level == 1 {
        "Consider what comes before and after in the sequence."@
    } else if level == 2 {
        "Try to recall the complete sequence from the beginning."@
    } else {
        "The answer is part of the pattern you're learning."@
    }
}

/// The hint for a hint level; every level past the third gets the last one.
pub fn get_hint(level: usize) -> (r: String)
    ensures
        r@ == hint_text(level),
{
    owned(
        if level == 0 {
            "Take your time and think about the pattern."
        } else if level == 1 {
            "Consider what comes before and after in the sequence."
        } else if level == 2 {
            "Try to recall the complete sequence from the beginning."
        } else {
            "The answer is part of the pattern you're learning."
        },
    )
}

/// The position of a letter among A to M.
pub open spec fn letter_index(from: Seq<char>) -> Option<int> {
    if from.len() == 1 && 'A' <= from[0] <= 'M' {
        Some(from[0] as int - 'A' as int)
    } else {
        None
    }
}

/// The letter at position `i` of A to M.
pub open spec fn letter_at(i: int) -> Seq<char> {
    seq![(i + 'A' as int) as char]
}

/// The letter `steps` after `from`, when both are among A to M.
pub open spec fn letter_after(from: Seq<char>, steps: nat) -> Option<Seq<char>> {
    match letter_index(from) {
        Some(i) => if i + steps < 13 {
            Some(letter_at(i + steps))
        } else {
            None
        },
        None => None,
    }
}

fn letter(i: usize) -> (r: &'static str)
    requires
        i < 13,
    ensures
        r@ == letter_at(i as int),
{
    proof {
        reveal_strlit("A");
        reveal_strlit("B");
        reveal_strlit("C");
        reveal_strlit("D");
        reveal_strlit("E");
        reveal_strlit("F");
        reveal_strlit("G");
        reveal_strlit("H");
        reveal_strlit("I");
        reveal_strlit("J");
        reveal_strlit("K");
        reveal_strlit("L");
        reveal_strlit("M");
    }
    if i == 0 { "A" } else if i == 1 { "B" } else if i == 2 { "C" } else if i == 3 { "D" } else if i == 4 { "E" }
    else if i == 5 { "F" } else if i == 6 { "G" } else if i == 7 { "H" } else if i == 8 { "I" } else if i == 9 { "J" }
    else if i == 10 { "K" } else if i == 11 { "L" } else { "M" }
}

/// The letter `steps` after `from`, when both are among A to M.
pub fn get_next_item(from: &str, steps: usize) -> (r: Option<String>)
    requires
        letter_index(from@) matches Some(i) ==> i + steps <= usize::MAX,
    ensures
        match r {
            Some(s) => letter_after(from@, steps as nat) == Some(s@),
            None => letter_after(from@, steps as nat) is None,
        },
{
    if from.unicode_len() != 1 {
        return None;
    }
    let c = from.get_char(0);
    if c < 'A' || c > 'M' {
        return None;
    }
    let idx: usize = (c as u32 - 'A' as u32) as usize;
    if steps < 13 - idx {
        Some(owned(letter(idx + steps)))
    } else {
        None
    }
}

/// The context shown around `item`: the item, a gap, and the letter two
/// after it (an ellipsis past M).
pub open spec fn context_of(item: Seq<char>) -> Seq<Seq<char>> {
    seq![
        item,
        "?"@,
        match letter_after(item, 2) {
            Some(x) => x,
            None => "..."@,
        },
    ]
}

/// The context shown around `item`.
pub fn get_context_sequence(item: &str) -> (r: Vec<String>)
    ensures
        crate::text::strs(r@) == context_of(item@),
{
    let mut v: Vec<String> = Vec::new();
    v.push(owned(item));
    v.push(owned("?"));
    let after = match get_next_item(item, 2) {
        Some(x) => x,
        None => owned("..."),
    };
    v.push(after);
    assert(crate::text::strs(v@) =~= context_of(item@));
    v
}

/// The jump sequence from `from` in steps of `k`: `from`, then a gap for
/// the first jump and the letters of the second and third, each jump that
/// leaves A to M left out.
pub open spec fn jumps_of(from: Seq<char>, k: nat) -> Seq<Seq<char>> {
    let first = if letter_after(from, k) is Some { seq!["?"@] } else { seq![] };
    let second = match letter_after(from, 2 * k) {
        Some(x) => seq![x],
        None => seq![],
    };
    let third = match letter_after(from, 3 * k) {
        Some(x) => seq![x],
        None => seq![],
    };
    seq![from] + first + second + third
}

/// The jump sequence from `from` in steps of `k`.
pub fn get_jump_sequence(from: &str, k: usize) -> (r: Vec<String>)
    requires
        3 * k + 12 <= usize::MAX,
    ensures
        crate::text::strs(r@) == jumps_of(from@, k as nat),
{
    let mut v: Vec<String> = Vec::new();
    v.push(owned(from));
    let ghost s0 = crate::text::strs(v@);
    let mut i: usize = 1;
    while i <= 3
        invariant
            1 <= i <= 4,
            3 * k + 12 <= usize::MAX,
            crate::text::strs(v@) == seq![from@] + (if i > 1 && letter_after(from@, k as nat) is Some {
                seq!["?"@]
            } else {
                seq![]
            }) + (if i > 2 {
                match letter_after(from@, 2 * k as nat) {
                    Some(x) => seq![x],
                    None => seq![],
                }
            } else {
                seq![]
            }) + (if i > 3 {
                match letter_after(from@, 3 * k as nat) {
                    Some(x) => seq![x],
                    None => seq![],
                }
            } else {
                seq![]
            }),
        decreases 4 - i,
    {
        let ghost before = crate::text::strs(v@);
        if let Some(item) = get_next_item(from, i * k) {
            if i == 1 {
                v.push(owned("?"));
            } else {
                v.push(item);
            }
            assert(crate::text::strs(v@) =~= before.push(crate::text::strs(v@).last()));
        }
        i = i + 1;
        assert(crate::text::strs(v@) =~= seq![from@] + (if i > 1 && letter_after(from@, k as nat) is Some {
            seq!["?"@]
        } else {
            seq![]
        }) + (if i > 2 {
            match letter_after(from@, 2 * k as nat) {
                Some(x) => seq![x],
                None => seq![],
            }
        } else {
            seq![]
        }) + (if i > 3 {
            match letter_after(from@, 3 * k as nat) {
                Some(x) => seq![x],
                None => seq![],
            }
        } else {
            seq![]
        }));
    }
    assert(crate::text::strs(v@) =~= jumps_of(from@, k as nat));
    v
}

} // verus!
