//! The experience curve: how much experience each level costs, and where a
//! learner lands after gaining experience.

use vstd::prelude::*;

verus! {

/// `r` is the integer square root of `n`.
pub open spec fn is_root(n: int, r: int) -> bool {
    0 <= r && r * r <= n && n < (r + 1) * (r + 1)
}

/// The integer square root of `n`: the largest `r` with `r * r <= n`.
pub open spec fn isqrt(n: nat) -> nat {
    choose|r: nat| #[trigger] is_root(n as int, r as int)
}

pub open spec fn cube(x: nat) -> nat {
    x * x * x
}

/// The experience needed to advance from `level` to the next level:
/// 100 · (level + 1)^1.5, rounded down, which is the integer square root of
/// 10000 · (level + 1)³; it saturates at `u32::MAX`.
pub open spec fn xp_for_level(level: nat) -> nat {
    let x = isqrt(10000 * cube(level + 1));
    if x > u32::MAX {
        u32::MAX as nat
    } else {
        x
    }
}

proof fn lemma_root_step(n: int, r: int)
    requires
        n >= 1,
        is_root(n - 1, r),
    ensures
        (r + 1) * (r + 1) <= n ==> is_root(n, r + 1),
        (r + 1) * (r + 1) > n ==> is_root(n, r),
{
    assert((r + 1) * (r + 1) < (r + 2) * (r + 2)) by (nonlinear_arith)
        requires
            r >= 0,
    ;
}

proof fn lemma_root_exists(n: nat)
    ensures
        exists|r: nat| #[trigger] is_root(n as int, r as int),
    decreases n,
{
    if n == 0 {
        assert(is_root(0, 0));
    } else {
        lemma_root_exists((n - 1) as nat);
        let r = choose|r: nat| #[trigger] is_root(n - 1, r as int);
        lemma_root_step(n as int, r as int);
        if (r + 1) * (r + 1) <= n {
            assert(is_root(n as int, (r + 1) as nat as int));
        } else {
            assert(is_root(n as int, r as int));
        }
    }
}

proof fn lemma_root_unique(n: int, a: int, b: int)
    requires
        is_root(n, a),
        is_root(n, b),
    ensures
        a == b,
{
    if a < b {
        assert((a + 1) * (a + 1) <= b * b) by (nonlinear_arith)
            requires
                0 <= a,
                a + 1 <= b,
        ;
    } else if b < a {
        assert((b + 1) * (b + 1) <= a * a) by (nonlinear_arith)
            requires
                0 <= b,
                b + 1 <= a,
        ;
    }
}

/// Any root of `n` is the one that `isqrt` names.
pub proof fn lemma_isqrt(n: nat, r: nat)
    requires
        is_root(n as int, r as int),
    ensures
        isqrt(n) == r,
{
    lemma_root_unique(n as int, isqrt(n) as int, r as int);
}

/// Every level costs at least 100 experience.
pub proof fn lemma_xp_at_least_100(level: nat)
    ensures
        xp_for_level(level) >= 100,
{
    let n = 10000 * cube(level + 1);
    assert(cube(level + 1) >= 1) by (nonlinear_arith)
        requires
            level >= 0,
    ;
    lemma_root_exists(n);
    let r = isqrt(n);
    if r < 100 {
        assert((r + 1) * (r + 1) <= 10000) by (nonlinear_arith)
            requires
                0 <= r < 100,
        ;
    }
}

/// Where a learner at `level` with `exp` experience ends up: each level is
/// bought, in turn, for as long as the experience covers its cost.
pub open spec fn settle(level: nat, exp: nat) -> (nat, nat)
    decreases exp,
{
    let need = xp_for_level(level);
    if exp >= need {
        proof {
            lemma_xp_at_least_100(level);
        }
        settle(level + 1, (exp - need) as nat)
    } else {
        (level, exp)
    }
}

/// Settling is reached in steps: buying the next level first changes nothing.
pub proof fn lemma_settle_step(level: nat, exp: nat)
    requires
        exp >= xp_for_level(level),
    ensures
        settle(level, exp) == settle(level + 1, (exp - xp_for_level(level)) as nat),
{
}

/// Gaining experience in two portions, settling after each, ends where
/// gaining it at once does.
pub proof fn lemma_settle_split(level: nat, exp: nat, more: nat)
    ensures
        settle(settle(level, exp).0, settle(level, exp).1 + more) == settle(level, exp + more),
    decreases exp,
{
    let need = xp_for_level(level);
    lemma_xp_at_least_100(level);
    if exp >= need {
        lemma_settle_split(level + 1, (exp - need) as nat, more);
        assert((exp - need) as nat + more == (exp + more - need) as nat);
    } else if exp + more >= need {
    } else {
    }
}

/// Settling never lowers the level, and costs at least 100 experience for
/// each level gained.
pub proof fn lemma_settle_bounds(level: nat, exp: nat)
    ensures
        settle(level, exp).0 >= level,
        settle(level, exp).1 <= exp,
        settle(level, exp).1 < xp_for_level(settle(level, exp).0),
        100 * (settle(level, exp).0 - level) + settle(level, exp).1 <= exp,
    decreases exp,
{
    let need = xp_for_level(level);
    lemma_xp_at_least_100(level);
    if exp >= need {
        lemma_settle_bounds(level + 1, (exp - need) as nat);
    }
}

/// The levels from `from` (exclusive) to `to` (inclusive) that are multiples
/// of ten, in increasing order.
pub open spec fn milestones(from: nat, to: nat) -> Seq<nat>
    decreases to,
{
    if to <= from {
        seq![]
    } else {
        let before = milestones(from, (to - 1) as nat);
        if to % 10 == 0 {
            before.push(to)
        } else {
            before
        }
    }
}

/// Milestones over consecutive ranges join up.
pub proof fn lemma_milestones_join(a: nat, b: nat, c: nat)
    requires
        a <= b <= c,
    ensures
        milestones(a, b) + milestones(b, c) == milestones(a, c),
    decreases c,
{
    if c == b {
        assert(milestones(a, b) + milestones(b, c) =~= milestones(a, c));
    } else {
        lemma_milestones_join(a, b, (c - 1) as nat);
        assert(milestones(a, b) + milestones(b, c) =~= milestones(a, c));
    }
}

/// The cost of the next level, computed exactly with a binary search for the
/// integer square root.
pub fn xp_for_next_level_of(level: u32) -> (r: u32)
    ensures
        r == xp_for_level(level as nat),
{
    let l: u128 = level as u128 + 1;
    assert(l * l <= 0x1_0000_0000_0000_0000u128) by (nonlinear_arith)
        requires
            1 <= l <= 0x1_0000_0000,
    ;
    let sq: u128 = l * l;
    assert(sq * l <= 0x1_0000_0000_0000_0000_0000_0000u128) by (nonlinear_arith)
        requires
            sq <= 0x1_0000_0000_0000_0000u128,
            1 <= l <= 0x1_0000_0000,
    ;
    let cu: u128 = sq * l;
    let n: u128 = 10000 * cu;
    assert(cu == cube(level as nat + 1));
    let mut lo: u128 = 0;
    let mut hi: u128 = 0x100_0000_0000_0000;
    assert(n < hi * hi);
    while lo + 1 < hi
        invariant
            lo < hi <= 0x100_0000_0000_0000,
            lo * lo <= n,
            n < hi * hi,
            n == 10000 * cube(level as nat + 1),
        decreases hi - lo,
    {
        let mid: u128 = lo + (hi - lo) / 2;
        assert(mid * mid <= 0x1_0000_0000_0000_0000_0000_0000_0000u128) by (nonlinear_arith)
            requires
                mid <= 0x100_0000_0000_0000,
        ;
        if mid * mid <= n {
            lo = mid;
        } else {
            hi = mid;
        }
    }
    assert(is_root(n as int, lo as int));
    proof {
        lemma_isqrt(n as nat, lo as nat);
    }
    if lo > 0xffff_ffff {
        u32::MAX
    } else {
        lo as u32
    }
}

/// The cost of a level is 100 · (level + 1)^1.5 rounded down: its square is
/// at most 10000 · (level + 1)³ and the next whole number's square is above
/// it (unless the cost is held at `u32::MAX`); and a higher level never
/// costs less.
pub proof fn lemma_xp_curve(level: nat, higher: nat)
    ensures
        xp_for_level(level) <= u32::MAX,
        xp_for_level(level) < u32::MAX ==> xp_for_level(level) * xp_for_level(level) <= 10000 * ((level + 1) * (
        level + 1) * (level + 1)) < (xp_for_level(level) + 1) * (xp_for_level(level) + 1),
        level <= higher ==> xp_for_level(level) <= xp_for_level(higher),
{
    let n1 = 10000 * cube(level + 1);
    let n2 = 10000 * cube(higher + 1);
    lemma_root_exists(n1);
    lemma_root_exists(n2);
    let r1 = isqrt(n1);
    let r2 = isqrt(n2);
    assert(is_root(n1 as int, r1 as int));
    assert(is_root(n2 as int, r2 as int));
    if level <= higher {
        assert(cube(level + 1) <= cube(higher + 1)) by (nonlinear_arith)
            requires
                level <= higher,
        ;
        if r1 > r2 {
            assert((r2 + 1) * (r2 + 1) <= r1 * r1) by (nonlinear_arith)
                requires
                    r1 >= r2 + 1,
                    r2 >= 0,
            ;
        }
    }
}

} // verus!
