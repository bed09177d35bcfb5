//! Per-slot keystore directory paths.
//!
//! Each slot provisions its own keystore subdirectory under the configured
//! root, named by the slot's index in decimal (`root/0`, `root/1`, ...), so
//! slots never share key material on disk. The path arithmetic is proved
//! here, down to the fact that distinct indices give distinct paths; the
//! directory creation itself is filesystem work done outside this crate.

use vstd::prelude::*;

verus! {

/// The decimal digit character for `d`.
pub open spec fn digit_char(d: nat) -> char {
    if d == 0 {
        '0'
    } else if d == 1 {
        '1'
    } else if d == 2 {
        '2'
    } else if d == 3 {
        '3'
    } else if d == 4 {
        '4'
    } else if d == 5 {
        '5'
    } else if d == 6 {
        '6'
    } else if d == 7 {
        '7'
    } else if d == 8 {
        '8'
    } else {
        '9'
    }
}

/// The decimal digit string of `n`, most significant digit first, with no
/// leading zero except for `n == 0` itself.
pub open spec fn decimal_seq(n: nat) -> Seq<char>
    decreases n,
{
    if n < 10 {
        seq![digit_char(n)]
    } else {
        decimal_seq(n / 10).push(digit_char(n % 10))
    }
}

/// The keystore directory of slot `i` under `root`: `root`, a separator,
/// then the slot index in decimal.
pub open spec fn slot_path(root: Seq<char>, i: nat) -> Seq<char> {
    root + seq!['/'] + decimal_seq(i)
}

/// A one-character string for the digit `d`.
fn digit_str(d: usize) -> (r: &'static str)
    requires
        d < 10,
    ensures
        r@ =~= seq![digit_char(d as nat)],
{
    proof {
        reveal_strlit("0");
        reveal_strlit("1");
        reveal_strlit("2");
        reveal_strlit("3");
        reveal_strlit("4");
        reveal_strlit("5");
        reveal_strlit("6");
        reveal_strlit("7");
        reveal_strlit("8");
        reveal_strlit("9");
    }
    if d == 0 {
        "0"
    } else if d == 1 {
        "1"
    } else if d == 2 {
        "2"
    } else if d == 3 {
        "3"
    } else if d == 4 {
        "4"
    } else if d == 5 {
        "5"
    } else if d == 6 {
        "6"
    } else if d == 7 {
        "7"
    } else if d == 8 {
        "8"
    } else {
        "9"
    }
}

/// Formats `n` in decimal.
pub fn decimal_string(n: usize) -> (r: String)
    ensures
        r@ == decimal_seq(n as nat),
    decreases n,
{
    let d: usize = n % 10;
    let digit: &'static str = digit_str(d);
    if n < 10 {
        let r = String::from_str(digit);
        proof {
            assert(r@ =~= decimal_seq(n as nat));
        }
        r
    } else {
        let prefix = decimal_string(n / 10);
        let r = prefix.concat(digit);
        proof {
            assert(r@ =~= decimal_seq(n as nat));
        }
        r
    }
}

/// The keystore directory path of slot `i` under `root`.
pub fn slot_keystore_path(root: &str, i: usize) -> (r: String)
    ensures
        r@ == slot_path(root@, i as nat),
{
    let digits = decimal_string(i);
    let r = String::from_str(root).concat("/").concat(digits.as_str());
    proof {
        reveal_strlit("/");
        assert(r@ =~= slot_path(root@, i as nat));
    }
    r
}

/// The decimal string of `n` is never empty, and has at least two digits
/// exactly when `n` has two.
proof fn lemma_decimal_seq_len(n: nat)
    ensures
        decimal_seq(n).len() >= 1,
        n >= 10 ==> decimal_seq(n).len() >= 2,
    decreases n,
{
    if n >= 10 {
        lemma_decimal_seq_len(n / 10);
    }
}

/// Two numbers with the same decimal string are the same number.
proof fn lemma_decimal_seq_injective(a: nat, b: nat)
    requires
        decimal_seq(a) == decimal_seq(b),
    ensures
        a == b,
    decreases a,
{
    lemma_decimal_seq_len(a);
    lemma_decimal_seq_len(b);
    if a < 10 && b < 10 {
        assert(decimal_seq(a)[0] == decimal_seq(b)[0]);
        assert(decimal_seq(a)[0] == seq![digit_char(a)][0]);
        assert(seq![digit_char(a)][0] == digit_char(a));
        assert(seq![digit_char(b)][0] == digit_char(b));
        assert(digit_char(a) == digit_char(b));
    } else if a < 10 {
        assert(decimal_seq(a).len() == 1 && decimal_seq(b).len() >= 2);
    } else if b < 10 {
        assert(decimal_seq(a).len() >= 2 && decimal_seq(b).len() == 1);
    } else {
        let sa = decimal_seq(a / 10);
        let sb = decimal_seq(b / 10);
        assert(sa.push(digit_char(a % 10)) == sb.push(digit_char(b % 10)));
        assert(sa.len() == sb.len());
        assert(sa.push(digit_char(a % 10)).last() == digit_char(a % 10));
        assert(sb.push(digit_char(b % 10)).last() == digit_char(b % 10));
        assert(digit_char(a % 10) == digit_char(b % 10));
        assert(a % 10 == b % 10);
        assert forall|k: int| 0 <= k < sa.len() implies sa[k] == sb[k] by {
            assert(sa.push(digit_char(a % 10))[k] == sb.push(digit_char(b % 10))[k]);
            assert(sa.push(digit_char(a % 10))[k] == sa[k]);
            assert(sb.push(digit_char(b % 10))[k] == sb[k]);
        }
        assert(sa =~= sb);
        lemma_decimal_seq_injective(a / 10, b / 10);
        assert(a == 10 * (a / 10) + a % 10) by (nonlinear_arith);
        assert(b == 10 * (b / 10) + b % 10) by (nonlinear_arith);
    }
}

/// Keystore isolation: under one root, two distinct slot indices always
/// get distinct keystore directory paths, so no two slots ever share key
/// material on disk.
pub proof fn lemma_keystore_isolation(root: Seq<char>, i: nat, j: nat)
    requires
        i != j,
    ensures
        slot_path(root, i) != slot_path(root, j),
{
    if slot_path(root, i) == slot_path(root, j) {
        let pi = slot_path(root, i);
        let pj = slot_path(root, j);
        lemma_decimal_seq_len(i);
        lemma_decimal_seq_len(j);
        assert(decimal_seq(i) =~= pi.subrange(root.len() as int + 1, pi.len() as int));
        assert(decimal_seq(j) =~= pj.subrange(root.len() as int + 1, pj.len() as int));
        lemma_decimal_seq_injective(i, j);
    }
}

} // verus!
