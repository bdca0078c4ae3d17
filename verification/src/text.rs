//! Decimal rendering for the numeric labels on the dashboard.
//!
//! Every number the window displays (progress counts such as `1/2`, the
//! population line) is rendered through [`u32_to_dec`], which is proved to
//! produce exactly the mathematical decimal representation [`dec_rep`].

use vstd::prelude::*;
use vstd::string::StringExecFns;

verus! {

/// The character for a single decimal digit `d` (`0 <= d <= 9`).
pub open spec fn digit_char(d: nat) -> char {
    if d == 0 {
        '0'
    } else if d == 1 {
        '1'
    } else if d == 2 {
        '2'
    } else if d == 3 {
        '3'
    } else if d == 4 {
        '4'
    } else if d == 5 {
        '5'
    } else if d == 6 {
        '6'
    } else if d == 7 {
        '7'
    } else if d == 8 {
        '8'
    } else {
        '9'
    }
}

/// The decimal representation of `n`, most significant digit first,
/// with no leading zeros (`0` is rendered as the single digit `0`).
pub open spec fn dec_rep(n: nat) -> Seq<char>
    decreases n,
{
    if n < 10 {
        seq![digit_char(n)]
    } else {
        dec_rep(n / 10).push(digit_char(n % 10))
    }
}

/// The one-character string for the decimal digit `d`.
fn digit_str(d: u32) -> (r: &'static str)
    requires
        d < 10,
    ensures
        r@ == seq![digit_char(d as nat)],
{
    proof {
        reveal_strlit("0");
        reveal_strlit("1");
        reveal_strlit("2");
        reveal_strlit("3");
        reveal_strlit("4");
        reveal_strlit("5");
        reveal_strlit("6");
        reveal_strlit("7");
        reveal_strlit("8");
        reveal_strlit("9");
    }
    let r: &'static str = if d == 0 {
        "0"
    } else if d == 1 {
        "1"
    } else if d == 2 {
        "2"
    } else if d == 3 {
        "3"
    } else if d == 4 {
        "4"
    } else if d == 5 {
        "5"
    } else if d == 6 {
        "6"
    } else if d == 7 {
        "7"
    } else if d == 8 {
        "8"
    } else {
        "9"
    };
    proof {
        assert(r@ =~= seq![digit_char(d as nat)]);
    }
    r
}

/// Appends the decimal representation of `n` to `s`.
fn push_dec(s: &mut String, n: u32)
    ensures
        final(s)@ == old(s)@ + dec_rep(n as nat),
    decreases n,
{
    if n >= 10 {
        proof {
            vstd::arithmetic::div_mod::lemma_div_is_strictly_smaller(n as int, 10);
        }
        push_dec(s, n / 10);
        s.append(digit_str(n % 10));
        proof {
            assert(s@ =~= old(s)@ + dec_rep(n as nat));
        }
    } else {
        s.append(digit_str(n));
        proof {
            assert(s@ =~= old(s)@ + dec_rep(n as nat));
        }
    }
}

/// Renders `n` in decimal, exactly as [`dec_rep`] describes.
pub fn u32_to_dec(n: u32) -> (r: String)
    ensures
        r@ == dec_rep(n as nat),
{
    let mut s = String::new();
    push_dec(&mut s, n);
    proof {
        assert(s@ =~= dec_rep(n as nat));
    }
    s
}

/// The text of a progress badge: `done`, a slash, `total` (for example `1/2`).
pub open spec fn spec_progress_label(done: nat, total: nat) -> Seq<char> {
    dec_rep(done) + seq!['/'] + dec_rep(total)
}

/// The text of a card's population line (for example `Population: 150`).
pub open spec fn spec_population_label(n: nat) -> Seq<char> {
    "Population: "@ + dec_rep(n)
}

/// The text of a card's identifier line (for example `ID: b0b18929...`).
pub open spec fn spec_id_label(id: Seq<char>) -> Seq<char> {
    "ID: "@ + id
}

/// Renders the progress badge for `done` out of `total` steps.
pub fn progress_label(done: u32, total: u32) -> (r: String)
    ensures
        r@ == spec_progress_label(done as nat, total as nat),
{
    let mut s = u32_to_dec(done);
    s.append("/");
    push_dec(&mut s, total);
    proof {
        reveal_strlit("/");
        assert(s@ =~= spec_progress_label(done as nat, total as nat));
    }
    s
}

/// Renders the population line for a population of `n`.
pub fn population_label(n: u32) -> (r: String)
    ensures
        r@ == spec_population_label(n as nat),
{
    let mut s = "Population: ".to_owned();
    push_dec(&mut s, n);
    proof {
        assert(s@ =~= spec_population_label(n as nat));
    }
    s
}

/// Renders the identifier line for the identifier text `id`.
pub fn id_label(id: &str) -> (r: String)
    ensures
        r@ == spec_id_label(id@),
{
    let mut s = "ID: ".to_owned();
    s.append(id);
    proof {
        assert(s@ =~= spec_id_label(id@));
    }
    s
}

} // verus!
