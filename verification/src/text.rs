//! Verified text building: decimal rendering of identifiers and the chat
//! mention forms built from them (`<#id>` for a channel, `<@!id>` for a user).

use vstd::prelude::*;

verus! {

/// The character for one decimal digit.
pub open spec fn digit_char(d: nat) -> char {
    if d == 0 {
        '0'
    } else if d == 1 {
        '1'
    } else if d == 2 {
        '2'
    } else if d == 3 {
        '3'
    } else if d == 4 {
        '4'
    } else if d == 5 {
        '5'
    } else if d == 6 {
        '6'
    } else if d == 7 {
        '7'
    } else if d == 8 {
        '8'
    } else {
        '9'
    }
}

/// The decimal digits of `n`, most significant first, with no leading zeros
/// (`0` renders as the single digit `0`).
pub open spec fn dec_digits(n: nat) -> Seq<char>
    decreases n,
{
    if n < 10 {
        seq![digit_char(n)]
    } else {
        dec_digits(n / 10).push(digit_char(n % 10))
    }
}

/// The mention form of a channel id: `<#` + digits + `>`.
pub open spec fn channel_mention_text(id: nat) -> Seq<char> {
    seq!['<', '#'] + dec_digits(id) + seq!['>']
}

/// The mention form of a user or application id: `<@!` + digits + `>`.
pub open spec fn user_mention_text(id: nat) -> Seq<char> {
    seq!['<', '@', '!'] + dec_digits(id) + seq!['>']
}

/// The one-character string for a decimal digit.
fn digit_str(d: u64) -> (r: &'static str)
    requires
        d < 10,
    ensures
        r@ == seq![digit_char(d as nat)],
{
    if d == 0 {
        proof { reveal_strlit("0"); }
        let r = "0";
        proof { assert(r@ =~= seq![digit_char(d as nat)]); }
        r
    } else if d == 1 {
        proof { reveal_strlit("1"); }
        let r = "1";
        proof { assert(r@ =~= seq![digit_char(d as nat)]); }
        r
    } else if d == 2 {
        proof { reveal_strlit("2"); }
        let r = "2";
        proof { assert(r@ =~= seq![digit_char(d as nat)]); }
        r
    } else if d == 3 {
        proof { reveal_strlit("3"); }
        let r = "3";
        proof { assert(r@ =~= seq![digit_char(d as nat)]); }
        r
    } else if d == 4 {
        proof { reveal_strlit("4"); }
        let r = "4";
        proof { assert(r@ =~= seq![digit_char(d as nat)]); }
        r
    } else if d == 5 {
        proof { reveal_strlit("5"); }
        let r = "5";
        proof { assert(r@ =~= seq![digit_char(d as nat)]); }
        r
    } else if d == 6 {
        proof { reveal_strlit("6"); }
        let r = "6";
        proof { assert(r@ =~= seq![digit_char(d as nat)]); }
        r
    } else if d == 7 {
        proof { reveal_strlit("7"); }
        let r = "7";
        proof { assert(r@ =~= seq![digit_char(d as nat)]); }
        r
    } else if d == 8 {
        proof { reveal_strlit("8"); }
        let r = "8";
        proof { assert(r@ =~= seq![digit_char(d as nat)]); }
        r
    } else {
        proof { reveal_strlit("9"); }
        let r = "9";
        proof { assert(r@ =~= seq![digit_char(d as nat)]); }
        r
    }
}

/// Append the decimal digits of `n` to `s`, most significant first.
fn push_decimal(s: &mut String, n: u64)
    ensures
        final(s)@ == old(s)@ + dec_digits(n as nat),
    decreases n,
{
    if n >= 10 {
        push_decimal(s, n / 10);
        s.append(digit_str(n % 10));
        proof {
            assert(s@ =~= old(s)@ + dec_digits(n as nat));
        }
    } else {
        s.append(digit_str(n));
        proof {
            assert(s@ =~= old(s)@ + dec_digits(n as nat));
        }
    }
}

/// Render `n` in decimal, most significant digit first, with no leading
/// zeros.
pub fn u64_to_string(n: u64) -> (r: String)
    ensures
        r@ == dec_digits(n as nat),
{
    let mut s = String::new();
    push_decimal(&mut s, n);
    proof {
        assert(s@ =~= dec_digits(n as nat));
    }
    s
}

/// Build the `<#id>` mention of a channel.
pub fn channel_mention(id: u64) -> (r: String)
    ensures
        r@ == channel_mention_text(id as nat),
{
    proof {
        reveal_strlit("<#");
        reveal_strlit(">");
    }
    let mut s = String::from_str("<#");
    push_decimal(&mut s, id);
    s.append(">");
    proof {
        assert(s@ =~= channel_mention_text(id as nat));
    }
    s
}

/// Build the `<@!id>` mention of a user or application.
pub fn user_mention(id: u64) -> (r: String)
    ensures
        r@ == user_mention_text(id as nat),
{
    proof {
        reveal_strlit("<@!");
        reveal_strlit(">");
    }
    let mut s = String::from_str("<@!");
    push_decimal(&mut s, id);
    s.append(">");
    proof {
        assert(s@ =~= user_mention_text(id as nat));
    }
    s
}

} // verus!
