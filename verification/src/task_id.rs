//! Stable textual identifiers for background tasks: `task-` and a zero-padded decimal sequence.
use vstd::prelude::*;

use crate::domain::task::TaskId;

verus! {

/// Width of the zero-padded sequence number in a task identifier.
pub const TASK_ID_DIGITS: u8 = 16;

pub open spec fn digit_char(d: nat) -> char {
    if d == 0 {
        '0'
    } else if d == 1 {
        '1'
    } else if d == 2 {
        '2'
    } else if d == 3 {
        '3'
    } else if d == 4 {
        '4'
    } else if d == 5 {
        '5'
    } else if d == 6 {
        '6'
    } else if d == 7 {
        '7'
    } else if d == 8 {
        '8'
    } else {
        '9'
    }
}

/// Decimal digits of `n`, left-padded with zeros to at least `width` characters,
/// as the format `{:0width}` writes them.
pub open spec fn padded_decimal(n: nat, width: nat) -> Seq<char>
    decreases n + width,
{
    if n == 0 && width == 0 {
        Seq::empty()
    } else {
        let rest_width: nat = if width > 0 {
            (width - 1) as nat
        } else {
            0
        };
        padded_decimal(n / 10, rest_width).push(digit_char(n % 10))
    }
}

/// The identifier text of the task with sequence number `sequence`.
pub open spec fn task_id_text(sequence: nat) -> Seq<char> {
    "task-"@ + padded_decimal(sequence, TASK_ID_DIGITS as nat)
}

proof fn lemma_digit_char_injective(a: nat, b: nat)
    requires
        a < 10,
        b < 10,
        digit_char(a) == digit_char(b),
    ensures
        a == b,
{
}

/// Zero-padded decimal text determines the number it was written from.
pub proof fn lemma_padded_decimal_injective(a: nat, b: nat, width: nat)
    requires
        padded_decimal(a, width) == padded_decimal(b, width),
    ensures
        a == b,
    decreases a + width,
{
    let rest_width: nat = if width > 0 {
        (width - 1) as nat
    } else {
        0
    };
    if a == 0 && width == 0 {
        if b != 0 {
            assert(padded_decimal(b, width).len() > 0);
        }
    } else if b == 0 && width == 0 {
        assert(padded_decimal(a, width).len() > 0);
    } else {
        let sa = padded_decimal(a, width);
        let sb = padded_decimal(b, width);
        assert(sa.last() == digit_char(a % 10));
        assert(sb.last() == digit_char(b % 10));
        lemma_digit_char_injective(a % 10, b % 10);
        assert(sa.drop_last() == padded_decimal(a / 10, rest_width));
        assert(sb.drop_last() == padded_decimal(b / 10, rest_width));
        lemma_padded_decimal_injective(a / 10, b / 10, rest_width);
    }
}

/// Distinct sequence numbers give distinct task identifiers.
pub proof fn lemma_task_id_text_injective(a: nat, b: nat)
    requires
        a != b,
    ensures
        task_id_text(a) != task_id_text(b),
{
    if task_id_text(a) == task_id_text(b) {
        let prefix = "task-"@;
        assert(padded_decimal(a, 16) =~= task_id_text(a).subrange(
            prefix.len() as int,
            task_id_text(a).len() as int,
        ));
        assert(padded_decimal(b, 16) =~= task_id_text(b).subrange(
            prefix.len() as int,
            task_id_text(b).len() as int,
        ));
        lemma_padded_decimal_injective(a, b, 16);
    }
}

fn digit_str(d: u64) -> (r: &'static str)
    requires
        d < 10,
    ensures
        r@ == seq![digit_char(d as nat)],
{
    proof {
        reveal_strlit("0");
        reveal_strlit("1");
        reveal_strlit("2");
        reveal_strlit("3");
        reveal_strlit("4");
        reveal_strlit("5");
        reveal_strlit("6");
        reveal_strlit("7");
        reveal_strlit("8");
        reveal_strlit("9");
    }
    if d == 0 {
        "0"
    } else if d == 1 {
        "1"
    } else if d == 2 {
        "2"
    } else if d == 3 {
        "3"
    } else if d == 4 {
        "4"
    } else if d == 5 {
        "5"
    } else if d == 6 {
        "6"
    } else if d == 7 {
        "7"
    } else if d == 8 {
        "8"
    } else {
        "9"
    }
}

/// Appends the decimal digits of `n`, zero-padded to at least `width` characters.
pub fn append_padded_decimal(out: &mut String, n: u64, width: u8)
    ensures
        final(out)@ == old(out)@ + padded_decimal(n as nat, width as nat),
    decreases n as nat + width as nat,
{
    if n == 0 && width == 0 {
        assert(old(out)@ + Seq::<char>::empty() =~= old(out)@);
        return;
    }
    let rest_width: u8 = if width > 0 {
        width - 1
    } else {
        0
    };
    append_padded_decimal(out, n / 10, rest_width);
    let ghost middle = out@;
    out.append(digit_str(n % 10));
    assert(out@ =~= old(out)@ + padded_decimal(n as nat, width as nat));
}

/// The identifier `task-` followed by `sequence` zero-padded to sixteen digits.
pub fn task_id_for(sequence: u64) -> (r: TaskId)
    ensures
        r.0@ == task_id_text(sequence as nat),
{
    let mut text = String::from_str("task-");
    append_padded_decimal(&mut text, sequence, TASK_ID_DIGITS);
    TaskId(text)
}

} // verus!
