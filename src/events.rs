use vstd::prelude::*;

verus! {

/// The character of the decimal digit `d`, for `0 <= d < 10`.
pub open spec fn digit_char(d: int) -> char {
    seq!['0', '1', '2', '3', '4', '5', '6', '7', '8', '9'][d]
}

/// The decimal digits of `n`, most significant first, with no leading zero.
pub open spec fn digits(n: nat) -> Seq<char>
    decreases n,
{
    if n < 10 {
        seq![digit_char(n as int)]
    } else {
        digits(n / 10).push(digit_char(n as int % 10))
    }
}

/// `v` written in decimal, with a leading `-` when it is negative.
pub open spec fn decimal(v: int) -> Seq<char> {
    if v < 0 {
        seq!['-'] + digits((-v) as nat)
    } else {
        digits(v as nat)
    }
}

/// One line written to the host's event log.
#[derive(Clone, Copy, Debug, PartialEq, Eq, Structural)]
pub enum LogLine {
    /// The counter was incremented to the given value.
    Increased(i8),
    /// The counter was decremented to the given value.
    Decreased(i8),
    /// The counter was set to zero.
    ResetToZero,
    /// Advisory line that follows every increment and decrement.
    OverflowAdvice,
    /// A payable entry point acknowledges the value it received.
    FeesBurned,
    /// Written by the entry point that is not declared payable.
    NotPayable,
}

impl LogLine {
    /// The exact text of the line.
    pub open spec fn text_spec(&self) -> Seq<char> {
        match *self {
            LogLine::Increased(v) => "Increased number to "@ + decimal(v as int),
            LogLine::Decreased(v) => "Decreased number to "@ + decimal(v as int),
            LogLine::ResetToZero => "Reset counter to zero"@,
            LogLine::OverflowAdvice => "Make sure you don't overflow, my friend."@,
            LogLine::FeesBurned => "Burning fees received!."@,
            LogLine::NotPayable => "This will actually panic when deposit is part of the transaction, because we are not flagged as payable."@,
        }
    }

    /// The text of the line, as the host's log receives it.
    pub fn text(&self) -> (r: String)
        ensures
            r@ == self.text_spec(),
    {
        match self {
            LogLine::Increased(v) => {
                let mut s = String::from_str("Increased number to ");
                push_decimal(&mut s, *v);
                s
            },
            LogLine::Decreased(v) => {
                let mut s = String::from_str("Decreased number to ");
                push_decimal(&mut s, *v);
                s
            },
            LogLine::ResetToZero => String::from_str("Reset counter to zero"),
            LogLine::OverflowAdvice => String::from_str("Make sure you don't overflow, my friend."),
            LogLine::FeesBurned => String::from_str("Burning fees received!."),
            LogLine::NotPayable => String::from_str(
                "This will actually panic when deposit is part of the transaction, because we are not flagged as payable.",
            ),
        }
    }
}

/// The one-character string of the decimal digit `d`.
fn digit_str(d: u8) -> (r: &'static str)
    requires
        d < 10,
    ensures
        r@ == seq![digit_char(d as int)],
{
    proof {
        reveal_strlit("0");
        reveal_strlit("1");
        reveal_strlit("2");
        reveal_strlit("3");
        reveal_strlit("4");
        reveal_strlit("5");
        reveal_strlit("6");
        reveal_strlit("7");
        reveal_strlit("8");
        reveal_strlit("9");
    }
    let r = match d {
        0 => "0",
        1 => "1",
        2 => "2",
        3 => "3",
        4 => "4",
        5 => "5",
        6 => "6",
        7 => "7",
        8 => "8",
        _ => "9",
    };
    assert(r@ =~= seq![digit_char(d as int)]);
    r
}

/// Appends `v` in decimal to `s`.
fn push_decimal(s: &mut String, v: i8)
    ensures
        final(s)@ == old(s)@ + decimal(v as int),
{
    let m: u8 = if v < 0 {
        (0i16 - v as i16) as u8
    } else {
        v as u8
    };
    assert(m as int == if v < 0 { -(v as int) } else { v as int });
    proof {
        reveal_strlit("-");
    }
    if v < 0 {
        s.append("-");
    }
    let ghost before = s@;
    let ghost ds = digits(m as nat);
    if m >= 100 {
        s.append(digit_str(m / 100));
        s.append(digit_str((m / 10) % 10));
        s.append(digit_str(m % 10));
        assert((m as int / 10) / 10 == m as int / 100);
        assert(digits((m / 10) as nat) == digits((m / 100) as nat).push(
            digit_char((m as int / 10) % 10),
        ));
        assert(ds == digits((m / 100) as nat).push(digit_char((m as int / 10) % 10)).push(
            digit_char(m as int % 10),
        ));
        assert(s@ =~= before + ds);
    } else if m >= 10 {
        s.append(digit_str(m / 10));
        s.append(digit_str(m % 10));
        assert(ds == digits((m / 10) as nat).push(digit_char(m as int % 10)));
        assert(s@ =~= before + ds);
    } else {
        s.append(digit_str(m));
        assert(s@ =~= before + ds);
    }
    assert(s@ =~= old(s)@ + decimal(v as int));
}

} // verus!
