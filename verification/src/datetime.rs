//! Calendar date and time of day as plain values, and the fixed textual
//! layouts in which the dashboard shows them (`%d/%m %H:%M:%S`,
//! `%H:%M:%S` and `%Y-%m-%d %H:%M:%S` in strftime notation).

use vstd::prelude::*;
use crate::text::{append_zero_padded, zero_padded};

verus! {

/// A date and time of day, field by field.
#[derive(Clone, Copy, Debug, PartialEq, Eq)]
pub struct DateTimeParts {
    pub year: i32,
    pub month: u32,
    pub day: u32,
    pub hour: u32,
    pub minute: u32,
    pub second: u32,
    /// Fraction of the second; a leap second is carried here as at
    /// least 1_000_000_000 nanoseconds on second 59.
    pub nanosecond: u32,
}

/// Two decimal digits.
pub open spec fn two_digits(n: nat) -> Seq<char> {
    zero_padded(n, 2)
}

/// A year as `%Y` writes it: four digits for 0..=9999, otherwise an
/// explicit sign followed by at least four digits.
pub open spec fn year_text(y: int) -> Seq<char> {
    if 0 <= y <= 9999 {
        zero_padded(y as nat, 4)
    } else if y < 0 {
        seq!['-'] + zero_padded((-y) as nat, 4)
    } else {
        seq!['+'] + zero_padded(y as nat, 4)
    }
}

impl DateTimeParts {
    /// Field ranges of a real date and time.
    pub open spec fn wf(&self) -> bool {
        &&& 1 <= self.month <= 12
        &&& 1 <= self.day <= 31
        &&& self.hour < 24
        &&& self.minute < 60
        &&& self.second < 60
        &&& self.nanosecond < 2_000_000_000
    }

    /// The second as shown: 60 during a leap second.
    pub open spec fn shown_second(&self) -> nat {
        (self.second + self.nanosecond / 1_000_000_000) as nat
    }

    /// `%H:%M:%S`
    pub open spec fn time_text(&self) -> Seq<char> {
        two_digits(self.hour as nat) + seq![':'] + two_digits(self.minute as nat) + seq![':']
            + two_digits(self.shown_second())
    }

    /// `%d/%m %H:%M:%S`
    pub open spec fn day_month_time_text(&self) -> Seq<char> {
        two_digits(self.day as nat) + seq!['/'] + two_digits(self.month as nat) + seq![' ']
            + self.time_text()
    }

    /// `%Y-%m-%d %H:%M:%S`
    pub open spec fn full_text(&self) -> Seq<char> {
        year_text(self.year as int) + seq!['-'] + two_digits(self.month as nat) + seq!['-']
            + two_digits(self.day as nat) + seq![' '] + self.time_text()
    }

    fn append_time(&self, out: &mut String)
        requires
            self.wf(),
        ensures
            final(out)@ == old(out)@ + self.time_text(),
    {
        proof { reveal_strlit(":"); }
        append_zero_padded(out, self.hour as u64, 2);
        out.append(":");
        append_zero_padded(out, self.minute as u64, 2);
        out.append(":");
        let second: u32 = self.second + self.nanosecond / 1_000_000_000;
        append_zero_padded(out, second as u64, 2);
        assert(out@ =~= old(out)@ + self.time_text());
    }

    /// The time of day, `HH:MM:SS`.
    pub fn format_time(&self) -> (r: String)
        requires
            self.wf(),
        ensures
            r@ == self.time_text(),
    {
        let mut out = String::new();
        self.append_time(&mut out);
        assert(out@ =~= self.time_text());
        out
    }

    /// Day, month and time, `DD/MM HH:MM:SS`.
    pub fn format_day_month_time(&self) -> (r: String)
        requires
            self.wf(),
        ensures
            r@ == self.day_month_time_text(),
    {
        proof {
            reveal_strlit("/");
            reveal_strlit(" ");
        }
        let mut out = String::new();
        append_zero_padded(&mut out, self.day as u64, 2);
        out.append("/");
        append_zero_padded(&mut out, self.month as u64, 2);
        out.append(" ");
        self.append_time(&mut out);
        assert(out@ =~= self.day_month_time_text());
        out
    }

    /// The full date and time, `YYYY-MM-DD HH:MM:SS`.
    pub fn format_full(&self) -> (r: String)
        requires
            self.wf(),
        ensures
            r@ == self.full_text(),
    {
        proof {
            reveal_strlit("-");
            reveal_strlit("+");
            reveal_strlit(" ");
        }
        let mut out = String::new();
        let y = self.year;
        if 0 <= y && y <= 9999 {
            append_zero_padded(&mut out, y as u64, 4);
        } else if y < 0 {
            out.append("-");
            let magnitude: u64 = (0i64 - (y as i64)) as u64;
            append_zero_padded(&mut out, magnitude, 4);
        } else {
            out.append("+");
            append_zero_padded(&mut out, y as u64, 4);
        }
        assert(out@ =~= year_text(y as int));
        out.append("-");
        append_zero_padded(&mut out, self.month as u64, 2);
        out.append("-");
        append_zero_padded(&mut out, self.day as u64, 2);
        out.append(" ");
        self.append_time(&mut out);
        assert(out@ =~= self.full_text());
        out
    }
}

} // verus!
