//! The console progress indicator: its state and the line it renders for each
//! tick. Printing and flushing stay with the caller, who owns the console.

use vstd::prelude::*;

use vstd::arithmetic::div_mod::lemma_div_is_ordered;
use vstd::arithmetic::div_mod::lemma_div_multiples_vanish;
use vstd::arithmetic::mul::lemma_mul_inequality;

use crate::text::lemma_repeat_len;
use crate::text::repeat_fragment;
use crate::text::repeat_spec;
use crate::text::two_digit_spec;
use crate::text::two_digit_string;

verus! {

/// How many of `width` cells are filled once `elapsed` of `total` has passed.
pub open spec fn bar_cells_spec(elapsed: nat, total: nat, width: nat) -> nat
    recommends
        total > 0,
{
    if elapsed >= total {
        width
    } else {
        elapsed * width / total
    }
}

/// One rendered update: a carriage return, the bracketed bar, the remaining
/// time as minutes and seconds, and trailing spaces up to `pad_to` so that a
/// longer earlier line is fully overwritten.
pub open spec fn progress_line_spec(elapsed: nat, total: nat, width: nat, pad_to: nat) -> Seq<
    char,
>
    recommends
        total > 0,
{
    let filled = bar_cells_spec(elapsed, total, width);
    let remaining_secs = (if elapsed < total {
        total - elapsed
    } else {
        0
    }) / 1000;
    let body = "\r["@ + repeat_spec("="@, filled) + repeat_spec(" "@, (width - filled) as nat)
        + "]"@ + " Time remaining: "@ + two_digit_spec(remaining_secs as nat / 60) + ":"@
        + two_digit_spec(remaining_secs as nat % 60);
    if body.len() < pad_to {
        body + repeat_spec(" "@, (pad_to - body.len()) as nat)
    } else {
        body
    }
}

/// The progress indicator's state: the bar's width in cells, and how long the
/// previous update's line was, so the next one can overwrite it.
pub struct ProgressBar {
    pub bar_width: usize,
    pub last_printed_length: usize,
}

impl ProgressBar {
    /// A fresh indicator that has printed nothing yet.
    pub fn new(bar_width: usize) -> (r: Self)
        ensures
            r.bar_width == bar_width,
            r.last_printed_length == 0,
    {
        Self { bar_width, last_printed_length: 0 }
    }

    /// Prepares the indicator for its first update. The console needs no
    /// setup, so the state is left as it stands.
    pub fn init(&mut self)
        ensures
            *final(self) == *old(self),
    {
    }

    /// Renders one update against the elapsed share of the budget and records
    /// the printed length for the next overwrite.
    pub fn update(&mut self, elapsed_ms: u64, total_ms: u64) -> (line: String)
        requires
            total_ms > 0,
        ensures
            line@ == progress_line_spec(
                elapsed_ms as nat,
                total_ms as nat,
                old(self).bar_width as nat,
                old(self).last_printed_length as nat,
            ),
            final(self).bar_width == old(self).bar_width,
            final(self).last_printed_length == line@.len(),
    {
        let width = self.bar_width;
        let filled: usize = if elapsed_ms >= total_ms {
            width
        } else {
            proof {
                assert(width as int <= u64::MAX as int);
                assert((elapsed_ms as int) * (width as int) <= u128::MAX as int)
                    by (nonlinear_arith)
                    requires
                        0 <= elapsed_ms as int <= u64::MAX as int,
                        0 <= width as int <= u64::MAX as int,
                ;
            }
            let scaled: u128 = (elapsed_ms as u128) * (width as u128) / (total_ms as u128);
            proof {
                let e = elapsed_ms as int;
                let t = total_ms as int;
                let w = width as int;
                lemma_mul_inequality(e, t, w);
                lemma_div_is_ordered(e * w, t * w, t);
                lemma_div_multiples_vanish(w, t);
            }
            scaled as usize
        };
        let remaining_ms: u64 = if elapsed_ms < total_ms {
            total_ms - elapsed_ms
        } else {
            0
        };
        let remaining_secs = remaining_ms / 1000;
        let mut line = "\r[".to_owned();
        let filled_part = repeat_fragment("=", filled);
        line.append(filled_part.as_str());
        let empty_part = repeat_fragment(" ", width - filled);
        line.append(empty_part.as_str());
        line.append("]");
        line.append(" Time remaining: ");
        let minutes_part = two_digit_string(remaining_secs / 60);
        line.append(minutes_part.as_str());
        line.append(":");
        let seconds_part = two_digit_string(remaining_secs % 60);
        line.append(seconds_part.as_str());
        let body_len = line.as_str().unicode_len();
        if body_len < self.last_printed_length {
            let padding = repeat_fragment(" ", self.last_printed_length - body_len);
            proof {
                reveal_strlit(" ");
                lemma_repeat_len(" "@, (old(self).last_printed_length - body_len) as nat);
            }
            line.append(padding.as_str());
            proof {
                assert(line@.len() == old(self).last_printed_length);
            }
        } else {
            self.last_printed_length = body_len;
            proof {
                assert(line@.len() == body_len);
            }
        }
        proof {
            assert(line@ =~= progress_line_spec(
                elapsed_ms as nat,
                total_ms as nat,
                old(self).bar_width as nat,
                old(self).last_printed_length as nat,
            ));
        }
        line
    }
}

} // verus!
