use vstd::prelude::*;
use vstd::string::StringExecFns;

use crate::text::{decimal, decimal_spec, pad_left, pad_left_spec};

verus! {

/// The text that humansize gives for `bytes` in decimal units with `decimal_places` places.
pub uninterp spec fn decimal_size_text(bytes: nat, decimal_places: nat) -> Seq<char>;

/// Relies on `humansize::format_size_i` with humansize's `DECIMAL` options and the given
/// number of decimal places: the text depends on the size and the options alone. The places
/// become a formatting precision, so only the small counts used here are admitted.
#[verifier::external_body]
fn format_decimal_size(bytes: usize, decimal_places: usize) -> (r: String)
    requires
        decimal_places <= 1,
    ensures
        r@ == decimal_size_text(bytes as nat, decimal_places as nat),
{
    let opt = humansize::FormatSizeOptions::from(humansize::DECIMAL).decimal_places(decimal_places);
    humansize::format_size_i(bytes, opt)
}

/// Downloads of at least this many bytes report their progress.
pub const PROGRESS_THRESHOLD: usize = 10_000_000;

/// Sizes above this many bytes are written with one decimal place.
pub const ONE_DECIMAL_ABOVE: usize = 1_000_000_000;

/// The progress line: the percentage right-aligned in three columns, then both sizes.
pub open spec fn progress_message(percent: nat, current: Seq<char>, total: Seq<char>) -> Seq<char> {
    pad_left_spec(decimal_spec(percent), 3) + "% downloaded ("@ + current + " out of "@ + total + ")"@
}

/// Reports how far a download has come.
pub struct Progress {
    total: usize,
    decimal_places: usize,
    total_text: String,
}

impl Progress {
    pub closed spec fn spec_total(&self) -> nat {
        self.total as nat
    }

    pub closed spec fn spec_decimal_places(&self) -> nat {
        self.decimal_places as nat
    }

    pub closed spec fn spec_total_text(&self) -> Seq<char> {
        self.total_text@
    }

    /// Whether the download is large enough to report progress.
    pub open spec fn enabled(&self) -> bool {
        self.spec_total() >= PROGRESS_THRESHOLD
    }

    pub open spec fn wf(&self) -> bool {
        &&& self.spec_decimal_places() == if self.spec_total() > ONE_DECIMAL_ABOVE {
            1nat
        } else {
            0nat
        }
        &&& self.enabled() ==> self.spec_total_text() == decimal_size_text(
            self.spec_total(),
            self.spec_decimal_places(),
        )
    }

    pub fn decimal_places(&self) -> (r: usize)
        ensures
            r == self.spec_decimal_places(),
    {
        self.decimal_places
    }

    /// The line to show when `current` bytes have arrived; none for a small download.
    pub fn report(&self, current: usize) -> (r: Option<String>)
        requires
            self.wf(),
        ensures
            !self.enabled() ==> r is None,
            self.enabled() ==> (r matches Some(m) && m@ == progress_message(
                (current * 100) as nat / self.spec_total(),
                decimal_size_text(current as nat, self.spec_decimal_places()),
                self.spec_total_text(),
            )),
    {
        if self.total < PROGRESS_THRESHOLD {
            return None;
        }
        let c = current as u128;
        let t = self.total as u128;
        let percent = (c * 100) / t;
        proof {
            let ci = c as int;
            let ti = t as int;
            assert((ci * 100) / ti <= ci) by (nonlinear_arith)
                requires
                    ci >= 0,
                    ti >= 100,
            ;
        }
        let mut msg = pad_left(decimal(percent as u64).as_str(), 3);
        let cur = format_decimal_size(current, self.decimal_places);
        msg.append("% downloaded (");
        msg.append(cur.as_str());
        msg.append(" out of ");
        msg.append(self.total_text.as_str());
        msg.append(")");
        assert(msg@ =~= progress_message(
            (current * 100) as nat / self.spec_total(),
            decimal_size_text(current as nat, self.spec_decimal_places()),
            self.spec_total_text(),
        ));
        Some(msg)
    }
}

/// The progress reporter for a download of `total_size` bytes.
pub fn handle_loading_size(total_size: usize) -> (r: Progress)
    ensures
        r.wf(),
        r.spec_total() == total_size,
{
    let decimal_places: usize = if total_size > ONE_DECIMAL_ABOVE {
        1
    } else {
        0
    };
    let total_text = if total_size < PROGRESS_THRESHOLD {
        String::new()
    } else {
        format_decimal_size(total_size, decimal_places)
    };
    Progress { total: total_size, decimal_places, total_text }
}

} // verus!
