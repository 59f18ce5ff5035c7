//! Candle intervals and their canonical textual forms.

use vstd::prelude::*;

verus! {

/// A candle (kline) interval: the fixed time bucket over which
/// open/high/low/close/volume statistics are aggregated.
///
/// Each interval has exactly one canonical textual form (for example a
/// one-minute interval renders as `1m`), given by [`KlineInterval::as_str`].
#[derive(Clone, Copy, Debug, PartialEq, Eq, Structural)]
pub enum KlineInterval {
    Minutes1,
    Minutes3,
    Minutes5,
    Minutes15,
    Minutes30,
    Hours1,
    Hours2,
    Hours4,
    Hours6,
    Hours8,
    Hours12,
    Days1,
    Days3,
    Weeks1,
    Months1,
}

impl KlineInterval {
    /// The canonical textual form of the interval, as a character sequence.
    pub open spec fn text_spec(self) -> Seq<char> {
        match self {
            KlineInterval::Minutes1 => "1m"@,
            KlineInterval::Minutes3 => "3m"@,
            KlineInterval::Minutes5 => "5m"@,
            KlineInterval::Minutes15 => "15m"@,
            KlineInterval::Minutes30 => "30m"@,
            KlineInterval::Hours1 => "1h"@,
            KlineInterval::Hours2 => "2h"@,
            KlineInterval::Hours4 => "4h"@,
            KlineInterval::Hours6 => "6h"@,
            KlineInterval::Hours8 => "8h"@,
            KlineInterval::Hours12 => "12h"@,
            KlineInterval::Days1 => "1d"@,
            KlineInterval::Days3 => "3d"@,
            KlineInterval::Weeks1 => "1w"@,
            KlineInterval::Months1 => "1M"@,
        }
    }

    /// The canonical textual form of the interval.
    pub fn as_str(self) -> (r: &'static str)
        ensures
            r@ == self.text_spec(),
    {
        match self {
            KlineInterval::Minutes1 => "1m",
            KlineInterval::Minutes3 => "3m",
            KlineInterval::Minutes5 => "5m",
            KlineInterval::Minutes15 => "15m",
            KlineInterval::Minutes30 => "30m",
            KlineInterval::Hours1 => "1h",
            KlineInterval::Hours2 => "2h",
            KlineInterval::Hours4 => "4h",
            KlineInterval::Hours6 => "6h",
            KlineInterval::Hours8 => "8h",
            KlineInterval::Hours12 => "12h",
            KlineInterval::Days1 => "1d",
            KlineInterval::Days3 => "3d",
            KlineInterval::Weeks1 => "1w",
            KlineInterval::Months1 => "1M",
        }
    }
}

} // verus!
