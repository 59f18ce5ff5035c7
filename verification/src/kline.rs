//! Kline/candlestick stream: builds the subscription channel name for a
//! symbol, a candle interval, and an optional timezone qualifier.

use vstd::prelude::*;
use vstd::string::StringExecFns;

use crate::ascii::{is_lower_seq, lower_seq};
use crate::klines::KlineInterval;
use crate::websocket::Stream;

verus! {

/// The channel name built from an already-normalized symbol: the
/// concatenation `symbol + "@kline_" + interval`, followed by `"@" + tz`
/// when a timezone qualifier is present.
pub open spec fn channel_text(
    symbol: Seq<char>,
    interval: KlineInterval,
    timezone: Option<Seq<char>>,
) -> Seq<char> {
    let base = symbol + "@kline_"@ + interval.text_spec();
    match timezone {
        Some(tz) => base + "@"@ + tz,
        None => base,
    }
}

/// The channel name for a symbol as given by the caller, in any case:
/// the symbol is normalized to ASCII lowercase first.
pub open spec fn channel_name(
    symbol: Seq<char>,
    interval: KlineInterval,
    timezone: Option<Seq<char>>,
) -> Seq<char> {
    channel_text(lower_seq(symbol), interval, timezone)
}

/// A kline/candlestick stream subscription: a trading symbol, a candle
/// interval, and an optional timezone qualifier.
///
/// The symbol is normalized to ASCII lowercase when the value is built,
/// whatever the case of the input; interval and timezone are stored
/// unchanged. The value is immutable and is consumed by the conversion
/// into a [`Stream`] channel name.
pub struct KlineStream {
    symbol: String,
    interval: KlineInterval,
    timezone: Option<String>,
}

impl KlineStream {
    /// The stored symbol, as a character sequence.
    pub closed spec fn symbol_spec(self) -> Seq<char> {
        self.symbol@
    }

    /// The stored interval.
    pub closed spec fn interval_spec(self) -> KlineInterval {
        self.interval
    }

    /// The stored timezone qualifier, if any, as a character sequence.
    pub closed spec fn timezone_spec(self) -> Option<Seq<char>> {
        self.timezone.deep_view()
    }

    /// The invariant established at construction: the stored symbol
    /// contains no uppercase ASCII letter.
    pub open spec fn wf(self) -> bool {
        is_lower_seq(self.symbol_spec())
    }

    /// The channel name this value converts into.
    pub open spec fn stream_name_spec(self) -> Seq<char> {
        channel_text(self.symbol_spec(), self.interval_spec(), self.timezone_spec())
    }

    /// Builds a stream subscription. The symbol is accepted as it comes —
    /// any string, the empty one included — and stored in ASCII lowercase;
    /// the interval and the timezone qualifier are stored unchanged.
    /// Construction never fails.
    pub fn new(symbol: &str, interval: KlineInterval, timezone: Option<String>) -> (r: Self)
        ensures
            r.symbol_spec() == lower_seq(symbol@),
            r.interval_spec() == interval,
            r.timezone_spec() == timezone.deep_view(),
            r.wf(),
            r.stream_name_spec() == channel_name(symbol@, interval, timezone.deep_view()),
    {
        proof {
            crate::ascii::lemma_lower_seq_is_lower(symbol@);
        }
        KlineStream { symbol: crate::ascii::to_lowercase(symbol), interval, timezone }
    }
}

impl From<KlineStream> for Stream {
    /// Returns the stream name as `<symbol>@kline_<interval>`, with
    /// `@<timezone>` appended when a timezone qualifier is present.
    fn from(stream: KlineStream) -> (r: Stream)
        ensures
            r@ == stream.stream_name_spec(),
    {
        let mut name = stream.symbol;
        name.append("@kline_");
        name.append(stream.interval.as_str());
        match stream.timezone {
            Some(tz) => {
                name.append("@");
                name.append(tz.as_str());
            },
            None => {},
        }
        assert(name@ =~= stream.stream_name_spec());
        Stream::new(name.as_str())
    }
}

impl vstd::std_specs::convert::FromSpecImpl<KlineStream> for Stream {
    open spec fn obeys_from_spec() -> bool {
        false
    }

    open spec fn from_spec(v: KlineStream) -> Stream {
        arbitrary()
    }
}

/// With no timezone, building a subscription from any symbol and interval
/// and converting it yields exactly
/// `lowercase(symbol) + "@kline_" + text(interval)`.
pub proof fn lemma_channel_name_no_timezone(symbol: Seq<char>, interval: KlineInterval)
    ensures
        channel_name(symbol, interval, None) == lower_seq(symbol) + "@kline_"@
            + interval.text_spec(),
{
}

/// With a timezone, building a subscription from any symbol, interval and
/// timezone and converting it yields exactly
/// `lowercase(symbol) + "@kline_" + text(interval) + "@" + timezone`.
pub proof fn lemma_channel_name_with_timezone(
    symbol: Seq<char>,
    interval: KlineInterval,
    tz: Seq<char>,
)
    ensures
        channel_name(symbol, interval, Some(tz)) == lower_seq(symbol) + "@kline_"@
            + interval.text_spec() + "@"@ + tz,
{
}

/// Case invariance: two symbols that agree up to ASCII case produce the
/// same channel name, for every interval and timezone qualifier.
pub proof fn lemma_channel_name_case_invariant(
    symbol1: Seq<char>,
    symbol2: Seq<char>,
    interval: KlineInterval,
    timezone: Option<Seq<char>>,
)
    requires
        lower_seq(symbol1) == lower_seq(symbol2),
    ensures
        channel_name(symbol1, interval, timezone) == channel_name(symbol2, interval, timezone),
{
}

} // verus!
