//! Builder for kline (candlestick) subscription channel names.
//!
//! A [`kline::KlineStream`] pairs a trading symbol with a candle interval
//! and an optional timezone qualifier, and converts into the canonical
//! channel-name string that a streaming transport subscribes with:
//! `"{symbol}@kline_{interval}"`, or `"{symbol}@kline_{interval}@{timezone}"`
//! when a timezone is given. The symbol is normalized to ASCII lowercase at
//! construction time.

pub mod ascii;
pub mod kline;
pub mod klines;
pub mod websocket;
