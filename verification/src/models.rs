//! Plain data carried through the pipeline.
//!
//! Prices and amounts are fixed-point integers in thousandths of a currency
//! unit, and instants are whole seconds since the Unix epoch, so that every
//! rule over them is exact.

use vstd::prelude::*;
use vstd::string::*;

verus! {

/// Number of price units in one currency unit.
pub const PRICE_SCALE: i64 = 1000;

/// The exchange an instrument is listed on.
#[derive(Debug, Clone, Copy, PartialEq, Eq, Structural)]
pub enum Market {
    /// Shenzhen.
    SZ,
    /// Shanghai.
    SH,
    /// Beijing.
    BJ,
}

/// The market that the two leading bytes of a six-byte code select, if any:
/// `00`/`30` Shenzhen, `60`/`68` Shanghai, `43`/`83`/`87` Beijing.
pub open spec fn market_of(code: Seq<u8>) -> Option<Market> {
    if code.len() != 6 {
        None
    } else if (code[0] == 0x30 && code[1] == 0x30) || (code[0] == 0x33 && code[1] == 0x30) {
        Some(Market::SZ)
    } else if (code[0] == 0x36 && code[1] == 0x30) || (code[0] == 0x36 && code[1] == 0x38) {
        Some(Market::SH)
    } else if (code[0] == 0x34 && code[1] == 0x33) || (code[0] == 0x38 && code[1] == 0x33) || (
    code[0] == 0x38 && code[1] == 0x37) {
        Some(Market::BJ)
    } else {
        None
    }
}

impl Market {
    /// Resolves the market of an instrument code from its prefix.
    pub fn from_code(code: &str) -> (market: Option<Market>)
        ensures
            market == market_of(code.spec_bytes()),
    {
        let bytes = code.as_bytes();
        if bytes.len() != 6 {
            return None;
        }
        let a: u8 = bytes[0];
        let b: u8 = bytes[1];
        if (a == 0x30 && b == 0x30) || (a == 0x33 && b == 0x30) {
            Some(Market::SZ)
        } else if (a == 0x36 && b == 0x30) || (a == 0x36 && b == 0x38) {
            Some(Market::SH)
        } else if (a == 0x34 && b == 0x33) || (a == 0x38 && b == 0x33) || (a == 0x38 && b == 0x37) {
            Some(Market::BJ)
        } else {
            None
        }
    }
}

/// Basic description of one instrument.
#[derive(Debug, Clone)]
pub struct Stock {
    /// Six-digit code.
    pub code: String,
    /// Display name.
    pub name: String,
    /// Listing market.
    pub market: Market,
}

/// One timestamped open/high/low/close data point of one instrument.
#[derive(Debug, Clone)]
pub struct KLine {
    /// Seconds since the Unix epoch.
    pub datetime: i64,
    /// Six-digit code.
    pub code: String,
    /// Prices, in thousandths of a currency unit.
    pub open: i64,
    pub high: i64,
    pub low: i64,
    pub close: i64,
    /// Traded lots.
    pub volume: i64,
    /// Turnover, in thousandths of a currency unit.
    pub amount: i64,
}

/// Mathematical content of a [`KLine`].
pub struct KLineView {
    pub datetime: int,
    pub code: Seq<char>,
    pub open: int,
    pub high: int,
    pub low: int,
    pub close: int,
    pub volume: int,
    pub amount: int,
}

impl View for KLine {
    type V = KLineView;

    open spec fn view(&self) -> KLineView {
        KLineView {
            datetime: self.datetime as int,
            code: self.code@,
            open: self.open as int,
            high: self.high as int,
            low: self.low as int,
            close: self.close as int,
            volume: self.volume as int,
            amount: self.amount as int,
        }
    }
}

impl KLine {
    /// An independent copy with the same content.
    pub fn duplicate(&self) -> (copy: KLine)
        ensures
            copy@ == self@,
    {
        KLine {
            datetime: self.datetime,
            code: self.code.clone(),
            open: self.open,
            high: self.high,
            low: self.low,
            close: self.close,
            volume: self.volume,
            amount: self.amount,
        }
    }
}

/// Bar width of a K-line series.
#[derive(Debug, Clone, Copy, PartialEq, Eq, Structural)]
pub enum KLinePeriod {
    Minute1,
    Minute5,
    Day,
    Week,
    Month,
}


/// Why an auction shows up as an anomaly.
#[derive(Debug, Clone, Copy, PartialEq, Eq, Structural)]
pub enum AnomalyReason {
    /// Opened well above the previous close.
    HighOpen,
    /// Opened well below the previous close.
    LowOpen,
    /// Unusually large volume.
    HighVolume,
    /// Unusually small volume.
    LowVolume,
}

/// Why an instrument is on the leaderboard.
#[derive(Debug, Clone)]
pub enum DragonReason {
    /// The day's rise deviated by seven percent.
    UpLimit,
    /// The day's fall deviated by seven percent.
    DownLimit,
    /// The day's turnover reached twenty percent.
    HighTurnover,
    /// Three days' moves deviated by twenty percent in sum.
    ThreeDayUp,
    /// The day's price rise deviated by seven percent.
    PriceUp,
    /// Any other reason, in words.
    Other(String),
}

/// Which side initiated a trade.
#[derive(Debug, Clone, Copy, PartialEq, Eq, Structural)]
pub enum TradeDirection {
    Buy,
    Sell,
}

} // verus!
