//! Stateless validity and quality checks on codes, prices, dates and records.

use crate::clock::{today, EPOCH_DAY, MAX_DAY};
use crate::error::{AppError, ErrorKind};
use crate::models::{market_of, KLine, KLineView, Market};
use crate::text::is_digit;
use vstd::prelude::*;
use vstd::string::*;
use vstd::utf8::encode_utf8;

verus! {

/// Highest price accepted: one million currency units.
pub const MAX_PRICE: i64 = 1_000_000_000;

/// Move from the low, in percent, beyond which a record is suspect.
pub const SUSPECT_MOVE_PERCENT: i64 = 10;

/// Day number of 1990-01-01, the earliest date accepted.
pub const MIN_DATE_DAY: i32 = 726_468;

/// Quality grade of one data point.
#[derive(Debug, Clone, Copy, PartialEq, Eq, Structural)]
pub enum QualityScore {
    /// Nothing unusual.
    Good,
    /// Structurally sound, but the move from the low is beyond the daily limit.
    Suspect,
    /// Structurally unsound.
    Error,
}

/// A code is valid when it is exactly six ASCII digits whose prefix selects a
/// market.
pub open spec fn valid_code(code: Seq<u8>) -> bool {
    &&& code.len() == 6
    &&& forall|i: int| 0 <= i < 6 ==> is_digit(#[trigger] code[i])
    &&& market_of(code) is Some
}

/// A price is valid when it is neither negative nor above the ceiling.
pub open spec fn valid_price(price: int) -> bool {
    0 <= price <= MAX_PRICE
}

/// A date is valid on a given day when it is neither before 1990-01-01 nor
/// after that day.
pub open spec fn valid_date(date: int, today: int) -> bool {
    MIN_DATE_DAY <= date <= today
}

/// Structural soundness of a record: a valid code, four valid prices, and an
/// open and a close that both lie between a low and a high in the right
/// order.
pub open spec fn sound_kline(k: KLineView) -> bool {
    &&& valid_code(encode_utf8(k.code))
    &&& valid_price(k.open)
    &&& valid_price(k.high)
    &&& valid_price(k.low)
    &&& valid_price(k.close)
    &&& k.high >= k.low
    &&& k.low <= k.open <= k.high
    &&& k.low <= k.close <= k.high
}

/// Whether the move from `low` to `close`, as a percentage of `low`, is
/// larger in magnitude than `limit` percent. A zero `low` counts as no move.
pub open spec fn move_exceeds(low: int, close: int, limit: int) -> bool {
    low != 0 && (if close >= low {
        (close - low) * 100 > limit * low
    } else {
        (low - close) * 100 > limit * low
    })
}

/// The grade of a structurally sound record.
pub open spec fn kline_score(k: KLineView) -> QualityScore {
    if move_exceeds(k.low, k.close, SUSPECT_MOVE_PERCENT as int) {
        QualityScore::Suspect
    } else {
        QualityScore::Good
    }
}

/// Namespace of the validation functions.
pub struct DataValidator;

impl DataValidator {
    /// Accepts a code exactly when it is six ASCII digits with a recognised
    /// market prefix; anything else is a parse error.
    pub fn validate_code(code: &str) -> (r: Result<(), AppError>)
        ensures
            r is Ok <==> valid_code(code.spec_bytes()),
            r is Err ==> r->Err_0.spec_kind() == ErrorKind::Parse,
    {
        let bytes = code.as_bytes();
        if bytes.len() != 6 {
            return Err(AppError::Parse(String::from_str("code is not six characters: ").concat(code)));
        }
        let mut i: usize = 0;
        while i < 6
            invariant
                i <= 6,
                bytes@.len() == 6,
                bytes@ == code.spec_bytes(),
                forall|j: int| 0 <= j < i ==> is_digit(#[trigger] bytes@[j]),
            decreases 6 - i,
        {
            let b: u8 = bytes[i];
            if b < 0x30 || b > 0x39 {
                return Err(AppError::Parse(String::from_str("code holds a non-digit: ").concat(code)));
            }
            i += 1;
        }
        if Market::from_code(code).is_none() {
            return Err(AppError::Parse(String::from_str("code belongs to no known market: ").concat(code)));
        }
        Ok(())
    }

    /// Accepts a price exactly when it lies in `[0, MAX_PRICE]`; the field's
    /// name goes into the error detail.
    pub fn validate_price(price: i64, field_name: &str) -> (r: Result<(), AppError>)
        ensures
            r is Ok <==> valid_price(price as int),
            r is Err ==> r->Err_0.spec_kind() == ErrorKind::Parse,
    {
        if price < 0 {
            return Err(AppError::Parse(String::from_str(field_name).concat(" is negative")));
        }
        if price > MAX_PRICE {
            return Err(AppError::Parse(String::from_str(field_name).concat(" is abnormally high")));
        }
        Ok(())
    }

    /// Accepts a date exactly when it lies between 1990-01-01 and `today`.
    pub fn validate_date_on(date: i32, today: i32) -> (r: Result<(), AppError>)
        ensures
            r is Ok <==> valid_date(date as int, today as int),
            r is Err ==> r->Err_0.spec_kind() == ErrorKind::Parse,
    {
        if date < MIN_DATE_DAY {
            return Err(AppError::Parse(String::from_str("date is before 1990-01-01")));
        }
        if date > today {
            return Err(AppError::Parse(String::from_str("date is in the future")));
        }
        Ok(())
    }

    /// Accepts a date exactly when it lies between 1990-01-01 and the day the
    /// clock shows at the time of the call.
    pub fn validate_date(date: i32) -> (r: Result<(), AppError>)
        ensures
            exists|day: int|
                EPOCH_DAY <= day <= MAX_DAY && (r is Ok <==> #[trigger] valid_date(date as int, day)),
            r is Err ==> r->Err_0.spec_kind() == ErrorKind::Parse,
    {
        let day: i32 = today();
        let r = Self::validate_date_on(date, day);
        assert(r is Ok <==> valid_date(date as int, day as int));
        r
    }

    /// Grades a record. A structurally unsound record is a parse error; a
    /// sound one is `Suspect` when its close is more than ten percent away
    /// from its low, and `Good` otherwise.
    pub fn validate_kline(kline: &KLine) -> (r: Result<QualityScore, AppError>)
        ensures
            sound_kline(kline@) ==> r == Ok::<QualityScore, AppError>(kline_score(kline@)),
            !sound_kline(kline@) ==> r is Err && r->Err_0.spec_kind() == ErrorKind::Parse,
    {
        match Self::validate_code(kline.code.as_str()) {
            Err(e) => { return Err(e); },
            Ok(_) => {},
        }
        match Self::validate_price(kline.open, "open") {
            Err(e) => { return Err(e); },
            Ok(_) => {},
        }
        match Self::validate_price(kline.high, "high") {
            Err(e) => { return Err(e); },
            Ok(_) => {},
        }
        match Self::validate_price(kline.low, "low") {
            Err(e) => { return Err(e); },
            Ok(_) => {},
        }
        match Self::validate_price(kline.close, "close") {
            Err(e) => { return Err(e); },
            Ok(_) => {},
        }
        if kline.high < kline.low {
            return Err(AppError::Parse(String::from_str("high is below low")));
        }
        if kline.open < kline.low || kline.open > kline.high {
            return Err(AppError::Parse(String::from_str("open is outside low..high")));
        }
        if kline.close < kline.low || kline.close > kline.high {
            return Err(AppError::Parse(String::from_str("close is outside low..high")));
        }
        let low: i64 = kline.low;
        let rise: i64 = kline.close - kline.low;
        if low != 0 && rise * 100 > SUSPECT_MOVE_PERCENT * low {
            Ok(QualityScore::Suspect)
        } else {
            Ok(QualityScore::Good)
        }
    }
}

} // verus!
