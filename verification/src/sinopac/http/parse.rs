//! The decisions of the contract parsers: identifiers, underlyings, asset
//! classes, option kinds, multipliers, tick sizes and the activation and
//! expiration times of TAIFEX contracts. Prices are converted in the
//! application crate.

use vstd::prelude::*;

use crate::model::{AssetClass, InstrumentId, OptionKind};
use crate::sinopac::common::consts::SINOPAC;
use crate::sinopac::common::instrument::{
    futures_multiplier, multiplier_or_default, options_multiplier, spec_futures_multiplier,
    spec_options_multiplier, CONTRACT_LOT_SIZE, DEFAULT_CONTRACT_MULTIPLIER, STOCK_LOT_SIZE,
};
use crate::sinopac::common::parse::{
    parse_date_to_nanos, parse_instrument_id, spec_date_nanos, TaiwanTimeError,
};
use crate::sinopac::common::tick_size::{futures_tick_size, spec_futures_tick_size, TickSize};
use crate::text::{concat2, str_eq};

verus! {

/// The exchange of TAIFEX futures and options.
pub const TAIFEX: &'static str = "TAIFEX";

/// Why a contract could not become an instrument.
#[derive(Debug, Clone, PartialEq, Eq)]
pub enum ContractError {
    /// The contract code names no instrument.
    InvalidCode(String),
    /// The delivery date is not a date.
    InvalidDate(TaiwanTimeError),
    /// The option right is neither `Call` nor `Put`.
    UnknownOptionRight(String),
}

/// The asset class of a contract's underlying: kind `I` is an index, any
/// other kind an equity.
pub fn asset_class_of(underlying_kind: &str) -> (a: AssetClass)
    ensures
        a == (if underlying_kind@ == "I"@ {
            AssetClass::Index
        } else {
            AssetClass::Equity
        }),
{
    if str_eq(underlying_kind, "I") {
        AssetClass::Index
    } else {
        AssetClass::Equity
    }
}

/// The kind of an option from its right: `Call` or `Put`.
pub fn option_kind_of(option_right: &str) -> (r: Result<OptionKind, ContractError>)
    ensures
        option_right@ == "Call"@ ==> r == Ok::<OptionKind, ContractError>(OptionKind::Call),
        option_right@ != "Call"@ && option_right@ == "Put"@ ==> r == Ok::<OptionKind, ContractError>(OptionKind::Put),
        option_right@ != "Call"@ && option_right@ != "Put"@ ==> (r matches Err(ContractError::UnknownOptionRight(m)) && m@ == "Unknown option_right: "@ + option_right@),
{
    if str_eq(option_right, "Call") {
        Ok(OptionKind::Call)
    } else if str_eq(option_right, "Put") {
        Ok(OptionKind::Put)
    } else {
        Err(ContractError::UnknownOptionRight(concat2("Unknown option_right: ", option_right)))
    }
}

/// What an equity instrument made from a stock contract carries besides its
/// prices.
#[derive(Debug, Clone)]
pub struct EquityTerms {
    pub instrument_id: InstrumentId,
    pub raw_symbol: String,
    pub lot_size: u64,
}

/// The terms of the equity of a stock contract: `CODE.SINOPAC`, traded in
/// lots of 1000 shares.
pub fn stock_equity_terms(code: &str) -> (r: Result<EquityTerms, ContractError>)
    ensures
        r is Ok <==> code@.len() > 0,
        r matches Ok(t) ==> t.instrument_id.symbol@ == code@ && t.instrument_id.venue@ == SINOPAC@
            && t.raw_symbol@ == code@ && t.lot_size == STOCK_LOT_SIZE,
        r matches Err(e) ==> e matches ContractError::InvalidCode(m) && m@ == "Invalid instrument code: "@
            + code@,
{
    match parse_instrument_id(code) {
        Ok(id) => Ok(EquityTerms { instrument_id: id, raw_symbol: String::from_str(code), lot_size: STOCK_LOT_SIZE }),
        Err(m) => Err(ContractError::InvalidCode(m)),
    }
}

/// What a futures or options instrument made from a TAIFEX contract carries
/// besides its prices.
#[derive(Debug, Clone)]
pub struct DerivativeTerms {
    pub instrument_id: InstrumentId,
    pub raw_symbol: String,
    pub asset_class: AssetClass,
    pub exchange: String,
    pub underlying: String,
    pub activation_ns: u64,
    pub expiration_ns: u64,
    pub multiplier: u64,
    pub lot_size: u64,
}

/// The activation time of a contract: its update date when that is a date,
/// else the event time.
pub open spec fn spec_activation(update_date: Result<u64, TaiwanTimeError>, ts_event: u64) -> u64 {
    match update_date {
        Ok(t) => t,
        Err(_) => ts_event,
    }
}

/// The error, if any, of a contract with the given code and delivery date:
/// the code is checked first, then the delivery date.
pub open spec fn spec_terms_error(code: Seq<char>, delivery_date: Seq<char>) -> Option<
    ContractError,
> {
    if code.len() == 0 {
        Some(ContractError::InvalidCode(arbitrary()))
    } else {
        match spec_date_nanos(delivery_date) {
            Err(e) => Some(ContractError::InvalidDate(e)),
            Ok(_) => None,
        }
    }
}

/// The error of a contract with an empty code.
pub open spec fn is_invalid_code_error(e: ContractError, code: Seq<char>) -> bool {
    e matches ContractError::InvalidCode(m) && m@ == "Invalid instrument code: "@ + code
}

/// The terms that do not depend on the kind of the contract are those given:
/// identifier and raw symbol from the code, the category as underlying, the
/// TAIFEX exchange, the delivery date as expiration and the update date (else
/// the event time) as activation.
pub open spec fn common_terms(
    t: DerivativeTerms,
    code: Seq<char>,
    category: Seq<char>,
    delivery_date: Seq<char>,
    update_date: Seq<char>,
    underlying_kind: Seq<char>,
    ts_event: u64,
) -> bool {
    &&& t.instrument_id.symbol@ == code
    &&& t.instrument_id.venue@ == SINOPAC@
    &&& t.raw_symbol@ == code
    &&& t.asset_class == (if underlying_kind == "I"@ { AssetClass::Index } else { AssetClass::Equity })
    &&& t.exchange@ == TAIFEX@
    &&& t.underlying@ == category
    &&& spec_date_nanos(delivery_date) == Ok::<u64, TaiwanTimeError>(t.expiration_ns)
    &&& t.activation_ns == spec_activation(spec_date_nanos(update_date), ts_event)
    &&& t.lot_size == CONTRACT_LOT_SIZE
}

fn derivative_terms(
    code: &str,
    category: &str,
    delivery_date: &str,
    update_date: &str,
    underlying_kind: &str,
    multiplier: u64,
    ts_event: u64,
) -> (r: Result<DerivativeTerms, ContractError>)
    ensures
        r is Ok <==> spec_terms_error(code@, delivery_date@) is None,
        r matches Err(e) ==> (if code@.len() == 0 {
            is_invalid_code_error(e, code@)
        } else {
            spec_terms_error(code@, delivery_date@) == Some(e)
        }),
        r matches Ok(t) ==> common_terms(
            t,
            code@,
            category@,
            delivery_date@,
            update_date@,
            underlying_kind@,
            ts_event,
        ) && t.multiplier == multiplier,
{
    let instrument_id = match parse_instrument_id(code) {
        Ok(id) => id,
        Err(m) => return Err(ContractError::InvalidCode(m)),
    };
    let expiration_ns = match parse_date_to_nanos(delivery_date) {
        Ok(t) => t,
        Err(e) => return Err(ContractError::InvalidDate(e)),
    };
    let activation_ns = match parse_date_to_nanos(update_date) {
        Ok(t) => t,
        Err(_) => ts_event,
    };
    Ok(DerivativeTerms {
        instrument_id,
        raw_symbol: String::from_str(code),
        asset_class: asset_class_of(underlying_kind),
        exchange: String::from_str(TAIFEX),
        underlying: String::from_str(category),
        activation_ns,
        expiration_ns,
        multiplier,
        lot_size: CONTRACT_LOT_SIZE,
    })
}

/// The terms of the futures instrument of a TAIFEX futures contract: the
/// contract's category is the root symbol, which gives the multiplier (or the
/// default one) and the tick size; the delivery date gives the expiration and
/// the update date the activation.
pub fn futures_contract_terms(
    code: &str,
    category: &str,
    delivery_date: &str,
    update_date: &str,
    underlying_kind: &str,
    ts_event: u64,
) -> (r: Result<(DerivativeTerms, TickSize), ContractError>)
    ensures
        r is Ok <==> spec_terms_error(code@, delivery_date@) is None,
        r matches Err(e) ==> (if code@.len() == 0 {
            is_invalid_code_error(e, code@)
        } else {
            spec_terms_error(code@, delivery_date@) == Some(e)
        }),
        r matches Ok((t, tick)) ==> {
            &&& common_terms(t, code@, category@, delivery_date@, update_date@, underlying_kind@, ts_event)
            &&& t.multiplier == (match spec_futures_multiplier(category@) {
                Some(m) => m,
                None => DEFAULT_CONTRACT_MULTIPLIER,
            })
            &&& tick == spec_futures_tick_size(category@)
        },
{
    let tick = futures_tick_size(category);
    let multiplier = multiplier_or_default(futures_multiplier(category));
    let t = derivative_terms(code, category, delivery_date, update_date, underlying_kind, multiplier, ts_event)?;
    Ok((t, tick))
}

/// The terms of the option instrument of a TAIFEX options contract: as for
/// futures, and the option right gives the kind of the option.
pub fn options_contract_terms(
    code: &str,
    category: &str,
    option_right: &str,
    delivery_date: &str,
    update_date: &str,
    underlying_kind: &str,
    ts_event: u64,
) -> (r: Result<(DerivativeTerms, OptionKind), ContractError>)
    ensures
        r is Ok <==> (option_right@ == "Call"@ || option_right@ == "Put"@) && spec_terms_error(
            code@,
            delivery_date@,
        ) is None,
        r matches Err(e) ==> (if code@.len() == 0 {
            is_invalid_code_error(e, code@)
        } else if option_right@ != "Call"@ && option_right@ != "Put"@ {
            e matches ContractError::UnknownOptionRight(m) && m@ == "Unknown option_right: "@ + option_right@
        } else {
            spec_terms_error(code@, delivery_date@) == Some(e)
        }),
        r matches Ok((t, kind)) ==> {
            &&& common_terms(t, code@, category@, delivery_date@, update_date@, underlying_kind@, ts_event)
            &&& t.multiplier == (match spec_options_multiplier(category@) {
                Some(m) => m,
                None => DEFAULT_CONTRACT_MULTIPLIER,
            })
            &&& kind == (if option_right@ == "Call"@ { OptionKind::Call } else { OptionKind::Put })
        },
{
    if code.unicode_len() == 0 {
        return Err(ContractError::InvalidCode(concat2("Invalid instrument code: ", code)));
    }
    let multiplier = multiplier_or_default(options_multiplier(category));
    let kind = option_kind_of(option_right)?;
    let t = derivative_terms(code, category, delivery_date, update_date, underlying_kind, multiplier, ts_event)?;
    Ok((t, kind))
}

} // verus!
