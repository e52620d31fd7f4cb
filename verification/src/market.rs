//! The trading pairs the exchange lists, and the price it quotes for each.
use vstd::prelude::*;
use crate::amount::Amount;
use crate::error::{outcome, AppError, AppResult, ErrorView};

verus! {

/// Bit pattern of the BTC/USDT price, 66 500.
pub const BTC_USDT_PRICE_BITS: u64 = 0x40f0_3c40_0000_0000;

/// Bit pattern of the ETH/USDT price, 3 450.
pub const ETH_USDT_PRICE_BITS: u64 = 0x40aa_f400_0000_0000;

/// Bit pattern of the BNB/USDT price, 560.
pub const BNB_USDT_PRICE_BITS: u64 = 0x4081_8000_0000_0000;

/// Bit pattern of the SOL/USDT price, 142.
pub const SOL_USDT_PRICE_BITS: u64 = 0x4061_c000_0000_0000;

/// The listed trading pairs, in the order they are listed.
pub open spec fn listed_symbols() -> Seq<Seq<char>> {
    seq!["BTC/USDT"@, "ETH/USDT"@, "BNB/USDT"@, "SOL/USDT"@]
}

/// The price quoted for `symbol`, if it is listed.
pub open spec fn quoted_price(symbol: Seq<char>) -> Option<Amount> {
    if symbol == "BTC/USDT"@ {
        Some(Amount { bits: BTC_USDT_PRICE_BITS })
    } else if symbol == "ETH/USDT"@ {
        Some(Amount { bits: ETH_USDT_PRICE_BITS })
    } else if symbol == "BNB/USDT"@ {
        Some(Amount { bits: BNB_USDT_PRICE_BITS })
    } else if symbol == "SOL/USDT"@ {
        Some(Amount { bits: SOL_USDT_PRICE_BITS })
    } else {
        None
    }
}

/// The listed trading pairs.
pub fn supported_symbols() -> (v: Vec<String>)
    ensures
        v@.len() == listed_symbols().len(),
        forall|i: int| 0 <= i < v@.len() ==> #[trigger] v@[i]@ == listed_symbols()[i],
{
    let mut v: Vec<String> = Vec::new();
    v.push(String::from_str("BTC/USDT"));
    v.push(String::from_str("ETH/USDT"));
    v.push(String::from_str("BNB/USDT"));
    v.push(String::from_str("SOL/USDT"));
    v
}

/// Asking for the price of `symbol`.
pub open spec fn price_step(symbol: Seq<char>) -> Result<Amount, ErrorView> {
    match quoted_price(symbol) {
        Some(p) => Ok(p),
        None => Err(ErrorView::NotFound("Symbol not found: "@ + symbol)),
    }
}

/// The price quoted for `symbol`; `NotFound` when the pair is not listed.
pub fn symbol_price(symbol: &str) -> (r: AppResult<Amount>)
    ensures
        outcome(r) == price_step(symbol@),
{
    let s = String::from_str(symbol);
    if s.eq(&String::from_str("BTC/USDT")) {
        Ok(Amount::from_bits(BTC_USDT_PRICE_BITS))
    } else if s.eq(&String::from_str("ETH/USDT")) {
        Ok(Amount::from_bits(ETH_USDT_PRICE_BITS))
    } else if s.eq(&String::from_str("BNB/USDT")) {
        Ok(Amount::from_bits(BNB_USDT_PRICE_BITS))
    } else if s.eq(&String::from_str("SOL/USDT")) {
        Ok(Amount::from_bits(SOL_USDT_PRICE_BITS))
    } else {
        Err(AppError::not_found("Symbol not found: ", symbol))
    }
}

/// A pair has a quoted price exactly when it is listed.
pub proof fn law_quoted_exactly_when_listed(symbol: Seq<char>)
    ensures
        quoted_price(symbol) is Some <==> listed_symbols().contains(symbol),
{
    let l = listed_symbols();
    if quoted_price(symbol) is Some {
        if symbol == "BTC/USDT"@ {
            assert(l[0] == symbol);
        } else if symbol == "ETH/USDT"@ {
            assert(l[1] == symbol);
        } else if symbol == "BNB/USDT"@ {
            assert(l[2] == symbol);
        } else {
            assert(l[3] == symbol);
        }
    }
    if l.contains(symbol) {
        let i = choose|i: int| 0 <= i < l.len() && l[i] == symbol;
        assert(i == 0 || i == 1 || i == 2 || i == 3);
    }
}

} // verus!
