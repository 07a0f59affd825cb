//! Handles of the analytics services. Their computations work on
//! floating-point market data and live with the program around this library.

use vstd::prelude::*;

verus! {

/// Auction analysis.
#[derive(Debug, Clone, Copy)]
pub struct AuctionService;

/// Leaderboard queries.
#[derive(Debug, Clone, Copy)]
pub struct DragonTigerService;

/// Money-flow analysis.
#[derive(Debug, Clone, Copy)]
pub struct MoneyFlowService;

impl AuctionService {
    pub fn new() -> (service: Self) {
        AuctionService
    }
}

impl DragonTigerService {
    pub fn new() -> (service: Self) {
        DragonTigerService
    }
}

impl MoneyFlowService {
    pub fn new() -> (service: Self) {
        MoneyFlowService
    }
}

impl Default for AuctionService {
    fn default() -> (service: Self) {
        AuctionService
    }
}

impl Default for DragonTigerService {
    fn default() -> (service: Self) {
        DragonTigerService
    }
}

impl Default for MoneyFlowService {
    fn default() -> (service: Self) {
        MoneyFlowService
    }
}

} // verus!
