use kaipanla::models::{AnomalyReason, DragonReason, TradeDirection};
use kaipanla::service::{AuctionService, DragonTigerService, MoneyFlowService};
use kaipanla::status::Channel;

#[test]
fn test_dragon_tiger_service_default() {
    let service = DragonTigerService::default();
    let _ = service;
}

#[test]
fn service_handles_can_be_made() {
    let _ = AuctionService::new();
    let _ = AuctionService::default();
    let _ = DragonTigerService::new();
    let _ = MoneyFlowService::new();
    let _ = MoneyFlowService::default();
}

#[test]
fn plain_enums_compare_by_variant() {
    assert_eq!(AnomalyReason::HighOpen, AnomalyReason::HighOpen);
    assert_ne!(AnomalyReason::HighOpen, AnomalyReason::LowOpen);
    assert_ne!(TradeDirection::Buy, TradeDirection::Sell);
    assert_ne!(Channel::Quote, Channel::Auction);
    assert!(matches!(DragonReason::Other("x".to_string()), DragonReason::Other(_)));
}
