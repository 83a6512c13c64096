use std::str::FromStr;

use dcapal_backend::config::{default_enable_stdout, default_log_level, PriceProvider};
use dcapal_backend::profile::{InvestmentGoal, InvestmentMode, RiskTolerance};

#[test]
fn risk_tolerance_round_trips_through_its_name() {
    for v in [RiskTolerance::Low, RiskTolerance::Medium, RiskTolerance::High] {
        assert_eq!(RiskTolerance::from_str(v.name()).unwrap(), v);
    }
    assert_eq!(RiskTolerance::from_str("Low").unwrap(), RiskTolerance::Low);
    assert!(RiskTolerance::from_str("low").is_err());
    assert!(RiskTolerance::from_str("").is_err());
}

#[test]
fn investment_mode_round_trips_through_its_name() {
    for v in [InvestmentMode::Standard, InvestmentMode::Expert] {
        assert_eq!(InvestmentMode::from_str(v.name()).unwrap(), v);
    }
    assert!(InvestmentMode::from_str("Neither").is_err());
}

#[test]
fn investment_goal_round_trips_through_its_name() {
    for v in [
        InvestmentGoal::Retirement,
        InvestmentGoal::Education,
        InvestmentGoal::WealthBuilding,
        InvestmentGoal::Other,
    ] {
        assert_eq!(InvestmentGoal::from_str(v.name()).unwrap(), v);
    }
    assert_eq!(InvestmentGoal::WealthBuilding.name(), "Wealth Building");
    assert!(InvestmentGoal::from_str("WealthBuilding").is_err());
}

#[test]
fn config_defaults() {
    assert_eq!(default_log_level(), "info");
    assert!(!default_enable_stdout());
    // The provider enumeration is plain data.
    let p = PriceProvider::Yahoo;
    assert!(matches!(p, PriceProvider::Yahoo));
}
