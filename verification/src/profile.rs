//! Investor-profile data carried alongside portfolios, and the AI response
//! shape: plain enumerations and records with their parsing and display
//! names.

use vstd::prelude::*;

verus! {

/// How much risk the investor tolerates.
#[derive(Debug, Clone, Copy, PartialEq, Eq, Structural)]
pub enum RiskTolerance {
    Low,
    Medium,
    High,
}

impl RiskTolerance {
    /// Display name; [`core::str::FromStr`] parses exactly these.
    pub fn name(&self) -> (r: &'static str)
        ensures
            self is Low ==> r@ == "Low"@,
            self is Medium ==> r@ == "Medium"@,
            self is High ==> r@ == "High"@,
    {
        match self {
            RiskTolerance::Low => "Low",
            RiskTolerance::Medium => "Medium",
            RiskTolerance::High => "High",
        }
    }
}

impl core::str::FromStr for RiskTolerance {
    type Err = ();

    fn from_str(s: &str) -> Result<Self, Self::Err> {
        let t = s.to_owned();
        if t == "Low".to_owned() {
            Ok(RiskTolerance::Low)
        } else if t == "Medium".to_owned() {
            Ok(RiskTolerance::Medium)
        } else if t == "High".to_owned() {
            Ok(RiskTolerance::High)
        } else {
            Err(())
        }
    }
}

/// Whether the investor drives the tool in guided or expert mode.
#[derive(Debug, Clone, Copy, PartialEq, Eq, Structural)]
pub enum InvestmentMode {
    Standard,
    Expert,
}

impl InvestmentMode {
    /// Display name; [`core::str::FromStr`] parses exactly these.
    pub fn name(&self) -> (r: &'static str)
        ensures
            self is Standard ==> r@ == "Standard"@,
            self is Expert ==> r@ == "Expert"@,
    {
        match self {
            InvestmentMode::Standard => "Standard",
            InvestmentMode::Expert => "Expert",
        }
    }
}

impl core::str::FromStr for InvestmentMode {
    type Err = ();

    fn from_str(s: &str) -> Result<Self, Self::Err> {
        let t = s.to_owned();
        if t == "Standard".to_owned() {
            Ok(InvestmentMode::Standard)
        } else if t == "Expert".to_owned() {
            Ok(InvestmentMode::Expert)
        } else {
            Err(())
        }
    }
}

/// What the investor saves for.
#[derive(Debug, Clone, Copy, PartialEq, Eq, Structural)]
pub enum InvestmentGoal {
    Retirement,
    Education,
    WealthBuilding,
    Other,
}

impl InvestmentGoal {
    /// Display name; [`core::str::FromStr`] parses exactly these.
    pub fn name(&self) -> (r: &'static str)
        ensures
            self is Retirement ==> r@ == "Retirement"@,
            self is Education ==> r@ == "Education"@,
            self is WealthBuilding ==> r@ == "Wealth Building"@,
            self is Other ==> r@ == "Other"@,
    {
        match self {
            InvestmentGoal::Retirement => "Retirement",
            InvestmentGoal::Education => "Education",
            InvestmentGoal::WealthBuilding => "Wealth Building",
            InvestmentGoal::Other => "Other",
        }
    }
}

impl core::str::FromStr for InvestmentGoal {
    type Err = ();

    fn from_str(s: &str) -> Result<Self, Self::Err> {
        let t = s.to_owned();
        if t == "Retirement".to_owned() {
            Ok(InvestmentGoal::Retirement)
        } else if t == "Education".to_owned() {
            Ok(InvestmentGoal::Education)
        } else if t == "Wealth Building".to_owned() {
            Ok(InvestmentGoal::WealthBuilding)
        } else if t == "Other".to_owned() {
            Ok(InvestmentGoal::Other)
        } else {
            Err(())
        }
    }
}

/// The investor's preferences.
#[derive(Debug, Clone)]
pub struct InvestmentPreferences {
    pub risk_tolerance: RiskTolerance,
    pub investment_horizon: i32,
    pub investment_mode: InvestmentMode,
    pub investment_goal: InvestmentGoal,
    pub ai_enabled: bool,
}

/// A response from the AI advisor.
#[derive(Debug, Clone)]
pub struct Ai {
    pub response: String,
}

} // verus!
