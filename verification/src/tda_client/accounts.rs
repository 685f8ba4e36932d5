//! Data shapes of the brokerage's account and order API, mirrored as plain
//! values. Retrieval is a plain authenticated read performed by the
//! unverified shell; these types give its payloads a home the verified
//! handlers and the tests can speak about.
use vstd::prelude::*;

verus! {

/// Account flavor reported by the brokerage.
#[derive(Clone, Copy, Debug, PartialEq, Eq, Structural)]
pub enum SecuritiesAccountType {
    Cash,
    Margin,
}

impl Default for SecuritiesAccountType {
    fn default() -> (r: SecuritiesAccountType)
        ensures
            r == SecuritiesAccountType::Cash,
    {
        SecuritiesAccountType::Cash
    }
}

impl SecuritiesAccountType {
    /// The upstream's wire name for the account flavor.
    pub fn display_string(&self) -> (s: String)
        ensures
            *self is Cash ==> s@ == "CASH"@,
            *self is Margin ==> s@ == "MARGIN"@,
    {
        match self {
            SecuritiesAccountType::Cash => String::from_str("CASH"),
            SecuritiesAccountType::Margin => String::from_str("MARGIN"),
        }
    }
}

/// Error envelope of the account API.
#[derive(Clone, Debug, PartialEq)]
pub struct TDAmeritradeClientError {
    pub error: String,
}

impl Default for TDAmeritradeClientError {
    fn default() -> (r: TDAmeritradeClientError)
        ensures
            r.error@ == Seq::<char>::empty(),
    {
        TDAmeritradeClientError { error: String::new() }
    }
}

#[derive(Clone, Copy, Debug, PartialEq, Eq, Structural)]
pub enum Session {
    Normal,
    Am,
    Pm,
    Seamless,
}

#[derive(Clone, Copy, Debug, PartialEq, Eq, Structural)]
pub enum Duration {
    Day,
    GoodTillCancel,
    FillOrKill,
}

#[derive(Clone, Copy, Debug, PartialEq, Eq, Structural)]
pub enum OrderType {
    Market,
    Limit,
    Stop,
    StopLimit,
    TrailingStop,
    MarketOnClose,
    Exercise,
    TrailingStopLimit,
    NetDebit,
    NetCredit,
    NetZero,
}

#[derive(Clone, Debug, PartialEq)]
pub struct OrderGetCancelTime {
    pub date: String,
    pub short_format: bool,
}

#[derive(Clone, Copy, Debug, PartialEq, Eq, Structural)]
pub enum ComplexOrderStrategyType {
    NoStrategy,
    Covered,
    Vertical,
    BackRatio,
    Calendar,
    Diagonal,
    Straddle,
    Strangle,
    CollarSynthetic,
    Butterfly,
    Condor,
    IronCondor,
    VerticalRoll,
    CollarWithStock,
    DoubleDiagonal,
    UnbalancedButterfly,
    UnbalancedCondor,
    UnbalancedIronCondor,
    UnbalancedVerticalRoll,
    Custom,
}

#[derive(Clone, Copy, Debug, PartialEq, Eq, Structural)]
pub enum RequestedDestination {
    Inet,
    EcnArca,
    Cboe,
    Amex,
    Phlx,
    Ise,
    Box,
    Nyse,
    Nasdaq,
    Bats,
    C2,
    Auto,
}

#[derive(Clone, Copy, Debug, PartialEq, Eq, Structural)]
pub enum PriceLinkBasis {
    Manual,
    Base,
    Trigger,
    Last,
    Bid,
    Ask,
    AskBid,
    Mark,
    Average,
}

#[derive(Clone, Copy, Debug, PartialEq, Eq, Structural)]
pub enum PriceLinkType {
    Value,
    Percent,
    Tick,
}

#[derive(Clone, Copy, Debug, PartialEq, Eq, Structural)]
pub enum StopType {
    Standard,
    Bid,
    Ask,
    Last,
    Mark,
}

#[derive(Clone, Copy, Debug, PartialEq, Eq, Structural)]
pub enum TaxLotMethod {
    Fifo,
    Lifo,
    HighCost,
    LowCost,
    AverageCost,
    SpecificLot,
}

#[derive(Clone, Copy, Debug, PartialEq, Eq, Structural)]
pub enum OrderLegType {
    Equity,
    Option,
    Index,
    MutualFund,
    CashEquivalent,
    FixedIncome,
    Currency,
}

#[derive(Clone, Copy, Debug, PartialEq, Eq, Structural)]
pub enum AssetType {
    Equity,
    Option,
    Index,
    MutualFund,
    CashEquivalent,
    FixedIncome,
    Currency,
}

/// An equity instrument.
#[derive(Clone, Debug, PartialEq)]
pub struct Equity {
    pub asset_type: AssetType,
    pub cusip: String,
    pub symbol: String,
    pub description: String,
}

#[derive(Clone, Copy, Debug, PartialEq, Eq, Structural)]
pub enum MutualFundType {
    NotApplicable,
    OpenEndNonTaxable,
    OpenEndTaxable,
    NoLoadNonTaxable,
    NoLoadTaxable,
}

/// A mutual-fund instrument.
#[derive(Clone, Debug, PartialEq)]
pub struct MutualFund {
    pub asset_type: AssetType,
    pub cusip: String,
    pub symbol: String,
    pub description: String,
    pub type_field: MutualFundType,
}

#[derive(Clone, Copy, Debug, PartialEq, Eq, Structural)]
pub enum CashEquivalentType {
    Savings,
    MoneyMarketFund,
}

/// A cash-equivalent instrument.
#[derive(Clone, Debug, PartialEq)]
pub struct CashEquivalent {
    pub asset_type: AssetType,
    pub cusip: String,
    pub symbol: String,
    pub description: String,
    pub type_field: CashEquivalentType,
}

#[derive(Clone, Copy, Debug, PartialEq, Eq, Structural)]
pub enum OptionType {
    Vanilla,
    Binary,
    Barrier,
}

#[derive(Clone, Copy, Debug, PartialEq, Eq, Structural)]
pub enum PutCall {
    Put,
    Call,
}

#[derive(Clone, Copy, Debug, PartialEq, Eq, Structural)]
pub enum CurrencyType {
    Usd,
    Cad,
    Eur,
    Jpy,
}

#[derive(Clone, Copy, Debug, PartialEq, Eq, Structural)]
pub enum Instruction {
    Buy,
    Sell,
    BuyToCover,
    SellShort,
    BuyToOpen,
    BuyToClose,
    SellToOpen,
    SellToClose,
    Exchange,
}

#[derive(Clone, Copy, Debug, PartialEq, Eq, Structural)]
pub enum PositionEffect {
    Open,
    Close,
    Automatic,
}

#[derive(Clone, Copy, Debug, PartialEq, Eq, Structural)]
pub enum QuantityType {
    AllShares,
    Dollars,
    Shares,
}

#[derive(Clone, Copy, Debug, PartialEq, Eq, Structural)]
pub enum SpecialInstruction {
    AllOrNone,
    DoNotReduce,
    AllOrNoneDoNotReduce,
}

#[derive(Clone, Copy, Debug, PartialEq, Eq, Structural)]
pub enum OrderStrategyType {
    Single,
    Oco,
    Trigger,
}

#[derive(Clone, Copy, Debug, PartialEq, Eq, Structural)]
pub enum Status {
    AwaitingParentOrder,
    AwaitingCondition,
    AwaitingManualReview,
    Accepted,
    AwaitingUrOut,
    PendingActivation,
    Queued,
    Working,
    Rejected,
    PendingCancel,
    Canceled,
    PendingReplace,
    Replaced,
    Filled,
    Expired,
}

#[derive(Clone, Copy, Debug, PartialEq, Eq, Structural)]
pub enum ActivityType {
    Execution,
    OrderAction,
}

#[derive(Clone, Copy, Debug, PartialEq, Eq, Structural)]
pub enum ExecutionType {
    Fill,
}

} // verus!
