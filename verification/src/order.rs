//! The closed enumerations that classify an order, each with its canonical name.

use vstd::prelude::*;

verus! {

/// What kind of transaction an order records.
#[derive(Debug, Hash, PartialEq, Eq, PartialOrd, Ord, Clone, Copy, Structural)]
pub enum OrderType {
    StockIn,
    StockOut,
    Return,
    Exchange,
    Calibration,
    CalibrationStrict,
    Verification,
    VerificationStrict,
}

impl OrderType {
    /// The canonical name of the variant, as it is stored and quoted in queries.
    pub open spec fn name(self) -> Seq<char> {
        match self {
            OrderType::StockIn => "StockIn"@,
            OrderType::StockOut => "StockOut"@,
            OrderType::Return => "Return"@,
            OrderType::Exchange => "Exchange"@,
            OrderType::Calibration => "Calibration"@,
            OrderType::CalibrationStrict => "CalibrationStrict"@,
            OrderType::Verification => "Verification"@,
            OrderType::VerificationStrict => "VerificationStrict"@,
        }
    }
}

impl AsRef<str> for OrderType {
    fn as_ref(&self) -> (s: &str)
        ensures
            s@ == self.name(),
    {
        match self {
            OrderType::StockIn => "StockIn",
            OrderType::StockOut => "StockOut",
            OrderType::Return => "Return",
            OrderType::Exchange => "Exchange",
            OrderType::Calibration => "Calibration",
            OrderType::CalibrationStrict => "CalibrationStrict",
            OrderType::Verification => "Verification",
            OrderType::VerificationStrict => "VerificationStrict",
        }
    }
}

/// Whether an order has been paid.
#[derive(Debug, Hash, PartialEq, Eq, PartialOrd, Ord, Clone, Copy, Structural)]
pub enum OrderPaymentStatus {
    Settled,
    Unsettled,
    PartialSettled,
    /// No payment is expected; its canonical name is `None`.
    NoPayment,
}

impl OrderPaymentStatus {
    /// The canonical name of the variant, as it is stored and quoted in queries.
    pub open spec fn name(self) -> Seq<char> {
        match self {
            OrderPaymentStatus::Settled => "Settled"@,
            OrderPaymentStatus::Unsettled => "Unsettled"@,
            OrderPaymentStatus::PartialSettled => "PartialSettled"@,
            OrderPaymentStatus::NoPayment => "None"@,
        }
    }
}

impl AsRef<str> for OrderPaymentStatus {
    fn as_ref(&self) -> (s: &str)
        ensures
            s@ == self.name(),
    {
        match self {
            OrderPaymentStatus::Settled => "Settled",
            OrderPaymentStatus::Unsettled => "Unsettled",
            OrderPaymentStatus::PartialSettled => "PartialSettled",
            OrderPaymentStatus::NoPayment => "None",
        }
    }
}

impl OrderPaymentStatus {
    /// The canonical name of the variant, as a string of its own.
    pub fn to_string(&self) -> (s: String)
        ensures
            s@ == self.name(),
    {
        String::from_str(self.as_ref())
    }
}

impl Default for OrderPaymentStatus {
    fn default() -> (status: Self)
        ensures
            status == OrderPaymentStatus::Unsettled,
    {
        OrderPaymentStatus::Unsettled
    }
}

/// The currency an order is denominated in.
#[allow(clippy::upper_case_acronyms)]
#[derive(Debug, Hash, PartialEq, Eq, PartialOrd, Ord, Clone, Copy, Structural)]
pub enum OrderCurrency {
    CNY,
    HKD,
    USD,
    GBP,
    MYR,
    IDR,
    INR,
    PHP,
    Unknown,
}

impl OrderCurrency {
    /// The canonical name of the variant, as it is stored and quoted in queries.
    pub open spec fn name(self) -> Seq<char> {
        match self {
            OrderCurrency::CNY => "CNY"@,
            OrderCurrency::HKD => "HKD"@,
            OrderCurrency::USD => "USD"@,
            OrderCurrency::GBP => "GBP"@,
            OrderCurrency::MYR => "MYR"@,
            OrderCurrency::IDR => "IDR"@,
            OrderCurrency::INR => "INR"@,
            OrderCurrency::PHP => "PHP"@,
            OrderCurrency::Unknown => "Unknown"@,
        }
    }
}

impl AsRef<str> for OrderCurrency {
    fn as_ref(&self) -> (s: &str)
        ensures
            s@ == self.name(),
    {
        match self {
            OrderCurrency::CNY => "CNY",
            OrderCurrency::HKD => "HKD",
            OrderCurrency::USD => "USD",
            OrderCurrency::GBP => "GBP",
            OrderCurrency::MYR => "MYR",
            OrderCurrency::IDR => "IDR",
            OrderCurrency::INR => "INR",
            OrderCurrency::PHP => "PHP",
            OrderCurrency::Unknown => "Unknown",
        }
    }
}

impl Default for OrderCurrency {
    fn default() -> (currency: Self)
        ensures
            currency == OrderCurrency::Unknown,
    {
        OrderCurrency::Unknown
    }
}

} // verus!
