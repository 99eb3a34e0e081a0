//! Values that the parameters and objects of several resources share.

use vstd::prelude::*;
use std::str::FromStr;
use crate::error::StripeParseError;
use crate::json::{FromValueOpt, Json, JsonValue};
use crate::text::str_eq;

verus! {

/// A point in time, in seconds since the Unix epoch.
pub type Timestamp = i64;

/// The bounds of a range; each bound may be left open.
#[derive(Copy, Clone, Debug)]
pub struct RangeBounds<T> {
    /// The range holds only what is greater than this.
    pub gt: Option<T>,
    /// The range holds only what is greater than or equal to this.
    pub gte: Option<T>,
    /// The range holds only what is less than this.
    pub lt: Option<T>,
    /// The range holds only what is less than or equal to this.
    pub lte: Option<T>,
}

/// A filter on a value: one value exactly, or a range of values.
#[derive(Copy, Clone, Debug)]
pub enum RangeQuery<T> {
    Exact(T),
    Bounds(RangeBounds<T>),
}

/// A filter on a point in time.
pub type RangeQueryTs = RangeQuery<Timestamp>;

impl<T> RangeQuery<T> {
    /// The filter that lets exactly `value` through.
    pub fn eq(value: T) -> (query: Self)
        ensures
            query == RangeQuery::Exact(value),
    {
        RangeQuery::Exact(value)
    }

    /// The filter that lets through what is greater than `value`.
    pub fn gt(value: T) -> (query: Self)
        ensures
            query == RangeQuery::Bounds(RangeBounds { gt: Some(value), gte: None, lt: None, lte: None }),
    {
        RangeQuery::Bounds(RangeBounds { gt: Some(value), gte: None, lt: None, lte: None })
    }

    /// The filter that lets through what is greater than or equal to `value`.
    pub fn gte(value: T) -> (query: Self)
        ensures
            query == RangeQuery::Bounds(RangeBounds { gt: None, gte: Some(value), lt: None, lte: None }),
    {
        RangeQuery::Bounds(RangeBounds { gt: None, gte: Some(value), lt: None, lte: None })
    }

    /// The filter that lets through what is less than `value`.
    pub fn lt(value: T) -> (query: Self)
        ensures
            query == RangeQuery::Bounds(RangeBounds { gt: None, gte: None, lt: Some(value), lte: None }),
    {
        RangeQuery::Bounds(RangeBounds { gt: None, gte: None, lt: Some(value), lte: None })
    }

    /// The filter that lets through what is less than or equal to `value`.
    pub fn lte(value: T) -> (query: Self)
        ensures
            query == RangeQuery::Bounds(RangeBounds { gt: None, gte: None, lt: None, lte: Some(value) }),
    {
        RangeQuery::Bounds(RangeBounds { gt: None, gte: None, lt: None, lte: Some(value) })
    }
}

/// What a subscription schedule does once its last phase has ended.
#[derive(Copy, Clone, Debug, PartialEq, Eq, Structural)]
pub enum SubscriptionScheduleEndBehavior {
    Cancel,
    None_,
    Release,
    Renew,
}

impl SubscriptionScheduleEndBehavior {
    /// The name of the value on the wire.
    pub open spec fn wire_name(self) -> Seq<char> {
        match self {
            SubscriptionScheduleEndBehavior::Cancel => "cancel"@,
            SubscriptionScheduleEndBehavior::None_ => "none"@,
            SubscriptionScheduleEndBehavior::Release => "release"@,
            SubscriptionScheduleEndBehavior::Renew => "renew"@,
        }
    }

    pub fn as_str(self) -> (name: &'static str)
        ensures
            name@ == self.wire_name(),
    {
        match self {
            SubscriptionScheduleEndBehavior::Cancel => "cancel",
            SubscriptionScheduleEndBehavior::None_ => "none",
            SubscriptionScheduleEndBehavior::Release => "release",
            SubscriptionScheduleEndBehavior::Renew => "renew",
        }
    }
}

impl std::str::FromStr for SubscriptionScheduleEndBehavior {
    type Err = StripeParseError;

    /// Reads a wire name; fails on a string that is the name of no value.
    fn from_str(s: &str) -> (parsed: Result<Self, Self::Err>)
        ensures
            match parsed {
                Ok(v) => v.wire_name() == s@,
                Err(_) => forall|v: SubscriptionScheduleEndBehavior| #[trigger] v.wire_name() != s@,
            },
    {
        if str_eq(s, "cancel") {
            Ok(SubscriptionScheduleEndBehavior::Cancel)
        } else if str_eq(s, "none") {
            Ok(SubscriptionScheduleEndBehavior::None_)
        } else if str_eq(s, "release") {
            Ok(SubscriptionScheduleEndBehavior::Release)
        } else if str_eq(s, "renew") {
            Ok(SubscriptionScheduleEndBehavior::Renew)
        } else {
            Err(StripeParseError)
        }
    }
}

/// Two values of `SubscriptionScheduleEndBehavior` with one wire name are the same value, so
/// reading back what `as_str` gives returns the value it was called on.
pub proof fn lemma_subscription_schedule_end_behavior_wire_names_differ(a: SubscriptionScheduleEndBehavior, b: SubscriptionScheduleEndBehavior)
    requires
        a.wire_name() == b.wire_name(),
    ensures
        a == b,
{
    reveal_strlit("cancel");
    reveal_strlit("none");
    reveal_strlit("release");
    reveal_strlit("renew");
    assert("cancel"@.len() == 6);
    assert("none"@.len() == 4);
    assert("release"@.len() == 7);
    assert("renew"@.len() == 5);
}

impl DeepView for SubscriptionScheduleEndBehavior {
    type V = SubscriptionScheduleEndBehavior;

    open spec fn deep_view(&self) -> SubscriptionScheduleEndBehavior {
        *self
    }
}

impl FromValueOpt for SubscriptionScheduleEndBehavior {
    /// A JSON string that is the wire name of a value decodes to that value.
    open spec fn decoded(json: Json) -> Option<SubscriptionScheduleEndBehavior> {
        match json {
            Json::String(s) => if exists|v: SubscriptionScheduleEndBehavior| #[trigger] v.wire_name() == s {
                Some(choose|v: SubscriptionScheduleEndBehavior| #[trigger] v.wire_name() == s)
            } else {
                None
            },
            _ => None,
        }
    }

    fn from_value(value: &JsonValue) -> (out: Option<SubscriptionScheduleEndBehavior>) {
        match value {
            JsonValue::String(s) => match SubscriptionScheduleEndBehavior::from_str(s.as_str()) {
                Ok(v) => {
                    proof {
                        let w = choose|w: SubscriptionScheduleEndBehavior| #[trigger] w.wire_name() == s@;
                        lemma_subscription_schedule_end_behavior_wire_names_differ(v, w);
                    }
                    Some(v)
                },
                Err(_) => None,
            },
            _ => None,
        }
    }
}

/// The kind of business that a connected account is.
#[derive(Copy, Clone, Debug, PartialEq, Eq, Structural)]
pub enum AccountBusinessType {
    Company,
    GovernmentEntity,
    Individual,
    NonProfit,
}

impl AccountBusinessType {
    /// The name of the value on the wire.
    pub open spec fn wire_name(self) -> Seq<char> {
        match self {
            AccountBusinessType::Company => "company"@,
            AccountBusinessType::GovernmentEntity => "government_entity"@,
            AccountBusinessType::Individual => "individual"@,
            AccountBusinessType::NonProfit => "non_profit"@,
        }
    }

    pub fn as_str(self) -> (name: &'static str)
        ensures
            name@ == self.wire_name(),
    {
        match self {
            AccountBusinessType::Company => "company",
            AccountBusinessType::GovernmentEntity => "government_entity",
            AccountBusinessType::Individual => "individual",
            AccountBusinessType::NonProfit => "non_profit",
        }
    }
}

impl std::str::FromStr for AccountBusinessType {
    type Err = StripeParseError;

    /// Reads a wire name; fails on a string that is the name of no value.
    fn from_str(s: &str) -> (parsed: Result<Self, Self::Err>)
        ensures
            match parsed {
                Ok(v) => v.wire_name() == s@,
                Err(_) => forall|v: AccountBusinessType| #[trigger] v.wire_name() != s@,
            },
    {
        if str_eq(s, "company") {
            Ok(AccountBusinessType::Company)
        } else if str_eq(s, "government_entity") {
            Ok(AccountBusinessType::GovernmentEntity)
        } else if str_eq(s, "individual") {
            Ok(AccountBusinessType::Individual)
        } else if str_eq(s, "non_profit") {
            Ok(AccountBusinessType::NonProfit)
        } else {
            Err(StripeParseError)
        }
    }
}

/// Two values of `AccountBusinessType` with one wire name are the same value, so
/// reading back what `as_str` gives returns the value it was called on.
pub proof fn lemma_account_business_type_wire_names_differ(a: AccountBusinessType, b: AccountBusinessType)
    requires
        a.wire_name() == b.wire_name(),
    ensures
        a == b,
{
    reveal_strlit("company");
    reveal_strlit("government_entity");
    reveal_strlit("individual");
    reveal_strlit("non_profit");
    assert("company"@.len() == 7);
    assert("government_entity"@.len() == 17);
    assert("individual"@.len() == 10);
    assert("non_profit"@.len() == 10);
    assert("individual"@[0] != "non_profit"@[0]);
}

impl DeepView for AccountBusinessType {
    type V = AccountBusinessType;

    open spec fn deep_view(&self) -> AccountBusinessType {
        *self
    }
}

impl FromValueOpt for AccountBusinessType {
    /// A JSON string that is the wire name of a value decodes to that value.
    open spec fn decoded(json: Json) -> Option<AccountBusinessType> {
        match json {
            Json::String(s) => if exists|v: AccountBusinessType| #[trigger] v.wire_name() == s {
                Some(choose|v: AccountBusinessType| #[trigger] v.wire_name() == s)
            } else {
                None
            },
            _ => None,
        }
    }

    fn from_value(value: &JsonValue) -> (out: Option<AccountBusinessType>) {
        match value {
            JsonValue::String(s) => match AccountBusinessType::from_str(s.as_str()) {
                Ok(v) => {
                    proof {
                        let w = choose|w: AccountBusinessType| #[trigger] w.wire_name() == s@;
                        lemma_account_business_type_wire_names_differ(v, w);
                    }
                    Some(v)
                },
                Err(_) => None,
            },
            _ => None,
        }
    }
}

/// A currency, by its three-letter ISO code; on the wire the code is in lower
/// case.
#[derive(Copy, Clone, Debug, PartialEq, Eq, Structural)]
pub enum Currency {
    AED,
    AFN,
    ALL,
    AMD,
    ANG,
    AOA,
    ARS,
    AUD,
    AWG,
    AZN,
    BAM,
    BBD,
    BDT,
    BGN,
    BIF,
    BMD,
    BND,
    BOB,
    BRL,
    BSD,
    BWP,
    BZD,
    CAD,
    CDF,
    CHF,
    CLP,
    CNY,
    COP,
    CRC,
    CVE,
    CZK,
    DJF,
    DKK,
    DOP,
    DZD,
    EGP,
    ETB,
    EUR,
    FJD,
    FKP,
    GBP,
    GEL,
    GIP,
    GMD,
    GNF,
    GTQ,
    GYD,
    HKD,
    HNL,
    HTG,
    HUF,
    IDR,
    ILS,
    INR,
    ISK,
    JMD,
    JPY,
    KES,
    KGS,
    KHR,
    KMF,
    KRW,
    KYD,
    KZT,
    LAK,
    LBP,
    LKR,
    LRD,
    LSL,
    MAD,
    MDL,
    MGA,
    MKD,
    MNT,
    MOP,
    MUR,
    MVR,
    MWK,
    MXN,
    MYR,
    MZN,
    NAD,
    NGN,
    NIO,
    NOK,
    NPR,
    NZD,
    PAB,
    PEN,
    PGK,
    PHP,
    PKR,
    PLN,
    PYG,
    QAR,
    RON,
    RSD,
    RUB,
    RWF,
    SAR,
    SBD,
    SCR,
    SEK,
    SGD,
    SHP,
    SOS,
    SRD,
    SZL,
    THB,
    TJS,
    TOP,
    TRY,
    TTD,
    TWD,
    TZS,
    UAH,
    UGX,
    USD,
    UYU,
    UZS,
    VND,
    VUV,
    WST,
    XAF,
    XCD,
    XOF,
    XPF,
    YER,
    ZAR,
    ZMW,
}

impl Currency {
    /// The name of the value on the wire.
    pub open spec fn wire_name(self) -> Seq<char> {
        match self {
            Currency::AED => "aed"@,
            Currency::AFN => "afn"@,
            Currency::ALL => "all"@,
            Currency::AMD => "amd"@,
            Currency::ANG => "ang"@,
            Currency::AOA => "aoa"@,
            Currency::ARS => "ars"@,
            Currency::AUD => "aud"@,
            Currency::AWG => "awg"@,
            Currency::AZN => "azn"@,
            Currency::BAM => "bam"@,
            Currency::BBD => "bbd"@,
            Currency::BDT => "bdt"@,
            Currency::BGN => "bgn"@,
            Currency::BIF => "bif"@,
            Currency::BMD => "bmd"@,
            Currency::BND => "bnd"@,
            Currency::BOB => "bob"@,
            Currency::BRL => "brl"@,
            Currency::BSD => "bsd"@,
            Currency::BWP => "bwp"@,
            Currency::BZD => "bzd"@,
            Currency::CAD => "cad"@,
            Currency::CDF => "cdf"@,
            Currency::CHF => "chf"@,
            Currency::CLP => "clp"@,
            Currency::CNY => "cny"@,
            Currency::COP => "cop"@,
            Currency::CRC => "crc"@,
            Currency::CVE => "cve"@,
            Currency::CZK => "czk"@,
            Currency::DJF => "djf"@,
            Currency::DKK => "dkk"@,
            Currency::DOP => "dop"@,
            Currency::DZD => "dzd"@,
            Currency::EGP => "egp"@,
            Currency::ETB => "etb"@,
            Currency::EUR => "eur"@,
            Currency::FJD => "fjd"@,
            Currency::FKP => "fkp"@,
            Currency::GBP => "gbp"@,
            Currency::GEL => "gel"@,
            Currency::GIP => "gip"@,
            Currency::GMD => "gmd"@,
            Currency::GNF => "gnf"@,
            Currency::GTQ => "gtq"@,
            Currency::GYD => "gyd"@,
            Currency::HKD => "hkd"@,
            Currency::HNL => "hnl"@,
            Currency::HTG => "htg"@,
            Currency::HUF => "huf"@,
            Currency::IDR => "idr"@,
            Currency::ILS => "ils"@,
            Currency::INR => "inr"@,
            Currency::ISK => "isk"@,
            Currency::JMD => "jmd"@,
            Currency::JPY => "jpy"@,
            Currency::KES => "kes"@,
            Currency::KGS => "kgs"@,
            Currency::KHR => "khr"@,
            Currency::KMF => "kmf"@,
            Currency::KRW => "krw"@,
            Currency::KYD => "kyd"@,
            Currency::KZT => "kzt"@,
            Currency::LAK => "lak"@,
            Currency::LBP => "lbp"@,
            Currency::LKR => "lkr"@,
            Currency::LRD => "lrd"@,
            Currency::LSL => "lsl"@,
            Currency::MAD => "mad"@,
            Currency::MDL => "mdl"@,
            Currency::MGA => "mga"@,
            Currency::MKD => "mkd"@,
            Currency::MNT => "mnt"@,
            Currency::MOP => "mop"@,
            Currency::MUR => "mur"@,
            Currency::MVR => "mvr"@,
            Currency::MWK => "mwk"@,
            Currency::MXN => "mxn"@,
            Currency::MYR => "myr"@,
            Currency::MZN => "mzn"@,
            Currency::NAD => "nad"@,
            Currency::NGN => "ngn"@,
            Currency::NIO => "nio"@,
            Currency::NOK => "nok"@,
            Currency::NPR => "npr"@,
            Currency::NZD => "nzd"@,
            Currency::PAB => "pab"@,
            Currency::PEN => "pen"@,
            Currency::PGK => "pgk"@,
            Currency::PHP => "php"@,
            Currency::PKR => "pkr"@,
            Currency::PLN => "pln"@,
            Currency::PYG => "pyg"@,
            Currency::QAR => "qar"@,
            Currency::RON => "ron"@,
            Currency::RSD => "rsd"@,
            Currency::RUB => "rub"@,
            Currency::RWF => "rwf"@,
            Currency::SAR => "sar"@,
            Currency::SBD => "sbd"@,
            Currency::SCR => "scr"@,
            Currency::SEK => "sek"@,
            Currency::SGD => "sgd"@,
            Currency::SHP => "shp"@,
            Currency::SOS => "sos"@,
            Currency::SRD => "srd"@,
            Currency::SZL => "szl"@,
            Currency::THB => "thb"@,
            Currency::TJS => "tjs"@,
            Currency::TOP => "top"@,
            Currency::TRY => "try"@,
            Currency::TTD => "ttd"@,
            Currency::TWD => "twd"@,
            Currency::TZS => "tzs"@,
            Currency::UAH => "uah"@,
            Currency::UGX => "ugx"@,
            Currency::USD => "usd"@,
            Currency::UYU => "uyu"@,
            Currency::UZS => "uzs"@,
            Currency::VND => "vnd"@,
            Currency::VUV => "vuv"@,
            Currency::WST => "wst"@,
            Currency::XAF => "xaf"@,
            Currency::XCD => "xcd"@,
            Currency::XOF => "xof"@,
            Currency::XPF => "xpf"@,
            Currency::YER => "yer"@,
            Currency::ZAR => "zar"@,
            Currency::ZMW => "zmw"@,
        }
    }

    pub fn as_str(self) -> (name: &'static str)
        ensures
            name@ == self.wire_name(),
    {
        match self {
            Currency::AED => "aed",
            Currency::AFN => "afn",
            Currency::ALL => "all",
            Currency::AMD => "amd",
            Currency::ANG => "ang",
            Currency::AOA => "aoa",
            Currency::ARS => "ars",
            Currency::AUD => "aud",
            Currency::AWG => "awg",
            Currency::AZN => "azn",
            Currency::BAM => "bam",
            Currency::BBD => "bbd",
            Currency::BDT => "bdt",
            Currency::BGN => "bgn",
            Currency::BIF => "bif",
            Currency::BMD => "bmd",
            Currency::BND => "bnd",
            Currency::BOB => "bob",
            Currency::BRL => "brl",
            Currency::BSD => "bsd",
            Currency::BWP => "bwp",
            Currency::BZD => "bzd",
            Currency::CAD => "cad",
            Currency::CDF => "cdf",
            Currency::CHF => "chf",
            Currency::CLP => "clp",
            Currency::CNY => "cny",
            Currency::COP => "cop",
            Currency::CRC => "crc",
            Currency::CVE => "cve",
            Currency::CZK => "czk",
            Currency::DJF => "djf",
            Currency::DKK => "dkk",
            Currency::DOP => "dop",
            Currency::DZD => "dzd",
            Currency::EGP => "egp",
            Currency::ETB => "etb",
            Currency::EUR => "eur",
            Currency::FJD => "fjd",
            Currency::FKP => "fkp",
            Currency::GBP => "gbp",
            Currency::GEL => "gel",
            Currency::GIP => "gip",
            Currency::GMD => "gmd",
            Currency::GNF => "gnf",
            Currency::GTQ => "gtq",
            Currency::GYD => "gyd",
            Currency::HKD => "hkd",
            Currency::HNL => "hnl",
            Currency::HTG => "htg",
            Currency::HUF => "huf",
            Currency::IDR => "idr",
            Currency::ILS => "ils",
            Currency::INR => "inr",
            Currency::ISK => "isk",
            Currency::JMD => "jmd",
            Currency::JPY => "jpy",
            Currency::KES => "kes",
            Currency::KGS => "kgs",
            Currency::KHR => "khr",
            Currency::KMF => "kmf",
            Currency::KRW => "krw",
            Currency::KYD => "kyd",
            Currency::KZT => "kzt",
            Currency::LAK => "lak",
            Currency::LBP => "lbp",
            Currency::LKR => "lkr",
            Currency::LRD => "lrd",
            Currency::LSL => "lsl",
            Currency::MAD => "mad",
            Currency::MDL => "mdl",
            Currency::MGA => "mga",
            Currency::MKD => "mkd",
            Currency::MNT => "mnt",
            Currency::MOP => "mop",
            Currency::MUR => "mur",
            Currency::MVR => "mvr",
            Currency::MWK => "mwk",
            Currency::MXN => "mxn",
            Currency::MYR => "myr",
            Currency::MZN => "mzn",
            Currency::NAD => "nad",
            Currency::NGN => "ngn",
            Currency::NIO => "nio",
            Currency::NOK => "nok",
            Currency::NPR => "npr",
            Currency::NZD => "nzd",
            Currency::PAB => "pab",
            Currency::PEN => "pen",
            Currency::PGK => "pgk",
            Currency::PHP => "php",
            Currency::PKR => "pkr",
            Currency::PLN => "pln",
            Currency::PYG => "pyg",
            Currency::QAR => "qar",
            Currency::RON => "ron",
            Currency::RSD => "rsd",
            Currency::RUB => "rub",
            Currency::RWF => "rwf",
            Currency::SAR => "sar",
            Currency::SBD => "sbd",
            Currency::SCR => "scr",
            Currency::SEK => "sek",
            Currency::SGD => "sgd",
            Currency::SHP => "shp",
            Currency::SOS => "sos",
            Currency::SRD => "srd",
            Currency::SZL => "szl",
            Currency::THB => "thb",
            Currency::TJS => "tjs",
            Currency::TOP => "top",
            Currency::TRY => "try",
            Currency::TTD => "ttd",
            Currency::TWD => "twd",
            Currency::TZS => "tzs",
            Currency::UAH => "uah",
            Currency::UGX => "ugx",
            Currency::USD => "usd",
            Currency::UYU => "uyu",
            Currency::UZS => "uzs",
            Currency::VND => "vnd",
            Currency::VUV => "vuv",
            Currency::WST => "wst",
            Currency::XAF => "xaf",
            Currency::XCD => "xcd",
            Currency::XOF => "xof",
            Currency::XPF => "xpf",
            Currency::YER => "yer",
            Currency::ZAR => "zar",
            Currency::ZMW => "zmw",
        }
    }
}

impl std::str::FromStr for Currency {
    type Err = StripeParseError;

    /// Reads a wire name; fails on a string that is the name of no value.
    fn from_str(s: &str) -> (parsed: Result<Self, Self::Err>)
        ensures
            match parsed {
                Ok(v) => v.wire_name() == s@,
                Err(_) => forall|v: Currency| #[trigger] v.wire_name() != s@,
            },
    {
        if str_eq(s, "aed") {
            Ok(Currency::AED)
        } else if str_eq(s, "afn") {
            Ok(Currency::AFN)
        } else if str_eq(s, "all") {
            Ok(Currency::ALL)
        } else if str_eq(s, "amd") {
            Ok(Currency::AMD)
        } else if str_eq(s, "ang") {
            Ok(Currency::ANG)
        } else if str_eq(s, "aoa") {
            Ok(Currency::AOA)
        } else if str_eq(s, "ars") {
            Ok(Currency::ARS)
        } else if str_eq(s, "aud") {
            Ok(Currency::AUD)
        } else if str_eq(s, "awg") {
            Ok(Currency::AWG)
        } else if str_eq(s, "azn") {
            Ok(Currency::AZN)
        } else if str_eq(s, "bam") {
            Ok(Currency::BAM)
        } else if str_eq(s, "bbd") {
            Ok(Currency::BBD)
        } else if str_eq(s, "bdt") {
            Ok(Currency::BDT)
        } else if str_eq(s, "bgn") {
            Ok(Currency::BGN)
        } else if str_eq(s, "bif") {
            Ok(Currency::BIF)
        } else if str_eq(s, "bmd") {
            Ok(Currency::BMD)
        } else if str_eq(s, "bnd") {
            Ok(Currency::BND)
        } else if str_eq(s, "bob") {
            Ok(Currency::BOB)
        } else if str_eq(s, "brl") {
            Ok(Currency::BRL)
        } else if str_eq(s, "bsd") {
            Ok(Currency::BSD)
        } else if str_eq(s, "bwp") {
            Ok(Currency::BWP)
        } else if str_eq(s, "bzd") {
            Ok(Currency::BZD)
        } else if str_eq(s, "cad") {
            Ok(Currency::CAD)
        } else if str_eq(s, "cdf") {
            Ok(Currency::CDF)
        } else if str_eq(s, "chf") {
            Ok(Currency::CHF)
        } else if str_eq(s, "clp") {
            Ok(Currency::CLP)
        } else if str_eq(s, "cny") {
            Ok(Currency::CNY)
        } else if str_eq(s, "cop") {
            Ok(Currency::COP)
        } else if str_eq(s, "crc") {
            Ok(Currency::CRC)
        } else if str_eq(s, "cve") {
            Ok(Currency::CVE)
        } else if str_eq(s, "czk") {
            Ok(Currency::CZK)
        } else if str_eq(s, "djf") {
            Ok(Currency::DJF)
        } else if str_eq(s, "dkk") {
            Ok(Currency::DKK)
        } else if str_eq(s, "dop") {
            Ok(Currency::DOP)
        } else if str_eq(s, "dzd") {
            Ok(Currency::DZD)
        } else if str_eq(s, "egp") {
            Ok(Currency::EGP)
        } else if str_eq(s, "etb") {
            Ok(Currency::ETB)
        } else if str_eq(s, "eur") {
            Ok(Currency::EUR)
        } else if str_eq(s, "fjd") {
            Ok(Currency::FJD)
        } else if str_eq(s, "fkp") {
            Ok(Currency::FKP)
        } else if str_eq(s, "gbp") {
            Ok(Currency::GBP)
        } else if str_eq(s, "gel") {
            Ok(Currency::GEL)
        } else if str_eq(s, "gip") {
            Ok(Currency::GIP)
        } else if str_eq(s, "gmd") {
            Ok(Currency::GMD)
        } else if str_eq(s, "gnf") {
            Ok(Currency::GNF)
        } else if str_eq(s, "gtq") {
            Ok(Currency::GTQ)
        } else if str_eq(s, "gyd") {
            Ok(Currency::GYD)
        } else if str_eq(s, "hkd") {
            Ok(Currency::HKD)
        } else if str_eq(s, "hnl") {
            Ok(Currency::HNL)
        } else if str_eq(s, "htg") {
            Ok(Currency::HTG)
        } else if str_eq(s, "huf") {
            Ok(Currency::HUF)
        } else if str_eq(s, "idr") {
            Ok(Currency::IDR)
        } else if str_eq(s, "ils") {
            Ok(Currency::ILS)
        } else if str_eq(s, "inr") {
            Ok(Currency::INR)
        } else if str_eq(s, "isk") {
            Ok(Currency::ISK)
        } else if str_eq(s, "jmd") {
            Ok(Currency::JMD)
        } else if str_eq(s, "jpy") {
            Ok(Currency::JPY)
        } else if str_eq(s, "kes") {
            Ok(Currency::KES)
        } else if str_eq(s, "kgs") {
            Ok(Currency::KGS)
        } else if str_eq(s, "khr") {
            Ok(Currency::KHR)
        } else if str_eq(s, "kmf") {
            Ok(Currency::KMF)
        } else if str_eq(s, "krw") {
            Ok(Currency::KRW)
        } else if str_eq(s, "kyd") {
            Ok(Currency::KYD)
        } else if str_eq(s, "kzt") {
            Ok(Currency::KZT)
        } else if str_eq(s, "lak") {
            Ok(Currency::LAK)
        } else if str_eq(s, "lbp") {
            Ok(Currency::LBP)
        } else if str_eq(s, "lkr") {
            Ok(Currency::LKR)
        } else if str_eq(s, "lrd") {
            Ok(Currency::LRD)
        } else if str_eq(s, "lsl") {
            Ok(Currency::LSL)
        } else if str_eq(s, "mad") {
            Ok(Currency::MAD)
        } else if str_eq(s, "mdl") {
            Ok(Currency::MDL)
        } else if str_eq(s, "mga") {
            Ok(Currency::MGA)
        } else if str_eq(s, "mkd") {
            Ok(Currency::MKD)
        } else if str_eq(s, "mnt") {
            Ok(Currency::MNT)
        } else if str_eq(s, "mop") {
            Ok(Currency::MOP)
        } else if str_eq(s, "mur") {
            Ok(Currency::MUR)
        } else if str_eq(s, "mvr") {
            Ok(Currency::MVR)
        } else if str_eq(s, "mwk") {
            Ok(Currency::MWK)
        } else if str_eq(s, "mxn") {
            Ok(Currency::MXN)
        } else if str_eq(s, "myr") {
            Ok(Currency::MYR)
        } else if str_eq(s, "mzn") {
            Ok(Currency::MZN)
        } else if str_eq(s, "nad") {
            Ok(Currency::NAD)
        } else if str_eq(s, "ngn") {
            Ok(Currency::NGN)
        } else if str_eq(s, "nio") {
            Ok(Currency::NIO)
        } else if str_eq(s, "nok") {
            Ok(Currency::NOK)
        } else if str_eq(s, "npr") {
            Ok(Currency::NPR)
        } else if str_eq(s, "nzd") {
            Ok(Currency::NZD)
        } else if str_eq(s, "pab") {
            Ok(Currency::PAB)
        } else if str_eq(s, "pen") {
            Ok(Currency::PEN)
        } else if str_eq(s, "pgk") {
            Ok(Currency::PGK)
        } else if str_eq(s, "php") {
            Ok(Currency::PHP)
        } else if str_eq(s, "pkr") {
            Ok(Currency::PKR)
        } else if str_eq(s, "pln") {
            Ok(Currency::PLN)
        } else if str_eq(s, "pyg") {
            Ok(Currency::PYG)
        } else if str_eq(s, "qar") {
            Ok(Currency::QAR)
        } else if str_eq(s, "ron") {
            Ok(Currency::RON)
        } else if str_eq(s, "rsd") {
            Ok(Currency::RSD)
        } else if str_eq(s, "rub") {
            Ok(Currency::RUB)
        } else if str_eq(s, "rwf") {
            Ok(Currency::RWF)
        } else if str_eq(s, "sar") {
            Ok(Currency::SAR)
        } else if str_eq(s, "sbd") {
            Ok(Currency::SBD)
        } else if str_eq(s, "scr") {
            Ok(Currency::SCR)
        } else if str_eq(s, "sek") {
            Ok(Currency::SEK)
        } else if str_eq(s, "sgd") {
            Ok(Currency::SGD)
        } else if str_eq(s, "shp") {
            Ok(Currency::SHP)
        } else if str_eq(s, "sos") {
            Ok(Currency::SOS)
        } else if str_eq(s, "srd") {
            Ok(Currency::SRD)
        } else if str_eq(s, "szl") {
            Ok(Currency::SZL)
        } else if str_eq(s, "thb") {
            Ok(Currency::THB)
        } else if str_eq(s, "tjs") {
            Ok(Currency::TJS)
        } else if str_eq(s, "top") {
            Ok(Currency::TOP)
        } else if str_eq(s, "try") {
            Ok(Currency::TRY)
        } else if str_eq(s, "ttd") {
            Ok(Currency::TTD)
        } else if str_eq(s, "twd") {
            Ok(Currency::TWD)
        } else if str_eq(s, "tzs") {
            Ok(Currency::TZS)
        } else if str_eq(s, "uah") {
            Ok(Currency::UAH)
        } else if str_eq(s, "ugx") {
            Ok(Currency::UGX)
        } else if str_eq(s, "usd") {
            Ok(Currency::USD)
        } else if str_eq(s, "uyu") {
            Ok(Currency::UYU)
        } else if str_eq(s, "uzs") {
            Ok(Currency::UZS)
        } else if str_eq(s, "vnd") {
            Ok(Currency::VND)
        } else if str_eq(s, "vuv") {
            Ok(Currency::VUV)
        } else if str_eq(s, "wst") {
            Ok(Currency::WST)
        } else if str_eq(s, "xaf") {
            Ok(Currency::XAF)
        } else if str_eq(s, "xcd") {
            Ok(Currency::XCD)
        } else if str_eq(s, "xof") {
            Ok(Currency::XOF)
        } else if str_eq(s, "xpf") {
            Ok(Currency::XPF)
        } else if str_eq(s, "yer") {
            Ok(Currency::YER)
        } else if str_eq(s, "zar") {
            Ok(Currency::ZAR)
        } else if str_eq(s, "zmw") {
            Ok(Currency::ZMW)
        } else {
            Err(StripeParseError)
        }
    }
}

/// Two values of `Currency` with one wire name are the same value, so
/// reading back what `as_str` gives returns the value it was called on.
pub proof fn lemma_currency_wire_names_differ(a: Currency, b: Currency)
    requires
        a.wire_name() == b.wire_name(),
    ensures
        a == b,
{
    reveal_strlit("aed");
    reveal_strlit("afn");
    reveal_strlit("all");
    reveal_strlit("amd");
    reveal_strlit("ang");
    reveal_strlit("aoa");
    reveal_strlit("ars");
    reveal_strlit("aud");
    reveal_strlit("awg");
    reveal_strlit("azn");
    reveal_strlit("bam");
    reveal_strlit("bbd");
    reveal_strlit("bdt");
    reveal_strlit("bgn");
    reveal_strlit("bif");
    reveal_strlit("bmd");
    reveal_strlit("bnd");
    reveal_strlit("bob");
    reveal_strlit("brl");
    reveal_strlit("bsd");
    reveal_strlit("bwp");
    reveal_strlit("bzd");
    reveal_strlit("cad");
    reveal_strlit("cdf");
    reveal_strlit("chf");
    reveal_strlit("clp");
    reveal_strlit("cny");
    reveal_strlit("cop");
    reveal_strlit("crc");
    reveal_strlit("cve");
    reveal_strlit("czk");
    reveal_strlit("djf");
    reveal_strlit("dkk");
    reveal_strlit("dop");
    reveal_strlit("dzd");
    reveal_strlit("egp");
    reveal_strlit("etb");
    reveal_strlit("eur");
    reveal_strlit("fjd");
    reveal_strlit("fkp");
    reveal_strlit("gbp");
    reveal_strlit("gel");
    reveal_strlit("gip");
    reveal_strlit("gmd");
    reveal_strlit("gnf");
    reveal_strlit("gtq");
    reveal_strlit("gyd");
    reveal_strlit("hkd");
    reveal_strlit("hnl");
    reveal_strlit("htg");
    reveal_strlit("huf");
    reveal_strlit("idr");
    reveal_strlit("ils");
    reveal_strlit("inr");
    reveal_strlit("isk");
    reveal_strlit("jmd");
    reveal_strlit("jpy");
    reveal_strlit("kes");
    reveal_strlit("kgs");
    reveal_strlit("khr");
    reveal_strlit("kmf");
    reveal_strlit("krw");
    reveal_strlit("kyd");
    reveal_strlit("kzt");
    reveal_strlit("lak");
    reveal_strlit("lbp");
    reveal_strlit("lkr");
    reveal_strlit("lrd");
    reveal_strlit("lsl");
    reveal_strlit("mad");
    reveal_strlit("mdl");
    reveal_strlit("mga");
    reveal_strlit("mkd");
    reveal_strlit("mnt");
    reveal_strlit("mop");
    reveal_strlit("mur");
    reveal_strlit("mvr");
    reveal_strlit("mwk");
    reveal_strlit("mxn");
    reveal_strlit("myr");
    reveal_strlit("mzn");
    reveal_strlit("nad");
    reveal_strlit("ngn");
    reveal_strlit("nio");
    reveal_strlit("nok");
    reveal_strlit("npr");
    reveal_strlit("nzd");
    reveal_strlit("pab");
    reveal_strlit("pen");
    reveal_strlit("pgk");
    reveal_strlit("php");
    reveal_strlit("pkr");
    reveal_strlit("pln");
    reveal_strlit("pyg");
    reveal_strlit("qar");
    reveal_strlit("ron");
    reveal_strlit("rsd");
    reveal_strlit("rub");
    reveal_strlit("rwf");
    reveal_strlit("sar");
    reveal_strlit("sbd");
    reveal_strlit("scr");
    reveal_strlit("sek");
    reveal_strlit("sgd");
    reveal_strlit("shp");
    reveal_strlit("sos");
    reveal_strlit("srd");
    reveal_strlit("szl");
    reveal_strlit("thb");
    reveal_strlit("tjs");
    reveal_strlit("top");
    reveal_strlit("try");
    reveal_strlit("ttd");
    reveal_strlit("twd");
    reveal_strlit("tzs");
    reveal_strlit("uah");
    reveal_strlit("ugx");
    reveal_strlit("usd");
    reveal_strlit("uyu");
    reveal_strlit("uzs");
    reveal_strlit("vnd");
    reveal_strlit("vuv");
    reveal_strlit("wst");
    reveal_strlit("xaf");
    reveal_strlit("xcd");
    reveal_strlit("xof");
    reveal_strlit("xpf");
    reveal_strlit("yer");
    reveal_strlit("zar");
    reveal_strlit("zmw");
    assert("aed"@[0] == 'a' && "aed"@[1] == 'e');
    assert("afn"@[0] == 'a' && "afn"@[1] == 'f');
    assert("all"@[0] == 'a' && "all"@[1] == 'l');
    assert("amd"@[0] == 'a' && "amd"@[1] == 'm');
    assert("ang"@[0] == 'a' && "ang"@[1] == 'n');
    assert("aoa"@[0] == 'a' && "aoa"@[1] == 'o');
    assert("ars"@[0] == 'a' && "ars"@[1] == 'r');
    assert("aud"@[0] == 'a' && "aud"@[1] == 'u');
    assert("awg"@[0] == 'a' && "awg"@[1] == 'w');
    assert("azn"@[0] == 'a' && "azn"@[1] == 'z');
    assert("bam"@[0] == 'b' && "bam"@[1] == 'a');
    assert("bbd"@[0] == 'b' && "bbd"@[1] == 'b');
    assert("bdt"@[0] == 'b' && "bdt"@[1] == 'd');
    assert("bgn"@[0] == 'b' && "bgn"@[1] == 'g');
    assert("bif"@[0] == 'b' && "bif"@[1] == 'i');
    assert("bmd"@[0] == 'b' && "bmd"@[1] == 'm');
    assert("bnd"@[0] == 'b' && "bnd"@[1] == 'n');
    assert("bob"@[0] == 'b' && "bob"@[1] == 'o');
    assert("brl"@[0] == 'b' && "brl"@[1] == 'r');
    assert("bsd"@[0] == 'b' && "bsd"@[1] == 's');
    assert("bwp"@[0] == 'b' && "bwp"@[1] == 'w');
    assert("bzd"@[0] == 'b' && "bzd"@[1] == 'z');
    assert("cad"@[0] == 'c' && "cad"@[1] == 'a');
    assert("cdf"@[0] == 'c' && "cdf"@[1] == 'd');
    assert("chf"@[0] == 'c' && "chf"@[1] == 'h');
    assert("clp"@[0] == 'c' && "clp"@[1] == 'l');
    assert("cny"@[0] == 'c' && "cny"@[1] == 'n');
    assert("cop"@[0] == 'c' && "cop"@[1] == 'o');
    assert("crc"@[0] == 'c' && "crc"@[1] == 'r');
    assert("cve"@[0] == 'c' && "cve"@[1] == 'v');
    assert("czk"@[0] == 'c' && "czk"@[1] == 'z');
    assert("djf"@[0] == 'd' && "djf"@[1] == 'j');
    assert("dkk"@[0] == 'd' && "dkk"@[1] == 'k');
    assert("dop"@[0] == 'd' && "dop"@[1] == 'o');
    assert("dzd"@[0] == 'd' && "dzd"@[1] == 'z');
    assert("egp"@[0] == 'e' && "egp"@[1] == 'g');
    assert("etb"@[0] == 'e' && "etb"@[1] == 't');
    assert("eur"@[0] == 'e' && "eur"@[1] == 'u');
    assert("fjd"@[0] == 'f' && "fjd"@[1] == 'j');
    assert("fkp"@[0] == 'f' && "fkp"@[1] == 'k');
    assert("gbp"@[0] == 'g' && "gbp"@[1] == 'b');
    assert("gel"@[0] == 'g' && "gel"@[1] == 'e');
    assert("gip"@[0] == 'g' && "gip"@[1] == 'i');
    assert("gmd"@[0] == 'g' && "gmd"@[1] == 'm');
    assert("gnf"@[0] == 'g' && "gnf"@[1] == 'n');
    assert("gtq"@[0] == 'g' && "gtq"@[1] == 't');
    assert("gyd"@[0] == 'g' && "gyd"@[1] == 'y');
    assert("hkd"@[0] == 'h' && "hkd"@[1] == 'k');
    assert("hnl"@[0] == 'h' && "hnl"@[1] == 'n');
    assert("htg"@[0] == 'h' && "htg"@[1] == 't');
    assert("huf"@[0] == 'h' && "huf"@[1] == 'u');
    assert("idr"@[0] == 'i' && "idr"@[1] == 'd');
    assert("ils"@[0] == 'i' && "ils"@[1] == 'l');
    assert("inr"@[0] == 'i' && "inr"@[1] == 'n');
    assert("isk"@[0] == 'i' && "isk"@[1] == 's');
    assert("jmd"@[0] == 'j' && "jmd"@[1] == 'm');
    assert("jpy"@[0] == 'j' && "jpy"@[1] == 'p');
    assert("kes"@[0] == 'k' && "kes"@[1] == 'e');
    assert("kgs"@[0] == 'k' && "kgs"@[1] == 'g');
    assert("khr"@[0] == 'k' && "khr"@[1] == 'h');
    assert("kmf"@[0] == 'k' && "kmf"@[1] == 'm');
    assert("krw"@[0] == 'k' && "krw"@[1] == 'r');
    assert("kyd"@[0] == 'k' && "kyd"@[1] == 'y');
    assert("kzt"@[0] == 'k' && "kzt"@[1] == 'z');
    assert("lak"@[0] == 'l' && "lak"@[1] == 'a');
    assert("lbp"@[0] == 'l' && "lbp"@[1] == 'b');
    assert("lkr"@[0] == 'l' && "lkr"@[1] == 'k');
    assert("lrd"@[0] == 'l' && "lrd"@[1] == 'r');
    assert("lsl"@[0] == 'l' && "lsl"@[1] == 's');
    assert("mad"@[0] == 'm' && "mad"@[1] == 'a');
    assert("mdl"@[0] == 'm' && "mdl"@[1] == 'd');
    assert("mga"@[0] == 'm' && "mga"@[1] == 'g');
    assert("mkd"@[0] == 'm' && "mkd"@[1] == 'k');
    assert("mnt"@[0] == 'm' && "mnt"@[1] == 'n');
    assert("mop"@[0] == 'm' && "mop"@[1] == 'o');
    assert("mur"@[0] == 'm' && "mur"@[1] == 'u');
    assert("mvr"@[0] == 'm' && "mvr"@[1] == 'v');
    assert("mwk"@[0] == 'm' && "mwk"@[1] == 'w');
    assert("mxn"@[0] == 'm' && "mxn"@[1] == 'x');
    assert("myr"@[0] == 'm' && "myr"@[1] == 'y');
    assert("mzn"@[0] == 'm' && "mzn"@[1] == 'z');
    assert("nad"@[0] == 'n' && "nad"@[1] == 'a');
    assert("ngn"@[0] == 'n' && "ngn"@[1] == 'g');
    assert("nio"@[0] == 'n' && "nio"@[1] == 'i');
    assert("nok"@[0] == 'n' && "nok"@[1] == 'o');
    assert("npr"@[0] == 'n' && "npr"@[1] == 'p');
    assert("nzd"@[0] == 'n' && "nzd"@[1] == 'z');
    assert("pab"@[0] == 'p' && "pab"@[1] == 'a');
    assert("pen"@[0] == 'p' && "pen"@[1] == 'e');
    assert("pgk"@[0] == 'p' && "pgk"@[1] == 'g');
    assert("php"@[0] == 'p' && "php"@[1] == 'h');
    assert("pkr"@[0] == 'p' && "pkr"@[1] == 'k');
    assert("pln"@[0] == 'p' && "pln"@[1] == 'l');
    assert("pyg"@[0] == 'p' && "pyg"@[1] == 'y');
    assert("qar"@[0] == 'q' && "qar"@[1] == 'a');
    assert("ron"@[0] == 'r' && "ron"@[1] == 'o');
    assert("rsd"@[0] == 'r' && "rsd"@[1] == 's');
    assert("rub"@[0] == 'r' && "rub"@[1] == 'u');
    assert("rwf"@[0] == 'r' && "rwf"@[1] == 'w');
    assert("sar"@[0] == 's' && "sar"@[1] == 'a');
    assert("sbd"@[0] == 's' && "sbd"@[1] == 'b');
    assert("scr"@[0] == 's' && "scr"@[1] == 'c');
    assert("sek"@[0] == 's' && "sek"@[1] == 'e');
    assert("sgd"@[0] == 's' && "sgd"@[1] == 'g');
    assert("shp"@[0] == 's' && "shp"@[1] == 'h');
    assert("sos"@[0] == 's' && "sos"@[1] == 'o');
    assert("srd"@[0] == 's' && "srd"@[1] == 'r');
    assert("szl"@[0] == 's' && "szl"@[1] == 'z');
    assert("thb"@[0] == 't' && "thb"@[1] == 'h');
    assert("tjs"@[0] == 't' && "tjs"@[1] == 'j');
    assert("top"@[0] == 't' && "top"@[1] == 'o');
    assert("try"@[0] == 't' && "try"@[1] == 'r');
    assert("ttd"@[0] == 't' && "ttd"@[1] == 't');
    assert("twd"@[0] == 't' && "twd"@[1] == 'w');
    assert("tzs"@[0] == 't' && "tzs"@[1] == 'z');
    assert("uah"@[0] == 'u' && "uah"@[1] == 'a');
    assert("ugx"@[0] == 'u' && "ugx"@[1] == 'g');
    assert("usd"@[0] == 'u' && "usd"@[1] == 's');
    assert("uyu"@[0] == 'u' && "uyu"@[1] == 'y');
    assert("uzs"@[0] == 'u' && "uzs"@[1] == 'z');
    assert("vnd"@[0] == 'v' && "vnd"@[1] == 'n');
    assert("vuv"@[0] == 'v' && "vuv"@[1] == 'u');
    assert("wst"@[0] == 'w' && "wst"@[1] == 's');
    assert("xaf"@[0] == 'x' && "xaf"@[1] == 'a');
    assert("xcd"@[0] == 'x' && "xcd"@[1] == 'c');
    assert("xof"@[0] == 'x' && "xof"@[1] == 'o');
    assert("xpf"@[0] == 'x' && "xpf"@[1] == 'p');
    assert("yer"@[0] == 'y' && "yer"@[1] == 'e');
    assert("zar"@[0] == 'z' && "zar"@[1] == 'a');
    assert("zmw"@[0] == 'z' && "zmw"@[1] == 'm');
}

impl DeepView for Currency {
    type V = Currency;

    open spec fn deep_view(&self) -> Currency {
        *self
    }
}

impl FromValueOpt for Currency {
    /// A JSON string that is the wire name of a value decodes to that value.
    open spec fn decoded(json: Json) -> Option<Currency> {
        match json {
            Json::String(s) => if exists|v: Currency| #[trigger] v.wire_name() == s {
                Some(choose|v: Currency| #[trigger] v.wire_name() == s)
            } else {
                None
            },
            _ => None,
        }
    }

    fn from_value(value: &JsonValue) -> (out: Option<Currency>) {
        match value {
            JsonValue::String(s) => match Currency::from_str(s.as_str()) {
                Ok(v) => {
                    proof {
                        let w = choose|w: Currency| #[trigger] w.wire_name() == s@;
                        lemma_currency_wire_names_differ(v, w);
                    }
                    Some(v)
                },
                Err(_) => None,
            },
            _ => None,
        }
    }
}

} // verus!
