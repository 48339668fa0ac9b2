//! Countries by their ISO 3166-1 codes.
use vstd::prelude::*;
use vstd::string::StrSliceExecFns;

verus! {

/// A country, named by its ISO 3166-1 alpha-3 code.
#[derive(Clone, Copy, Debug, PartialEq, Eq, Structural)]
pub enum CountryCode {
    ABW,
    AFG,
    AGO,
    AIA,
    ALA,
    ALB,
    AND,
    ARE,
    ARG,
    ARM,
    ASM,
    ATA,
    ATF,
    ATG,
    AUS,
    AUT,
    AZE,
    BDI,
    BEL,
    BEN,
    BES,
    BFA,
    BGD,
    BGR,
    BHR,
    BHS,
    BIH,
    BLM,
    BLR,
    BLZ,
    BMU,
    BOL,
    BRA,
    BRB,
    BRN,
    BTN,
    BVT,
    BWA,
    CAF,
    CAN,
    CCK,
    CHE,
    CHL,
    CHN,
    CIV,
    CMR,
    COD,
    COG,
    COK,
    COL,
    COM,
    CPV,
    CRI,
    CUB,
    CUW,
    CXR,
    CYM,
    CYP,
    CZE,
    DEU,
    DJI,
    DMA,
    DNK,
    DOM,
    DZA,
    ECU,
    EGY,
    ERI,
    ESH,
    ESP,
    EST,
    ETH,
    FIN,
    FJI,
    FLK,
    FRA,
    FRO,
    FSM,
    GAB,
    GBR,
    GEO,
    GGY,
    GHA,
    GIB,
    GIN,
    GLP,
    GMB,
    GNB,
    GNQ,
    GRC,
    GRD,
    GRL,
    GTM,
    GUF,
    GUM,
    GUY,
    HKG,
    HMD,
    HND,
    HRV,
    HTI,
    HUN,
    IDN,
    IMN,
    IND,
    IOT,
    IRL,
    IRN,
    IRQ,
    ISL,
    ISR,
    ITA,
    JAM,
    JEY,
    JOR,
    JPN,
    KAZ,
    KEN,
    KGZ,
    KHM,
    KIR,
    KNA,
    KOR,
    KWT,
    LAO,
    LBN,
    LBR,
    LBY,
    LCA,
    LIE,
    LKA,
    LSO,
    LTU,
    LUX,
    LVA,
    MAC,
    MAF,
    MAR,
    MCO,
    MDA,
    MDG,
    MDV,
    MEX,
    MHL,
    MKD,
    MLI,
    MLT,
    MMR,
    MNE,
    MNG,
    MNP,
    MOZ,
    MRT,
    MSR,
    MTQ,
    MUS,
    MWI,
    MYS,
    MYT,
    NAM,
    NCL,
    NER,
    NFK,
    NGA,
    NIC,
    NIU,
    NLD,
    NOR,
    NPL,
    NRU,
    NZL,
    OMN,
    PAK,
    PAN,
    PCN,
    PER,
    PHL,
    PLW,
    PNG,
    POL,
    PRI,
    PRK,
    PRT,
    PRY,
    PSE,
    PYF,
    QAT,
    REU,
    ROU,
    RUS,
    RWA,
    SAU,
    SDN,
    SEN,
    SGP,
    SGS,
    SHN,
    SJM,
    SLB,
    SLE,
    SLV,
    SMR,
    SOM,
    SPM,
    SRB,
    SSD,
    STP,
    SUR,
    SVK,
    SVN,
    SWE,
    SWZ,
    SXM,
    SYC,
    SYR,
    TCA,
    TCD,
    TGO,
    THA,
    TJK,
    TKL,
    TKM,
    TLS,
    TON,
    TTO,
    TUN,
    TUR,
    TUV,
    TWN,
    TZA,
    UGA,
    UKR,
    UMI,
    URY,
    USA,
    UZB,
    VAT,
    VCT,
    VEN,
    VGB,
    VIR,
    VNM,
    VUT,
    WLF,
    WSM,
    YEM,
    ZAF,
    ZMB,
    ZWE,
}

/// Why a text is no country code.
#[derive(Clone, Copy, Debug, PartialEq, Eq, Structural)]
pub enum CountryCodeParseError {
    /// The text has neither two nor three characters.
    InvalidLength,
    /// No country goes by the code.
    UnknownCode,
}

impl CountryCode {
    /// The three capitals of the alpha-3 code.
    pub open spec fn alpha3(self) -> (char, char, char) {
        match self {
            CountryCode::ABW => ('A', 'B', 'W'),
            CountryCode::AFG => ('A', 'F', 'G'),
            CountryCode::AGO => ('A', 'G', 'O'),
            CountryCode::AIA => ('A', 'I', 'A'),
            CountryCode::ALA => ('A', 'L', 'A'),
            CountryCode::ALB => ('A', 'L', 'B'),
            CountryCode::AND => ('A', 'N', 'D'),
            CountryCode::ARE => ('A', 'R', 'E'),
            CountryCode::ARG => ('A', 'R', 'G'),
            CountryCode::ARM => ('A', 'R', 'M'),
            CountryCode::ASM => ('A', 'S', 'M'),
            CountryCode::ATA => ('A', 'T', 'A'),
            CountryCode::ATF => ('A', 'T', 'F'),
            CountryCode::ATG => ('A', 'T', 'G'),
            CountryCode::AUS => ('A', 'U', 'S'),
            CountryCode::AUT => ('A', 'U', 'T'),
            CountryCode::AZE => ('A', 'Z', 'E'),
            CountryCode::BDI => ('B', 'D', 'I'),
            CountryCode::BEL => ('B', 'E', 'L'),
            CountryCode::BEN => ('B', 'E', 'N'),
            CountryCode::BES => ('B', 'E', 'S'),
            CountryCode::BFA => ('B', 'F', 'A'),
            CountryCode::BGD => ('B', 'G', 'D'),
            CountryCode::BGR => ('B', 'G', 'R'),
            CountryCode::BHR => ('B', 'H', 'R'),
            CountryCode::BHS => ('B', 'H', 'S'),
            CountryCode::BIH => ('B', 'I', 'H'),
            CountryCode::BLM => ('B', 'L', 'M'),
            CountryCode::BLR => ('B', 'L', 'R'),
            CountryCode::BLZ => ('B', 'L', 'Z'),
            CountryCode::BMU => ('B', 'M', 'U'),
            CountryCode::BOL => ('B', 'O', 'L'),
            CountryCode::BRA => ('B', 'R', 'A'),
            CountryCode::BRB => ('B', 'R', 'B'),
            CountryCode::BRN => ('B', 'R', 'N'),
            CountryCode::BTN => ('B', 'T', 'N'),
            CountryCode::BVT => ('B', 'V', 'T'),
            CountryCode::BWA => ('B', 'W', 'A'),
            CountryCode::CAF => ('C', 'A', 'F'),
            CountryCode::CAN => ('C', 'A', 'N'),
            CountryCode::CCK => ('C', 'C', 'K'),
            CountryCode::CHE => ('C', 'H', 'E'),
            CountryCode::CHL => ('C', 'H', 'L'),
            CountryCode::CHN => ('C', 'H', 'N'),
            CountryCode::CIV => ('C', 'I', 'V'),
            CountryCode::CMR => ('C', 'M', 'R'),
            CountryCode::COD => ('C', 'O', 'D'),
            CountryCode::COG => ('C', 'O', 'G'),
            CountryCode::COK => ('C', 'O', 'K'),
            CountryCode::COL => ('C', 'O', 'L'),
            CountryCode::COM => ('C', 'O', 'M'),
            CountryCode::CPV => ('C', 'P', 'V'),
            CountryCode::CRI => ('C', 'R', 'I'),
            CountryCode::CUB => ('C', 'U', 'B'),
            CountryCode::CUW => ('C', 'U', 'W'),
            CountryCode::CXR => ('C', 'X', 'R'),
            CountryCode::CYM => ('C', 'Y', 'M'),
            CountryCode::CYP => ('C', 'Y', 'P'),
            CountryCode::CZE => ('C', 'Z', 'E'),
            CountryCode::DEU => ('D', 'E', 'U'),
            CountryCode::DJI => ('D', 'J', 'I'),
            CountryCode::DMA => ('D', 'M', 'A'),
            CountryCode::DNK => ('D', 'N', 'K'),
            CountryCode::DOM => ('D', 'O', 'M'),
            CountryCode::DZA => ('D', 'Z', 'A'),
            CountryCode::ECU => ('E', 'C', 'U'),
            CountryCode::EGY => ('E', 'G', 'Y'),
            CountryCode::ERI => ('E', 'R', 'I'),
            CountryCode::ESH => ('E', 'S', 'H'),
            CountryCode::ESP => ('E', 'S', 'P'),
            CountryCode::EST => ('E', 'S', 'T'),
            CountryCode::ETH => ('E', 'T', 'H'),
            CountryCode::FIN => ('F', 'I', 'N'),
            CountryCode::FJI => ('F', 'J', 'I'),
            CountryCode::FLK => ('F', 'L', 'K'),
            CountryCode::FRA => ('F', 'R', 'A'),
            CountryCode::FRO => ('F', 'R', 'O'),
            CountryCode::FSM => ('F', 'S', 'M'),
            CountryCode::GAB => ('G', 'A', 'B'),
            CountryCode::GBR => ('G', 'B', 'R'),
            CountryCode::GEO => ('G', 'E', 'O'),
            CountryCode::GGY => ('G', 'G', 'Y'),
            CountryCode::GHA => ('G', 'H', 'A'),
            CountryCode::GIB => ('G', 'I', 'B'),
            CountryCode::GIN => ('G', 'I', 'N'),
            CountryCode::GLP => ('G', 'L', 'P'),
            CountryCode::GMB => ('G', 'M', 'B'),
            CountryCode::GNB => ('G', 'N', 'B'),
            CountryCode::GNQ => ('G', 'N', 'Q'),
            CountryCode::GRC => ('G', 'R', 'C'),
            CountryCode::GRD => ('G', 'R', 'D'),
            CountryCode::GRL => ('G', 'R', 'L'),
            CountryCode::GTM => ('G', 'T', 'M'),
            CountryCode::GUF => ('G', 'U', 'F'),
            CountryCode::GUM => ('G', 'U', 'M'),
            CountryCode::GUY => ('G', 'U', 'Y'),
            CountryCode::HKG => ('H', 'K', 'G'),
            CountryCode::HMD => ('H', 'M', 'D'),
            CountryCode::HND => ('H', 'N', 'D'),
            CountryCode::HRV => ('H', 'R', 'V'),
            CountryCode::HTI => ('H', 'T', 'I'),
            CountryCode::HUN => ('H', 'U', 'N'),
            CountryCode::IDN => ('I', 'D', 'N'),
            CountryCode::IMN => ('I', 'M', 'N'),
            CountryCode::IND => ('I', 'N', 'D'),
            CountryCode::IOT => ('I', 'O', 'T'),
            CountryCode::IRL => ('I', 'R', 'L'),
            CountryCode::IRN => ('I', 'R', 'N'),
            CountryCode::IRQ => ('I', 'R', 'Q'),
            CountryCode::ISL => ('I', 'S', 'L'),
            CountryCode::ISR => ('I', 'S', 'R'),
            CountryCode::ITA => ('I', 'T', 'A'),
            CountryCode::JAM => ('J', 'A', 'M'),
            CountryCode::JEY => ('J', 'E', 'Y'),
            CountryCode::JOR => ('J', 'O', 'R'),
            CountryCode::JPN => ('J', 'P', 'N'),
            CountryCode::KAZ => ('K', 'A', 'Z'),
            CountryCode::KEN => ('K', 'E', 'N'),
            CountryCode::KGZ => ('K', 'G', 'Z'),
            CountryCode::KHM => ('K', 'H', 'M'),
            CountryCode::KIR => ('K', 'I', 'R'),
            CountryCode::KNA => ('K', 'N', 'A'),
            CountryCode::KOR => ('K', 'O', 'R'),
            CountryCode::KWT => ('K', 'W', 'T'),
            CountryCode::LAO => ('L', 'A', 'O'),
            CountryCode::LBN => ('L', 'B', 'N'),
            CountryCode::LBR => ('L', 'B', 'R'),
            CountryCode::LBY => ('L', 'B', 'Y'),
            CountryCode::LCA => ('L', 'C', 'A'),
            CountryCode::LIE => ('L', 'I', 'E'),
            CountryCode::LKA => ('L', 'K', 'A'),
            CountryCode::LSO => ('L', 'S', 'O'),
            CountryCode::LTU => ('L', 'T', 'U'),
            CountryCode::LUX => ('L', 'U', 'X'),
            CountryCode::LVA => ('L', 'V', 'A'),
            CountryCode::MAC => ('M', 'A', 'C'),
            CountryCode::MAF => ('M', 'A', 'F'),
            CountryCode::MAR => ('M', 'A', 'R'),
            CountryCode::MCO => ('M', 'C', 'O'),
            CountryCode::MDA => ('M', 'D', 'A'),
            CountryCode::MDG => ('M', 'D', 'G'),
            CountryCode::MDV => ('M', 'D', 'V'),
            CountryCode::MEX => ('M', 'E', 'X'),
            CountryCode::MHL => ('M', 'H', 'L'),
            CountryCode::MKD => ('M', 'K', 'D'),
            CountryCode::MLI => ('M', 'L', 'I'),
            CountryCode::MLT => ('M', 'L', 'T'),
            CountryCode::MMR => ('M', 'M', 'R'),
            CountryCode::MNE => ('M', 'N', 'E'),
            CountryCode::MNG => ('M', 'N', 'G'),
            CountryCode::MNP => ('M', 'N', 'P'),
            CountryCode::MOZ => ('M', 'O', 'Z'),
            CountryCode::MRT => ('M', 'R', 'T'),
            CountryCode::MSR => ('M', 'S', 'R'),
            CountryCode::MTQ => ('M', 'T', 'Q'),
            CountryCode::MUS => ('M', 'U', 'S'),
            CountryCode::MWI => ('M', 'W', 'I'),
            CountryCode::MYS => ('M', 'Y', 'S'),
            CountryCode::MYT => ('M', 'Y', 'T'),
            CountryCode::NAM => ('N', 'A', 'M'),
            CountryCode::NCL => ('N', 'C', 'L'),
            CountryCode::NER => ('N', 'E', 'R'),
            CountryCode::NFK => ('N', 'F', 'K'),
            CountryCode::NGA => ('N', 'G', 'A'),
            CountryCode::NIC => ('N', 'I', 'C'),
            CountryCode::NIU => ('N', 'I', 'U'),
            CountryCode::NLD => ('N', 'L', 'D'),
            CountryCode::NOR => ('N', 'O', 'R'),
            CountryCode::NPL => ('N', 'P', 'L'),
            CountryCode::NRU => ('N', 'R', 'U'),
            CountryCode::NZL => ('N', 'Z', 'L'),
            CountryCode::OMN => ('O', 'M', 'N'),
            CountryCode::PAK => ('P', 'A', 'K'),
            CountryCode::PAN => ('P', 'A', 'N'),
            CountryCode::PCN => ('P', 'C', 'N'),
            CountryCode::PER => ('P', 'E', 'R'),
            CountryCode::PHL => ('P', 'H', 'L'),
            CountryCode::PLW => ('P', 'L', 'W'),
            CountryCode::PNG => ('P', 'N', 'G'),
            CountryCode::POL => ('P', 'O', 'L'),
            CountryCode::PRI => ('P', 'R', 'I'),
            CountryCode::PRK => ('P', 'R', 'K'),
            CountryCode::PRT => ('P', 'R', 'T'),
            CountryCode::PRY => ('P', 'R', 'Y'),
            CountryCode::PSE => ('P', 'S', 'E'),
            CountryCode::PYF => ('P', 'Y', 'F'),
            CountryCode::QAT => ('Q', 'A', 'T'),
            CountryCode::REU => ('R', 'E', 'U'),
            CountryCode::ROU => ('R', 'O', 'U'),
            CountryCode::RUS => ('R', 'U', 'S'),
            CountryCode::RWA => ('R', 'W', 'A'),
            CountryCode::SAU => ('S', 'A', 'U'),
            CountryCode::SDN => ('S', 'D', 'N'),
            CountryCode::SEN => ('S', 'E', 'N'),
            CountryCode::SGP => ('S', 'G', 'P'),
            CountryCode::SGS => ('S', 'G', 'S'),
            CountryCode::SHN => ('S', 'H', 'N'),
            CountryCode::SJM => ('S', 'J', 'M'),
            CountryCode::SLB => ('S', 'L', 'B'),
            CountryCode::SLE => ('S', 'L', 'E'),
            CountryCode::SLV => ('S', 'L', 'V'),
            CountryCode::SMR => ('S', 'M', 'R'),
            CountryCode::SOM => ('S', 'O', 'M'),
            CountryCode::SPM => ('S', 'P', 'M'),
            CountryCode::SRB => ('S', 'R', 'B'),
            CountryCode::SSD => ('S', 'S', 'D'),
            CountryCode::STP => ('S', 'T', 'P'),
            CountryCode::SUR => ('S', 'U', 'R'),
            CountryCode::SVK => ('S', 'V', 'K'),
            CountryCode::SVN => ('S', 'V', 'N'),
            CountryCode::SWE => ('S', 'W', 'E'),
            CountryCode::SWZ => ('S', 'W', 'Z'),
            CountryCode::SXM => ('S', 'X', 'M'),
            CountryCode::SYC => ('S', 'Y', 'C'),
            CountryCode::SYR => ('S', 'Y', 'R'),
            CountryCode::TCA => ('T', 'C', 'A'),
            CountryCode::TCD => ('T', 'C', 'D'),
            CountryCode::TGO => ('T', 'G', 'O'),
            CountryCode::THA => ('T', 'H', 'A'),
            CountryCode::TJK => ('T', 'J', 'K'),
            CountryCode::TKL => ('T', 'K', 'L'),
            CountryCode::TKM => ('T', 'K', 'M'),
            CountryCode::TLS => ('T', 'L', 'S'),
            CountryCode::TON => ('T', 'O', 'N'),
            CountryCode::TTO => ('T', 'T', 'O'),
            CountryCode::TUN => ('T', 'U', 'N'),
            CountryCode::TUR => ('T', 'U', 'R'),
            CountryCode::TUV => ('T', 'U', 'V'),
            CountryCode::TWN => ('T', 'W', 'N'),
            CountryCode::TZA => ('T', 'Z', 'A'),
            CountryCode::UGA => ('U', 'G', 'A'),
            CountryCode::UKR => ('U', 'K', 'R'),
            CountryCode::UMI => ('U', 'M', 'I'),
            CountryCode::URY => ('U', 'R', 'Y'),
            CountryCode::USA => ('U', 'S', 'A'),
            CountryCode::UZB => ('U', 'Z', 'B'),
            CountryCode::VAT => ('V', 'A', 'T'),
            CountryCode::VCT => ('V', 'C', 'T'),
            CountryCode::VEN => ('V', 'E', 'N'),
            CountryCode::VGB => ('V', 'G', 'B'),
            CountryCode::VIR => ('V', 'I', 'R'),
            CountryCode::VNM => ('V', 'N', 'M'),
            CountryCode::VUT => ('V', 'U', 'T'),
            CountryCode::WLF => ('W', 'L', 'F'),
            CountryCode::WSM => ('W', 'S', 'M'),
            CountryCode::YEM => ('Y', 'E', 'M'),
            CountryCode::ZAF => ('Z', 'A', 'F'),
            CountryCode::ZMB => ('Z', 'M', 'B'),
            CountryCode::ZWE => ('Z', 'W', 'E'),
        }
    }

    /// The two capitals of the alpha-2 code.
    pub open spec fn alpha2(self) -> (char, char) {
        match self {
            CountryCode::ABW => ('A', 'W'),
            CountryCode::AFG => ('A', 'F'),
            CountryCode::AGO => ('A', 'O'),
            CountryCode::AIA => ('A', 'I'),
            CountryCode::ALA => ('A', 'X'),
            CountryCode::ALB => ('A', 'L'),
            CountryCode::AND => ('A', 'D'),
            CountryCode::ARE => ('A', 'E'),
            CountryCode::ARG => ('A', 'R'),
            CountryCode::ARM => ('A', 'M'),
            CountryCode::ASM => ('A', 'S'),
            CountryCode::ATA => ('A', 'Q'),
            CountryCode::ATF => ('T', 'F'),
            CountryCode::ATG => ('A', 'G'),
            CountryCode::AUS => ('A', 'U'),
            CountryCode::AUT => ('A', 'T'),
            CountryCode::AZE => ('A', 'Z'),
            CountryCode::BDI => ('B', 'I'),
            CountryCode::BEL => ('B', 'E'),
            CountryCode::BEN => ('B', 'J'),
            CountryCode::BES => ('B', 'Q'),
            CountryCode::BFA => ('B', 'F'),
            CountryCode::BGD => ('B', 'D'),
            CountryCode::BGR => ('B', 'G'),
            CountryCode::BHR => ('B', 'H'),
            CountryCode::BHS => ('B', 'S'),
            CountryCode::BIH => ('B', 'A'),
            CountryCode::BLM => ('B', 'L'),
            CountryCode::BLR => ('B', 'Y'),
            CountryCode::BLZ => ('B', 'Z'),
            CountryCode::BMU => ('B', 'M'),
            CountryCode::BOL => ('B', 'O'),
            CountryCode::BRA => ('B', 'R'),
            CountryCode::BRB => ('B', 'B'),
            CountryCode::BRN => ('B', 'N'),
            CountryCode::BTN => ('B', 'T'),
            CountryCode::BVT => ('B', 'V'),
            CountryCode::BWA => ('B', 'W'),
            CountryCode::CAF => ('C', 'F'),
            CountryCode::CAN => ('C', 'A'),
            CountryCode::CCK => ('C', 'C'),
            CountryCode::CHE => ('C', 'H'),
            CountryCode::CHL => ('C', 'L'),
            CountryCode::CHN => ('C', 'N'),
            CountryCode::CIV => ('C', 'I'),
            CountryCode::CMR => ('C', 'M'),
            CountryCode::COD => ('C', 'D'),
            CountryCode::COG => ('C', 'G'),
            CountryCode::COK => ('C', 'K'),
            CountryCode::COL => ('C', 'O'),
            CountryCode::COM => ('K', 'M'),
            CountryCode::CPV => ('C', 'V'),
            CountryCode::CRI => ('C', 'R'),
            CountryCode::CUB => ('C', 'U'),
            CountryCode::CUW => ('C', 'W'),
            CountryCode::CXR => ('C', 'X'),
            CountryCode::CYM => ('K', 'Y'),
            CountryCode::CYP => ('C', 'Y'),
            CountryCode::CZE => ('C', 'Z'),
            CountryCode::DEU => ('D', 'E'),
            CountryCode::DJI => ('D', 'J'),
            CountryCode::DMA => ('D', 'M'),
            CountryCode::DNK => ('D', 'K'),
            CountryCode::DOM => ('D', 'O'),
            CountryCode::DZA => ('D', 'Z'),
            CountryCode::ECU => ('E', 'C'),
            CountryCode::EGY => ('E', 'G'),
            CountryCode::ERI => ('E', 'R'),
            CountryCode::ESH => ('E', 'H'),
            CountryCode::ESP => ('E', 'S'),
            CountryCode::EST => ('E', 'E'),
            CountryCode::ETH => ('E', 'T'),
            CountryCode::FIN => ('F', 'I'),
            CountryCode::FJI => ('F', 'J'),
            CountryCode::FLK => ('F', 'K'),
            CountryCode::FRA => ('F', 'R'),
            CountryCode::FRO => ('F', 'O'),
            CountryCode::FSM => ('F', 'M'),
            CountryCode::GAB => ('G', 'A'),
            CountryCode::GBR => ('G', 'B'),
            CountryCode::GEO => ('G', 'E'),
            CountryCode::GGY => ('G', 'G'),
            CountryCode::GHA => ('G', 'H'),
            CountryCode::GIB => ('G', 'I'),
            CountryCode::GIN => ('G', 'N'),
            CountryCode::GLP => ('G', 'P'),
            CountryCode::GMB => ('G', 'M'),
            CountryCode::GNB => ('G', 'W'),
            CountryCode::GNQ => ('G', 'Q'),
            CountryCode::GRC => ('G', 'R'),
            CountryCode::GRD => ('G', 'D'),
            CountryCode::GRL => ('G', 'L'),
            CountryCode::GTM => ('G', 'T'),
            CountryCode::GUF => ('G', 'F'),
            CountryCode::GUM => ('G', 'U'),
            CountryCode::GUY => ('G', 'Y'),
            CountryCode::HKG => ('H', 'K'),
            CountryCode::HMD => ('H', 'M'),
            CountryCode::HND => ('H', 'N'),
            CountryCode::HRV => ('H', 'R'),
            CountryCode::HTI => ('H', 'T'),
            CountryCode::HUN => ('H', 'U'),
            CountryCode::IDN => ('I', 'D'),
            CountryCode::IMN => ('I', 'M'),
            CountryCode::IND => ('I', 'N'),
            CountryCode::IOT => ('I', 'O'),
            CountryCode::IRL => ('I', 'E'),
            CountryCode::IRN => ('I', 'R'),
            CountryCode::IRQ => ('I', 'Q'),
            CountryCode::ISL => ('I', 'S'),
            CountryCode::ISR => ('I', 'L'),
            CountryCode::ITA => ('I', 'T'),
            CountryCode::JAM => ('J', 'M'),
            CountryCode::JEY => ('J', 'E'),
            CountryCode::JOR => ('J', 'O'),
            CountryCode::JPN => ('J', 'P'),
            CountryCode::KAZ => ('K', 'Z'),
            CountryCode::KEN => ('K', 'E'),
            CountryCode::KGZ => ('K', 'G'),
            CountryCode::KHM => ('K', 'H'),
            CountryCode::KIR => ('K', 'I'),
            CountryCode::KNA => ('K', 'N'),
            CountryCode::KOR => ('K', 'R'),
            CountryCode::KWT => ('K', 'W'),
            CountryCode::LAO => ('L', 'A'),
            CountryCode::LBN => ('L', 'B'),
            CountryCode::LBR => ('L', 'R'),
            CountryCode::LBY => ('L', 'Y'),
            CountryCode::LCA => ('L', 'C'),
            CountryCode::LIE => ('L', 'I'),
            CountryCode::LKA => ('L', 'K'),
            CountryCode::LSO => ('L', 'S'),
            CountryCode::LTU => ('L', 'T'),
            CountryCode::LUX => ('L', 'U'),
            CountryCode::LVA => ('L', 'V'),
            CountryCode::MAC => ('M', 'O'),
            CountryCode::MAF => ('M', 'F'),
            CountryCode::MAR => ('M', 'A'),
            CountryCode::MCO => ('M', 'C'),
            CountryCode::MDA => ('M', 'D'),
            CountryCode::MDG => ('M', 'G'),
            CountryCode::MDV => ('M', 'V'),
            CountryCode::MEX => ('M', 'X'),
            CountryCode::MHL => ('M', 'H'),
            CountryCode::MKD => ('M', 'K'),
            CountryCode::MLI => ('M', 'L'),
            CountryCode::MLT => ('M', 'T'),
            CountryCode::MMR => ('M', 'M'),
            CountryCode::MNE => ('M', 'E'),
            CountryCode::MNG => ('M', 'N'),
            CountryCode::MNP => ('M', 'P'),
            CountryCode::MOZ => ('M', 'Z'),
            CountryCode::MRT => ('M', 'R'),
            CountryCode::MSR => ('M', 'S'),
            CountryCode::MTQ => ('M', 'Q'),
            CountryCode::MUS => ('M', 'U'),
            CountryCode::MWI => ('M', 'W'),
            CountryCode::MYS => ('M', 'Y'),
            CountryCode::MYT => ('Y', 'T'),
            CountryCode::NAM => ('N', 'A'),
            CountryCode::NCL => ('N', 'C'),
            CountryCode::NER => ('N', 'E'),
            CountryCode::NFK => ('N', 'F'),
            CountryCode::NGA => ('N', 'G'),
            CountryCode::NIC => ('N', 'I'),
            CountryCode::NIU => ('N', 'U'),
            CountryCode::NLD => ('N', 'L'),
            CountryCode::NOR => ('N', 'O'),
            CountryCode::NPL => ('N', 'P'),
            CountryCode::NRU => ('N', 'R'),
            CountryCode::NZL => ('N', 'Z'),
            CountryCode::OMN => ('O', 'M'),
            CountryCode::PAK => ('P', 'K'),
            CountryCode::PAN => ('P', 'A'),
            CountryCode::PCN => ('P', 'N'),
            CountryCode::PER => ('P', 'E'),
            CountryCode::PHL => ('P', 'H'),
            CountryCode::PLW => ('P', 'W'),
            CountryCode::PNG => ('P', 'G'),
            CountryCode::POL => ('P', 'L'),
            CountryCode::PRI => ('P', 'R'),
            CountryCode::PRK => ('K', 'P'),
            CountryCode::PRT => ('P', 'T'),
            CountryCode::PRY => ('P', 'Y'),
            CountryCode::PSE => ('P', 'S'),
            CountryCode::PYF => ('P', 'F'),
            CountryCode::QAT => ('Q', 'A'),
            CountryCode::REU => ('R', 'E'),
            CountryCode::ROU => ('R', 'O'),
            CountryCode::RUS => ('R', 'U'),
            CountryCode::RWA => ('R', 'W'),
            CountryCode::SAU => ('S', 'A'),
            CountryCode::SDN => ('S', 'D'),
            CountryCode::SEN => ('S', 'N'),
            CountryCode::SGP => ('S', 'G'),
            CountryCode::SGS => ('G', 'S'),
            CountryCode::SHN => ('S', 'H'),
            CountryCode::SJM => ('S', 'J'),
            CountryCode::SLB => ('S', 'B'),
            CountryCode::SLE => ('S', 'L'),
            CountryCode::SLV => ('S', 'V'),
            CountryCode::SMR => ('S', 'M'),
            CountryCode::SOM => ('S', 'O'),
            CountryCode::SPM => ('P', 'M'),
            CountryCode::SRB => ('R', 'S'),
            CountryCode::SSD => ('S', 'S'),
            CountryCode::STP => ('S', 'T'),
            CountryCode::SUR => ('S', 'R'),
            CountryCode::SVK => ('S', 'K'),
            CountryCode::SVN => ('S', 'I'),
            CountryCode::SWE => ('S', 'E'),
            CountryCode::SWZ => ('S', 'Z'),
            CountryCode::SXM => ('S', 'X'),
            CountryCode::SYC => ('S', 'C'),
            CountryCode::SYR => ('S', 'Y'),
            CountryCode::TCA => ('T', 'C'),
            CountryCode::TCD => ('T', 'D'),
            CountryCode::TGO => ('T', 'G'),
            CountryCode::THA => ('T', 'H'),
            CountryCode::TJK => ('T', 'J'),
            CountryCode::TKL => ('T', 'K'),
            CountryCode::TKM => ('T', 'M'),
            CountryCode::TLS => ('T', 'L'),
            CountryCode::TON => ('T', 'O'),
            CountryCode::TTO => ('T', 'T'),
            CountryCode::TUN => ('T', 'N'),
            CountryCode::TUR => ('T', 'R'),
            CountryCode::TUV => ('T', 'V'),
            CountryCode::TWN => ('T', 'W'),
            CountryCode::TZA => ('T', 'Z'),
            CountryCode::UGA => ('U', 'G'),
            CountryCode::UKR => ('U', 'A'),
            CountryCode::UMI => ('U', 'M'),
            CountryCode::URY => ('U', 'Y'),
            CountryCode::USA => ('U', 'S'),
            CountryCode::UZB => ('U', 'Z'),
            CountryCode::VAT => ('V', 'A'),
            CountryCode::VCT => ('V', 'C'),
            CountryCode::VEN => ('V', 'E'),
            CountryCode::VGB => ('V', 'G'),
            CountryCode::VIR => ('V', 'I'),
            CountryCode::VNM => ('V', 'N'),
            CountryCode::VUT => ('V', 'U'),
            CountryCode::WLF => ('W', 'F'),
            CountryCode::WSM => ('W', 'S'),
            CountryCode::YEM => ('Y', 'E'),
            CountryCode::ZAF => ('Z', 'A'),
            CountryCode::ZMB => ('Z', 'M'),
            CountryCode::ZWE => ('Z', 'W'),
        }
    }

    /// The country that a text names: by its alpha-2 code where the text has
    /// two characters, by its alpha-3 code where it has three. Only capitals
    /// name a country.
    pub open spec fn named(text: Seq<char>) -> Option<CountryCode> {
        if text.len() == 3 && exists|country: CountryCode|
            country.alpha3() == (text[0], text[1], text[2]) {
            Some(choose|country: CountryCode| country.alpha3() == (text[0], text[1], text[2]))
        } else if text.len() == 2 && exists|country: CountryCode|
            country.alpha2() == (text[0], text[1]) {
            Some(choose|country: CountryCode| country.alpha2() == (text[0], text[1]))
        } else {
            None
        }
    }

    /// The country with the alpha-3 code `a`, `b`, `c`.
    #[verifier::rlimit(40)]
    pub fn from_alpha3(a: char, b: char, c: char) -> (country: Option<CountryCode>)
        ensures
            country matches Some(country) ==> country.alpha3() == (a, b, c),
            country is None ==> forall|other: CountryCode| other.alpha3() != (a, b, c),
    {
        match (a, b, c) {
            ('A', 'B', 'W') => Some(CountryCode::ABW),
            ('A', 'F', 'G') => Some(CountryCode::AFG),
            ('A', 'G', 'O') => Some(CountryCode::AGO),
            ('A', 'I', 'A') => Some(CountryCode::AIA),
            ('A', 'L', 'A') => Some(CountryCode::ALA),
            ('A', 'L', 'B') => Some(CountryCode::ALB),
            ('A', 'N', 'D') => Some(CountryCode::AND),
            ('A', 'R', 'E') => Some(CountryCode::ARE),
            ('A', 'R', 'G') => Some(CountryCode::ARG),
            ('A', 'R', 'M') => Some(CountryCode::ARM),
            ('A', 'S', 'M') => Some(CountryCode::ASM),
            ('A', 'T', 'A') => Some(CountryCode::ATA),
            ('A', 'T', 'F') => Some(CountryCode::ATF),
            ('A', 'T', 'G') => Some(CountryCode::ATG),
            ('A', 'U', 'S') => Some(CountryCode::AUS),
            ('A', 'U', 'T') => Some(CountryCode::AUT),
            ('A', 'Z', 'E') => Some(CountryCode::AZE),
            ('B', 'D', 'I') => Some(CountryCode::BDI),
            ('B', 'E', 'L') => Some(CountryCode::BEL),
            ('B', 'E', 'N') => Some(CountryCode::BEN),
            ('B', 'E', 'S') => Some(CountryCode::BES),
            ('B', 'F', 'A') => Some(CountryCode::BFA),
            ('B', 'G', 'D') => Some(CountryCode::BGD),
            ('B', 'G', 'R') => Some(CountryCode::BGR),
            ('B', 'H', 'R') => Some(CountryCode::BHR),
            ('B', 'H', 'S') => Some(CountryCode::BHS),
            ('B', 'I', 'H') => Some(CountryCode::BIH),
            ('B', 'L', 'M') => Some(CountryCode::BLM),
            ('B', 'L', 'R') => Some(CountryCode::BLR),
            ('B', 'L', 'Z') => Some(CountryCode::BLZ),
            ('B', 'M', 'U') => Some(CountryCode::BMU),
            ('B', 'O', 'L') => Some(CountryCode::BOL),
            ('B', 'R', 'A') => Some(CountryCode::BRA),
            ('B', 'R', 'B') => Some(CountryCode::BRB),
            ('B', 'R', 'N') => Some(CountryCode::BRN),
            ('B', 'T', 'N') => Some(CountryCode::BTN),
            ('B', 'V', 'T') => Some(CountryCode::BVT),
            ('B', 'W', 'A') => Some(CountryCode::BWA),
            ('C', 'A', 'F') => Some(CountryCode::CAF),
            ('C', 'A', 'N') => Some(CountryCode::CAN),
            ('C', 'C', 'K') => Some(CountryCode::CCK),
            ('C', 'H', 'E') => Some(CountryCode::CHE),
            ('C', 'H', 'L') => Some(CountryCode::CHL),
            ('C', 'H', 'N') => Some(CountryCode::CHN),
            ('C', 'I', 'V') => Some(CountryCode::CIV),
            ('C', 'M', 'R') => Some(CountryCode::CMR),
            ('C', 'O', 'D') => Some(CountryCode::COD),
            ('C', 'O', 'G') => Some(CountryCode::COG),
            ('C', 'O', 'K') => Some(CountryCode::COK),
            ('C', 'O', 'L') => Some(CountryCode::COL),
            ('C', 'O', 'M') => Some(CountryCode::COM),
            ('C', 'P', 'V') => Some(CountryCode::CPV),
            ('C', 'R', 'I') => Some(CountryCode::CRI),
            ('C', 'U', 'B') => Some(CountryCode::CUB),
            ('C', 'U', 'W') => Some(CountryCode::CUW),
            ('C', 'X', 'R') => Some(CountryCode::CXR),
            ('C', 'Y', 'M') => Some(CountryCode::CYM),
            ('C', 'Y', 'P') => Some(CountryCode::CYP),
            ('C', 'Z', 'E') => Some(CountryCode::CZE),
            ('D', 'E', 'U') => Some(CountryCode::DEU),
            ('D', 'J', 'I') => Some(CountryCode::DJI),
            ('D', 'M', 'A') => Some(CountryCode::DMA),
            ('D', 'N', 'K') => Some(CountryCode::DNK),
            ('D', 'O', 'M') => Some(CountryCode::DOM),
            ('D', 'Z', 'A') => Some(CountryCode::DZA),
            ('E', 'C', 'U') => Some(CountryCode::ECU),
            ('E', 'G', 'Y') => Some(CountryCode::EGY),
            ('E', 'R', 'I') => Some(CountryCode::ERI),
            ('E', 'S', 'H') => Some(CountryCode::ESH),
            ('E', 'S', 'P') => Some(CountryCode::ESP),
            ('E', 'S', 'T') => Some(CountryCode::EST),
            ('E', 'T', 'H') => Some(CountryCode::ETH),
            ('F', 'I', 'N') => Some(CountryCode::FIN),
            ('F', 'J', 'I') => Some(CountryCode::FJI),
            ('F', 'L', 'K') => Some(CountryCode::FLK),
            ('F', 'R', 'A') => Some(CountryCode::FRA),
            ('F', 'R', 'O') => Some(CountryCode::FRO),
            ('F', 'S', 'M') => Some(CountryCode::FSM),
            ('G', 'A', 'B') => Some(CountryCode::GAB),
            ('G', 'B', 'R') => Some(CountryCode::GBR),
            ('G', 'E', 'O') => Some(CountryCode::GEO),
            ('G', 'G', 'Y') => Some(CountryCode::GGY),
            ('G', 'H', 'A') => Some(CountryCode::GHA),
            ('G', 'I', 'B') => Some(CountryCode::GIB),
            ('G', 'I', 'N') => Some(CountryCode::GIN),
            ('G', 'L', 'P') => Some(CountryCode::GLP),
            ('G', 'M', 'B') => Some(CountryCode::GMB),
            ('G', 'N', 'B') => Some(CountryCode::GNB),
            ('G', 'N', 'Q') => Some(CountryCode::GNQ),
            ('G', 'R', 'C') => Some(CountryCode::GRC),
            ('G', 'R', 'D') => Some(CountryCode::GRD),
            ('G', 'R', 'L') => Some(CountryCode::GRL),
            ('G', 'T', 'M') => Some(CountryCode::GTM),
            ('G', 'U', 'F') => Some(CountryCode::GUF),
            ('G', 'U', 'M') => Some(CountryCode::GUM),
            ('G', 'U', 'Y') => Some(CountryCode::GUY),
            ('H', 'K', 'G') => Some(CountryCode::HKG),
            ('H', 'M', 'D') => Some(CountryCode::HMD),
            ('H', 'N', 'D') => Some(CountryCode::HND),
            ('H', 'R', 'V') => Some(CountryCode::HRV),
            ('H', 'T', 'I') => Some(CountryCode::HTI),
            ('H', 'U', 'N') => Some(CountryCode::HUN),
            ('I', 'D', 'N') => Some(CountryCode::IDN),
            ('I', 'M', 'N') => Some(CountryCode::IMN),
            ('I', 'N', 'D') => Some(CountryCode::IND),
            ('I', 'O', 'T') => Some(CountryCode::IOT),
            ('I', 'R', 'L') => Some(CountryCode::IRL),
            ('I', 'R', 'N') => Some(CountryCode::IRN),
            ('I', 'R', 'Q') => Some(CountryCode::IRQ),
            ('I', 'S', 'L') => Some(CountryCode::ISL),
            ('I', 'S', 'R') => Some(CountryCode::ISR),
            ('I', 'T', 'A') => Some(CountryCode::ITA),
            ('J', 'A', 'M') => Some(CountryCode::JAM),
            ('J', 'E', 'Y') => Some(CountryCode::JEY),
            ('J', 'O', 'R') => Some(CountryCode::JOR),
            ('J', 'P', 'N') => Some(CountryCode::JPN),
            ('K', 'A', 'Z') => Some(CountryCode::KAZ),
            ('K', 'E', 'N') => Some(CountryCode::KEN),
            ('K', 'G', 'Z') => Some(CountryCode::KGZ),
            ('K', 'H', 'M') => Some(CountryCode::KHM),
            ('K', 'I', 'R') => Some(CountryCode::KIR),
            ('K', 'N', 'A') => Some(CountryCode::KNA),
            ('K', 'O', 'R') => Some(CountryCode::KOR),
            ('K', 'W', 'T') => Some(CountryCode::KWT),
            ('L', 'A', 'O') => Some(CountryCode::LAO),
            ('L', 'B', 'N') => Some(CountryCode::LBN),
            ('L', 'B', 'R') => Some(CountryCode::LBR),
            ('L', 'B', 'Y') => Some(CountryCode::LBY),
            ('L', 'C', 'A') => Some(CountryCode::LCA),
            ('L', 'I', 'E') => Some(CountryCode::LIE),
            ('L', 'K', 'A') => Some(CountryCode::LKA),
            ('L', 'S', 'O') => Some(CountryCode::LSO),
            ('L', 'T', 'U') => Some(CountryCode::LTU),
            ('L', 'U', 'X') => Some(CountryCode::LUX),
            ('L', 'V', 'A') => Some(CountryCode::LVA),
            ('M', 'A', 'C') => Some(CountryCode::MAC),
            ('M', 'A', 'F') => Some(CountryCode::MAF),
            ('M', 'A', 'R') => Some(CountryCode::MAR),
            ('M', 'C', 'O') => Some(CountryCode::MCO),
            ('M', 'D', 'A') => Some(CountryCode::MDA),
            ('M', 'D', 'G') => Some(CountryCode::MDG),
            ('M', 'D', 'V') => Some(CountryCode::MDV),
            ('M', 'E', 'X') => Some(CountryCode::MEX),
            ('M', 'H', 'L') => Some(CountryCode::MHL),
            ('M', 'K', 'D') => Some(CountryCode::MKD),
            ('M', 'L', 'I') => Some(CountryCode::MLI),
            ('M', 'L', 'T') => Some(CountryCode::MLT),
            ('M', 'M', 'R') => Some(CountryCode::MMR),
            ('M', 'N', 'E') => Some(CountryCode::MNE),
            ('M', 'N', 'G') => Some(CountryCode::MNG),
            ('M', 'N', 'P') => Some(CountryCode::MNP),
            ('M', 'O', 'Z') => Some(CountryCode::MOZ),
            ('M', 'R', 'T') => Some(CountryCode::MRT),
            ('M', 'S', 'R') => Some(CountryCode::MSR),
            ('M', 'T', 'Q') => Some(CountryCode::MTQ),
            ('M', 'U', 'S') => Some(CountryCode::MUS),
            ('M', 'W', 'I') => Some(CountryCode::MWI),
            ('M', 'Y', 'S') => Some(CountryCode::MYS),
            ('M', 'Y', 'T') => Some(CountryCode::MYT),
            ('N', 'A', 'M') => Some(CountryCode::NAM),
            ('N', 'C', 'L') => Some(CountryCode::NCL),
            ('N', 'E', 'R') => Some(CountryCode::NER),
            ('N', 'F', 'K') => Some(CountryCode::NFK),
            ('N', 'G', 'A') => Some(CountryCode::NGA),
            ('N', 'I', 'C') => Some(CountryCode::NIC),
            ('N', 'I', 'U') => Some(CountryCode::NIU),
            ('N', 'L', 'D') => Some(CountryCode::NLD),
            ('N', 'O', 'R') => Some(CountryCode::NOR),
            ('N', 'P', 'L') => Some(CountryCode::NPL),
            ('N', 'R', 'U') => Some(CountryCode::NRU),
            ('N', 'Z', 'L') => Some(CountryCode::NZL),
            ('O', 'M', 'N') => Some(CountryCode::OMN),
            ('P', 'A', 'K') => Some(CountryCode::PAK),
            ('P', 'A', 'N') => Some(CountryCode::PAN),
            ('P', 'C', 'N') => Some(CountryCode::PCN),
            ('P', 'E', 'R') => Some(CountryCode::PER),
            ('P', 'H', 'L') => Some(CountryCode::PHL),
            ('P', 'L', 'W') => Some(CountryCode::PLW),
            ('P', 'N', 'G') => Some(CountryCode::PNG),
            ('P', 'O', 'L') => Some(CountryCode::POL),
            ('P', 'R', 'I') => Some(CountryCode::PRI),
            ('P', 'R', 'K') => Some(CountryCode::PRK),
            ('P', 'R', 'T') => Some(CountryCode::PRT),
            ('P', 'R', 'Y') => Some(CountryCode::PRY),
            ('P', 'S', 'E') => Some(CountryCode::PSE),
            ('P', 'Y', 'F') => Some(CountryCode::PYF),
            ('Q', 'A', 'T') => Some(CountryCode::QAT),
            ('R', 'E', 'U') => Some(CountryCode::REU),
            ('R', 'O', 'U') => Some(CountryCode::ROU),
            ('R', 'U', 'S') => Some(CountryCode::RUS),
            ('R', 'W', 'A') => Some(CountryCode::RWA),
            ('S', 'A', 'U') => Some(CountryCode::SAU),
            ('S', 'D', 'N') => Some(CountryCode::SDN),
            ('S', 'E', 'N') => Some(CountryCode::SEN),
            ('S', 'G', 'P') => Some(CountryCode::SGP),
            ('S', 'G', 'S') => Some(CountryCode::SGS),
            ('S', 'H', 'N') => Some(CountryCode::SHN),
            ('S', 'J', 'M') => Some(CountryCode::SJM),
            ('S', 'L', 'B') => Some(CountryCode::SLB),
            ('S', 'L', 'E') => Some(CountryCode::SLE),
            ('S', 'L', 'V') => Some(CountryCode::SLV),
            ('S', 'M', 'R') => Some(CountryCode::SMR),
            ('S', 'O', 'M') => Some(CountryCode::SOM),
            ('S', 'P', 'M') => Some(CountryCode::SPM),
            ('S', 'R', 'B') => Some(CountryCode::SRB),
            ('S', 'S', 'D') => Some(CountryCode::SSD),
            ('S', 'T', 'P') => Some(CountryCode::STP),
            ('S', 'U', 'R') => Some(CountryCode::SUR),
            ('S', 'V', 'K') => Some(CountryCode::SVK),
            ('S', 'V', 'N') => Some(CountryCode::SVN),
            ('S', 'W', 'E') => Some(CountryCode::SWE),
            ('S', 'W', 'Z') => Some(CountryCode::SWZ),
            ('S', 'X', 'M') => Some(CountryCode::SXM),
            ('S', 'Y', 'C') => Some(CountryCode::SYC),
            ('S', 'Y', 'R') => Some(CountryCode::SYR),
            ('T', 'C', 'A') => Some(CountryCode::TCA),
            ('T', 'C', 'D') => Some(CountryCode::TCD),
            ('T', 'G', 'O') => Some(CountryCode::TGO),
            ('T', 'H', 'A') => Some(CountryCode::THA),
            ('T', 'J', 'K') => Some(CountryCode::TJK),
            ('T', 'K', 'L') => Some(CountryCode::TKL),
            ('T', 'K', 'M') => Some(CountryCode::TKM),
            ('T', 'L', 'S') => Some(CountryCode::TLS),
            ('T', 'O', 'N') => Some(CountryCode::TON),
            ('T', 'T', 'O') => Some(CountryCode::TTO),
            ('T', 'U', 'N') => Some(CountryCode::TUN),
            ('T', 'U', 'R') => Some(CountryCode::TUR),
            ('T', 'U', 'V') => Some(CountryCode::TUV),
            ('T', 'W', 'N') => Some(CountryCode::TWN),
            ('T', 'Z', 'A') => Some(CountryCode::TZA),
            ('U', 'G', 'A') => Some(CountryCode::UGA),
            ('U', 'K', 'R') => Some(CountryCode::UKR),
            ('U', 'M', 'I') => Some(CountryCode::UMI),
            ('U', 'R', 'Y') => Some(CountryCode::URY),
            ('U', 'S', 'A') => Some(CountryCode::USA),
            ('U', 'Z', 'B') => Some(CountryCode::UZB),
            ('V', 'A', 'T') => Some(CountryCode::VAT),
            ('V', 'C', 'T') => Some(CountryCode::VCT),
            ('V', 'E', 'N') => Some(CountryCode::VEN),
            ('V', 'G', 'B') => Some(CountryCode::VGB),
            ('V', 'I', 'R') => Some(CountryCode::VIR),
            ('V', 'N', 'M') => Some(CountryCode::VNM),
            ('V', 'U', 'T') => Some(CountryCode::VUT),
            ('W', 'L', 'F') => Some(CountryCode::WLF),
            ('W', 'S', 'M') => Some(CountryCode::WSM),
            ('Y', 'E', 'M') => Some(CountryCode::YEM),
            ('Z', 'A', 'F') => Some(CountryCode::ZAF),
            ('Z', 'M', 'B') => Some(CountryCode::ZMB),
            ('Z', 'W', 'E') => Some(CountryCode::ZWE),
            _ => None,
        }
    }

    /// The country with the alpha-2 code `a`, `b`.
    #[verifier::rlimit(40)]
    pub fn from_alpha2(a: char, b: char) -> (country: Option<CountryCode>)
        ensures
            country matches Some(country) ==> country.alpha2() == (a, b),
            country is None ==> forall|other: CountryCode| other.alpha2() != (a, b),
    {
        match (a, b) {
            ('A', 'D') => Some(CountryCode::AND),
            ('A', 'E') => Some(CountryCode::ARE),
            ('A', 'F') => Some(CountryCode::AFG),
            ('A', 'G') => Some(CountryCode::ATG),
            ('A', 'I') => Some(CountryCode::AIA),
            ('A', 'L') => Some(CountryCode::ALB),
            ('A', 'M') => Some(CountryCode::ARM),
            ('A', 'O') => Some(CountryCode::AGO),
            ('A', 'Q') => Some(CountryCode::ATA),
            ('A', 'R') => Some(CountryCode::ARG),
            ('A', 'S') => Some(CountryCode::ASM),
            ('A', 'T') => Some(CountryCode::AUT),
            ('A', 'U') => Some(CountryCode::AUS),
            ('A', 'W') => Some(CountryCode::ABW),
            ('A', 'X') => Some(CountryCode::ALA),
            ('A', 'Z') => Some(CountryCode::AZE),
            ('B', 'A') => Some(CountryCode::BIH),
            ('B', 'B') => Some(CountryCode::BRB),
            ('B', 'D') => Some(CountryCode::BGD),
            ('B', 'E') => Some(CountryCode::BEL),
            ('B', 'F') => Some(CountryCode::BFA),
            ('B', 'G') => Some(CountryCode::BGR),
            ('B', 'H') => Some(CountryCode::BHR),
            ('B', 'I') => Some(CountryCode::BDI),
            ('B', 'J') => Some(CountryCode::BEN),
            ('B', 'L') => Some(CountryCode::BLM),
            ('B', 'M') => Some(CountryCode::BMU),
            ('B', 'N') => Some(CountryCode::BRN),
            ('B', 'O') => Some(CountryCode::BOL),
            ('B', 'Q') => Some(CountryCode::BES),
            ('B', 'R') => Some(CountryCode::BRA),
            ('B', 'S') => Some(CountryCode::BHS),
            ('B', 'T') => Some(CountryCode::BTN),
            ('B', 'V') => Some(CountryCode::BVT),
            ('B', 'W') => Some(CountryCode::BWA),
            ('B', 'Y') => Some(CountryCode::BLR),
            ('B', 'Z') => Some(CountryCode::BLZ),
            ('C', 'A') => Some(CountryCode::CAN),
            ('C', 'C') => Some(CountryCode::CCK),
            ('C', 'D') => Some(CountryCode::COD),
            ('C', 'F') => Some(CountryCode::CAF),
            ('C', 'G') => Some(CountryCode::COG),
            ('C', 'H') => Some(CountryCode::CHE),
            ('C', 'I') => Some(CountryCode::CIV),
            ('C', 'K') => Some(CountryCode::COK),
            ('C', 'L') => Some(CountryCode::CHL),
            ('C', 'M') => Some(CountryCode::CMR),
            ('C', 'N') => Some(CountryCode::CHN),
            ('C', 'O') => Some(CountryCode::COL),
            ('C', 'R') => Some(CountryCode::CRI),
            ('C', 'U') => Some(CountryCode::CUB),
            ('C', 'V') => Some(CountryCode::CPV),
            ('C', 'W') => Some(CountryCode::CUW),
            ('C', 'X') => Some(CountryCode::CXR),
            ('C', 'Y') => Some(CountryCode::CYP),
            ('C', 'Z') => Some(CountryCode::CZE),
            ('D', 'E') => Some(CountryCode::DEU),
            ('D', 'J') => Some(CountryCode::DJI),
            ('D', 'K') => Some(CountryCode::DNK),
            ('D', 'M') => Some(CountryCode::DMA),
            ('D', 'O') => Some(CountryCode::DOM),
            ('D', 'Z') => Some(CountryCode::DZA),
            ('E', 'C') => Some(CountryCode::ECU),
            ('E', 'E') => Some(CountryCode::EST),
            ('E', 'G') => Some(CountryCode::EGY),
            ('E', 'H') => Some(CountryCode::ESH),
            ('E', 'R') => Some(CountryCode::ERI),
            ('E', 'S') => Some(CountryCode::ESP),
            ('E', 'T') => Some(CountryCode::ETH),
            ('F', 'I') => Some(CountryCode::FIN),
            ('F', 'J') => Some(CountryCode::FJI),
            ('F', 'K') => Some(CountryCode::FLK),
            ('F', 'M') => Some(CountryCode::FSM),
            ('F', 'O') => Some(CountryCode::FRO),
            ('F', 'R') => Some(CountryCode::FRA),
            ('G', 'A') => Some(CountryCode::GAB),
            ('G', 'B') => Some(CountryCode::GBR),
            ('G', 'D') => Some(CountryCode::GRD),
            ('G', 'E') => Some(CountryCode::GEO),
            ('G', 'F') => Some(CountryCode::GUF),
            ('G', 'G') => Some(CountryCode::GGY),
            ('G', 'H') => Some(CountryCode::GHA),
            ('G', 'I') => Some(CountryCode::GIB),
            ('G', 'L') => Some(CountryCode::GRL),
            ('G', 'M') => Some(CountryCode::GMB),
            ('G', 'N') => Some(CountryCode::GIN),
            ('G', 'P') => Some(CountryCode::GLP),
            ('G', 'Q') => Some(CountryCode::GNQ),
            ('G', 'R') => Some(CountryCode::GRC),
            ('G', 'S') => Some(CountryCode::SGS),
            ('G', 'T') => Some(CountryCode::GTM),
            ('G', 'U') => Some(CountryCode::GUM),
            ('G', 'W') => Some(CountryCode::GNB),
            ('G', 'Y') => Some(CountryCode::GUY),
            ('H', 'K') => Some(CountryCode::HKG),
            ('H', 'M') => Some(CountryCode::HMD),
            ('H', 'N') => Some(CountryCode::HND),
            ('H', 'R') => Some(CountryCode::HRV),
            ('H', 'T') => Some(CountryCode::HTI),
            ('H', 'U') => Some(CountryCode::HUN),
            ('I', 'D') => Some(CountryCode::IDN),
            ('I', 'E') => Some(CountryCode::IRL),
            ('I', 'L') => Some(CountryCode::ISR),
            ('I', 'M') => Some(CountryCode::IMN),
            ('I', 'N') => Some(CountryCode::IND),
            ('I', 'O') => Some(CountryCode::IOT),
            ('I', 'Q') => Some(CountryCode::IRQ),
            ('I', 'R') => Some(CountryCode::IRN),
            ('I', 'S') => Some(CountryCode::ISL),
            ('I', 'T') => Some(CountryCode::ITA),
            ('J', 'E') => Some(CountryCode::JEY),
            ('J', 'M') => Some(CountryCode::JAM),
            ('J', 'O') => Some(CountryCode::JOR),
            ('J', 'P') => Some(CountryCode::JPN),
            ('K', 'E') => Some(CountryCode::KEN),
            ('K', 'G') => Some(CountryCode::KGZ),
            ('K', 'H') => Some(CountryCode::KHM),
            ('K', 'I') => Some(CountryCode::KIR),
            ('K', 'M') => Some(CountryCode::COM),
            ('K', 'N') => Some(CountryCode::KNA),
            ('K', 'P') => Some(CountryCode::PRK),
            ('K', 'R') => Some(CountryCode::KOR),
            ('K', 'W') => Some(CountryCode::KWT),
            ('K', 'Y') => Some(CountryCode::CYM),
            ('K', 'Z') => Some(CountryCode::KAZ),
            ('L', 'A') => Some(CountryCode::LAO),
            ('L', 'B') => Some(CountryCode::LBN),
            ('L', 'C') => Some(CountryCode::LCA),
            ('L', 'I') => Some(CountryCode::LIE),
            ('L', 'K') => Some(CountryCode::LKA),
            ('L', 'R') => Some(CountryCode::LBR),
            ('L', 'S') => Some(CountryCode::LSO),
            ('L', 'T') => Some(CountryCode::LTU),
            ('L', 'U') => Some(CountryCode::LUX),
            ('L', 'V') => Some(CountryCode::LVA),
            ('L', 'Y') => Some(CountryCode::LBY),
            ('M', 'A') => Some(CountryCode::MAR),
            ('M', 'C') => Some(CountryCode::MCO),
            ('M', 'D') => Some(CountryCode::MDA),
            ('M', 'E') => Some(CountryCode::MNE),
            ('M', 'F') => Some(CountryCode::MAF),
            ('M', 'G') => Some(CountryCode::MDG),
            ('M', 'H') => Some(CountryCode::MHL),
            ('M', 'K') => Some(CountryCode::MKD),
            ('M', 'L') => Some(CountryCode::MLI),
            ('M', 'M') => Some(CountryCode::MMR),
            ('M', 'N') => Some(CountryCode::MNG),
            ('M', 'O') => Some(CountryCode::MAC),
            ('M', 'P') => Some(CountryCode::MNP),
            ('M', 'Q') => Some(CountryCode::MTQ),
            ('M', 'R') => Some(CountryCode::MRT),
            ('M', 'S') => Some(CountryCode::MSR),
            ('M', 'T') => Some(CountryCode::MLT),
            ('M', 'U') => Some(CountryCode::MUS),
            ('M', 'V') => Some(CountryCode::MDV),
            ('M', 'W') => Some(CountryCode::MWI),
            ('M', 'X') => Some(CountryCode::MEX),
            ('M', 'Y') => Some(CountryCode::MYS),
            ('M', 'Z') => Some(CountryCode::MOZ),
            ('N', 'A') => Some(CountryCode::NAM),
            ('N', 'C') => Some(CountryCode::NCL),
            ('N', 'E') => Some(CountryCode::NER),
            ('N', 'F') => Some(CountryCode::NFK),
            ('N', 'G') => Some(CountryCode::NGA),
            ('N', 'I') => Some(CountryCode::NIC),
            ('N', 'L') => Some(CountryCode::NLD),
            ('N', 'O') => Some(CountryCode::NOR),
            ('N', 'P') => Some(CountryCode::NPL),
            ('N', 'R') => Some(CountryCode::NRU),
            ('N', 'U') => Some(CountryCode::NIU),
            ('N', 'Z') => Some(CountryCode::NZL),
            ('O', 'M') => Some(CountryCode::OMN),
            ('P', 'A') => Some(CountryCode::PAN),
            ('P', 'E') => Some(CountryCode::PER),
            ('P', 'F') => Some(CountryCode::PYF),
            ('P', 'G') => Some(CountryCode::PNG),
            ('P', 'H') => Some(CountryCode::PHL),
            ('P', 'K') => Some(CountryCode::PAK),
            ('P', 'L') => Some(CountryCode::POL),
            ('P', 'M') => Some(CountryCode::SPM),
            ('P', 'N') => Some(CountryCode::PCN),
            ('P', 'R') => Some(CountryCode::PRI),
            ('P', 'S') => Some(CountryCode::PSE),
            ('P', 'T') => Some(CountryCode::PRT),
            ('P', 'W') => Some(CountryCode::PLW),
            ('P', 'Y') => Some(CountryCode::PRY),
            ('Q', 'A') => Some(CountryCode::QAT),
            ('R', 'E') => Some(CountryCode::REU),
            ('R', 'O') => Some(CountryCode::ROU),
            ('R', 'S') => Some(CountryCode::SRB),
            ('R', 'U') => Some(CountryCode::RUS),
            ('R', 'W') => Some(CountryCode::RWA),
            ('S', 'A') => Some(CountryCode::SAU),
            ('S', 'B') => Some(CountryCode::SLB),
            ('S', 'C') => Some(CountryCode::SYC),
            ('S', 'D') => Some(CountryCode::SDN),
            ('S', 'E') => Some(CountryCode::SWE),
            ('S', 'G') => Some(CountryCode::SGP),
            ('S', 'H') => Some(CountryCode::SHN),
            ('S', 'I') => Some(CountryCode::SVN),
            ('S', 'J') => Some(CountryCode::SJM),
            ('S', 'K') => Some(CountryCode::SVK),
            ('S', 'L') => Some(CountryCode::SLE),
            ('S', 'M') => Some(CountryCode::SMR),
            ('S', 'N') => Some(CountryCode::SEN),
            ('S', 'O') => Some(CountryCode::SOM),
            ('S', 'R') => Some(CountryCode::SUR),
            ('S', 'S') => Some(CountryCode::SSD),
            ('S', 'T') => Some(CountryCode::STP),
            ('S', 'V') => Some(CountryCode::SLV),
            ('S', 'X') => Some(CountryCode::SXM),
            ('S', 'Y') => Some(CountryCode::SYR),
            ('S', 'Z') => Some(CountryCode::SWZ),
            ('T', 'C') => Some(CountryCode::TCA),
            ('T', 'D') => Some(CountryCode::TCD),
            ('T', 'F') => Some(CountryCode::ATF),
            ('T', 'G') => Some(CountryCode::TGO),
            ('T', 'H') => Some(CountryCode::THA),
            ('T', 'J') => Some(CountryCode::TJK),
            ('T', 'K') => Some(CountryCode::TKL),
            ('T', 'L') => Some(CountryCode::TLS),
            ('T', 'M') => Some(CountryCode::TKM),
            ('T', 'N') => Some(CountryCode::TUN),
            ('T', 'O') => Some(CountryCode::TON),
            ('T', 'R') => Some(CountryCode::TUR),
            ('T', 'T') => Some(CountryCode::TTO),
            ('T', 'V') => Some(CountryCode::TUV),
            ('T', 'W') => Some(CountryCode::TWN),
            ('T', 'Z') => Some(CountryCode::TZA),
            ('U', 'A') => Some(CountryCode::UKR),
            ('U', 'G') => Some(CountryCode::UGA),
            ('U', 'M') => Some(CountryCode::UMI),
            ('U', 'S') => Some(CountryCode::USA),
            ('U', 'Y') => Some(CountryCode::URY),
            ('U', 'Z') => Some(CountryCode::UZB),
            ('V', 'A') => Some(CountryCode::VAT),
            ('V', 'C') => Some(CountryCode::VCT),
            ('V', 'E') => Some(CountryCode::VEN),
            ('V', 'G') => Some(CountryCode::VGB),
            ('V', 'I') => Some(CountryCode::VIR),
            ('V', 'N') => Some(CountryCode::VNM),
            ('V', 'U') => Some(CountryCode::VUT),
            ('W', 'F') => Some(CountryCode::WLF),
            ('W', 'S') => Some(CountryCode::WSM),
            ('Y', 'E') => Some(CountryCode::YEM),
            ('Y', 'T') => Some(CountryCode::MYT),
            ('Z', 'A') => Some(CountryCode::ZAF),
            ('Z', 'M') => Some(CountryCode::ZMB),
            ('Z', 'W') => Some(CountryCode::ZWE),
            _ => None,
        }
    }

    /// Reads a country from its alpha-2 or alpha-3 code in capitals.
    pub fn parse(src: &str) -> (country: Result<CountryCode, CountryCodeParseError>)
        ensures
            country is Ok <==> Self::named(src@) is Some,
            country matches Ok(country) ==> Self::named(src@) == Some(country),
            country matches Err(error) ==> (error == CountryCodeParseError::InvalidLength <==> src@.len()
                != 2 && src@.len() != 3),
    {
        let len = src.unicode_len();
        if len == 3 {
            let found = Self::from_alpha3(src.get_char(0), src.get_char(1), src.get_char(2));
            match found {
                Some(country) => {
                    proof {
                        let chosen = choose|other: CountryCode|
                            other.alpha3() == (src@[0], src@[1], src@[2]);
                        lemma_alpha3_unique(chosen, country);
                    }
                    Ok(country)
                },
                None => Err(CountryCodeParseError::UnknownCode),
            }
        } else if len == 2 {
            let found = Self::from_alpha2(src.get_char(0), src.get_char(1));
            match found {
                Some(country) => {
                    proof {
                        let chosen = choose|other: CountryCode|
                            other.alpha2() == (src@[0], src@[1]);
                        lemma_alpha2_unique(chosen, country);
                    }
                    Ok(country)
                },
                None => Err(CountryCodeParseError::UnknownCode),
            }
        } else {
            Err(CountryCodeParseError::InvalidLength)
        }
    }
}

/// No two countries share an alpha-3 code.
pub proof fn lemma_alpha3_unique(a: CountryCode, b: CountryCode)
    requires
        a.alpha3() == b.alpha3(),
    ensures
        a == b,
{
}

/// No two countries share an alpha-2 code.
pub proof fn lemma_alpha2_unique(a: CountryCode, b: CountryCode)
    requires
        a.alpha2() == b.alpha2(),
    ensures
        a == b,
{
}

} // verus!
