//! The closed list of currencies.

use vstd::prelude::*;

verus! {

/// One entry of the ISO 4217 list: a circulating currency, a precious metal,
/// a funds unit, or the "no currency" entry [`Currency::XXX`].
///
/// Two values are equal exactly when they name the same entry.
#[derive(Clone, Copy, Debug, PartialEq, Eq, Hash, Structural)]
pub enum Currency {
    /// United Arab Emirates dirham United Arab Emirates
    AED,
    /// Afghan afghani Afghanistan
    AFN,
    /// Albanian lek Albania
    ALL,
    /// Armenian dram Armenia
    AMD,
    /// Netherlands Antillean guilder Cura
    ANG,
    /// Angolan kwanza Angola
    AOA,
    /// Argentine peso Argentina
    ARS,
    /// Australian dollar Australia
    AUD,
    /// Aruban florin Aruba
    AWG,
    /// Azerbaijani manat Azerbaijan
    AZN,
    /// Bosnia and Herzegovina convertible mark Bosnia and Herzegovina
    BAM,
    /// Barbados dollar Barbados
    BBD,
    /// Bangladeshi taka Bangladesh
    BDT,
    /// Bulgarian lev Bulgaria
    BGN,
    /// Bahraini dinar Bahrain
    BHD,
    /// Burundian franc Burundi
    BIF,
    /// Bermudian dollar Bermuda
    BMD,
    /// Brunei dollar Brunei
    BND,
    /// Boliviano Bolivia
    BOB,
    /// Bolivian Mvdol (funds code)
    BOV,
    /// Brazilian real Brazil
    BRL,
    /// Bahamian dollar Bahamas
    BSD,
    /// Bhutanese ngultrum Bhutan
    BTN,
    /// Botswana pula Botswana
    BWP,
    /// Belarusian ruble Belarus
    BYN,
    /// Belize dollar Belize
    BZD,
    /// Canadian dollar Canada
    CAD,
    /// Congolese franc Democratic Republic of the Congo
    CDF,
    /// WIR euro (complementary currency)
    CHE,
    /// Swiss franc Switzerland
    CHF,
    /// WIR franc (complementary currency)
    CHW,
    /// Unidad de Fomento (funds code)
    CLF,
    /// Chilean peso Chile
    CLP,
    /// Colombian peso Colombia
    COP,
    /// Unidad de Valor Real (UVR) (funds code)
    COU,
    /// Costa Rican colon Costa Rica
    CRC,
    /// Cuban convertible peso Cuba
    CUC,
    /// Cuban peso Cuba
    CUP,
    /// Cape Verdean escudo Cabo Verde
    CVE,
    /// Czech koruna Czechia
    CZK,
    /// Djiboutian franc Djibouti
    DJF,
    /// Danish krone Denmark
    DKK,
    /// Dominican peso Dominican Republic
    DOP,
    /// Algerian dinar Algeria
    DZD,
    /// Egyptian pound Egypt
    EGP,
    /// Eritrean nakfa Eritrea
    ERN,
    /// Ethiopian birr Ethiopia
    ETB,
    /// Euro
    EUR,
    /// Fiji dollar Fiji
    FJD,
    /// Falkland Islands pound Falkland Islands (pegged to GBP)
    FKP,
    /// Pound sterling United Kingdom
    GBP,
    /// Georgian lari Georgia
    GEL,
    /// Ghanaian cedi Ghana
    GHS,
    /// Gibraltar pound Gibraltar (pegged to GBP)
    GIP,
    /// Gambian dalasi Gambia
    GMD,
    /// Guinean franc Guinea
    GNF,
    /// Guatemalan quetzal Guatemala
    GTQ,
    /// Guyanese dollar Guyana
    GYD,
    /// Hong Kong dollar Hong Kong
    HKD,
    /// Honduran lempira Honduras
    HNL,
    /// Haitian gourde Haiti
    HTG,
    /// Hungarian forint Hungary
    HUF,
    /// Indonesian rupiah Indonesia
    IDR,
    /// Israeli new shekel Israel
    ILS,
    /// Indian rupee India
    INR,
    /// Iraqi dinar Iraq
    IQD,
    /// Iranian rial Iran
    IRR,
    /// Icelandic kr
    ISK,
    /// Jamaican dollar Jamaica
    JMD,
    /// Jordanian dinar Jordan
    JOD,
    /// Japanese yen Japan
    JPY,
    /// Kenyan shilling Kenya
    KES,
    /// Kyrgyzstani som Kyrgyzstan
    KGS,
    /// Cambodian riel Cambodia
    KHR,
    /// Comoro franc Comoros
    KMF,
    /// North Korean won North Korea
    KPW,
    /// South Korean won
    KRW,
    /// Kuwaiti dinar Kuwait
    KWD,
    /// Cayman Islands dollar Cayman Islands
    KYD,
    /// Kazakhstani tenge Kazakhstan
    KZT,
    /// Lao kip Laos
    LAK,
    /// Lebanese pound Lebanon
    LBP,
    /// Sri Lankan rupee Sri Lanka
    LKR,
    /// Liberian dollar Liberia
    LRD,
    /// Lesotho loti Lesotho
    LSL,
    /// Libyan dinar Libya
    LYD,
    /// Moroccan dirham Morocco
    MAD,
    /// Moldovan leu Moldova
    MDL,
    /// Malagasy ariary
    MGA,
    /// Macedonian denar North Macedonia
    MKD,
    /// Myanmar kyat Myanmar
    MMK,
    /// Mongolian tögrög
    MNT,
    /// Macanese pataca Macau
    MOP,
    /// Mauritanian ouguiya
    MRU,
    /// Mauritian rupee Mauritius
    MUR,
    /// Maldivian rufiyaa Maldives
    MVR,
    /// Malawian kwacha Malawi
    MWK,
    /// Mexican peso Mexico
    MXN,
    /// Mexican Unidad de Inversion (UDI) (funds code)
    MXV,
    /// Malaysian ringgit Malaysia
    MYR,
    /// Mozambican metical Mozambique
    MZN,
    /// Namibian dollar Namibia (pegged to ZAR)
    NAD,
    /// Nigerian naira Nigeria
    NGN,
    /// Nicaraguan c
    NIO,
    /// Norwegian krone Norway
    NOK,
    /// Nepalese rupee Nepal
    NPR,
    /// New Zealand dollar New Zealand
    NZD,
    /// Omani rial Oman
    OMR,
    /// Panamanian balboa Panama
    PAB,
    /// Peruvian sol Peru
    PEN,
    /// Papua New Guinean kina Papua New Guinea
    PGK,
    /// Philippine peso
    PHP,
    /// Pakistani rupee Pakistan
    PKR,
    /// Polish z
    PLN,
    /// Paraguayan guaran
    PYG,
    /// Qatari riyal Qatar
    QAR,
    /// Romanian leu Romania
    RON,
    /// Serbian dinar Serbia
    RSD,
    /// Renminbi
    CNY,
    /// Russian ruble Russia
    RUB,
    /// Rwandan franc Rwanda
    RWF,
    /// Saudi riyal Saudi Arabia
    SAR,
    /// Solomon Islands dollar Solomon Islands
    SBD,
    /// Seychelles rupee Seychelles
    SCR,
    /// Sudanese pound Sudan
    SDG,
    /// Swedish krona (plural
    SEK,
    /// Singapore dollar Singapore
    SGD,
    /// Saint Helena pound Saint Helena (SH
    SHP,
    /// Sierra Leonean leone (new leone)
    SLE,
    /// Sierra Leonean leone (old leone)
    SLL,
    /// Somali shilling Somalia
    SOS,
    /// Surinamese dollar Suriname
    SRD,
    /// South Sudanese pound South Sudan
    SSP,
    /// São Tomé and Príncipe dobra
    STN,
    /// Salvadoran col
    SVC,
    /// Syrian pound Syria
    SYP,
    /// Swazi lilangeni Eswatini
    SZL,
    /// Thai baht Thailand
    THB,
    /// Tajikistani somoni Tajikistan
    TJS,
    /// Turkmenistan manat Turkmenistan
    TMT,
    /// Tunisian dinar Tunisia
    TND,
    /// Tongan pa
    TOP,
    /// Turkish lira Turkey
    TRY,
    /// Trinidad and Tobago dollar Trinidad and Tobago
    TTD,
    /// New Taiwan dollar Taiwan
    TWD,
    /// Tanzanian shilling Tanzania
    TZS,
    /// Ukrainian hryvnia Ukraine
    UAH,
    /// Ugandan shilling Uganda
    UGX,
    /// United States dollar United States
    USD,
    /// United States dollar (next day) (funds code)
    USN,
    /// Uruguay Peso en Unidades Indexadas (URUIURUI) (funds code)
    UYI,
    /// Uruguayan peso Uruguay
    UYU,
    /// Unidad previsional
    UYW,
    /// Uzbekistan sum Uzbekistan
    UZS,
    /// Venezuelan digital bol
    VED,
    /// Venezuelan sovereign bol
    VES,
    /// Vietnamese
    VND,
    /// Vanuatu vatu Vanuatu
    VUV,
    /// Samoan tala Samoa
    WST,
    /// CFA franc BEAC Cameroon (CM)
    XAF,
    /// Silver (one troy ounce)
    XAG,
    /// Gold (one troy ounce)
    XAU,
    /// European Composite Unit (bond market unit)
    XBA,
    /// European Monetary Unit (bond market unit)
    XBB,
    /// European Unit of Account 9 (bond market unit)
    XBC,
    /// European unit of account 17 (bond market unit)
    XBD,
    /// East Caribbean dollar Anguilla (AI)
    XCD,
    /// Special drawing rights
    XDR,
    /// CFA franc BCEAO Benin (BJ)
    XOF,
    /// Palladium (one troy ounce)
    XPD,
    /// CFP franc (franc Pacifique)
    XPF,
    /// Platinum (one troy ounce)
    XPT,
    /// SUCRE
    XSU,
    /// Code reserved for testing
    XTS,
    /// ADB Unit of Account
    XUA,
    /// No country code
    XXX,
    /// Yemeni rial Yemen
    YER,
    /// South African rand Eswatini
    ZAR,
    /// Zambian kwacha Zambia
    ZMW,
    /// Zimbabwean dollar (fifth)
    ZWL,
}

impl Currency {
    /// Number of characters of an alphabetic code.
    pub const LEN: usize = 3;

    /// The "no currency" entry, which also stands for anything that could not
    /// be recognised.
    pub fn new() -> (r: Self)
        ensures
            r == Currency::XXX,
    {
        Currency::XXX
    }
}

impl Default for Currency {
    fn default() -> (r: Self)
        ensures
            r == Currency::XXX,
    {
        Currency::XXX
    }
}

} // verus!
