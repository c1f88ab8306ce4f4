//! The table of the list: for each currency its numeric code, its three
//! letters and its English name.

use crate::currency::Currency;
use vstd::prelude::*;

verus! {

impl Currency {
    /// The three-digit numeric code of the currency.
    pub open spec fn numeric_code(self) -> nat {
        match self {
            Currency::AED => 784,
            Currency::AFN => 971,
            Currency::ALL => 8,
            Currency::AMD => 51,
            Currency::ANG => 532,
            Currency::AOA => 973,
            Currency::ARS => 32,
            Currency::AUD => 36,
            Currency::AWG => 533,
            Currency::AZN => 944,
            Currency::BAM => 977,
            Currency::BBD => 52,
            Currency::BDT => 50,
            Currency::BGN => 975,
            Currency::BHD => 48,
            Currency::BIF => 108,
            Currency::BMD => 60,
            Currency::BND => 96,
            Currency::BOB => 68,
            Currency::BOV => 984,
            Currency::BRL => 986,
            Currency::BSD => 44,
            Currency::BTN => 64,
            Currency::BWP => 72,
            Currency::BYN => 933,
            Currency::BZD => 84,
            Currency::CAD => 124,
            Currency::CDF => 976,
            Currency::CHE => 947,
            Currency::CHF => 756,
            Currency::CHW => 948,
            Currency::CLF => 990,
            Currency::CLP => 152,
            Currency::COP => 170,
            Currency::COU => 970,
            Currency::CRC => 188,
            Currency::CUC => 931,
            Currency::CUP => 192,
            Currency::CVE => 132,
            Currency::CZK => 203,
            Currency::DJF => 262,
            Currency::DKK => 208,
            Currency::DOP => 214,
            Currency::DZD => 12,
            Currency::EGP => 818,
            Currency::ERN => 232,
            Currency::ETB => 230,
            Currency::EUR => 978,
            Currency::FJD => 242,
            Currency::FKP => 238,
            Currency::GBP => 826,
            Currency::GEL => 981,
            Currency::GHS => 936,
            Currency::GIP => 292,
            Currency::GMD => 270,
            Currency::GNF => 324,
            Currency::GTQ => 320,
            Currency::GYD => 328,
            Currency::HKD => 344,
            Currency::HNL => 340,
            Currency::HTG => 332,
            Currency::HUF => 348,
            Currency::IDR => 360,
            Currency::ILS => 376,
            Currency::INR => 356,
            Currency::IQD => 368,
            Currency::IRR => 364,
            Currency::ISK => 352,
            Currency::JMD => 388,
            Currency::JOD => 400,
            Currency::JPY => 392,
            Currency::KES => 404,
            Currency::KGS => 417,
            Currency::KHR => 116,
            Currency::KMF => 174,
            Currency::KPW => 408,
            Currency::KRW => 410,
            Currency::KWD => 414,
            Currency::KYD => 136,
            Currency::KZT => 398,
            Currency::LAK => 418,
            Currency::LBP => 422,
            Currency::LKR => 144,
            Currency::LRD => 430,
            Currency::LSL => 426,
            Currency::LYD => 434,
            Currency::MAD => 504,
            Currency::MDL => 498,
            Currency::MGA => 969,
            Currency::MKD => 807,
            Currency::MMK => 104,
            Currency::MNT => 496,
            Currency::MOP => 446,
            Currency::MRU => 929,
            Currency::MUR => 480,
            Currency::MVR => 462,
            Currency::MWK => 454,
            Currency::MXN => 484,
            Currency::MXV => 979,
            Currency::MYR => 458,
            Currency::MZN => 943,
            Currency::NAD => 516,
            Currency::NGN => 566,
            Currency::NIO => 558,
            Currency::NOK => 578,
            Currency::NPR => 524,
            Currency::NZD => 554,
            Currency::OMR => 512,
            Currency::PAB => 590,
            Currency::PEN => 604,
            Currency::PGK => 598,
            Currency::PHP => 608,
            Currency::PKR => 586,
            Currency::PLN => 985,
            Currency::PYG => 600,
            Currency::QAR => 634,
            Currency::RON => 946,
            Currency::RSD => 941,
            Currency::CNY => 156,
            Currency::RUB => 643,
            Currency::RWF => 646,
            Currency::SAR => 682,
            Currency::SBD => 90,
            Currency::SCR => 690,
            Currency::SDG => 938,
            Currency::SEK => 752,
            Currency::SGD => 702,
            Currency::SHP => 654,
            Currency::SLE => 925,
            Currency::SLL => 694,
            Currency::SOS => 706,
            Currency::SRD => 968,
            Currency::SSP => 728,
            Currency::STN => 930,
            Currency::SVC => 222,
            Currency::SYP => 760,
            Currency::SZL => 748,
            Currency::THB => 764,
            Currency::TJS => 972,
            Currency::TMT => 934,
            Currency::TND => 788,
            Currency::TOP => 776,
            Currency::TRY => 949,
            Currency::TTD => 780,
            Currency::TWD => 901,
            Currency::TZS => 834,
            Currency::UAH => 980,
            Currency::UGX => 800,
            Currency::USD => 840,
            Currency::USN => 997,
            Currency::UYI => 940,
            Currency::UYU => 858,
            Currency::UYW => 927,
            Currency::UZS => 860,
            Currency::VED => 926,
            Currency::VES => 928,
            Currency::VND => 704,
            Currency::VUV => 548,
            Currency::WST => 882,
            Currency::XAF => 950,
            Currency::XAG => 961,
            Currency::XAU => 959,
            Currency::XBA => 955,
            Currency::XBB => 956,
            Currency::XBC => 957,
            Currency::XBD => 958,
            Currency::XCD => 951,
            Currency::XDR => 960,
            Currency::XOF => 952,
            Currency::XPD => 964,
            Currency::XPF => 953,
            Currency::XPT => 962,
            Currency::XSU => 994,
            Currency::XTS => 963,
            Currency::XUA => 965,
            Currency::XXX => 999,
            Currency::YER => 886,
            Currency::ZAR => 710,
            Currency::ZMW => 967,
            Currency::ZWL => 932,
        }
    }

    /// The three letters of the alphabetic code, in order.
    pub open spec fn letters(self) -> (char, char, char) {
        match self {
            Currency::AED => ('A', 'E', 'D'),
            Currency::AFN => ('A', 'F', 'N'),
            Currency::ALL => ('A', 'L', 'L'),
            Currency::AMD => ('A', 'M', 'D'),
            Currency::ANG => ('A', 'N', 'G'),
            Currency::AOA => ('A', 'O', 'A'),
            Currency::ARS => ('A', 'R', 'S'),
            Currency::AUD => ('A', 'U', 'D'),
            Currency::AWG => ('A', 'W', 'G'),
            Currency::AZN => ('A', 'Z', 'N'),
            Currency::BAM => ('B', 'A', 'M'),
            Currency::BBD => ('B', 'B', 'D'),
            Currency::BDT => ('B', 'D', 'T'),
            Currency::BGN => ('B', 'G', 'N'),
            Currency::BHD => ('B', 'H', 'D'),
            Currency::BIF => ('B', 'I', 'F'),
            Currency::BMD => ('B', 'M', 'D'),
            Currency::BND => ('B', 'N', 'D'),
            Currency::BOB => ('B', 'O', 'B'),
            Currency::BOV => ('B', 'O', 'V'),
            Currency::BRL => ('B', 'R', 'L'),
            Currency::BSD => ('B', 'S', 'D'),
            Currency::BTN => ('B', 'T', 'N'),
            Currency::BWP => ('B', 'W', 'P'),
            Currency::BYN => ('B', 'Y', 'N'),
            Currency::BZD => ('B', 'Z', 'D'),
            Currency::CAD => ('C', 'A', 'D'),
            Currency::CDF => ('C', 'D', 'F'),
            Currency::CHE => ('C', 'H', 'E'),
            Currency::CHF => ('C', 'H', 'F'),
            Currency::CHW => ('C', 'H', 'W'),
            Currency::CLF => ('C', 'L', 'F'),
            Currency::CLP => ('C', 'L', 'P'),
            Currency::COP => ('C', 'O', 'P'),
            Currency::COU => ('C', 'O', 'U'),
            Currency::CRC => ('C', 'R', 'C'),
            Currency::CUC => ('C', 'U', 'C'),
            Currency::CUP => ('C', 'U', 'P'),
            Currency::CVE => ('C', 'V', 'E'),
            Currency::CZK => ('C', 'Z', 'K'),
            Currency::DJF => ('D', 'J', 'F'),
            Currency::DKK => ('D', 'K', 'K'),
            Currency::DOP => ('D', 'O', 'P'),
            Currency::DZD => ('D', 'Z', 'D'),
            Currency::EGP => ('E', 'G', 'P'),
            Currency::ERN => ('E', 'R', 'N'),
            Currency::ETB => ('E', 'T', 'B'),
            Currency::EUR => ('E', 'U', 'R'),
            Currency::FJD => ('F', 'J', 'D'),
            Currency::FKP => ('F', 'K', 'P'),
            Currency::GBP => ('G', 'B', 'P'),
            Currency::GEL => ('G', 'E', 'L'),
            Currency::GHS => ('G', 'H', 'S'),
            Currency::GIP => ('G', 'I', 'P'),
            Currency::GMD => ('G', 'M', 'D'),
            Currency::GNF => ('G', 'N', 'F'),
            Currency::GTQ => ('G', 'T', 'Q'),
            Currency::GYD => ('G', 'Y', 'D'),
            Currency::HKD => ('H', 'K', 'D'),
            Currency::HNL => ('H', 'N', 'L'),
            Currency::HTG => ('H', 'T', 'G'),
            Currency::HUF => ('H', 'U', 'F'),
            Currency::IDR => ('I', 'D', 'R'),
            Currency::ILS => ('I', 'L', 'S'),
            Currency::INR => ('I', 'N', 'R'),
            Currency::IQD => ('I', 'Q', 'D'),
            Currency::IRR => ('I', 'R', 'R'),
            Currency::ISK => ('I', 'S', 'K'),
            Currency::JMD => ('J', 'M', 'D'),
            Currency::JOD => ('J', 'O', 'D'),
            Currency::JPY => ('J', 'P', 'Y'),
            Currency::KES => ('K', 'E', 'S'),
            Currency::KGS => ('K', 'G', 'S'),
            Currency::KHR => ('K', 'H', 'R'),
            Currency::KMF => ('K', 'M', 'F'),
            Currency::KPW => ('K', 'P', 'W'),
            Currency::KRW => ('K', 'R', 'W'),
            Currency::KWD => ('K', 'W', 'D'),
            Currency::KYD => ('K', 'Y', 'D'),
            Currency::KZT => ('K', 'Z', 'T'),
            Currency::LAK => ('L', 'A', 'K'),
            Currency::LBP => ('L', 'B', 'P'),
            Currency::LKR => ('L', 'K', 'R'),
            Currency::LRD => ('L', 'R', 'D'),
            Currency::LSL => ('L', 'S', 'L'),
            Currency::LYD => ('L', 'Y', 'D'),
            Currency::MAD => ('M', 'A', 'D'),
            Currency::MDL => ('M', 'D', 'L'),
            Currency::MGA => ('M', 'G', 'A'),
            Currency::MKD => ('M', 'K', 'D'),
            Currency::MMK => ('M', 'M', 'K'),
            Currency::MNT => ('M', 'N', 'T'),
            Currency::MOP => ('M', 'O', 'P'),
            Currency::MRU => ('M', 'R', 'U'),
            Currency::MUR => ('M', 'U', 'R'),
            Currency::MVR => ('M', 'V', 'R'),
            Currency::MWK => ('M', 'W', 'K'),
            Currency::MXN => ('M', 'X', 'N'),
            Currency::MXV => ('M', 'X', 'V'),
            Currency::MYR => ('M', 'Y', 'R'),
            Currency::MZN => ('M', 'Z', 'N'),
            Currency::NAD => ('N', 'A', 'D'),
            Currency::NGN => ('N', 'G', 'N'),
            Currency::NIO => ('N', 'I', 'O'),
            Currency::NOK => ('N', 'O', 'K'),
            Currency::NPR => ('N', 'P', 'R'),
            Currency::NZD => ('N', 'Z', 'D'),
            Currency::OMR => ('O', 'M', 'R'),
            Currency::PAB => ('P', 'A', 'B'),
            Currency::PEN => ('P', 'E', 'N'),
            Currency::PGK => ('P', 'G', 'K'),
            Currency::PHP => ('P', 'H', 'P'),
            Currency::PKR => ('P', 'K', 'R'),
            Currency::PLN => ('P', 'L', 'N'),
            Currency::PYG => ('P', 'Y', 'G'),
            Currency::QAR => ('Q', 'A', 'R'),
            Currency::RON => ('R', 'O', 'N'),
            Currency::RSD => ('R', 'S', 'D'),
            Currency::CNY => ('C', 'N', 'Y'),
            Currency::RUB => ('R', 'U', 'B'),
            Currency::RWF => ('R', 'W', 'F'),
            Currency::SAR => ('S', 'A', 'R'),
            Currency::SBD => ('S', 'B', 'D'),
            Currency::SCR => ('S', 'C', 'R'),
            Currency::SDG => ('S', 'D', 'G'),
            Currency::SEK => ('S', 'E', 'K'),
            Currency::SGD => ('S', 'G', 'D'),
            Currency::SHP => ('S', 'H', 'P'),
            Currency::SLE => ('S', 'L', 'E'),
            Currency::SLL => ('S', 'L', 'L'),
            Currency::SOS => ('S', 'O', 'S'),
            Currency::SRD => ('S', 'R', 'D'),
            Currency::SSP => ('S', 'S', 'P'),
            Currency::STN => ('S', 'T', 'N'),
            Currency::SVC => ('S', 'V', 'C'),
            Currency::SYP => ('S', 'Y', 'P'),
            Currency::SZL => ('S', 'Z', 'L'),
            Currency::THB => ('T', 'H', 'B'),
            Currency::TJS => ('T', 'J', 'S'),
            Currency::TMT => ('T', 'M', 'T'),
            Currency::TND => ('T', 'N', 'D'),
            Currency::TOP => ('T', 'O', 'P'),
            Currency::TRY => ('T', 'R', 'Y'),
            Currency::TTD => ('T', 'T', 'D'),
            Currency::TWD => ('T', 'W', 'D'),
            Currency::TZS => ('T', 'Z', 'S'),
            Currency::UAH => ('U', 'A', 'H'),
            Currency::UGX => ('U', 'G', 'X'),
            Currency::USD => ('U', 'S', 'D'),
            Currency::USN => ('U', 'S', 'N'),
            Currency::UYI => ('U', 'Y', 'I'),
            Currency::UYU => ('U', 'Y', 'U'),
            Currency::UYW => ('U', 'Y', 'W'),
            Currency::UZS => ('U', 'Z', 'S'),
            Currency::VED => ('V', 'E', 'D'),
            Currency::VES => ('V', 'E', 'S'),
            Currency::VND => ('V', 'N', 'D'),
            Currency::VUV => ('V', 'U', 'V'),
            Currency::WST => ('W', 'S', 'T'),
            Currency::XAF => ('X', 'A', 'F'),
            Currency::XAG => ('X', 'A', 'G'),
            Currency::XAU => ('X', 'A', 'U'),
            Currency::XBA => ('X', 'B', 'A'),
            Currency::XBB => ('X', 'B', 'B'),
            Currency::XBC => ('X', 'B', 'C'),
            Currency::XBD => ('X', 'B', 'D'),
            Currency::XCD => ('X', 'C', 'D'),
            Currency::XDR => ('X', 'D', 'R'),
            Currency::XOF => ('X', 'O', 'F'),
            Currency::XPD => ('X', 'P', 'D'),
            Currency::XPF => ('X', 'P', 'F'),
            Currency::XPT => ('X', 'P', 'T'),
            Currency::XSU => ('X', 'S', 'U'),
            Currency::XTS => ('X', 'T', 'S'),
            Currency::XUA => ('X', 'U', 'A'),
            Currency::XXX => ('X', 'X', 'X'),
            Currency::YER => ('Y', 'E', 'R'),
            Currency::ZAR => ('Z', 'A', 'R'),
            Currency::ZMW => ('Z', 'M', 'W'),
            Currency::ZWL => ('Z', 'W', 'L'),
        }
    }

    /// The alphabetic code as text.
    pub open spec fn alpha_code(self) -> Seq<char> {
        seq![self.letters().0, self.letters().1, self.letters().2]
    }

    /// The English name of the currency.
    pub open spec fn display_name(self) -> Seq<char> {
        match self {
            Currency::AED => "United Arab Emirates dirham United Arab Emirates"@,
            Currency::AFN => "Afghan afghani Afghanistan"@,
            Currency::ALL => "Albanian lek Albania"@,
            Currency::AMD => "Armenian dram Armenia"@,
            Currency::ANG => "Netherlands Antillean guilder Cura"@,
            Currency::AOA => "Angolan kwanza Angola"@,
            Currency::ARS => "Argentine peso Argentina"@,
            Currency::AUD => "Australian dollar Australia"@,
            Currency::AWG => "Aruban florin Aruba"@,
            Currency::AZN => "Azerbaijani manat Azerbaijan"@,
            Currency::BAM => "Bosnia and Herzegovina convertible mark Bosnia and Herzegovina"@,
            Currency::BBD => "Barbados dollar Barbados"@,
            Currency::BDT => "Bangladeshi taka Bangladesh"@,
            Currency::BGN => "Bulgarian lev Bulgaria"@,
            Currency::BHD => "Bahraini dinar Bahrain"@,
            Currency::BIF => "Burundian franc Burundi"@,
            Currency::BMD => "Bermudian dollar Bermuda"@,
            Currency::BND => "Brunei dollar Brunei"@,
            Currency::BOB => "Boliviano Bolivia"@,
            Currency::BOV => "Bolivian Mvdol (funds code)"@,
            Currency::BRL => "Brazilian real Brazil"@,
            Currency::BSD => "Bahamian dollar Bahamas"@,
            Currency::BTN => "Bhutanese ngultrum Bhutan"@,
            Currency::BWP => "Botswana pula Botswana"@,
            Currency::BYN => "Belarusian ruble Belarus"@,
            Currency::BZD => "Belize dollar Belize"@,
            Currency::CAD => "Canadian dollar Canada"@,
            Currency::CDF => "Congolese franc Democratic Republic of the Congo"@,
            Currency::CHE => "WIR euro (complementary currency)"@,
            Currency::CHF => "Swiss franc Switzerland"@,
            Currency::CHW => "WIR franc (complementary currency)"@,
            Currency::CLF => "Unidad de Fomento (funds code)"@,
            Currency::CLP => "Chilean peso Chile"@,
            Currency::COP => "Colombian peso Colombia"@,
            Currency::COU => " Unidad de Valor Real (UVR) (funds code)"@,
            Currency::CRC => "Costa Rican colon Costa Rica"@,
            Currency::CUC => "Cuban convertible peso Cuba"@,
            Currency::CUP => "Cuban peso Cuba"@,
            Currency::CVE => "Cape Verdean escudo Cabo Verde"@,
            Currency::CZK => "Czech koruna Czechia"@,
            Currency::DJF => "Djiboutian franc Djibouti"@,
            Currency::DKK => "Danish krone Denmark"@,
            Currency::DOP => "Dominican peso Dominican Republic"@,
            Currency::DZD => "Algerian dinar Algeria"@,
            Currency::EGP => "Egyptian pound Egypt"@,
            Currency::ERN => "Eritrean nakfa Eritrea"@,
            Currency::ETB => "Ethiopian birr Ethiopia"@,
            Currency::EUR => "Euro"@,
            Currency::FJD => "Fiji dollar Fiji"@,
            Currency::FKP => "Falkland Islands pound Falkland Islands (pegged to GBP)"@,
            Currency::GBP => "Pound sterling United Kingdom"@,
            Currency::GEL => "Georgian lari Georgia"@,
            Currency::GHS => "Ghanaian cedi Ghana"@,
            Currency::GIP => "Gibraltar pound Gibraltar (pegged to GBP)"@,
            Currency::GMD => "Gambian dalasi Gambia"@,
            Currency::GNF => "Guinean franc Guinea"@,
            Currency::GTQ => "Guatemalan quetzal Guatemala"@,
            Currency::GYD => "Guyanese dollar Guyana"@,
            Currency::HKD => "Hong Kong dollar Hong Kong"@,
            Currency::HNL => "Honduran lempira Honduras"@,
            Currency::HTG => "Haitian gourde Haiti"@,
            Currency::HUF => "Hungarian forint Hungary"@,
            Currency::IDR => "Indonesian rupiah Indonesia"@,
            Currency::ILS => "Israeli new shekel Israel"@,
            Currency::INR => "Indian rupee India"@,
            Currency::IQD => "Iraqi dinar Iraq"@,
            Currency::IRR => "Iranian rial Iran"@,
            Currency::ISK => "Icelandic kr"@,
            Currency::JMD => "Jamaican dollar Jamaica"@,
            Currency::JOD => "Jordanian dinar Jordan"@,
            Currency::JPY => "Japanese yen Japan"@,
            Currency::KES => "Kenyan shilling Kenya"@,
            Currency::KGS => "Kyrgyzstani som Kyrgyzstan"@,
            Currency::KHR => "Cambodian riel Cambodia"@,
            Currency::KMF => "Comoro franc Comoros"@,
            Currency::KPW => "North Korean won North Korea"@,
            Currency::KRW => "South Korean won"@,
            Currency::KWD => "Kuwaiti dinar Kuwait"@,
            Currency::KYD => "Cayman Islands dollar Cayman Islands"@,
            Currency::KZT => "Kazakhstani tenge Kazakhstan"@,
            Currency::LAK => "Lao kip Laos"@,
            Currency::LBP => "Lebanese pound Lebanon"@,
            Currency::LKR => "Sri Lankan rupee Sri Lanka"@,
            Currency::LRD => "Liberian dollar Liberia"@,
            Currency::LSL => "Lesotho loti Lesotho"@,
            Currency::LYD => "Libyan dinar Libya"@,
            Currency::MAD => "Moroccan dirham Morocco"@,
            Currency::MDL => "Moldovan leu Moldova"@,
            Currency::MGA => "Malagasy ariary"@,
            Currency::MKD => "Macedonian denar North Macedonia"@,
            Currency::MMK => "Myanmar kyat Myanmar"@,
            Currency::MNT => "Mongolian tögrög"@,
            Currency::MOP => "Macanese pataca Macau"@,
            Currency::MRU => "Mauritanian ouguiya"@,
            Currency::MUR => "Mauritian rupee Mauritius"@,
            Currency::MVR => "Maldivian rufiyaa Maldives"@,
            Currency::MWK => "Malawian kwacha Malawi"@,
            Currency::MXN => "Mexican peso Mexico"@,
            Currency::MXV => "Mexican Unidad de Inversion (UDI) (funds code)"@,
            Currency::MYR => "Malaysian ringgit Malaysia"@,
            Currency::MZN => "Mozambican metical Mozambique"@,
            Currency::NAD => "Namibian dollar Namibia (pegged to ZAR)"@,
            Currency::NGN => "Nigerian naira Nigeria"@,
            Currency::NIO => "Nicaraguan c"@,
            Currency::NOK => "Norwegian krone Norway"@,
            Currency::NPR => "Nepalese rupee Nepal"@,
            Currency::NZD => "New Zealand dollar New Zealand"@,
            Currency::OMR => "Omani rial Oman"@,
            Currency::PAB => "Panamanian balboa Panama"@,
            Currency::PEN => "Peruvian sol Peru"@,
            Currency::PGK => "Papua New Guinean kina Papua New Guinea"@,
            Currency::PHP => "Philippine peso"@,
            Currency::PKR => "Pakistani rupee Pakistan"@,
            Currency::PLN => "Polish z"@,
            Currency::PYG => "Paraguayan guaran"@,
            Currency::QAR => "Qatari riyal Qatar"@,
            Currency::RON => "Romanian leu Romania"@,
            Currency::RSD => "Serbian dinar Serbia"@,
            Currency::CNY => "Renminbi"@,
            Currency::RUB => "Russian ruble Russia"@,
            Currency::RWF => "Rwandan franc Rwanda"@,
            Currency::SAR => "Saudi riyal Saudi Arabia"@,
            Currency::SBD => "Solomon Islands dollar Solomon Islands"@,
            Currency::SCR => "Seychelles rupee Seychelles"@,
            Currency::SDG => "Sudanese pound Sudan"@,
            Currency::SEK => "Swedish krona (plural"@,
            Currency::SGD => "Singapore dollar Singapore"@,
            Currency::SHP => "Saint Helena pound Saint Helena (SH"@,
            Currency::SLE => "Sierra Leonean leone (new leone)"@,
            Currency::SLL => "Sierra Leonean leone (old leone)"@,
            Currency::SOS => "Somali shilling Somalia"@,
            Currency::SRD => "Surinamese dollar Suriname"@,
            Currency::SSP => "South Sudanese pound South Sudan"@,
            Currency::STN => "São Tomé and Príncipe dobra"@,
            Currency::SVC => "Salvadoran col"@,
            Currency::SYP => "Syrian pound Syria"@,
            Currency::SZL => "Swazi lilangeni Eswatini"@,
            Currency::THB => "Thai baht Thailand"@,
            Currency::TJS => "Tajikistani somoni Tajikistan"@,
            Currency::TMT => "Turkmenistan manat Turkmenistan"@,
            Currency::TND => "Tunisian dinar Tunisia"@,
            Currency::TOP => "Tongan pa"@,
            Currency::TRY => "Turkish lira Turkey"@,
            Currency::TTD => "Trinidad and Tobago dollar Trinidad and Tobago"@,
            Currency::TWD => "New Taiwan dollar Taiwan"@,
            Currency::TZS => "Tanzanian shilling Tanzania"@,
            Currency::UAH => "Ukrainian hryvnia Ukraine"@,
            Currency::UGX => "Ugandan shilling Uganda"@,
            Currency::USD => "United States dollar United States"@,
            Currency::USN => "United States dollar (next day) (funds code)"@,
            Currency::UYI => "Uruguay Peso en Unidades Indexadas (URUIURUI) (funds code)"@,
            Currency::UYU => "Uruguayan peso Uruguay"@,
            Currency::UYW => "Unidad previsional"@,
            Currency::UZS => "Uzbekistan sum Uzbekistan"@,
            Currency::VED => "Venezuelan digital bol"@,
            Currency::VES => "Venezuelan sovereign bol"@,
            Currency::VND => "Vietnamese"@,
            Currency::VUV => "Vanuatu vatu Vanuatu"@,
            Currency::WST => "Samoan tala Samoa"@,
            Currency::XAF => "CFA franc BEAC Cameroon (CM)"@,
            Currency::XAG => "Silver (one troy ounce)"@,
            Currency::XAU => "Gold (one troy ounce)"@,
            Currency::XBA => "European Composite Unit (bond market unit)"@,
            Currency::XBB => "European Monetary Unit (bond market unit)"@,
            Currency::XBC => "European Unit of Account 9 (bond market unit)"@,
            Currency::XBD => "European unit of account 17 (bond market unit)"@,
            Currency::XCD => "East Caribbean dollar Anguilla (AI)"@,
            Currency::XDR => "Special drawing rights"@,
            Currency::XOF => "CFA franc BCEAO Benin (BJ)"@,
            Currency::XPD => "Palladium (one troy ounce)"@,
            Currency::XPF => "CFP franc (franc Pacifique)"@,
            Currency::XPT => "Platinum (one troy ounce)"@,
            Currency::XSU => "SUCRE"@,
            Currency::XTS => "Code reserved for testing"@,
            Currency::XUA => "ADB Unit of Account"@,
            Currency::XXX => "No country code"@,
            Currency::YER => "Yemeni rial Yemen"@,
            Currency::ZAR => "South African rand Eswatini"@,
            Currency::ZMW => "Zambian kwacha Zambia"@,
            Currency::ZWL => "Zimbabwean dollar (fifth)"@,
        }
    }

    /// Gets the numeric code.
    pub fn to_numeric(self) -> (r: u32)
        ensures
            r == self.numeric_code(),
    {
        match self {
            Currency::AED => 784,
            Currency::AFN => 971,
            Currency::ALL => 8,
            Currency::AMD => 51,
            Currency::ANG => 532,
            Currency::AOA => 973,
            Currency::ARS => 32,
            Currency::AUD => 36,
            Currency::AWG => 533,
            Currency::AZN => 944,
            Currency::BAM => 977,
            Currency::BBD => 52,
            Currency::BDT => 50,
            Currency::BGN => 975,
            Currency::BHD => 48,
            Currency::BIF => 108,
            Currency::BMD => 60,
            Currency::BND => 96,
            Currency::BOB => 68,
            Currency::BOV => 984,
            Currency::BRL => 986,
            Currency::BSD => 44,
            Currency::BTN => 64,
            Currency::BWP => 72,
            Currency::BYN => 933,
            Currency::BZD => 84,
            Currency::CAD => 124,
            Currency::CDF => 976,
            Currency::CHE => 947,
            Currency::CHF => 756,
            Currency::CHW => 948,
            Currency::CLF => 990,
            Currency::CLP => 152,
            Currency::COP => 170,
            Currency::COU => 970,
            Currency::CRC => 188,
            Currency::CUC => 931,
            Currency::CUP => 192,
            Currency::CVE => 132,
            Currency::CZK => 203,
            Currency::DJF => 262,
            Currency::DKK => 208,
            Currency::DOP => 214,
            Currency::DZD => 12,
            Currency::EGP => 818,
            Currency::ERN => 232,
            Currency::ETB => 230,
            Currency::EUR => 978,
            Currency::FJD => 242,
            Currency::FKP => 238,
            Currency::GBP => 826,
            Currency::GEL => 981,
            Currency::GHS => 936,
            Currency::GIP => 292,
            Currency::GMD => 270,
            Currency::GNF => 324,
            Currency::GTQ => 320,
            Currency::GYD => 328,
            Currency::HKD => 344,
            Currency::HNL => 340,
            Currency::HTG => 332,
            Currency::HUF => 348,
            Currency::IDR => 360,
            Currency::ILS => 376,
            Currency::INR => 356,
            Currency::IQD => 368,
            Currency::IRR => 364,
            Currency::ISK => 352,
            Currency::JMD => 388,
            Currency::JOD => 400,
            Currency::JPY => 392,
            Currency::KES => 404,
            Currency::KGS => 417,
            Currency::KHR => 116,
            Currency::KMF => 174,
            Currency::KPW => 408,
            Currency::KRW => 410,
            Currency::KWD => 414,
            Currency::KYD => 136,
            Currency::KZT => 398,
            Currency::LAK => 418,
            Currency::LBP => 422,
            Currency::LKR => 144,
            Currency::LRD => 430,
            Currency::LSL => 426,
            Currency::LYD => 434,
            Currency::MAD => 504,
            Currency::MDL => 498,
            Currency::MGA => 969,
            Currency::MKD => 807,
            Currency::MMK => 104,
            Currency::MNT => 496,
            Currency::MOP => 446,
            Currency::MRU => 929,
            Currency::MUR => 480,
            Currency::MVR => 462,
            Currency::MWK => 454,
            Currency::MXN => 484,
            Currency::MXV => 979,
            Currency::MYR => 458,
            Currency::MZN => 943,
            Currency::NAD => 516,
            Currency::NGN => 566,
            Currency::NIO => 558,
            Currency::NOK => 578,
            Currency::NPR => 524,
            Currency::NZD => 554,
            Currency::OMR => 512,
            Currency::PAB => 590,
            Currency::PEN => 604,
            Currency::PGK => 598,
            Currency::PHP => 608,
            Currency::PKR => 586,
            Currency::PLN => 985,
            Currency::PYG => 600,
            Currency::QAR => 634,
            Currency::RON => 946,
            Currency::RSD => 941,
            Currency::CNY => 156,
            Currency::RUB => 643,
            Currency::RWF => 646,
            Currency::SAR => 682,
            Currency::SBD => 90,
            Currency::SCR => 690,
            Currency::SDG => 938,
            Currency::SEK => 752,
            Currency::SGD => 702,
            Currency::SHP => 654,
            Currency::SLE => 925,
            Currency::SLL => 694,
            Currency::SOS => 706,
            Currency::SRD => 968,
            Currency::SSP => 728,
            Currency::STN => 930,
            Currency::SVC => 222,
            Currency::SYP => 760,
            Currency::SZL => 748,
            Currency::THB => 764,
            Currency::TJS => 972,
            Currency::TMT => 934,
            Currency::TND => 788,
            Currency::TOP => 776,
            Currency::TRY => 949,
            Currency::TTD => 780,
            Currency::TWD => 901,
            Currency::TZS => 834,
            Currency::UAH => 980,
            Currency::UGX => 800,
            Currency::USD => 840,
            Currency::USN => 997,
            Currency::UYI => 940,
            Currency::UYU => 858,
            Currency::UYW => 927,
            Currency::UZS => 860,
            Currency::VED => 926,
            Currency::VES => 928,
            Currency::VND => 704,
            Currency::VUV => 548,
            Currency::WST => 882,
            Currency::XAF => 950,
            Currency::XAG => 961,
            Currency::XAU => 959,
            Currency::XBA => 955,
            Currency::XBB => 956,
            Currency::XBC => 957,
            Currency::XBD => 958,
            Currency::XCD => 951,
            Currency::XDR => 960,
            Currency::XOF => 952,
            Currency::XPD => 964,
            Currency::XPF => 953,
            Currency::XPT => 962,
            Currency::XSU => 994,
            Currency::XTS => 963,
            Currency::XUA => 965,
            Currency::XXX => 999,
            Currency::YER => 886,
            Currency::ZAR => 710,
            Currency::ZMW => 967,
            Currency::ZWL => 932,
        }
    }

    /// Gets the name of the currency (in English), which is never empty.
    pub fn name(&self) -> (r: &'static str)
        ensures
            r@ == self.display_name(),
            r@.len() > 0,
    {
        match self {
            Currency::AED => { proof { reveal_strlit("United Arab Emirates dirham United Arab Emirates"); } "United Arab Emirates dirham United Arab Emirates" },
            Currency::AFN => { proof { reveal_strlit("Afghan afghani Afghanistan"); } "Afghan afghani Afghanistan" },
            Currency::ALL => { proof { reveal_strlit("Albanian lek Albania"); } "Albanian lek Albania" },
            Currency::AMD => { proof { reveal_strlit("Armenian dram Armenia"); } "Armenian dram Armenia" },
            Currency::ANG => { proof { reveal_strlit("Netherlands Antillean guilder Cura"); } "Netherlands Antillean guilder Cura" },
            Currency::AOA => { proof { reveal_strlit("Angolan kwanza Angola"); } "Angolan kwanza Angola" },
            Currency::ARS => { proof { reveal_strlit("Argentine peso Argentina"); } "Argentine peso Argentina" },
            Currency::AUD => { proof { reveal_strlit("Australian dollar Australia"); } "Australian dollar Australia" },
            Currency::AWG => { proof { reveal_strlit("Aruban florin Aruba"); } "Aruban florin Aruba" },
            Currency::AZN => { proof { reveal_strlit("Azerbaijani manat Azerbaijan"); } "Azerbaijani manat Azerbaijan" },
            Currency::BAM => { proof { reveal_strlit("Bosnia and Herzegovina convertible mark Bosnia and Herzegovina"); } "Bosnia and Herzegovina convertible mark Bosnia and Herzegovina" },
            Currency::BBD => { proof { reveal_strlit("Barbados dollar Barbados"); } "Barbados dollar Barbados" },
            Currency::BDT => { proof { reveal_strlit("Bangladeshi taka Bangladesh"); } "Bangladeshi taka Bangladesh" },
            Currency::BGN => { proof { reveal_strlit("Bulgarian lev Bulgaria"); } "Bulgarian lev Bulgaria" },
            Currency::BHD => { proof { reveal_strlit("Bahraini dinar Bahrain"); } "Bahraini dinar Bahrain" },
            Currency::BIF => { proof { reveal_strlit("Burundian franc Burundi"); } "Burundian franc Burundi" },
            Currency::BMD => { proof { reveal_strlit("Bermudian dollar Bermuda"); } "Bermudian dollar Bermuda" },
            Currency::BND => { proof { reveal_strlit("Brunei dollar Brunei"); } "Brunei dollar Brunei" },
            Currency::BOB => { proof { reveal_strlit("Boliviano Bolivia"); } "Boliviano Bolivia" },
            Currency::BOV => { proof { reveal_strlit("Bolivian Mvdol (funds code)"); } "Bolivian Mvdol (funds code)" },
            Currency::BRL => { proof { reveal_strlit("Brazilian real Brazil"); } "Brazilian real Brazil" },
            Currency::BSD => { proof { reveal_strlit("Bahamian dollar Bahamas"); } "Bahamian dollar Bahamas" },
            Currency::BTN => { proof { reveal_strlit("Bhutanese ngultrum Bhutan"); } "Bhutanese ngultrum Bhutan" },
            Currency::BWP => { proof { reveal_strlit("Botswana pula Botswana"); } "Botswana pula Botswana" },
            Currency::BYN => { proof { reveal_strlit("Belarusian ruble Belarus"); } "Belarusian ruble Belarus" },
            Currency::BZD => { proof { reveal_strlit("Belize dollar Belize"); } "Belize dollar Belize" },
            Currency::CAD => { proof { reveal_strlit("Canadian dollar Canada"); } "Canadian dollar Canada" },
            Currency::CDF => { proof { reveal_strlit("Congolese franc Democratic Republic of the Congo"); } "Congolese franc Democratic Republic of the Congo" },
            Currency::CHE => { proof { reveal_strlit("WIR euro (complementary currency)"); } "WIR euro (complementary currency)" },
            Currency::CHF => { proof { reveal_strlit("Swiss franc Switzerland"); } "Swiss franc Switzerland" },
            Currency::CHW => { proof { reveal_strlit("WIR franc (complementary currency)"); } "WIR franc (complementary currency)" },
            Currency::CLF => { proof { reveal_strlit("Unidad de Fomento (funds code)"); } "Unidad de Fomento (funds code)" },
            Currency::CLP => { proof { reveal_strlit("Chilean peso Chile"); } "Chilean peso Chile" },
            Currency::COP => { proof { reveal_strlit("Colombian peso Colombia"); } "Colombian peso Colombia" },
            Currency::COU => { proof { reveal_strlit(" Unidad de Valor Real (UVR) (funds code)"); } " Unidad de Valor Real (UVR) (funds code)" },
            Currency::CRC => { proof { reveal_strlit("Costa Rican colon Costa Rica"); } "Costa Rican colon Costa Rica" },
            Currency::CUC => { proof { reveal_strlit("Cuban convertible peso Cuba"); } "Cuban convertible peso Cuba" },
            Currency::CUP => { proof { reveal_strlit("Cuban peso Cuba"); } "Cuban peso Cuba" },
            Currency::CVE => { proof { reveal_strlit("Cape Verdean escudo Cabo Verde"); } "Cape Verdean escudo Cabo Verde" },
            Currency::CZK => { proof { reveal_strlit("Czech koruna Czechia"); } "Czech koruna Czechia" },
            Currency::DJF => { proof { reveal_strlit("Djiboutian franc Djibouti"); } "Djiboutian franc Djibouti" },
            Currency::DKK => { proof { reveal_strlit("Danish krone Denmark"); } "Danish krone Denmark" },
            Currency::DOP => { proof { reveal_strlit("Dominican peso Dominican Republic"); } "Dominican peso Dominican Republic" },
            Currency::DZD => { proof { reveal_strlit("Algerian dinar Algeria"); } "Algerian dinar Algeria" },
            Currency::EGP => { proof { reveal_strlit("Egyptian pound Egypt"); } "Egyptian pound Egypt" },
            Currency::ERN => { proof { reveal_strlit("Eritrean nakfa Eritrea"); } "Eritrean nakfa Eritrea" },
            Currency::ETB => { proof { reveal_strlit("Ethiopian birr Ethiopia"); } "Ethiopian birr Ethiopia" },
            Currency::EUR => { proof { reveal_strlit("Euro"); } "Euro" },
            Currency::FJD => { proof { reveal_strlit("Fiji dollar Fiji"); } "Fiji dollar Fiji" },
            Currency::FKP => { proof { reveal_strlit("Falkland Islands pound Falkland Islands (pegged to GBP)"); } "Falkland Islands pound Falkland Islands (pegged to GBP)" },
            Currency::GBP => { proof { reveal_strlit("Pound sterling United Kingdom"); } "Pound sterling United Kingdom" },
            Currency::GEL => { proof { reveal_strlit("Georgian lari Georgia"); } "Georgian lari Georgia" },
            Currency::GHS => { proof { reveal_strlit("Ghanaian cedi Ghana"); } "Ghanaian cedi Ghana" },
            Currency::GIP => { proof { reveal_strlit("Gibraltar pound Gibraltar (pegged to GBP)"); } "Gibraltar pound Gibraltar (pegged to GBP)" },
            Currency::GMD => { proof { reveal_strlit("Gambian dalasi Gambia"); } "Gambian dalasi Gambia" },
            Currency::GNF => { proof { reveal_strlit("Guinean franc Guinea"); } "Guinean franc Guinea" },
            Currency::GTQ => { proof { reveal_strlit("Guatemalan quetzal Guatemala"); } "Guatemalan quetzal Guatemala" },
            Currency::GYD => { proof { reveal_strlit("Guyanese dollar Guyana"); } "Guyanese dollar Guyana" },
            Currency::HKD => { proof { reveal_strlit("Hong Kong dollar Hong Kong"); } "Hong Kong dollar Hong Kong" },
            Currency::HNL => { proof { reveal_strlit("Honduran lempira Honduras"); } "Honduran lempira Honduras" },
            Currency::HTG => { proof { reveal_strlit("Haitian gourde Haiti"); } "Haitian gourde Haiti" },
            Currency::HUF => { proof { reveal_strlit("Hungarian forint Hungary"); } "Hungarian forint Hungary" },
            Currency::IDR => { proof { reveal_strlit("Indonesian rupiah Indonesia"); } "Indonesian rupiah Indonesia" },
            Currency::ILS => { proof { reveal_strlit("Israeli new shekel Israel"); } "Israeli new shekel Israel" },
            Currency::INR => { proof { reveal_strlit("Indian rupee India"); } "Indian rupee India" },
            Currency::IQD => { proof { reveal_strlit("Iraqi dinar Iraq"); } "Iraqi dinar Iraq" },
            Currency::IRR => { proof { reveal_strlit("Iranian rial Iran"); } "Iranian rial Iran" },
            Currency::ISK => { proof { reveal_strlit("Icelandic kr"); } "Icelandic kr" },
            Currency::JMD => { proof { reveal_strlit("Jamaican dollar Jamaica"); } "Jamaican dollar Jamaica" },
            Currency::JOD => { proof { reveal_strlit("Jordanian dinar Jordan"); } "Jordanian dinar Jordan" },
            Currency::JPY => { proof { reveal_strlit("Japanese yen Japan"); } "Japanese yen Japan" },
            Currency::KES => { proof { reveal_strlit("Kenyan shilling Kenya"); } "Kenyan shilling Kenya" },
            Currency::KGS => { proof { reveal_strlit("Kyrgyzstani som Kyrgyzstan"); } "Kyrgyzstani som Kyrgyzstan" },
            Currency::KHR => { proof { reveal_strlit("Cambodian riel Cambodia"); } "Cambodian riel Cambodia" },
            Currency::KMF => { proof { reveal_strlit("Comoro franc Comoros"); } "Comoro franc Comoros" },
            Currency::KPW => { proof { reveal_strlit("North Korean won North Korea"); } "North Korean won North Korea" },
            Currency::KRW => { proof { reveal_strlit("South Korean won"); } "South Korean won" },
            Currency::KWD => { proof { reveal_strlit("Kuwaiti dinar Kuwait"); } "Kuwaiti dinar Kuwait" },
            Currency::KYD => { proof { reveal_strlit("Cayman Islands dollar Cayman Islands"); } "Cayman Islands dollar Cayman Islands" },
            Currency::KZT => { proof { reveal_strlit("Kazakhstani tenge Kazakhstan"); } "Kazakhstani tenge Kazakhstan" },
            Currency::LAK => { proof { reveal_strlit("Lao kip Laos"); } "Lao kip Laos" },
            Currency::LBP => { proof { reveal_strlit("Lebanese pound Lebanon"); } "Lebanese pound Lebanon" },
            Currency::LKR => { proof { reveal_strlit("Sri Lankan rupee Sri Lanka"); } "Sri Lankan rupee Sri Lanka" },
            Currency::LRD => { proof { reveal_strlit("Liberian dollar Liberia"); } "Liberian dollar Liberia" },
            Currency::LSL => { proof { reveal_strlit("Lesotho loti Lesotho"); } "Lesotho loti Lesotho" },
            Currency::LYD => { proof { reveal_strlit("Libyan dinar Libya"); } "Libyan dinar Libya" },
            Currency::MAD => { proof { reveal_strlit("Moroccan dirham Morocco"); } "Moroccan dirham Morocco" },
            Currency::MDL => { proof { reveal_strlit("Moldovan leu Moldova"); } "Moldovan leu Moldova" },
            Currency::MGA => { proof { reveal_strlit("Malagasy ariary"); } "Malagasy ariary" },
            Currency::MKD => { proof { reveal_strlit("Macedonian denar North Macedonia"); } "Macedonian denar North Macedonia" },
            Currency::MMK => { proof { reveal_strlit("Myanmar kyat Myanmar"); } "Myanmar kyat Myanmar" },
            Currency::MNT => { proof { reveal_strlit("Mongolian tögrög"); } "Mongolian tögrög" },
            Currency::MOP => { proof { reveal_strlit("Macanese pataca Macau"); } "Macanese pataca Macau" },
            Currency::MRU => { proof { reveal_strlit("Mauritanian ouguiya"); } "Mauritanian ouguiya" },
            Currency::MUR => { proof { reveal_strlit("Mauritian rupee Mauritius"); } "Mauritian rupee Mauritius" },
            Currency::MVR => { proof { reveal_strlit("Maldivian rufiyaa Maldives"); } "Maldivian rufiyaa Maldives" },
            Currency::MWK => { proof { reveal_strlit("Malawian kwacha Malawi"); } "Malawian kwacha Malawi" },
            Currency::MXN => { proof { reveal_strlit("Mexican peso Mexico"); } "Mexican peso Mexico" },
            Currency::MXV => { proof { reveal_strlit("Mexican Unidad de Inversion (UDI) (funds code)"); } "Mexican Unidad de Inversion (UDI) (funds code)" },
            Currency::MYR => { proof { reveal_strlit("Malaysian ringgit Malaysia"); } "Malaysian ringgit Malaysia" },
            Currency::MZN => { proof { reveal_strlit("Mozambican metical Mozambique"); } "Mozambican metical Mozambique" },
            Currency::NAD => { proof { reveal_strlit("Namibian dollar Namibia (pegged to ZAR)"); } "Namibian dollar Namibia (pegged to ZAR)" },
            Currency::NGN => { proof { reveal_strlit("Nigerian naira Nigeria"); } "Nigerian naira Nigeria" },
            Currency::NIO => { proof { reveal_strlit("Nicaraguan c"); } "Nicaraguan c" },
            Currency::NOK => { proof { reveal_strlit("Norwegian krone Norway"); } "Norwegian krone Norway" },
            Currency::NPR => { proof { reveal_strlit("Nepalese rupee Nepal"); } "Nepalese rupee Nepal" },
            Currency::NZD => { proof { reveal_strlit("New Zealand dollar New Zealand"); } "New Zealand dollar New Zealand" },
            Currency::OMR => { proof { reveal_strlit("Omani rial Oman"); } "Omani rial Oman" },
            Currency::PAB => { proof { reveal_strlit("Panamanian balboa Panama"); } "Panamanian balboa Panama" },
            Currency::PEN => { proof { reveal_strlit("Peruvian sol Peru"); } "Peruvian sol Peru" },
            Currency::PGK => { proof { reveal_strlit("Papua New Guinean kina Papua New Guinea"); } "Papua New Guinean kina Papua New Guinea" },
            Currency::PHP => { proof { reveal_strlit("Philippine peso"); } "Philippine peso" },
            Currency::PKR => { proof { reveal_strlit("Pakistani rupee Pakistan"); } "Pakistani rupee Pakistan" },
            Currency::PLN => { proof { reveal_strlit("Polish z"); } "Polish z" },
            Currency::PYG => { proof { reveal_strlit("Paraguayan guaran"); } "Paraguayan guaran" },
            Currency::QAR => { proof { reveal_strlit("Qatari riyal Qatar"); } "Qatari riyal Qatar" },
            Currency::RON => { proof { reveal_strlit("Romanian leu Romania"); } "Romanian leu Romania" },
            Currency::RSD => { proof { reveal_strlit("Serbian dinar Serbia"); } "Serbian dinar Serbia" },
            Currency::CNY => { proof { reveal_strlit("Renminbi"); } "Renminbi" },
            Currency::RUB => { proof { reveal_strlit("Russian ruble Russia"); } "Russian ruble Russia" },
            Currency::RWF => { proof { reveal_strlit("Rwandan franc Rwanda"); } "Rwandan franc Rwanda" },
            Currency::SAR => { proof { reveal_strlit("Saudi riyal Saudi Arabia"); } "Saudi riyal Saudi Arabia" },
            Currency::SBD => { proof { reveal_strlit("Solomon Islands dollar Solomon Islands"); } "Solomon Islands dollar Solomon Islands" },
            Currency::SCR => { proof { reveal_strlit("Seychelles rupee Seychelles"); } "Seychelles rupee Seychelles" },
            Currency::SDG => { proof { reveal_strlit("Sudanese pound Sudan"); } "Sudanese pound Sudan" },
            Currency::SEK => { proof { reveal_strlit("Swedish krona (plural"); } "Swedish krona (plural" },
            Currency::SGD => { proof { reveal_strlit("Singapore dollar Singapore"); } "Singapore dollar Singapore" },
            Currency::SHP => { proof { reveal_strlit("Saint Helena pound Saint Helena (SH"); } "Saint Helena pound Saint Helena (SH" },
            Currency::SLE => { proof { reveal_strlit("Sierra Leonean leone (new leone)"); } "Sierra Leonean leone (new leone)" },
            Currency::SLL => { proof { reveal_strlit("Sierra Leonean leone (old leone)"); } "Sierra Leonean leone (old leone)" },
            Currency::SOS => { proof { reveal_strlit("Somali shilling Somalia"); } "Somali shilling Somalia" },
            Currency::SRD => { proof { reveal_strlit("Surinamese dollar Suriname"); } "Surinamese dollar Suriname" },
            Currency::SSP => { proof { reveal_strlit("South Sudanese pound South Sudan"); } "South Sudanese pound South Sudan" },
            Currency::STN => { proof { reveal_strlit("São Tomé and Príncipe dobra"); } "São Tomé and Príncipe dobra" },
            Currency::SVC => { proof { reveal_strlit("Salvadoran col"); } "Salvadoran col" },
            Currency::SYP => { proof { reveal_strlit("Syrian pound Syria"); } "Syrian pound Syria" },
            Currency::SZL => { proof { reveal_strlit("Swazi lilangeni Eswatini"); } "Swazi lilangeni Eswatini" },
            Currency::THB => { proof { reveal_strlit("Thai baht Thailand"); } "Thai baht Thailand" },
            Currency::TJS => { proof { reveal_strlit("Tajikistani somoni Tajikistan"); } "Tajikistani somoni Tajikistan" },
            Currency::TMT => { proof { reveal_strlit("Turkmenistan manat Turkmenistan"); } "Turkmenistan manat Turkmenistan" },
            Currency::TND => { proof { reveal_strlit("Tunisian dinar Tunisia"); } "Tunisian dinar Tunisia" },
            Currency::TOP => { proof { reveal_strlit("Tongan pa"); } "Tongan pa" },
            Currency::TRY => { proof { reveal_strlit("Turkish lira Turkey"); } "Turkish lira Turkey" },
            Currency::TTD => { proof { reveal_strlit("Trinidad and Tobago dollar Trinidad and Tobago"); } "Trinidad and Tobago dollar Trinidad and Tobago" },
            Currency::TWD => { proof { reveal_strlit("New Taiwan dollar Taiwan"); } "New Taiwan dollar Taiwan" },
            Currency::TZS => { proof { reveal_strlit("Tanzanian shilling Tanzania"); } "Tanzanian shilling Tanzania" },
            Currency::UAH => { proof { reveal_strlit("Ukrainian hryvnia Ukraine"); } "Ukrainian hryvnia Ukraine" },
            Currency::UGX => { proof { reveal_strlit("Ugandan shilling Uganda"); } "Ugandan shilling Uganda" },
            Currency::USD => { proof { reveal_strlit("United States dollar United States"); } "United States dollar United States" },
            Currency::USN => { proof { reveal_strlit("United States dollar (next day) (funds code)"); } "United States dollar (next day) (funds code)" },
            Currency::UYI => { proof { reveal_strlit("Uruguay Peso en Unidades Indexadas (URUIURUI) (funds code)"); } "Uruguay Peso en Unidades Indexadas (URUIURUI) (funds code)" },
            Currency::UYU => { proof { reveal_strlit("Uruguayan peso Uruguay"); } "Uruguayan peso Uruguay" },
            Currency::UYW => { proof { reveal_strlit("Unidad previsional"); } "Unidad previsional" },
            Currency::UZS => { proof { reveal_strlit("Uzbekistan sum Uzbekistan"); } "Uzbekistan sum Uzbekistan" },
            Currency::VED => { proof { reveal_strlit("Venezuelan digital bol"); } "Venezuelan digital bol" },
            Currency::VES => { proof { reveal_strlit("Venezuelan sovereign bol"); } "Venezuelan sovereign bol" },
            Currency::VND => { proof { reveal_strlit("Vietnamese"); } "Vietnamese" },
            Currency::VUV => { proof { reveal_strlit("Vanuatu vatu Vanuatu"); } "Vanuatu vatu Vanuatu" },
            Currency::WST => { proof { reveal_strlit("Samoan tala Samoa"); } "Samoan tala Samoa" },
            Currency::XAF => { proof { reveal_strlit("CFA franc BEAC Cameroon (CM)"); } "CFA franc BEAC Cameroon (CM)" },
            Currency::XAG => { proof { reveal_strlit("Silver (one troy ounce)"); } "Silver (one troy ounce)" },
            Currency::XAU => { proof { reveal_strlit("Gold (one troy ounce)"); } "Gold (one troy ounce)" },
            Currency::XBA => { proof { reveal_strlit("European Composite Unit (bond market unit)"); } "European Composite Unit (bond market unit)" },
            Currency::XBB => { proof { reveal_strlit("European Monetary Unit (bond market unit)"); } "European Monetary Unit (bond market unit)" },
            Currency::XBC => { proof { reveal_strlit("European Unit of Account 9 (bond market unit)"); } "European Unit of Account 9 (bond market unit)" },
            Currency::XBD => { proof { reveal_strlit("European unit of account 17 (bond market unit)"); } "European unit of account 17 (bond market unit)" },
            Currency::XCD => { proof { reveal_strlit("East Caribbean dollar Anguilla (AI)"); } "East Caribbean dollar Anguilla (AI)" },
            Currency::XDR => { proof { reveal_strlit("Special drawing rights"); } "Special drawing rights" },
            Currency::XOF => { proof { reveal_strlit("CFA franc BCEAO Benin (BJ)"); } "CFA franc BCEAO Benin (BJ)" },
            Currency::XPD => { proof { reveal_strlit("Palladium (one troy ounce)"); } "Palladium (one troy ounce)" },
            Currency::XPF => { proof { reveal_strlit("CFP franc (franc Pacifique)"); } "CFP franc (franc Pacifique)" },
            Currency::XPT => { proof { reveal_strlit("Platinum (one troy ounce)"); } "Platinum (one troy ounce)" },
            Currency::XSU => { proof { reveal_strlit("SUCRE"); } "SUCRE" },
            Currency::XTS => { proof { reveal_strlit("Code reserved for testing"); } "Code reserved for testing" },
            Currency::XUA => { proof { reveal_strlit("ADB Unit of Account"); } "ADB Unit of Account" },
            Currency::XXX => { proof { reveal_strlit("No country code"); } "No country code" },
            Currency::YER => { proof { reveal_strlit("Yemeni rial Yemen"); } "Yemeni rial Yemen" },
            Currency::ZAR => { proof { reveal_strlit("South African rand Eswatini"); } "South African rand Eswatini" },
            Currency::ZMW => { proof { reveal_strlit("Zambian kwacha Zambia"); } "Zambian kwacha Zambia" },
            Currency::ZWL => { proof { reveal_strlit("Zimbabwean dollar (fifth)"); } "Zimbabwean dollar (fifth)" },
        }
    }

    /// Gets the alphabetic code.
    pub fn to_alpha(self) -> (r: &'static str)
        ensures
            r@ == self.alpha_code(),
    {
        let r = match self {
            Currency::AED => { proof { reveal_strlit("AED"); } "AED" },
            Currency::AFN => { proof { reveal_strlit("AFN"); } "AFN" },
            Currency::ALL => { proof { reveal_strlit("ALL"); } "ALL" },
            Currency::AMD => { proof { reveal_strlit("AMD"); } "AMD" },
            Currency::ANG => { proof { reveal_strlit("ANG"); } "ANG" },
            Currency::AOA => { proof { reveal_strlit("AOA"); } "AOA" },
            Currency::ARS => { proof { reveal_strlit("ARS"); } "ARS" },
            Currency::AUD => { proof { reveal_strlit("AUD"); } "AUD" },
            Currency::AWG => { proof { reveal_strlit("AWG"); } "AWG" },
            Currency::AZN => { proof { reveal_strlit("AZN"); } "AZN" },
            Currency::BAM => { proof { reveal_strlit("BAM"); } "BAM" },
            Currency::BBD => { proof { reveal_strlit("BBD"); } "BBD" },
            Currency::BDT => { proof { reveal_strlit("BDT"); } "BDT" },
            Currency::BGN => { proof { reveal_strlit("BGN"); } "BGN" },
            Currency::BHD => { proof { reveal_strlit("BHD"); } "BHD" },
            Currency::BIF => { proof { reveal_strlit("BIF"); } "BIF" },
            Currency::BMD => { proof { reveal_strlit("BMD"); } "BMD" },
            Currency::BND => { proof { reveal_strlit("BND"); } "BND" },
            Currency::BOB => { proof { reveal_strlit("BOB"); } "BOB" },
            Currency::BOV => { proof { reveal_strlit("BOV"); } "BOV" },
            Currency::BRL => { proof { reveal_strlit("BRL"); } "BRL" },
            Currency::BSD => { proof { reveal_strlit("BSD"); } "BSD" },
            Currency::BTN => { proof { reveal_strlit("BTN"); } "BTN" },
            Currency::BWP => { proof { reveal_strlit("BWP"); } "BWP" },
            Currency::BYN => { proof { reveal_strlit("BYN"); } "BYN" },
            Currency::BZD => { proof { reveal_strlit("BZD"); } "BZD" },
            Currency::CAD => { proof { reveal_strlit("CAD"); } "CAD" },
            Currency::CDF => { proof { reveal_strlit("CDF"); } "CDF" },
            Currency::CHE => { proof { reveal_strlit("CHE"); } "CHE" },
            Currency::CHF => { proof { reveal_strlit("CHF"); } "CHF" },
            Currency::CHW => { proof { reveal_strlit("CHW"); } "CHW" },
            Currency::CLF => { proof { reveal_strlit("CLF"); } "CLF" },
            Currency::CLP => { proof { reveal_strlit("CLP"); } "CLP" },
            Currency::COP => { proof { reveal_strlit("COP"); } "COP" },
            Currency::COU => { proof { reveal_strlit("COU"); } "COU" },
            Currency::CRC => { proof { reveal_strlit("CRC"); } "CRC" },
            Currency::CUC => { proof { reveal_strlit("CUC"); } "CUC" },
            Currency::CUP => { proof { reveal_strlit("CUP"); } "CUP" },
            Currency::CVE => { proof { reveal_strlit("CVE"); } "CVE" },
            Currency::CZK => { proof { reveal_strlit("CZK"); } "CZK" },
            Currency::DJF => { proof { reveal_strlit("DJF"); } "DJF" },
            Currency::DKK => { proof { reveal_strlit("DKK"); } "DKK" },
            Currency::DOP => { proof { reveal_strlit("DOP"); } "DOP" },
            Currency::DZD => { proof { reveal_strlit("DZD"); } "DZD" },
            Currency::EGP => { proof { reveal_strlit("EGP"); } "EGP" },
            Currency::ERN => { proof { reveal_strlit("ERN"); } "ERN" },
            Currency::ETB => { proof { reveal_strlit("ETB"); } "ETB" },
            Currency::EUR => { proof { reveal_strlit("EUR"); } "EUR" },
            Currency::FJD => { proof { reveal_strlit("FJD"); } "FJD" },
            Currency::FKP => { proof { reveal_strlit("FKP"); } "FKP" },
            Currency::GBP => { proof { reveal_strlit("GBP"); } "GBP" },
            Currency::GEL => { proof { reveal_strlit("GEL"); } "GEL" },
            Currency::GHS => { proof { reveal_strlit("GHS"); } "GHS" },
            Currency::GIP => { proof { reveal_strlit("GIP"); } "GIP" },
            Currency::GMD => { proof { reveal_strlit("GMD"); } "GMD" },
            Currency::GNF => { proof { reveal_strlit("GNF"); } "GNF" },
            Currency::GTQ => { proof { reveal_strlit("GTQ"); } "GTQ" },
            Currency::GYD => { proof { reveal_strlit("GYD"); } "GYD" },
            Currency::HKD => { proof { reveal_strlit("HKD"); } "HKD" },
            Currency::HNL => { proof { reveal_strlit("HNL"); } "HNL" },
            Currency::HTG => { proof { reveal_strlit("HTG"); } "HTG" },
            Currency::HUF => { proof { reveal_strlit("HUF"); } "HUF" },
            Currency::IDR => { proof { reveal_strlit("IDR"); } "IDR" },
            Currency::ILS => { proof { reveal_strlit("ILS"); } "ILS" },
            Currency::INR => { proof { reveal_strlit("INR"); } "INR" },
            Currency::IQD => { proof { reveal_strlit("IQD"); } "IQD" },
            Currency::IRR => { proof { reveal_strlit("IRR"); } "IRR" },
            Currency::ISK => { proof { reveal_strlit("ISK"); } "ISK" },
            Currency::JMD => { proof { reveal_strlit("JMD"); } "JMD" },
            Currency::JOD => { proof { reveal_strlit("JOD"); } "JOD" },
            Currency::JPY => { proof { reveal_strlit("JPY"); } "JPY" },
            Currency::KES => { proof { reveal_strlit("KES"); } "KES" },
            Currency::KGS => { proof { reveal_strlit("KGS"); } "KGS" },
            Currency::KHR => { proof { reveal_strlit("KHR"); } "KHR" },
            Currency::KMF => { proof { reveal_strlit("KMF"); } "KMF" },
            Currency::KPW => { proof { reveal_strlit("KPW"); } "KPW" },
            Currency::KRW => { proof { reveal_strlit("KRW"); } "KRW" },
            Currency::KWD => { proof { reveal_strlit("KWD"); } "KWD" },
            Currency::KYD => { proof { reveal_strlit("KYD"); } "KYD" },
            Currency::KZT => { proof { reveal_strlit("KZT"); } "KZT" },
            Currency::LAK => { proof { reveal_strlit("LAK"); } "LAK" },
            Currency::LBP => { proof { reveal_strlit("LBP"); } "LBP" },
            Currency::LKR => { proof { reveal_strlit("LKR"); } "LKR" },
            Currency::LRD => { proof { reveal_strlit("LRD"); } "LRD" },
            Currency::LSL => { proof { reveal_strlit("LSL"); } "LSL" },
            Currency::LYD => { proof { reveal_strlit("LYD"); } "LYD" },
            Currency::MAD => { proof { reveal_strlit("MAD"); } "MAD" },
            Currency::MDL => { proof { reveal_strlit("MDL"); } "MDL" },
            Currency::MGA => { proof { reveal_strlit("MGA"); } "MGA" },
            Currency::MKD => { proof { reveal_strlit("MKD"); } "MKD" },
            Currency::MMK => { proof { reveal_strlit("MMK"); } "MMK" },
            Currency::MNT => { proof { reveal_strlit("MNT"); } "MNT" },
            Currency::MOP => { proof { reveal_strlit("MOP"); } "MOP" },
            Currency::MRU => { proof { reveal_strlit("MRU"); } "MRU" },
            Currency::MUR => { proof { reveal_strlit("MUR"); } "MUR" },
            Currency::MVR => { proof { reveal_strlit("MVR"); } "MVR" },
            Currency::MWK => { proof { reveal_strlit("MWK"); } "MWK" },
            Currency::MXN => { proof { reveal_strlit("MXN"); } "MXN" },
            Currency::MXV => { proof { reveal_strlit("MXV"); } "MXV" },
            Currency::MYR => { proof { reveal_strlit("MYR"); } "MYR" },
            Currency::MZN => { proof { reveal_strlit("MZN"); } "MZN" },
            Currency::NAD => { proof { reveal_strlit("NAD"); } "NAD" },
            Currency::NGN => { proof { reveal_strlit("NGN"); } "NGN" },
            Currency::NIO => { proof { reveal_strlit("NIO"); } "NIO" },
            Currency::NOK => { proof { reveal_strlit("NOK"); } "NOK" },
            Currency::NPR => { proof { reveal_strlit("NPR"); } "NPR" },
            Currency::NZD => { proof { reveal_strlit("NZD"); } "NZD" },
            Currency::OMR => { proof { reveal_strlit("OMR"); } "OMR" },
            Currency::PAB => { proof { reveal_strlit("PAB"); } "PAB" },
            Currency::PEN => { proof { reveal_strlit("PEN"); } "PEN" },
            Currency::PGK => { proof { reveal_strlit("PGK"); } "PGK" },
            Currency::PHP => { proof { reveal_strlit("PHP"); } "PHP" },
            Currency::PKR => { proof { reveal_strlit("PKR"); } "PKR" },
            Currency::PLN => { proof { reveal_strlit("PLN"); } "PLN" },
            Currency::PYG => { proof { reveal_strlit("PYG"); } "PYG" },
            Currency::QAR => { proof { reveal_strlit("QAR"); } "QAR" },
            Currency::RON => { proof { reveal_strlit("RON"); } "RON" },
            Currency::RSD => { proof { reveal_strlit("RSD"); } "RSD" },
            Currency::CNY => { proof { reveal_strlit("CNY"); } "CNY" },
            Currency::RUB => { proof { reveal_strlit("RUB"); } "RUB" },
            Currency::RWF => { proof { reveal_strlit("RWF"); } "RWF" },
            Currency::SAR => { proof { reveal_strlit("SAR"); } "SAR" },
            Currency::SBD => { proof { reveal_strlit("SBD"); } "SBD" },
            Currency::SCR => { proof { reveal_strlit("SCR"); } "SCR" },
            Currency::SDG => { proof { reveal_strlit("SDG"); } "SDG" },
            Currency::SEK => { proof { reveal_strlit("SEK"); } "SEK" },
            Currency::SGD => { proof { reveal_strlit("SGD"); } "SGD" },
            Currency::SHP => { proof { reveal_strlit("SHP"); } "SHP" },
            Currency::SLE => { proof { reveal_strlit("SLE"); } "SLE" },
            Currency::SLL => { proof { reveal_strlit("SLL"); } "SLL" },
            Currency::SOS => { proof { reveal_strlit("SOS"); } "SOS" },
            Currency::SRD => { proof { reveal_strlit("SRD"); } "SRD" },
            Currency::SSP => { proof { reveal_strlit("SSP"); } "SSP" },
            Currency::STN => { proof { reveal_strlit("STN"); } "STN" },
            Currency::SVC => { proof { reveal_strlit("SVC"); } "SVC" },
            Currency::SYP => { proof { reveal_strlit("SYP"); } "SYP" },
            Currency::SZL => { proof { reveal_strlit("SZL"); } "SZL" },
            Currency::THB => { proof { reveal_strlit("THB"); } "THB" },
            Currency::TJS => { proof { reveal_strlit("TJS"); } "TJS" },
            Currency::TMT => { proof { reveal_strlit("TMT"); } "TMT" },
            Currency::TND => { proof { reveal_strlit("TND"); } "TND" },
            Currency::TOP => { proof { reveal_strlit("TOP"); } "TOP" },
            Currency::TRY => { proof { reveal_strlit("TRY"); } "TRY" },
            Currency::TTD => { proof { reveal_strlit("TTD"); } "TTD" },
            Currency::TWD => { proof { reveal_strlit("TWD"); } "TWD" },
            Currency::TZS => { proof { reveal_strlit("TZS"); } "TZS" },
            Currency::UAH => { proof { reveal_strlit("UAH"); } "UAH" },
            Currency::UGX => { proof { reveal_strlit("UGX"); } "UGX" },
            Currency::USD => { proof { reveal_strlit("USD"); } "USD" },
            Currency::USN => { proof { reveal_strlit("USN"); } "USN" },
            Currency::UYI => { proof { reveal_strlit("UYI"); } "UYI" },
            Currency::UYU => { proof { reveal_strlit("UYU"); } "UYU" },
            Currency::UYW => { proof { reveal_strlit("UYW"); } "UYW" },
            Currency::UZS => { proof { reveal_strlit("UZS"); } "UZS" },
            Currency::VED => { proof { reveal_strlit("VED"); } "VED" },
            Currency::VES => { proof { reveal_strlit("VES"); } "VES" },
            Currency::VND => { proof { reveal_strlit("VND"); } "VND" },
            Currency::VUV => { proof { reveal_strlit("VUV"); } "VUV" },
            Currency::WST => { proof { reveal_strlit("WST"); } "WST" },
            Currency::XAF => { proof { reveal_strlit("XAF"); } "XAF" },
            Currency::XAG => { proof { reveal_strlit("XAG"); } "XAG" },
            Currency::XAU => { proof { reveal_strlit("XAU"); } "XAU" },
            Currency::XBA => { proof { reveal_strlit("XBA"); } "XBA" },
            Currency::XBB => { proof { reveal_strlit("XBB"); } "XBB" },
            Currency::XBC => { proof { reveal_strlit("XBC"); } "XBC" },
            Currency::XBD => { proof { reveal_strlit("XBD"); } "XBD" },
            Currency::XCD => { proof { reveal_strlit("XCD"); } "XCD" },
            Currency::XDR => { proof { reveal_strlit("XDR"); } "XDR" },
            Currency::XOF => { proof { reveal_strlit("XOF"); } "XOF" },
            Currency::XPD => { proof { reveal_strlit("XPD"); } "XPD" },
            Currency::XPF => { proof { reveal_strlit("XPF"); } "XPF" },
            Currency::XPT => { proof { reveal_strlit("XPT"); } "XPT" },
            Currency::XSU => { proof { reveal_strlit("XSU"); } "XSU" },
            Currency::XTS => { proof { reveal_strlit("XTS"); } "XTS" },
            Currency::XUA => { proof { reveal_strlit("XUA"); } "XUA" },
            Currency::XXX => { proof { reveal_strlit("XXX"); } "XXX" },
            Currency::YER => { proof { reveal_strlit("YER"); } "YER" },
            Currency::ZAR => { proof { reveal_strlit("ZAR"); } "ZAR" },
            Currency::ZMW => { proof { reveal_strlit("ZMW"); } "ZMW" },
            Currency::ZWL => { proof { reveal_strlit("ZWL"); } "ZWL" },
        };
        assert(r@ =~= self.alpha_code());
        r
    }
}

} // verus!
