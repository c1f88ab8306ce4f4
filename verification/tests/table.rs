use iso4217::Currency;
use std::collections::HashSet;

/// Every currency with its numeric code, its alphabetic code and its name.
fn table() -> Vec<(Currency, u32, &'static str, &'static str)> {
    vec![
        (Currency::AED, 784, "AED", "United Arab Emirates dirham United Arab Emirates"),
        (Currency::AFN, 971, "AFN", "Afghan afghani Afghanistan"),
        (Currency::ALL, 8, "ALL", "Albanian lek Albania"),
        (Currency::AMD, 51, "AMD", "Armenian dram Armenia"),
        (Currency::ANG, 532, "ANG", "Netherlands Antillean guilder Cura"),
        (Currency::AOA, 973, "AOA", "Angolan kwanza Angola"),
        (Currency::ARS, 32, "ARS", "Argentine peso Argentina"),
        (Currency::AUD, 36, "AUD", "Australian dollar Australia"),
        (Currency::AWG, 533, "AWG", "Aruban florin Aruba"),
        (Currency::AZN, 944, "AZN", "Azerbaijani manat Azerbaijan"),
        (Currency::BAM, 977, "BAM", "Bosnia and Herzegovina convertible mark Bosnia and Herzegovina"),
        (Currency::BBD, 52, "BBD", "Barbados dollar Barbados"),
        (Currency::BDT, 50, "BDT", "Bangladeshi taka Bangladesh"),
        (Currency::BGN, 975, "BGN", "Bulgarian lev Bulgaria"),
        (Currency::BHD, 48, "BHD", "Bahraini dinar Bahrain"),
        (Currency::BIF, 108, "BIF", "Burundian franc Burundi"),
        (Currency::BMD, 60, "BMD", "Bermudian dollar Bermuda"),
        (Currency::BND, 96, "BND", "Brunei dollar Brunei"),
        (Currency::BOB, 68, "BOB", "Boliviano Bolivia"),
        (Currency::BOV, 984, "BOV", "Bolivian Mvdol (funds code)"),
        (Currency::BRL, 986, "BRL", "Brazilian real Brazil"),
        (Currency::BSD, 44, "BSD", "Bahamian dollar Bahamas"),
        (Currency::BTN, 64, "BTN", "Bhutanese ngultrum Bhutan"),
        (Currency::BWP, 72, "BWP", "Botswana pula Botswana"),
        (Currency::BYN, 933, "BYN", "Belarusian ruble Belarus"),
        (Currency::BZD, 84, "BZD", "Belize dollar Belize"),
        (Currency::CAD, 124, "CAD", "Canadian dollar Canada"),
        (Currency::CDF, 976, "CDF", "Congolese franc Democratic Republic of the Congo"),
        (Currency::CHE, 947, "CHE", "WIR euro (complementary currency)"),
        (Currency::CHF, 756, "CHF", "Swiss franc Switzerland"),
        (Currency::CHW, 948, "CHW", "WIR franc (complementary currency)"),
        (Currency::CLF, 990, "CLF", "Unidad de Fomento (funds code)"),
        (Currency::CLP, 152, "CLP", "Chilean peso Chile"),
        (Currency::COP, 170, "COP", "Colombian peso Colombia"),
        (Currency::COU, 970, "COU", " Unidad de Valor Real (UVR) (funds code)"),
        (Currency::CRC, 188, "CRC", "Costa Rican colon Costa Rica"),
        (Currency::CUC, 931, "CUC", "Cuban convertible peso Cuba"),
        (Currency::CUP, 192, "CUP", "Cuban peso Cuba"),
        (Currency::CVE, 132, "CVE", "Cape Verdean escudo Cabo Verde"),
        (Currency::CZK, 203, "CZK", "Czech koruna Czechia"),
        (Currency::DJF, 262, "DJF", "Djiboutian franc Djibouti"),
        (Currency::DKK, 208, "DKK", "Danish krone Denmark"),
        (Currency::DOP, 214, "DOP", "Dominican peso Dominican Republic"),
        (Currency::DZD, 12, "DZD", "Algerian dinar Algeria"),
        (Currency::EGP, 818, "EGP", "Egyptian pound Egypt"),
        (Currency::ERN, 232, "ERN", "Eritrean nakfa Eritrea"),
        (Currency::ETB, 230, "ETB", "Ethiopian birr Ethiopia"),
        (Currency::EUR, 978, "EUR", "Euro"),
        (Currency::FJD, 242, "FJD", "Fiji dollar Fiji"),
        (Currency::FKP, 238, "FKP", "Falkland Islands pound Falkland Islands (pegged to GBP)"),
        (Currency::GBP, 826, "GBP", "Pound sterling United Kingdom"),
        (Currency::GEL, 981, "GEL", "Georgian lari Georgia"),
        (Currency::GHS, 936, "GHS", "Ghanaian cedi Ghana"),
        (Currency::GIP, 292, "GIP", "Gibraltar pound Gibraltar (pegged to GBP)"),
        (Currency::GMD, 270, "GMD", "Gambian dalasi Gambia"),
        (Currency::GNF, 324, "GNF", "Guinean franc Guinea"),
        (Currency::GTQ, 320, "GTQ", "Guatemalan quetzal Guatemala"),
        (Currency::GYD, 328, "GYD", "Guyanese dollar Guyana"),
        (Currency::HKD, 344, "HKD", "Hong Kong dollar Hong Kong"),
        (Currency::HNL, 340, "HNL", "Honduran lempira Honduras"),
        (Currency::HTG, 332, "HTG", "Haitian gourde Haiti"),
        (Currency::HUF, 348, "HUF", "Hungarian forint Hungary"),
        (Currency::IDR, 360, "IDR", "Indonesian rupiah Indonesia"),
        (Currency::ILS, 376, "ILS", "Israeli new shekel Israel"),
        (Currency::INR, 356, "INR", "Indian rupee India"),
        (Currency::IQD, 368, "IQD", "Iraqi dinar Iraq"),
        (Currency::IRR, 364, "IRR", "Iranian rial Iran"),
        (Currency::ISK, 352, "ISK", "Icelandic kr"),
        (Currency::JMD, 388, "JMD", "Jamaican dollar Jamaica"),
        (Currency::JOD, 400, "JOD", "Jordanian dinar Jordan"),
        (Currency::JPY, 392, "JPY", "Japanese yen Japan"),
        (Currency::KES, 404, "KES", "Kenyan shilling Kenya"),
        (Currency::KGS, 417, "KGS", "Kyrgyzstani som Kyrgyzstan"),
        (Currency::KHR, 116, "KHR", "Cambodian riel Cambodia"),
        (Currency::KMF, 174, "KMF", "Comoro franc Comoros"),
        (Currency::KPW, 408, "KPW", "North Korean won North Korea"),
        (Currency::KRW, 410, "KRW", "South Korean won"),
        (Currency::KWD, 414, "KWD", "Kuwaiti dinar Kuwait"),
        (Currency::KYD, 136, "KYD", "Cayman Islands dollar Cayman Islands"),
        (Currency::KZT, 398, "KZT", "Kazakhstani tenge Kazakhstan"),
        (Currency::LAK, 418, "LAK", "Lao kip Laos"),
        (Currency::LBP, 422, "LBP", "Lebanese pound Lebanon"),
        (Currency::LKR, 144, "LKR", "Sri Lankan rupee Sri Lanka"),
        (Currency::LRD, 430, "LRD", "Liberian dollar Liberia"),
        (Currency::LSL, 426, "LSL", "Lesotho loti Lesotho"),
        (Currency::LYD, 434, "LYD", "Libyan dinar Libya"),
        (Currency::MAD, 504, "MAD", "Moroccan dirham Morocco"),
        (Currency::MDL, 498, "MDL", "Moldovan leu Moldova"),
        (Currency::MGA, 969, "MGA", "Malagasy ariary"),
        (Currency::MKD, 807, "MKD", "Macedonian denar North Macedonia"),
        (Currency::MMK, 104, "MMK", "Myanmar kyat Myanmar"),
        (Currency::MNT, 496, "MNT", "Mongolian tögrög"),
        (Currency::MOP, 446, "MOP", "Macanese pataca Macau"),
        (Currency::MRU, 929, "MRU", "Mauritanian ouguiya"),
        (Currency::MUR, 480, "MUR", "Mauritian rupee Mauritius"),
        (Currency::MVR, 462, "MVR", "Maldivian rufiyaa Maldives"),
        (Currency::MWK, 454, "MWK", "Malawian kwacha Malawi"),
        (Currency::MXN, 484, "MXN", "Mexican peso Mexico"),
        (Currency::MXV, 979, "MXV", "Mexican Unidad de Inversion (UDI) (funds code)"),
        (Currency::MYR, 458, "MYR", "Malaysian ringgit Malaysia"),
        (Currency::MZN, 943, "MZN", "Mozambican metical Mozambique"),
        (Currency::NAD, 516, "NAD", "Namibian dollar Namibia (pegged to ZAR)"),
        (Currency::NGN, 566, "NGN", "Nigerian naira Nigeria"),
        (Currency::NIO, 558, "NIO", "Nicaraguan c"),
        (Currency::NOK, 578, "NOK", "Norwegian krone Norway"),
        (Currency::NPR, 524, "NPR", "Nepalese rupee Nepal"),
        (Currency::NZD, 554, "NZD", "New Zealand dollar New Zealand"),
        (Currency::OMR, 512, "OMR", "Omani rial Oman"),
        (Currency::PAB, 590, "PAB", "Panamanian balboa Panama"),
        (Currency::PEN, 604, "PEN", "Peruvian sol Peru"),
        (Currency::PGK, 598, "PGK", "Papua New Guinean kina Papua New Guinea"),
        (Currency::PHP, 608, "PHP", "Philippine peso"),
        (Currency::PKR, 586, "PKR", "Pakistani rupee Pakistan"),
        (Currency::PLN, 985, "PLN", "Polish z"),
        (Currency::PYG, 600, "PYG", "Paraguayan guaran"),
        (Currency::QAR, 634, "QAR", "Qatari riyal Qatar"),
        (Currency::RON, 946, "RON", "Romanian leu Romania"),
        (Currency::RSD, 941, "RSD", "Serbian dinar Serbia"),
        (Currency::CNY, 156, "CNY", "Renminbi"),
        (Currency::RUB, 643, "RUB", "Russian ruble Russia"),
        (Currency::RWF, 646, "RWF", "Rwandan franc Rwanda"),
        (Currency::SAR, 682, "SAR", "Saudi riyal Saudi Arabia"),
        (Currency::SBD, 90, "SBD", "Solomon Islands dollar Solomon Islands"),
        (Currency::SCR, 690, "SCR", "Seychelles rupee Seychelles"),
        (Currency::SDG, 938, "SDG", "Sudanese pound Sudan"),
        (Currency::SEK, 752, "SEK", "Swedish krona (plural"),
        (Currency::SGD, 702, "SGD", "Singapore dollar Singapore"),
        (Currency::SHP, 654, "SHP", "Saint Helena pound Saint Helena (SH"),
        (Currency::SLE, 925, "SLE", "Sierra Leonean leone (new leone)"),
        (Currency::SLL, 694, "SLL", "Sierra Leonean leone (old leone)"),
        (Currency::SOS, 706, "SOS", "Somali shilling Somalia"),
        (Currency::SRD, 968, "SRD", "Surinamese dollar Suriname"),
        (Currency::SSP, 728, "SSP", "South Sudanese pound South Sudan"),
        (Currency::STN, 930, "STN", "São Tomé and Príncipe dobra"),
        (Currency::SVC, 222, "SVC", "Salvadoran col"),
        (Currency::SYP, 760, "SYP", "Syrian pound Syria"),
        (Currency::SZL, 748, "SZL", "Swazi lilangeni Eswatini"),
        (Currency::THB, 764, "THB", "Thai baht Thailand"),
        (Currency::TJS, 972, "TJS", "Tajikistani somoni Tajikistan"),
        (Currency::TMT, 934, "TMT", "Turkmenistan manat Turkmenistan"),
        (Currency::TND, 788, "TND", "Tunisian dinar Tunisia"),
        (Currency::TOP, 776, "TOP", "Tongan pa"),
        (Currency::TRY, 949, "TRY", "Turkish lira Turkey"),
        (Currency::TTD, 780, "TTD", "Trinidad and Tobago dollar Trinidad and Tobago"),
        (Currency::TWD, 901, "TWD", "New Taiwan dollar Taiwan"),
        (Currency::TZS, 834, "TZS", "Tanzanian shilling Tanzania"),
        (Currency::UAH, 980, "UAH", "Ukrainian hryvnia Ukraine"),
        (Currency::UGX, 800, "UGX", "Ugandan shilling Uganda"),
        (Currency::USD, 840, "USD", "United States dollar United States"),
        (Currency::USN, 997, "USN", "United States dollar (next day) (funds code)"),
        (Currency::UYI, 940, "UYI", "Uruguay Peso en Unidades Indexadas (URUIURUI) (funds code)"),
        (Currency::UYU, 858, "UYU", "Uruguayan peso Uruguay"),
        (Currency::UYW, 927, "UYW", "Unidad previsional"),
        (Currency::UZS, 860, "UZS", "Uzbekistan sum Uzbekistan"),
        (Currency::VED, 926, "VED", "Venezuelan digital bol"),
        (Currency::VES, 928, "VES", "Venezuelan sovereign bol"),
        (Currency::VND, 704, "VND", "Vietnamese"),
        (Currency::VUV, 548, "VUV", "Vanuatu vatu Vanuatu"),
        (Currency::WST, 882, "WST", "Samoan tala Samoa"),
        (Currency::XAF, 950, "XAF", "CFA franc BEAC Cameroon (CM)"),
        (Currency::XAG, 961, "XAG", "Silver (one troy ounce)"),
        (Currency::XAU, 959, "XAU", "Gold (one troy ounce)"),
        (Currency::XBA, 955, "XBA", "European Composite Unit (bond market unit)"),
        (Currency::XBB, 956, "XBB", "European Monetary Unit (bond market unit)"),
        (Currency::XBC, 957, "XBC", "European Unit of Account 9 (bond market unit)"),
        (Currency::XBD, 958, "XBD", "European unit of account 17 (bond market unit)"),
        (Currency::XCD, 951, "XCD", "East Caribbean dollar Anguilla (AI)"),
        (Currency::XDR, 960, "XDR", "Special drawing rights"),
        (Currency::XOF, 952, "XOF", "CFA franc BCEAO Benin (BJ)"),
        (Currency::XPD, 964, "XPD", "Palladium (one troy ounce)"),
        (Currency::XPF, 953, "XPF", "CFP franc (franc Pacifique)"),
        (Currency::XPT, 962, "XPT", "Platinum (one troy ounce)"),
        (Currency::XSU, 994, "XSU", "SUCRE"),
        (Currency::XTS, 963, "XTS", "Code reserved for testing"),
        (Currency::XUA, 965, "XUA", "ADB Unit of Account"),
        (Currency::XXX, 999, "XXX", "No country code"),
        (Currency::YER, 886, "YER", "Yemeni rial Yemen"),
        (Currency::ZAR, 710, "ZAR", "South African rand Eswatini"),
        (Currency::ZMW, 967, "ZMW", "Zambian kwacha Zambia"),
        (Currency::ZWL, 932, "ZWL", "Zimbabwean dollar (fifth)"),
    ]
}

#[test]
fn table_has_every_entry_once() {
    let rows = table();
    assert_eq!(rows.len(), 180);
    let names: HashSet<String> = rows.iter().map(|r| format!("{:?}", r.0)).collect();
    assert_eq!(names.len(), 180);
}

#[test]
fn numeric_codes_match_the_table() {
    for (v, numeric, _, _) in table() {
        assert_eq!(v.to_numeric(), numeric, "{:?}", v);
        assert_eq!(u32::from(v), numeric, "{:?}", v);
        assert_eq!(u32::from(&v), numeric, "{:?}", v);
    }
}

#[test]
fn alpha_codes_match_the_table() {
    for (v, _, alpha, _) in table() {
        assert_eq!(v.to_alpha(), alpha, "{:?}", v);
        assert_eq!(<&'static str>::from(v), alpha, "{:?}", v);
        assert_eq!(<&'static str>::from(&v), alpha, "{:?}", v);
        assert_eq!(format!("{:?}", v), alpha);
    }
}

#[test]
fn names_match_the_table() {
    for (v, _, _, name) in table() {
        assert_eq!(v.name(), name, "{:?}", v);
        assert!(!v.name().is_empty(), "{:?}", v);
    }
}

#[test]
fn numeric_codes_are_unique_and_in_range() {
    let mut seen = HashSet::new();
    for (v, _, _, _) in table() {
        let n = v.to_numeric();
        assert!((1..=999).contains(&n), "{:?}", v);
        assert!(seen.insert(n), "{:?} shares {}", v, n);
    }
    assert_eq!(seen.len(), 180);
}

#[test]
fn alpha_codes_are_unique() {
    let mut seen = HashSet::new();
    for (v, _, _, _) in table() {
        assert!(seen.insert(v.to_alpha()), "{:?}", v);
    }
    assert_eq!(seen.len(), 180);
}

#[test]
fn alpha_codes_are_three_upper_case_letters() {
    for (v, _, _, _) in table() {
        let code = v.to_alpha();
        assert_eq!(code.len(), Currency::LEN);
        assert_eq!(code.chars().count(), 3);
        assert!(code.chars().all(|c| c.is_ascii_uppercase()), "{:?}", v);
    }
}

#[test]
fn parsing_an_alpha_code_gives_the_currency_back() {
    for (v, _, _, _) in table() {
        assert_eq!(Currency::from_alpha(v.to_alpha()), v);
        assert_eq!(Currency::from(v.to_alpha()), v);
        assert_eq!(Currency::from_prefix(v.to_alpha()), v);
    }
}

#[test]
fn parsing_a_lower_case_code_gives_the_currency_back() {
    for (v, _, alpha, _) in table() {
        let lower = alpha.to_lowercase();
        assert_eq!(Currency::from_alpha(&lower), v);
        assert_eq!(Currency::from_bytes(lower.as_bytes()), v);
    }
}

#[test]
fn fixed_bytes_are_the_code_and_a_zero() {
    for (v, _, alpha, _) in table() {
        let bytes = v.to_fixed_bytes();
        assert_eq!(bytes.len(), 4);
        let code = alpha.as_bytes();
        assert_eq!(bytes[0] as u8, code[0]);
        assert_eq!(bytes[1] as u8, code[1]);
        assert_eq!(bytes[2] as u8, code[2]);
        assert_eq!(bytes[3], 0);
        assert_eq!(<[i8; 4]>::from(v), bytes);
        assert_eq!(<[i8; 4]>::from(&v), bytes);
    }
}

#[test]
fn parsing_the_fixed_bytes_gives_the_currency_back() {
    for (v, _, _, _) in table() {
        let bytes = v.to_fixed_bytes();
        assert_eq!(Currency::from_signed_bytes(&bytes), v);
        assert_eq!(Currency::from(&bytes), v);
        assert_eq!(Currency::from(bytes), v);
        assert_eq!(Currency::from(&bytes[..]), v);
    }
}

#[test]
fn parsing_the_code_as_bytes_gives_the_currency_back() {
    for (v, _, alpha, _) in table() {
        assert_eq!(Currency::from_bytes(alpha.as_bytes()), v);
        assert_eq!(Currency::from(alpha.as_bytes()), v);
    }
}

#[test]
fn letters_find_the_currency() {
    for (v, _, alpha, _) in table() {
        let c: Vec<char> = alpha.chars().collect();
        assert_eq!(Currency::from_letters(c[0], c[1], c[2]), v);
    }
}

#[test]
fn display_quotes_the_code() {
    for (v, _, alpha, _) in table() {
        assert_eq!(v.display(), format!("\"{}\"", alpha));
    }
}
