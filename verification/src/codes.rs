//! The table of ISO 3166-1, as a mathematical sequence and as a vector.

use crate::literals::{lemma_table_distinct, lemma_table_well_formed};
use crate::record::{all_distinct, all_well_formed, CountryCode, Record};
use vstd::prelude::*;

verus! {

/// The record with the given two-letter code, three-letter code, name and
/// numeric code.
pub open spec fn record(alpha2: &str, alpha3: &str, name: &str, num: &str) -> Record {
    Record { alpha2: alpha2@, alpha3: alpha3@, name: name@, num: num@ }
}

/// The table of ISO 3166-1, in the order of the English short names as the
/// standard lists them.
pub open spec fn table() -> Seq<Record> {
    seq![
        record("AF", "AFG", "Afghanistan", "004"),
        record("AX", "ALA", "Åland Islands", "248"),
        record("AL", "ALB", "Albania", "008"),
        record("DZ", "DZA", "Algeria", "012"),
        record("AS", "ASM", "American Samoa", "016"),
        record("AD", "AND", "Andorra", "020"),
        record("AO", "AGO", "Angola", "024"),
        record("AI", "AIA", "Anguilla", "660"),
        record("AQ", "ATA", "Antarctica", "010"),
        record("AG", "ATG", "Antigua and Barbuda", "028"),
        record("AR", "ARG", "Argentina", "032"),
        record("AM", "ARM", "Armenia", "051"),
        record("AW", "ABW", "Aruba", "533"),
        record("AU", "AUS", "Australia", "036"),
        record("AT", "AUT", "Austria", "040"),
        record("AZ", "AZE", "Azerbaijan", "031"),
        record("BS", "BHS", "Bahamas", "044"),
        record("BH", "BHR", "Bahrain", "048"),
        record("BD", "BGD", "Bangladesh", "050"),
        record("BB", "BRB", "Barbados", "052"),
        record("BY", "BLR", "Belarus", "112"),
        record("BE", "BEL", "Belgium", "056"),
        record("BZ", "BLZ", "Belize", "084"),
        record("BJ", "BEN", "Benin", "204"),
        record("BM", "BMU", "Bermuda", "060"),
        record("BT", "BTN", "Bhutan", "064"),
        record("BO", "BOL", "Bolivia, Plurinational State of", "068"),
        record("BQ", "BES", "Bonaire, Sint Eustatius and Saba", "535"),
        record("BA", "BIH", "Bosnia and Herzegovina", "070"),
        record("BW", "BWA", "Botswana", "072"),
        record("BV", "BVT", "Bouvet Island", "074"),
        record("BR", "BRA", "Brazil", "076"),
        record("IO", "IOT", "British Indian Ocean Territory", "086"),
        record("BN", "BRN", "Brunei Darussalam", "096"),
        record("BG", "BGR", "Bulgaria", "100"),
        record("BF", "BFA", "Burkina Faso", "854"),
        record("BI", "BDI", "Burundi", "108"),
        record("CV", "CPV", "Cabo Verde", "132"),
        record("KH", "KHM", "Cambodia", "116"),
        record("CM", "CMR", "Cameroon", "120"),
        record("CA", "CAN", "Canada", "124"),
        record("KY", "CYM", "Cayman Islands", "136"),
        record("CF", "CAF", "Central African Republic", "140"),
        record("TD", "TCD", "Chad", "148"),
        record("CL", "CHL", "Chile", "152"),
        record("CN", "CHN", "China", "156"),
        record("CX", "CXR", "Christmas Island", "162"),
        record("CC", "CCK", "Cocos (Keeling) Islands", "166"),
        record("CO", "COL", "Colombia", "170"),
        record("KM", "COM", "Comoros", "174"),
        record("CG", "COG", "Congo", "178"),
        record("CD", "COD", "Congo, Democratic Republic of the", "180"),
        record("CK", "COK", "Cook Islands", "184"),
        record("CR", "CRI", "Costa Rica", "188"),
        record("CI", "CIV", "Côte d'Ivoire", "384"),
        record("HR", "HRV", "Croatia", "191"),
        record("CU", "CUB", "Cuba", "192"),
        record("CW", "CUW", "Curaçao", "531"),
        record("CY", "CYP", "Cyprus", "196"),
        record("CZ", "CZE", "Czechia", "203"),
        record("DK", "DNK", "Denmark", "208"),
        record("DJ", "DJI", "Djibouti", "262"),
        record("DM", "DMA", "Dominica", "212"),
        record("DO", "DOM", "Dominican Republic", "214"),
        record("EC", "ECU", "Ecuador", "218"),
        record("EG", "EGY", "Egypt", "818"),
        record("SV", "SLV", "El Salvador", "222"),
        record("GQ", "GNQ", "Equatorial Guinea", "226"),
        record("ER", "ERI", "Eritrea", "232"),
        record("EE", "EST", "Estonia", "233"),
        record("SZ", "SWZ", "Eswatini", "748"),
        record("ET", "ETH", "Ethiopia", "231"),
        record("FK", "FLK", "Falkland Islands (Malvinas)", "238"),
        record("FO", "FRO", "Faroe Islands", "234"),
        record("FJ", "FJI", "Fiji", "242"),
        record("FI", "FIN", "Finland", "246"),
        record("FR", "FRA", "France", "250"),
        record("GF", "GUF", "French Guiana", "254"),
        record("PF", "PYF", "French Polynesia", "258"),
        record("TF", "ATF", "French Southern Territories", "260"),
        record("GA", "GAB", "Gabon", "266"),
        record("GM", "GMB", "Gambia", "270"),
        record("GE", "GEO", "Georgia", "268"),
        record("DE", "DEU", "Germany", "276"),
        record("GH", "GHA", "Ghana", "288"),
        record("GI", "GIB", "Gibraltar", "292"),
        record("GR", "GRC", "Greece", "300"),
        record("GL", "GRL", "Greenland", "304"),
        record("GD", "GRD", "Grenada", "308"),
        record("GP", "GLP", "Guadeloupe", "312"),
        record("GU", "GUM", "Guam", "316"),
        record("GT", "GTM", "Guatemala", "320"),
        record("GG", "GGY", "Guernsey", "831"),
        record("GN", "GIN", "Guinea", "324"),
        record("GW", "GNB", "Guinea-Bissau", "624"),
        record("GY", "GUY", "Guyana", "328"),
        record("HT", "HTI", "Haiti", "332"),
        record("HM", "HMD", "Heard Island and McDonald Islands", "334"),
        record("VA", "VAT", "Holy See", "336"),
        record("HN", "HND", "Honduras", "340"),
        record("HK", "HKG", "Hong Kong", "344"),
        record("HU", "HUN", "Hungary", "348"),
        record("IS", "ISL", "Iceland", "352"),
        record("IN", "IND", "India", "356"),
        record("ID", "IDN", "Indonesia", "360"),
        record("IR", "IRN", "Iran, Islamic Republic of", "364"),
        record("IQ", "IRQ", "Iraq", "368"),
        record("IE", "IRL", "Ireland", "372"),
        record("IM", "IMN", "Isle of Man", "833"),
        record("IL", "ISR", "Israel", "376"),
        record("IT", "ITA", "Italy", "380"),
        record("JM", "JAM", "Jamaica", "388"),
        record("JP", "JPN", "Japan", "392"),
        record("JE", "JEY", "Jersey", "832"),
        record("JO", "JOR", "Jordan", "400"),
        record("KZ", "KAZ", "Kazakhstan", "398"),
        record("KE", "KEN", "Kenya", "404"),
        record("KI", "KIR", "Kiribati", "296"),
        record("KP", "PRK", "Korea, Democratic People's Republic of", "408"),
        record("KR", "KOR", "Korea, Republic of", "410"),
        record("KW", "KWT", "Kuwait", "414"),
        record("KG", "KGZ", "Kyrgyzstan", "417"),
        record("LA", "LAO", "Lao People's Democratic Republic", "418"),
        record("LV", "LVA", "Latvia", "428"),
        record("LB", "LBN", "Lebanon", "422"),
        record("LS", "LSO", "Lesotho", "426"),
        record("LR", "LBR", "Liberia", "430"),
        record("LY", "LBY", "Libya", "434"),
        record("LI", "LIE", "Liechtenstein", "438"),
        record("LT", "LTU", "Lithuania", "440"),
        record("LU", "LUX", "Luxembourg", "442"),
        record("MO", "MAC", "Macao", "446"),
        record("MG", "MDG", "Madagascar", "450"),
        record("MW", "MWI", "Malawi", "454"),
        record("MY", "MYS", "Malaysia", "458"),
        record("MV", "MDV", "Maldives", "462"),
        record("ML", "MLI", "Mali", "466"),
        record("MT", "MLT", "Malta", "470"),
        record("MH", "MHL", "Marshall Islands", "584"),
        record("MQ", "MTQ", "Martinique", "474"),
        record("MR", "MRT", "Mauritania", "478"),
        record("MU", "MUS", "Mauritius", "480"),
        record("YT", "MYT", "Mayotte", "175"),
        record("MX", "MEX", "Mexico", "484"),
        record("FM", "FSM", "Micronesia, Federated States of", "583"),
        record("MD", "MDA", "Moldova, Republic of", "498"),
        record("MC", "MCO", "Monaco", "492"),
        record("MN", "MNG", "Mongolia", "496"),
        record("ME", "MNE", "Montenegro", "499"),
        record("MS", "MSR", "Montserrat", "500"),
        record("MA", "MAR", "Morocco", "504"),
        record("MZ", "MOZ", "Mozambique", "508"),
        record("MM", "MMR", "Myanmar", "104"),
        record("NA", "NAM", "Namibia", "516"),
        record("NR", "NRU", "Nauru", "520"),
        record("NP", "NPL", "Nepal", "524"),
        record("NL", "NLD", "Netherlands, Kingdom of the", "528"),
        record("NC", "NCL", "New Caledonia", "540"),
        record("NZ", "NZL", "New Zealand", "554"),
        record("NI", "NIC", "Nicaragua", "558"),
        record("NE", "NER", "Niger", "562"),
        record("NG", "NGA", "Nigeria", "566"),
        record("NU", "NIU", "Niue", "570"),
        record("NF", "NFK", "Norfolk Island", "574"),
        record("MK", "MKD", "North Macedonia", "807"),
        record("MP", "MNP", "Northern Mariana Islands", "580"),
        record("NO", "NOR", "Norway", "578"),
        record("OM", "OMN", "Oman", "512"),
        record("PK", "PAK", "Pakistan", "586"),
        record("PW", "PLW", "Palau", "585"),
        record("PS", "PSE", "Palestine, State of", "275"),
        record("PA", "PAN", "Panama", "591"),
        record("PG", "PNG", "Papua New Guinea", "598"),
        record("PY", "PRY", "Paraguay", "600"),
        record("PE", "PER", "Peru", "604"),
        record("PH", "PHL", "Philippines", "608"),
        record("PN", "PCN", "Pitcairn", "612"),
        record("PL", "POL", "Poland", "616"),
        record("PT", "PRT", "Portugal", "620"),
        record("PR", "PRI", "Puerto Rico", "630"),
        record("QA", "QAT", "Qatar", "634"),
        record("RE", "REU", "Réunion", "638"),
        record("RO", "ROU", "Romania", "642"),
        record("RU", "RUS", "Russian Federation", "643"),
        record("RW", "RWA", "Rwanda", "646"),
        record("BL", "BLM", "Saint Barthélemy", "652"),
        record("SH", "SHN", "Saint Helena, Ascension and Tristan da Cunha", "654"),
        record("KN", "KNA", "Saint Kitts and Nevis", "659"),
        record("LC", "LCA", "Saint Lucia", "662"),
        record("MF", "MAF", "Saint Martin (French part)", "663"),
        record("PM", "SPM", "Saint Pierre and Miquelon", "666"),
        record("VC", "VCT", "Saint Vincent and the Grenadines", "670"),
        record("WS", "WSM", "Samoa", "882"),
        record("SM", "SMR", "San Marino", "674"),
        record("ST", "STP", "Sao Tome and Principe", "678"),
        record("SA", "SAU", "Saudi Arabia", "682"),
        record("SN", "SEN", "Senegal", "686"),
        record("RS", "SRB", "Serbia", "688"),
        record("SC", "SYC", "Seychelles", "690"),
        record("SL", "SLE", "Sierra Leone", "694"),
        record("SG", "SGP", "Singapore", "702"),
        record("SX", "SXM", "Sint Maarten (Dutch part)", "534"),
        record("SK", "SVK", "Slovakia", "703"),
        record("SI", "SVN", "Slovenia", "705"),
        record("SB", "SLB", "Solomon Islands", "090"),
        record("SO", "SOM", "Somalia", "706"),
        record("ZA", "ZAF", "South Africa", "710"),
        record("GS", "SGS", "South Georgia and the South Sandwich Islands", "239"),
        record("SS", "SSD", "South Sudan", "728"),
        record("ES", "ESP", "Spain", "724"),
        record("LK", "LKA", "Sri Lanka", "144"),
        record("SD", "SDN", "Sudan", "729"),
        record("SR", "SUR", "Suriname", "740"),
        record("SJ", "SJM", "Svalbard and Jan Mayen", "744"),
        record("SE", "SWE", "Sweden", "752"),
        record("CH", "CHE", "Switzerland", "756"),
        record("SY", "SYR", "Syrian Arab Republic", "760"),
        record("TW", "TWN", "Taiwan, Province of China", "158"),
        record("TJ", "TJK", "Tajikistan", "762"),
        record("TZ", "TZA", "Tanzania, United Republic of", "834"),
        record("TH", "THA", "Thailand", "764"),
        record("TL", "TLS", "Timor-Leste", "626"),
        record("TG", "TGO", "Togo", "768"),
        record("TK", "TKL", "Tokelau", "772"),
        record("TO", "TON", "Tonga", "776"),
        record("TT", "TTO", "Trinidad and Tobago", "780"),
        record("TN", "TUN", "Tunisia", "788"),
        record("TR", "TUR", "Türkiye", "792"),
        record("TM", "TKM", "Turkmenistan", "795"),
        record("TC", "TCA", "Turks and Caicos Islands", "796"),
        record("TV", "TUV", "Tuvalu", "798"),
        record("UG", "UGA", "Uganda", "800"),
        record("UA", "UKR", "Ukraine", "804"),
        record("AE", "ARE", "United Arab Emirates", "784"),
        record("GB", "GBR", "United Kingdom of Great Britain and Northern Ireland", "826"),
        record("US", "USA", "United States of America", "840"),
        record("UM", "UMI", "United States Minor Outlying Islands", "581"),
        record("UY", "URY", "Uruguay", "858"),
        record("UZ", "UZB", "Uzbekistan", "860"),
        record("VU", "VUT", "Vanuatu", "548"),
        record("VE", "VEN", "Venezuela, Bolivarian Republic of", "862"),
        record("VN", "VNM", "Viet Nam", "704"),
        record("VG", "VGB", "Virgin Islands (British)", "092"),
        record("VI", "VIR", "Virgin Islands (U.S.)", "850"),
        record("WF", "WLF", "Wallis and Futuna", "876"),
        record("EH", "ESH", "Western Sahara", "732"),
        record("YE", "YEM", "Yemen", "887"),
        record("ZM", "ZMB", "Zambia", "894"),
        record("ZW", "ZWE", "Zimbabwe", "716"),
    ]
}

/// Returns every record of the table, in table order.
///
/// Each call builds a vector of its own. Every record in it is well formed,
/// and no two records agree in any column.
pub fn all<'a>() -> (r: Vec<CountryCode<'a>>)
    ensures
        r.deep_view() == table(),
        all_well_formed(r.deep_view()),
        all_distinct(r.deep_view()),
{
    let codes = vec![
        CountryCode { alpha2: "AF", alpha3: "AFG", name: "Afghanistan", num: "004" },
        CountryCode { alpha2: "AX", alpha3: "ALA", name: "Åland Islands", num: "248" },
        CountryCode { alpha2: "AL", alpha3: "ALB", name: "Albania", num: "008" },
        CountryCode { alpha2: "DZ", alpha3: "DZA", name: "Algeria", num: "012" },
        CountryCode { alpha2: "AS", alpha3: "ASM", name: "American Samoa", num: "016" },
        CountryCode { alpha2: "AD", alpha3: "AND", name: "Andorra", num: "020" },
        CountryCode { alpha2: "AO", alpha3: "AGO", name: "Angola", num: "024" },
        CountryCode { alpha2: "AI", alpha3: "AIA", name: "Anguilla", num: "660" },
        CountryCode { alpha2: "AQ", alpha3: "ATA", name: "Antarctica", num: "010" },
        CountryCode { alpha2: "AG", alpha3: "ATG", name: "Antigua and Barbuda", num: "028" },
        CountryCode { alpha2: "AR", alpha3: "ARG", name: "Argentina", num: "032" },
        CountryCode { alpha2: "AM", alpha3: "ARM", name: "Armenia", num: "051" },
        CountryCode { alpha2: "AW", alpha3: "ABW", name: "Aruba", num: "533" },
        CountryCode { alpha2: "AU", alpha3: "AUS", name: "Australia", num: "036" },
        CountryCode { alpha2: "AT", alpha3: "AUT", name: "Austria", num: "040" },
        CountryCode { alpha2: "AZ", alpha3: "AZE", name: "Azerbaijan", num: "031" },
        CountryCode { alpha2: "BS", alpha3: "BHS", name: "Bahamas", num: "044" },
        CountryCode { alpha2: "BH", alpha3: "BHR", name: "Bahrain", num: "048" },
        CountryCode { alpha2: "BD", alpha3: "BGD", name: "Bangladesh", num: "050" },
        CountryCode { alpha2: "BB", alpha3: "BRB", name: "Barbados", num: "052" },
        CountryCode { alpha2: "BY", alpha3: "BLR", name: "Belarus", num: "112" },
        CountryCode { alpha2: "BE", alpha3: "BEL", name: "Belgium", num: "056" },
        CountryCode { alpha2: "BZ", alpha3: "BLZ", name: "Belize", num: "084" },
        CountryCode { alpha2: "BJ", alpha3: "BEN", name: "Benin", num: "204" },
        CountryCode { alpha2: "BM", alpha3: "BMU", name: "Bermuda", num: "060" },
        CountryCode { alpha2: "BT", alpha3: "BTN", name: "Bhutan", num: "064" },
        CountryCode { alpha2: "BO", alpha3: "BOL", name: "Bolivia, Plurinational State of", num: "068" },
        CountryCode { alpha2: "BQ", alpha3: "BES", name: "Bonaire, Sint Eustatius and Saba", num: "535" },
        CountryCode { alpha2: "BA", alpha3: "BIH", name: "Bosnia and Herzegovina", num: "070" },
        CountryCode { alpha2: "BW", alpha3: "BWA", name: "Botswana", num: "072" },
        CountryCode { alpha2: "BV", alpha3: "BVT", name: "Bouvet Island", num: "074" },
        CountryCode { alpha2: "BR", alpha3: "BRA", name: "Brazil", num: "076" },
        CountryCode { alpha2: "IO", alpha3: "IOT", name: "British Indian Ocean Territory", num: "086" },
        CountryCode { alpha2: "BN", alpha3: "BRN", name: "Brunei Darussalam", num: "096" },
        CountryCode { alpha2: "BG", alpha3: "BGR", name: "Bulgaria", num: "100" },
        CountryCode { alpha2: "BF", alpha3: "BFA", name: "Burkina Faso", num: "854" },
        CountryCode { alpha2: "BI", alpha3: "BDI", name: "Burundi", num: "108" },
        CountryCode { alpha2: "CV", alpha3: "CPV", name: "Cabo Verde", num: "132" },
        CountryCode { alpha2: "KH", alpha3: "KHM", name: "Cambodia", num: "116" },
        CountryCode { alpha2: "CM", alpha3: "CMR", name: "Cameroon", num: "120" },
        CountryCode { alpha2: "CA", alpha3: "CAN", name: "Canada", num: "124" },
        CountryCode { alpha2: "KY", alpha3: "CYM", name: "Cayman Islands", num: "136" },
        CountryCode { alpha2: "CF", alpha3: "CAF", name: "Central African Republic", num: "140" },
        CountryCode { alpha2: "TD", alpha3: "TCD", name: "Chad", num: "148" },
        CountryCode { alpha2: "CL", alpha3: "CHL", name: "Chile", num: "152" },
        CountryCode { alpha2: "CN", alpha3: "CHN", name: "China", num: "156" },
        CountryCode { alpha2: "CX", alpha3: "CXR", name: "Christmas Island", num: "162" },
        CountryCode { alpha2: "CC", alpha3: "CCK", name: "Cocos (Keeling) Islands", num: "166" },
        CountryCode { alpha2: "CO", alpha3: "COL", name: "Colombia", num: "170" },
        CountryCode { alpha2: "KM", alpha3: "COM", name: "Comoros", num: "174" },
        CountryCode { alpha2: "CG", alpha3: "COG", name: "Congo", num: "178" },
        CountryCode { alpha2: "CD", alpha3: "COD", name: "Congo, Democratic Republic of the", num: "180" },
        CountryCode { alpha2: "CK", alpha3: "COK", name: "Cook Islands", num: "184" },
        CountryCode { alpha2: "CR", alpha3: "CRI", name: "Costa Rica", num: "188" },
        CountryCode { alpha2: "CI", alpha3: "CIV", name: "Côte d'Ivoire", num: "384" },
        CountryCode { alpha2: "HR", alpha3: "HRV", name: "Croatia", num: "191" },
        CountryCode { alpha2: "CU", alpha3: "CUB", name: "Cuba", num: "192" },
        CountryCode { alpha2: "CW", alpha3: "CUW", name: "Curaçao", num: "531" },
        CountryCode { alpha2: "CY", alpha3: "CYP", name: "Cyprus", num: "196" },
        CountryCode { alpha2: "CZ", alpha3: "CZE", name: "Czechia", num: "203" },
        CountryCode { alpha2: "DK", alpha3: "DNK", name: "Denmark", num: "208" },
        CountryCode { alpha2: "DJ", alpha3: "DJI", name: "Djibouti", num: "262" },
        CountryCode { alpha2: "DM", alpha3: "DMA", name: "Dominica", num: "212" },
        CountryCode { alpha2: "DO", alpha3: "DOM", name: "Dominican Republic", num: "214" },
        CountryCode { alpha2: "EC", alpha3: "ECU", name: "Ecuador", num: "218" },
        CountryCode { alpha2: "EG", alpha3: "EGY", name: "Egypt", num: "818" },
        CountryCode { alpha2: "SV", alpha3: "SLV", name: "El Salvador", num: "222" },
        CountryCode { alpha2: "GQ", alpha3: "GNQ", name: "Equatorial Guinea", num: "226" },
        CountryCode { alpha2: "ER", alpha3: "ERI", name: "Eritrea", num: "232" },
        CountryCode { alpha2: "EE", alpha3: "EST", name: "Estonia", num: "233" },
        CountryCode { alpha2: "SZ", alpha3: "SWZ", name: "Eswatini", num: "748" },
        CountryCode { alpha2: "ET", alpha3: "ETH", name: "Ethiopia", num: "231" },
        CountryCode { alpha2: "FK", alpha3: "FLK", name: "Falkland Islands (Malvinas)", num: "238" },
        CountryCode { alpha2: "FO", alpha3: "FRO", name: "Faroe Islands", num: "234" },
        CountryCode { alpha2: "FJ", alpha3: "FJI", name: "Fiji", num: "242" },
        CountryCode { alpha2: "FI", alpha3: "FIN", name: "Finland", num: "246" },
        CountryCode { alpha2: "FR", alpha3: "FRA", name: "France", num: "250" },
        CountryCode { alpha2: "GF", alpha3: "GUF", name: "French Guiana", num: "254" },
        CountryCode { alpha2: "PF", alpha3: "PYF", name: "French Polynesia", num: "258" },
        CountryCode { alpha2: "TF", alpha3: "ATF", name: "French Southern Territories", num: "260" },
        CountryCode { alpha2: "GA", alpha3: "GAB", name: "Gabon", num: "266" },
        CountryCode { alpha2: "GM", alpha3: "GMB", name: "Gambia", num: "270" },
        CountryCode { alpha2: "GE", alpha3: "GEO", name: "Georgia", num: "268" },
        CountryCode { alpha2: "DE", alpha3: "DEU", name: "Germany", num: "276" },
        CountryCode { alpha2: "GH", alpha3: "GHA", name: "Ghana", num: "288" },
        CountryCode { alpha2: "GI", alpha3: "GIB", name: "Gibraltar", num: "292" },
        CountryCode { alpha2: "GR", alpha3: "GRC", name: "Greece", num: "300" },
        CountryCode { alpha2: "GL", alpha3: "GRL", name: "Greenland", num: "304" },
        CountryCode { alpha2: "GD", alpha3: "GRD", name: "Grenada", num: "308" },
        CountryCode { alpha2: "GP", alpha3: "GLP", name: "Guadeloupe", num: "312" },
        CountryCode { alpha2: "GU", alpha3: "GUM", name: "Guam", num: "316" },
        CountryCode { alpha2: "GT", alpha3: "GTM", name: "Guatemala", num: "320" },
        CountryCode { alpha2: "GG", alpha3: "GGY", name: "Guernsey", num: "831" },
        CountryCode { alpha2: "GN", alpha3: "GIN", name: "Guinea", num: "324" },
        CountryCode { alpha2: "GW", alpha3: "GNB", name: "Guinea-Bissau", num: "624" },
        CountryCode { alpha2: "GY", alpha3: "GUY", name: "Guyana", num: "328" },
        CountryCode { alpha2: "HT", alpha3: "HTI", name: "Haiti", num: "332" },
        CountryCode { alpha2: "HM", alpha3: "HMD", name: "Heard Island and McDonald Islands", num: "334" },
        CountryCode { alpha2: "VA", alpha3: "VAT", name: "Holy See", num: "336" },
        CountryCode { alpha2: "HN", alpha3: "HND", name: "Honduras", num: "340" },
        CountryCode { alpha2: "HK", alpha3: "HKG", name: "Hong Kong", num: "344" },
        CountryCode { alpha2: "HU", alpha3: "HUN", name: "Hungary", num: "348" },
        CountryCode { alpha2: "IS", alpha3: "ISL", name: "Iceland", num: "352" },
        CountryCode { alpha2: "IN", alpha3: "IND", name: "India", num: "356" },
        CountryCode { alpha2: "ID", alpha3: "IDN", name: "Indonesia", num: "360" },
        CountryCode { alpha2: "IR", alpha3: "IRN", name: "Iran, Islamic Republic of", num: "364" },
        CountryCode { alpha2: "IQ", alpha3: "IRQ", name: "Iraq", num: "368" },
        CountryCode { alpha2: "IE", alpha3: "IRL", name: "Ireland", num: "372" },
        CountryCode { alpha2: "IM", alpha3: "IMN", name: "Isle of Man", num: "833" },
        CountryCode { alpha2: "IL", alpha3: "ISR", name: "Israel", num: "376" },
        CountryCode { alpha2: "IT", alpha3: "ITA", name: "Italy", num: "380" },
        CountryCode { alpha2: "JM", alpha3: "JAM", name: "Jamaica", num: "388" },
        CountryCode { alpha2: "JP", alpha3: "JPN", name: "Japan", num: "392" },
        CountryCode { alpha2: "JE", alpha3: "JEY", name: "Jersey", num: "832" },
        CountryCode { alpha2: "JO", alpha3: "JOR", name: "Jordan", num: "400" },
        CountryCode { alpha2: "KZ", alpha3: "KAZ", name: "Kazakhstan", num: "398" },
        CountryCode { alpha2: "KE", alpha3: "KEN", name: "Kenya", num: "404" },
        CountryCode { alpha2: "KI", alpha3: "KIR", name: "Kiribati", num: "296" },
        CountryCode { alpha2: "KP", alpha3: "PRK", name: "Korea, Democratic People's Republic of", num: "408" },
        CountryCode { alpha2: "KR", alpha3: "KOR", name: "Korea, Republic of", num: "410" },
        CountryCode { alpha2: "KW", alpha3: "KWT", name: "Kuwait", num: "414" },
        CountryCode { alpha2: "KG", alpha3: "KGZ", name: "Kyrgyzstan", num: "417" },
        CountryCode { alpha2: "LA", alpha3: "LAO", name: "Lao People's Democratic Republic", num: "418" },
        CountryCode { alpha2: "LV", alpha3: "LVA", name: "Latvia", num: "428" },
        CountryCode { alpha2: "LB", alpha3: "LBN", name: "Lebanon", num: "422" },
        CountryCode { alpha2: "LS", alpha3: "LSO", name: "Lesotho", num: "426" },
        CountryCode { alpha2: "LR", alpha3: "LBR", name: "Liberia", num: "430" },
        CountryCode { alpha2: "LY", alpha3: "LBY", name: "Libya", num: "434" },
        CountryCode { alpha2: "LI", alpha3: "LIE", name: "Liechtenstein", num: "438" },
        CountryCode { alpha2: "LT", alpha3: "LTU", name: "Lithuania", num: "440" },
        CountryCode { alpha2: "LU", alpha3: "LUX", name: "Luxembourg", num: "442" },
        CountryCode { alpha2: "MO", alpha3: "MAC", name: "Macao", num: "446" },
        CountryCode { alpha2: "MG", alpha3: "MDG", name: "Madagascar", num: "450" },
        CountryCode { alpha2: "MW", alpha3: "MWI", name: "Malawi", num: "454" },
        CountryCode { alpha2: "MY", alpha3: "MYS", name: "Malaysia", num: "458" },
        CountryCode { alpha2: "MV", alpha3: "MDV", name: "Maldives", num: "462" },
        CountryCode { alpha2: "ML", alpha3: "MLI", name: "Mali", num: "466" },
        CountryCode { alpha2: "MT", alpha3: "MLT", name: "Malta", num: "470" },
        CountryCode { alpha2: "MH", alpha3: "MHL", name: "Marshall Islands", num: "584" },
        CountryCode { alpha2: "MQ", alpha3: "MTQ", name: "Martinique", num: "474" },
        CountryCode { alpha2: "MR", alpha3: "MRT", name: "Mauritania", num: "478" },
        CountryCode { alpha2: "MU", alpha3: "MUS", name: "Mauritius", num: "480" },
        CountryCode { alpha2: "YT", alpha3: "MYT", name: "Mayotte", num: "175" },
        CountryCode { alpha2: "MX", alpha3: "MEX", name: "Mexico", num: "484" },
        CountryCode { alpha2: "FM", alpha3: "FSM", name: "Micronesia, Federated States of", num: "583" },
        CountryCode { alpha2: "MD", alpha3: "MDA", name: "Moldova, Republic of", num: "498" },
        CountryCode { alpha2: "MC", alpha3: "MCO", name: "Monaco", num: "492" },
        CountryCode { alpha2: "MN", alpha3: "MNG", name: "Mongolia", num: "496" },
        CountryCode { alpha2: "ME", alpha3: "MNE", name: "Montenegro", num: "499" },
        CountryCode { alpha2: "MS", alpha3: "MSR", name: "Montserrat", num: "500" },
        CountryCode { alpha2: "MA", alpha3: "MAR", name: "Morocco", num: "504" },
        CountryCode { alpha2: "MZ", alpha3: "MOZ", name: "Mozambique", num: "508" },
        CountryCode { alpha2: "MM", alpha3: "MMR", name: "Myanmar", num: "104" },
        CountryCode { alpha2: "NA", alpha3: "NAM", name: "Namibia", num: "516" },
        CountryCode { alpha2: "NR", alpha3: "NRU", name: "Nauru", num: "520" },
        CountryCode { alpha2: "NP", alpha3: "NPL", name: "Nepal", num: "524" },
        CountryCode { alpha2: "NL", alpha3: "NLD", name: "Netherlands, Kingdom of the", num: "528" },
        CountryCode { alpha2: "NC", alpha3: "NCL", name: "New Caledonia", num: "540" },
        CountryCode { alpha2: "NZ", alpha3: "NZL", name: "New Zealand", num: "554" },
        CountryCode { alpha2: "NI", alpha3: "NIC", name: "Nicaragua", num: "558" },
        CountryCode { alpha2: "NE", alpha3: "NER", name: "Niger", num: "562" },
        CountryCode { alpha2: "NG", alpha3: "NGA", name: "Nigeria", num: "566" },
        CountryCode { alpha2: "NU", alpha3: "NIU", name: "Niue", num: "570" },
        CountryCode { alpha2: "NF", alpha3: "NFK", name: "Norfolk Island", num: "574" },
        CountryCode { alpha2: "MK", alpha3: "MKD", name: "North Macedonia", num: "807" },
        CountryCode { alpha2: "MP", alpha3: "MNP", name: "Northern Mariana Islands", num: "580" },
        CountryCode { alpha2: "NO", alpha3: "NOR", name: "Norway", num: "578" },
        CountryCode { alpha2: "OM", alpha3: "OMN", name: "Oman", num: "512" },
        CountryCode { alpha2: "PK", alpha3: "PAK", name: "Pakistan", num: "586" },
        CountryCode { alpha2: "PW", alpha3: "PLW", name: "Palau", num: "585" },
        CountryCode { alpha2: "PS", alpha3: "PSE", name: "Palestine, State of", num: "275" },
        CountryCode { alpha2: "PA", alpha3: "PAN", name: "Panama", num: "591" },
        CountryCode { alpha2: "PG", alpha3: "PNG", name: "Papua New Guinea", num: "598" },
        CountryCode { alpha2: "PY", alpha3: "PRY", name: "Paraguay", num: "600" },
        CountryCode { alpha2: "PE", alpha3: "PER", name: "Peru", num: "604" },
        CountryCode { alpha2: "PH", alpha3: "PHL", name: "Philippines", num: "608" },
        CountryCode { alpha2: "PN", alpha3: "PCN", name: "Pitcairn", num: "612" },
        CountryCode { alpha2: "PL", alpha3: "POL", name: "Poland", num: "616" },
        CountryCode { alpha2: "PT", alpha3: "PRT", name: "Portugal", num: "620" },
        CountryCode { alpha2: "PR", alpha3: "PRI", name: "Puerto Rico", num: "630" },
        CountryCode { alpha2: "QA", alpha3: "QAT", name: "Qatar", num: "634" },
        CountryCode { alpha2: "RE", alpha3: "REU", name: "Réunion", num: "638" },
        CountryCode { alpha2: "RO", alpha3: "ROU", name: "Romania", num: "642" },
        CountryCode { alpha2: "RU", alpha3: "RUS", name: "Russian Federation", num: "643" },
        CountryCode { alpha2: "RW", alpha3: "RWA", name: "Rwanda", num: "646" },
        CountryCode { alpha2: "BL", alpha3: "BLM", name: "Saint Barthélemy", num: "652" },
        CountryCode { alpha2: "SH", alpha3: "SHN", name: "Saint Helena, Ascension and Tristan da Cunha", num: "654" },
        CountryCode { alpha2: "KN", alpha3: "KNA", name: "Saint Kitts and Nevis", num: "659" },
        CountryCode { alpha2: "LC", alpha3: "LCA", name: "Saint Lucia", num: "662" },
        CountryCode { alpha2: "MF", alpha3: "MAF", name: "Saint Martin (French part)", num: "663" },
        CountryCode { alpha2: "PM", alpha3: "SPM", name: "Saint Pierre and Miquelon", num: "666" },
        CountryCode { alpha2: "VC", alpha3: "VCT", name: "Saint Vincent and the Grenadines", num: "670" },
        CountryCode { alpha2: "WS", alpha3: "WSM", name: "Samoa", num: "882" },
        CountryCode { alpha2: "SM", alpha3: "SMR", name: "San Marino", num: "674" },
        CountryCode { alpha2: "ST", alpha3: "STP", name: "Sao Tome and Principe", num: "678" },
        CountryCode { alpha2: "SA", alpha3: "SAU", name: "Saudi Arabia", num: "682" },
        CountryCode { alpha2: "SN", alpha3: "SEN", name: "Senegal", num: "686" },
        CountryCode { alpha2: "RS", alpha3: "SRB", name: "Serbia", num: "688" },
        CountryCode { alpha2: "SC", alpha3: "SYC", name: "Seychelles", num: "690" },
        CountryCode { alpha2: "SL", alpha3: "SLE", name: "Sierra Leone", num: "694" },
        CountryCode { alpha2: "SG", alpha3: "SGP", name: "Singapore", num: "702" },
        CountryCode { alpha2: "SX", alpha3: "SXM", name: "Sint Maarten (Dutch part)", num: "534" },
        CountryCode { alpha2: "SK", alpha3: "SVK", name: "Slovakia", num: "703" },
        CountryCode { alpha2: "SI", alpha3: "SVN", name: "Slovenia", num: "705" },
        CountryCode { alpha2: "SB", alpha3: "SLB", name: "Solomon Islands", num: "090" },
        CountryCode { alpha2: "SO", alpha3: "SOM", name: "Somalia", num: "706" },
        CountryCode { alpha2: "ZA", alpha3: "ZAF", name: "South Africa", num: "710" },
        CountryCode { alpha2: "GS", alpha3: "SGS", name: "South Georgia and the South Sandwich Islands", num: "239" },
        CountryCode { alpha2: "SS", alpha3: "SSD", name: "South Sudan", num: "728" },
        CountryCode { alpha2: "ES", alpha3: "ESP", name: "Spain", num: "724" },
        CountryCode { alpha2: "LK", alpha3: "LKA", name: "Sri Lanka", num: "144" },
        CountryCode { alpha2: "SD", alpha3: "SDN", name: "Sudan", num: "729" },
        CountryCode { alpha2: "SR", alpha3: "SUR", name: "Suriname", num: "740" },
        CountryCode { alpha2: "SJ", alpha3: "SJM", name: "Svalbard and Jan Mayen", num: "744" },
        CountryCode { alpha2: "SE", alpha3: "SWE", name: "Sweden", num: "752" },
        CountryCode { alpha2: "CH", alpha3: "CHE", name: "Switzerland", num: "756" },
        CountryCode { alpha2: "SY", alpha3: "SYR", name: "Syrian Arab Republic", num: "760" },
        CountryCode { alpha2: "TW", alpha3: "TWN", name: "Taiwan, Province of China", num: "158" },
        CountryCode { alpha2: "TJ", alpha3: "TJK", name: "Tajikistan", num: "762" },
        CountryCode { alpha2: "TZ", alpha3: "TZA", name: "Tanzania, United Republic of", num: "834" },
        CountryCode { alpha2: "TH", alpha3: "THA", name: "Thailand", num: "764" },
        CountryCode { alpha2: "TL", alpha3: "TLS", name: "Timor-Leste", num: "626" },
        CountryCode { alpha2: "TG", alpha3: "TGO", name: "Togo", num: "768" },
        CountryCode { alpha2: "TK", alpha3: "TKL", name: "Tokelau", num: "772" },
        CountryCode { alpha2: "TO", alpha3: "TON", name: "Tonga", num: "776" },
        CountryCode { alpha2: "TT", alpha3: "TTO", name: "Trinidad and Tobago", num: "780" },
        CountryCode { alpha2: "TN", alpha3: "TUN", name: "Tunisia", num: "788" },
        CountryCode { alpha2: "TR", alpha3: "TUR", name: "Türkiye", num: "792" },
        CountryCode { alpha2: "TM", alpha3: "TKM", name: "Turkmenistan", num: "795" },
        CountryCode { alpha2: "TC", alpha3: "TCA", name: "Turks and Caicos Islands", num: "796" },
        CountryCode { alpha2: "TV", alpha3: "TUV", name: "Tuvalu", num: "798" },
        CountryCode { alpha2: "UG", alpha3: "UGA", name: "Uganda", num: "800" },
        CountryCode { alpha2: "UA", alpha3: "UKR", name: "Ukraine", num: "804" },
        CountryCode { alpha2: "AE", alpha3: "ARE", name: "United Arab Emirates", num: "784" },
        CountryCode { alpha2: "GB", alpha3: "GBR", name: "United Kingdom of Great Britain and Northern Ireland", num: "826" },
        CountryCode { alpha2: "US", alpha3: "USA", name: "United States of America", num: "840" },
        CountryCode { alpha2: "UM", alpha3: "UMI", name: "United States Minor Outlying Islands", num: "581" },
        CountryCode { alpha2: "UY", alpha3: "URY", name: "Uruguay", num: "858" },
        CountryCode { alpha2: "UZ", alpha3: "UZB", name: "Uzbekistan", num: "860" },
        CountryCode { alpha2: "VU", alpha3: "VUT", name: "Vanuatu", num: "548" },
        CountryCode { alpha2: "VE", alpha3: "VEN", name: "Venezuela, Bolivarian Republic of", num: "862" },
        CountryCode { alpha2: "VN", alpha3: "VNM", name: "Viet Nam", num: "704" },
        CountryCode { alpha2: "VG", alpha3: "VGB", name: "Virgin Islands (British)", num: "092" },
        CountryCode { alpha2: "VI", alpha3: "VIR", name: "Virgin Islands (U.S.)", num: "850" },
        CountryCode { alpha2: "WF", alpha3: "WLF", name: "Wallis and Futuna", num: "876" },
        CountryCode { alpha2: "EH", alpha3: "ESH", name: "Western Sahara", num: "732" },
        CountryCode { alpha2: "YE", alpha3: "YEM", name: "Yemen", num: "887" },
        CountryCode { alpha2: "ZM", alpha3: "ZMB", name: "Zambia", num: "894" },
        CountryCode { alpha2: "ZW", alpha3: "ZWE", name: "Zimbabwe", num: "716" },
    ];
    proof {
        assert(codes.deep_view() =~= table());
        lemma_table_well_formed();
        lemma_table_distinct();
    }
    codes
}

} // verus!
