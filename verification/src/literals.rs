//! What the string literals of the table hold.
//!
//! The verifier takes a string literal for an unknown sequence of characters
//! until the literal is revealed to it. Each of the four column lemmas below
//! goes through one column of the table: it reveals every literal of the
//! column, checks its shape, and then shows that no value occurs twice in the
//! column. The rest of the crate goes by [`lemma_table_well_formed`] and
//! [`lemma_table_distinct`].

use crate::codes::table;
use crate::record::{all_distinct, all_well_formed, is_alpha2, is_alpha3, is_name, is_num, Field};
use vstd::prelude::*;

verus! {

/// The character of `s` at `k` as a number, and 0 where `s` has none.
spec fn char_at(s: Seq<char>, k: int) -> int {
    if 0 <= k < s.len() {
        s[k] as int
    } else {
        0
    }
}

/// The length of `s` and its first five characters, packed into one number.
/// Equal strings have equal sketches, so strings with different sketches
/// differ.
spec fn sketch(s: Seq<char>) -> int {
    ((((s.len() * 0x200000 + char_at(s, 0)) * 0x200000 + char_at(s, 1)) * 0x200000 + char_at(s, 2))
        * 0x200000 + char_at(s, 3)) * 0x200000 + char_at(s, 4)
}

/// No two records of the table have the same sketch in column `field`.
#[verifier::opaque]
spec fn sketches_differ(field: Field) -> bool {
    forall|i: int, j: int|
        0 <= i < j < table().len() ==> sketch((#[trigger] table()[i]).get(field)) != sketch(
            (#[trigger] table()[j]).get(field),
        )
}

/// Every two-letter code of the table has its shape.
#[verifier::opaque]
spec fn alpha2_shaped() -> bool {
    forall|i: int| 0 <= i < table().len() ==> is_alpha2((#[trigger] table()[i]).alpha2)
}

/// Every three-letter code of the table has its shape.
#[verifier::opaque]
spec fn alpha3_shaped() -> bool {
    forall|i: int| 0 <= i < table().len() ==> is_alpha3((#[trigger] table()[i]).alpha3)
}

/// Every name of the table has its shape.
#[verifier::opaque]
spec fn name_shaped() -> bool {
    forall|i: int| 0 <= i < table().len() ==> is_name((#[trigger] table()[i]).name)
}

/// Every numeric code of the table has its shape.
#[verifier::opaque]
spec fn num_shaped() -> bool {
    forall|i: int| 0 <= i < table().len() ==> is_num((#[trigger] table()[i]).num)
}

/// The two-letter codes of the table have their shape, and no two of them have
/// the same sketch.
#[verifier::rlimit(40)]
proof fn lemma_alpha2_column()
    ensures
        alpha2_shaped(),
        sketches_differ(Field::Alpha2),
{
    reveal_strlit("AF");
    assert(is_alpha2("AF"@));
    reveal_strlit("AX");
    assert(is_alpha2("AX"@));
    reveal_strlit("AL");
    assert(is_alpha2("AL"@));
    reveal_strlit("DZ");
    assert(is_alpha2("DZ"@));
    reveal_strlit("AS");
    assert(is_alpha2("AS"@));
    reveal_strlit("AD");
    assert(is_alpha2("AD"@));
    reveal_strlit("AO");
    assert(is_alpha2("AO"@));
    reveal_strlit("AI");
    assert(is_alpha2("AI"@));
    reveal_strlit("AQ");
    assert(is_alpha2("AQ"@));
    reveal_strlit("AG");
    assert(is_alpha2("AG"@));
    reveal_strlit("AR");
    assert(is_alpha2("AR"@));
    reveal_strlit("AM");
    assert(is_alpha2("AM"@));
    reveal_strlit("AW");
    assert(is_alpha2("AW"@));
    reveal_strlit("AU");
    assert(is_alpha2("AU"@));
    reveal_strlit("AT");
    assert(is_alpha2("AT"@));
    reveal_strlit("AZ");
    assert(is_alpha2("AZ"@));
    reveal_strlit("BS");
    assert(is_alpha2("BS"@));
    reveal_strlit("BH");
    assert(is_alpha2("BH"@));
    reveal_strlit("BD");
    assert(is_alpha2("BD"@));
    reveal_strlit("BB");
    assert(is_alpha2("BB"@));
    reveal_strlit("BY");
    assert(is_alpha2("BY"@));
    reveal_strlit("BE");
    assert(is_alpha2("BE"@));
    reveal_strlit("BZ");
    assert(is_alpha2("BZ"@));
    reveal_strlit("BJ");
    assert(is_alpha2("BJ"@));
    reveal_strlit("BM");
    assert(is_alpha2("BM"@));
    reveal_strlit("BT");
    assert(is_alpha2("BT"@));
    reveal_strlit("BO");
    assert(is_alpha2("BO"@));
    reveal_strlit("BQ");
    assert(is_alpha2("BQ"@));
    reveal_strlit("BA");
    assert(is_alpha2("BA"@));
    reveal_strlit("BW");
    assert(is_alpha2("BW"@));
    reveal_strlit("BV");
    assert(is_alpha2("BV"@));
    reveal_strlit("BR");
    assert(is_alpha2("BR"@));
    reveal_strlit("IO");
    assert(is_alpha2("IO"@));
    reveal_strlit("BN");
    assert(is_alpha2("BN"@));
    reveal_strlit("BG");
    assert(is_alpha2("BG"@));
    reveal_strlit("BF");
    assert(is_alpha2("BF"@));
    reveal_strlit("BI");
    assert(is_alpha2("BI"@));
    reveal_strlit("CV");
    assert(is_alpha2("CV"@));
    reveal_strlit("KH");
    assert(is_alpha2("KH"@));
    reveal_strlit("CM");
    assert(is_alpha2("CM"@));
    reveal_strlit("CA");
    assert(is_alpha2("CA"@));
    reveal_strlit("KY");
    assert(is_alpha2("KY"@));
    reveal_strlit("CF");
    assert(is_alpha2("CF"@));
    reveal_strlit("TD");
    assert(is_alpha2("TD"@));
    reveal_strlit("CL");
    assert(is_alpha2("CL"@));
    reveal_strlit("CN");
    assert(is_alpha2("CN"@));
    reveal_strlit("CX");
    assert(is_alpha2("CX"@));
    reveal_strlit("CC");
    assert(is_alpha2("CC"@));
    reveal_strlit("CO");
    assert(is_alpha2("CO"@));
    reveal_strlit("KM");
    assert(is_alpha2("KM"@));
    reveal_strlit("CG");
    assert(is_alpha2("CG"@));
    reveal_strlit("CD");
    assert(is_alpha2("CD"@));
    reveal_strlit("CK");
    assert(is_alpha2("CK"@));
    reveal_strlit("CR");
    assert(is_alpha2("CR"@));
    reveal_strlit("CI");
    assert(is_alpha2("CI"@));
    reveal_strlit("HR");
    assert(is_alpha2("HR"@));
    reveal_strlit("CU");
    assert(is_alpha2("CU"@));
    reveal_strlit("CW");
    assert(is_alpha2("CW"@));
    reveal_strlit("CY");
    assert(is_alpha2("CY"@));
    reveal_strlit("CZ");
    assert(is_alpha2("CZ"@));
    reveal_strlit("DK");
    assert(is_alpha2("DK"@));
    reveal_strlit("DJ");
    assert(is_alpha2("DJ"@));
    reveal_strlit("DM");
    assert(is_alpha2("DM"@));
    reveal_strlit("DO");
    assert(is_alpha2("DO"@));
    reveal_strlit("EC");
    assert(is_alpha2("EC"@));
    reveal_strlit("EG");
    assert(is_alpha2("EG"@));
    reveal_strlit("SV");
    assert(is_alpha2("SV"@));
    reveal_strlit("GQ");
    assert(is_alpha2("GQ"@));
    reveal_strlit("ER");
    assert(is_alpha2("ER"@));
    reveal_strlit("EE");
    assert(is_alpha2("EE"@));
    reveal_strlit("SZ");
    assert(is_alpha2("SZ"@));
    reveal_strlit("ET");
    assert(is_alpha2("ET"@));
    reveal_strlit("FK");
    assert(is_alpha2("FK"@));
    reveal_strlit("FO");
    assert(is_alpha2("FO"@));
    reveal_strlit("FJ");
    assert(is_alpha2("FJ"@));
    reveal_strlit("FI");
    assert(is_alpha2("FI"@));
    reveal_strlit("FR");
    assert(is_alpha2("FR"@));
    reveal_strlit("GF");
    assert(is_alpha2("GF"@));
    reveal_strlit("PF");
    assert(is_alpha2("PF"@));
    reveal_strlit("TF");
    assert(is_alpha2("TF"@));
    reveal_strlit("GA");
    assert(is_alpha2("GA"@));
    reveal_strlit("GM");
    assert(is_alpha2("GM"@));
    reveal_strlit("GE");
    assert(is_alpha2("GE"@));
    reveal_strlit("DE");
    assert(is_alpha2("DE"@));
    reveal_strlit("GH");
    assert(is_alpha2("GH"@));
    reveal_strlit("GI");
    assert(is_alpha2("GI"@));
    reveal_strlit("GR");
    assert(is_alpha2("GR"@));
    reveal_strlit("GL");
    assert(is_alpha2("GL"@));
    reveal_strlit("GD");
    assert(is_alpha2("GD"@));
    reveal_strlit("GP");
    assert(is_alpha2("GP"@));
    reveal_strlit("GU");
    assert(is_alpha2("GU"@));
    reveal_strlit("GT");
    assert(is_alpha2("GT"@));
    reveal_strlit("GG");
    assert(is_alpha2("GG"@));
    reveal_strlit("GN");
    assert(is_alpha2("GN"@));
    reveal_strlit("GW");
    assert(is_alpha2("GW"@));
    reveal_strlit("GY");
    assert(is_alpha2("GY"@));
    reveal_strlit("HT");
    assert(is_alpha2("HT"@));
    reveal_strlit("HM");
    assert(is_alpha2("HM"@));
    reveal_strlit("VA");
    assert(is_alpha2("VA"@));
    reveal_strlit("HN");
    assert(is_alpha2("HN"@));
    reveal_strlit("HK");
    assert(is_alpha2("HK"@));
    reveal_strlit("HU");
    assert(is_alpha2("HU"@));
    reveal_strlit("IS");
    assert(is_alpha2("IS"@));
    reveal_strlit("IN");
    assert(is_alpha2("IN"@));
    reveal_strlit("ID");
    assert(is_alpha2("ID"@));
    reveal_strlit("IR");
    assert(is_alpha2("IR"@));
    reveal_strlit("IQ");
    assert(is_alpha2("IQ"@));
    reveal_strlit("IE");
    assert(is_alpha2("IE"@));
    reveal_strlit("IM");
    assert(is_alpha2("IM"@));
    reveal_strlit("IL");
    assert(is_alpha2("IL"@));
    reveal_strlit("IT");
    assert(is_alpha2("IT"@));
    reveal_strlit("JM");
    assert(is_alpha2("JM"@));
    reveal_strlit("JP");
    assert(is_alpha2("JP"@));
    reveal_strlit("JE");
    assert(is_alpha2("JE"@));
    reveal_strlit("JO");
    assert(is_alpha2("JO"@));
    reveal_strlit("KZ");
    assert(is_alpha2("KZ"@));
    reveal_strlit("KE");
    assert(is_alpha2("KE"@));
    reveal_strlit("KI");
    assert(is_alpha2("KI"@));
    reveal_strlit("KP");
    assert(is_alpha2("KP"@));
    reveal_strlit("KR");
    assert(is_alpha2("KR"@));
    reveal_strlit("KW");
    assert(is_alpha2("KW"@));
    reveal_strlit("KG");
    assert(is_alpha2("KG"@));
    reveal_strlit("LA");
    assert(is_alpha2("LA"@));
    reveal_strlit("LV");
    assert(is_alpha2("LV"@));
    reveal_strlit("LB");
    assert(is_alpha2("LB"@));
    reveal_strlit("LS");
    assert(is_alpha2("LS"@));
    reveal_strlit("LR");
    assert(is_alpha2("LR"@));
    reveal_strlit("LY");
    assert(is_alpha2("LY"@));
    reveal_strlit("LI");
    assert(is_alpha2("LI"@));
    reveal_strlit("LT");
    assert(is_alpha2("LT"@));
    reveal_strlit("LU");
    assert(is_alpha2("LU"@));
    reveal_strlit("MO");
    assert(is_alpha2("MO"@));
    reveal_strlit("MG");
    assert(is_alpha2("MG"@));
    reveal_strlit("MW");
    assert(is_alpha2("MW"@));
    reveal_strlit("MY");
    assert(is_alpha2("MY"@));
    reveal_strlit("MV");
    assert(is_alpha2("MV"@));
    reveal_strlit("ML");
    assert(is_alpha2("ML"@));
    reveal_strlit("MT");
    assert(is_alpha2("MT"@));
    reveal_strlit("MH");
    assert(is_alpha2("MH"@));
    reveal_strlit("MQ");
    assert(is_alpha2("MQ"@));
    reveal_strlit("MR");
    assert(is_alpha2("MR"@));
    reveal_strlit("MU");
    assert(is_alpha2("MU"@));
    reveal_strlit("YT");
    assert(is_alpha2("YT"@));
    reveal_strlit("MX");
    assert(is_alpha2("MX"@));
    reveal_strlit("FM");
    assert(is_alpha2("FM"@));
    reveal_strlit("MD");
    assert(is_alpha2("MD"@));
    reveal_strlit("MC");
    assert(is_alpha2("MC"@));
    reveal_strlit("MN");
    assert(is_alpha2("MN"@));
    reveal_strlit("ME");
    assert(is_alpha2("ME"@));
    reveal_strlit("MS");
    assert(is_alpha2("MS"@));
    reveal_strlit("MA");
    assert(is_alpha2("MA"@));
    reveal_strlit("MZ");
    assert(is_alpha2("MZ"@));
    reveal_strlit("MM");
    assert(is_alpha2("MM"@));
    reveal_strlit("NA");
    assert(is_alpha2("NA"@));
    reveal_strlit("NR");
    assert(is_alpha2("NR"@));
    reveal_strlit("NP");
    assert(is_alpha2("NP"@));
    reveal_strlit("NL");
    assert(is_alpha2("NL"@));
    reveal_strlit("NC");
    assert(is_alpha2("NC"@));
    reveal_strlit("NZ");
    assert(is_alpha2("NZ"@));
    reveal_strlit("NI");
    assert(is_alpha2("NI"@));
    reveal_strlit("NE");
    assert(is_alpha2("NE"@));
    reveal_strlit("NG");
    assert(is_alpha2("NG"@));
    reveal_strlit("NU");
    assert(is_alpha2("NU"@));
    reveal_strlit("NF");
    assert(is_alpha2("NF"@));
    reveal_strlit("MK");
    assert(is_alpha2("MK"@));
    reveal_strlit("MP");
    assert(is_alpha2("MP"@));
    reveal_strlit("NO");
    assert(is_alpha2("NO"@));
    reveal_strlit("OM");
    assert(is_alpha2("OM"@));
    reveal_strlit("PK");
    assert(is_alpha2("PK"@));
    reveal_strlit("PW");
    assert(is_alpha2("PW"@));
    reveal_strlit("PS");
    assert(is_alpha2("PS"@));
    reveal_strlit("PA");
    assert(is_alpha2("PA"@));
    reveal_strlit("PG");
    assert(is_alpha2("PG"@));
    reveal_strlit("PY");
    assert(is_alpha2("PY"@));
    reveal_strlit("PE");
    assert(is_alpha2("PE"@));
    reveal_strlit("PH");
    assert(is_alpha2("PH"@));
    reveal_strlit("PN");
    assert(is_alpha2("PN"@));
    reveal_strlit("PL");
    assert(is_alpha2("PL"@));
    reveal_strlit("PT");
    assert(is_alpha2("PT"@));
    reveal_strlit("PR");
    assert(is_alpha2("PR"@));
    reveal_strlit("QA");
    assert(is_alpha2("QA"@));
    reveal_strlit("RE");
    assert(is_alpha2("RE"@));
    reveal_strlit("RO");
    assert(is_alpha2("RO"@));
    reveal_strlit("RU");
    assert(is_alpha2("RU"@));
    reveal_strlit("RW");
    assert(is_alpha2("RW"@));
    reveal_strlit("BL");
    assert(is_alpha2("BL"@));
    reveal_strlit("SH");
    assert(is_alpha2("SH"@));
    reveal_strlit("KN");
    assert(is_alpha2("KN"@));
    reveal_strlit("LC");
    assert(is_alpha2("LC"@));
    reveal_strlit("MF");
    assert(is_alpha2("MF"@));
    reveal_strlit("PM");
    assert(is_alpha2("PM"@));
    reveal_strlit("VC");
    assert(is_alpha2("VC"@));
    reveal_strlit("WS");
    assert(is_alpha2("WS"@));
    reveal_strlit("SM");
    assert(is_alpha2("SM"@));
    reveal_strlit("ST");
    assert(is_alpha2("ST"@));
    reveal_strlit("SA");
    assert(is_alpha2("SA"@));
    reveal_strlit("SN");
    assert(is_alpha2("SN"@));
    reveal_strlit("RS");
    assert(is_alpha2("RS"@));
    reveal_strlit("SC");
    assert(is_alpha2("SC"@));
    reveal_strlit("SL");
    assert(is_alpha2("SL"@));
    reveal_strlit("SG");
    assert(is_alpha2("SG"@));
    reveal_strlit("SX");
    assert(is_alpha2("SX"@));
    reveal_strlit("SK");
    assert(is_alpha2("SK"@));
    reveal_strlit("SI");
    assert(is_alpha2("SI"@));
    reveal_strlit("SB");
    assert(is_alpha2("SB"@));
    reveal_strlit("SO");
    assert(is_alpha2("SO"@));
    reveal_strlit("ZA");
    assert(is_alpha2("ZA"@));
    reveal_strlit("GS");
    assert(is_alpha2("GS"@));
    reveal_strlit("SS");
    assert(is_alpha2("SS"@));
    reveal_strlit("ES");
    assert(is_alpha2("ES"@));
    reveal_strlit("LK");
    assert(is_alpha2("LK"@));
    reveal_strlit("SD");
    assert(is_alpha2("SD"@));
    reveal_strlit("SR");
    assert(is_alpha2("SR"@));
    reveal_strlit("SJ");
    assert(is_alpha2("SJ"@));
    reveal_strlit("SE");
    assert(is_alpha2("SE"@));
    reveal_strlit("CH");
    assert(is_alpha2("CH"@));
    reveal_strlit("SY");
    assert(is_alpha2("SY"@));
    reveal_strlit("TW");
    assert(is_alpha2("TW"@));
    reveal_strlit("TJ");
    assert(is_alpha2("TJ"@));
    reveal_strlit("TZ");
    assert(is_alpha2("TZ"@));
    reveal_strlit("TH");
    assert(is_alpha2("TH"@));
    reveal_strlit("TL");
    assert(is_alpha2("TL"@));
    reveal_strlit("TG");
    assert(is_alpha2("TG"@));
    reveal_strlit("TK");
    assert(is_alpha2("TK"@));
    reveal_strlit("TO");
    assert(is_alpha2("TO"@));
    reveal_strlit("TT");
    assert(is_alpha2("TT"@));
    reveal_strlit("TN");
    assert(is_alpha2("TN"@));
    reveal_strlit("TR");
    assert(is_alpha2("TR"@));
    reveal_strlit("TM");
    assert(is_alpha2("TM"@));
    reveal_strlit("TC");
    assert(is_alpha2("TC"@));
    reveal_strlit("TV");
    assert(is_alpha2("TV"@));
    reveal_strlit("UG");
    assert(is_alpha2("UG"@));
    reveal_strlit("UA");
    assert(is_alpha2("UA"@));
    reveal_strlit("AE");
    assert(is_alpha2("AE"@));
    reveal_strlit("GB");
    assert(is_alpha2("GB"@));
    reveal_strlit("US");
    assert(is_alpha2("US"@));
    reveal_strlit("UM");
    assert(is_alpha2("UM"@));
    reveal_strlit("UY");
    assert(is_alpha2("UY"@));
    reveal_strlit("UZ");
    assert(is_alpha2("UZ"@));
    reveal_strlit("VU");
    assert(is_alpha2("VU"@));
    reveal_strlit("VE");
    assert(is_alpha2("VE"@));
    reveal_strlit("VN");
    assert(is_alpha2("VN"@));
    reveal_strlit("VG");
    assert(is_alpha2("VG"@));
    reveal_strlit("VI");
    assert(is_alpha2("VI"@));
    reveal_strlit("WF");
    assert(is_alpha2("WF"@));
    reveal_strlit("EH");
    assert(is_alpha2("EH"@));
    reveal_strlit("YE");
    assert(is_alpha2("YE"@));
    reveal_strlit("ZM");
    assert(is_alpha2("ZM"@));
    reveal_strlit("ZW");
    assert(is_alpha2("ZW"@));
    assert(alpha2_shaped()) by {
        reveal(alpha2_shaped);
    }
    assert(sketches_differ(Field::Alpha2)) by {
        reveal(sketches_differ);
    }
}

/// The three-letter codes of the table have their shape, and no two of them have
/// the same sketch.
#[verifier::rlimit(40)]
proof fn lemma_alpha3_column()
    ensures
        alpha3_shaped(),
        sketches_differ(Field::Alpha3),
{
    reveal_strlit("AFG");
    assert(is_alpha3("AFG"@));
    reveal_strlit("ALA");
    assert(is_alpha3("ALA"@));
    reveal_strlit("ALB");
    assert(is_alpha3("ALB"@));
    reveal_strlit("DZA");
    assert(is_alpha3("DZA"@));
    reveal_strlit("ASM");
    assert(is_alpha3("ASM"@));
    reveal_strlit("AND");
    assert(is_alpha3("AND"@));
    reveal_strlit("AGO");
    assert(is_alpha3("AGO"@));
    reveal_strlit("AIA");
    assert(is_alpha3("AIA"@));
    reveal_strlit("ATA");
    assert(is_alpha3("ATA"@));
    reveal_strlit("ATG");
    assert(is_alpha3("ATG"@));
    reveal_strlit("ARG");
    assert(is_alpha3("ARG"@));
    reveal_strlit("ARM");
    assert(is_alpha3("ARM"@));
    reveal_strlit("ABW");
    assert(is_alpha3("ABW"@));
    reveal_strlit("AUS");
    assert(is_alpha3("AUS"@));
    reveal_strlit("AUT");
    assert(is_alpha3("AUT"@));
    reveal_strlit("AZE");
    assert(is_alpha3("AZE"@));
    reveal_strlit("BHS");
    assert(is_alpha3("BHS"@));
    reveal_strlit("BHR");
    assert(is_alpha3("BHR"@));
    reveal_strlit("BGD");
    assert(is_alpha3("BGD"@));
    reveal_strlit("BRB");
    assert(is_alpha3("BRB"@));
    reveal_strlit("BLR");
    assert(is_alpha3("BLR"@));
    reveal_strlit("BEL");
    assert(is_alpha3("BEL"@));
    reveal_strlit("BLZ");
    assert(is_alpha3("BLZ"@));
    reveal_strlit("BEN");
    assert(is_alpha3("BEN"@));
    reveal_strlit("BMU");
    assert(is_alpha3("BMU"@));
    reveal_strlit("BTN");
    assert(is_alpha3("BTN"@));
    reveal_strlit("BOL");
    assert(is_alpha3("BOL"@));
    reveal_strlit("BES");
    assert(is_alpha3("BES"@));
    reveal_strlit("BIH");
    assert(is_alpha3("BIH"@));
    reveal_strlit("BWA");
    assert(is_alpha3("BWA"@));
    reveal_strlit("BVT");
    assert(is_alpha3("BVT"@));
    reveal_strlit("BRA");
    assert(is_alpha3("BRA"@));
    reveal_strlit("IOT");
    assert(is_alpha3("IOT"@));
    reveal_strlit("BRN");
    assert(is_alpha3("BRN"@));
    reveal_strlit("BGR");
    assert(is_alpha3("BGR"@));
    reveal_strlit("BFA");
    assert(is_alpha3("BFA"@));
    reveal_strlit("BDI");
    assert(is_alpha3("BDI"@));
    reveal_strlit("CPV");
    assert(is_alpha3("CPV"@));
    reveal_strlit("KHM");
    assert(is_alpha3("KHM"@));
    reveal_strlit("CMR");
    assert(is_alpha3("CMR"@));
    reveal_strlit("CAN");
    assert(is_alpha3("CAN"@));
    reveal_strlit("CYM");
    assert(is_alpha3("CYM"@));
    reveal_strlit("CAF");
    assert(is_alpha3("CAF"@));
    reveal_strlit("TCD");
    assert(is_alpha3("TCD"@));
    reveal_strlit("CHL");
    assert(is_alpha3("CHL"@));
    reveal_strlit("CHN");
    assert(is_alpha3("CHN"@));
    reveal_strlit("CXR");
    assert(is_alpha3("CXR"@));
    reveal_strlit("CCK");
    assert(is_alpha3("CCK"@));
    reveal_strlit("COL");
    assert(is_alpha3("COL"@));
    reveal_strlit("COM");
    assert(is_alpha3("COM"@));
    reveal_strlit("COG");
    assert(is_alpha3("COG"@));
    reveal_strlit("COD");
    assert(is_alpha3("COD"@));
    reveal_strlit("COK");
    assert(is_alpha3("COK"@));
    reveal_strlit("CRI");
    assert(is_alpha3("CRI"@));
    reveal_strlit("CIV");
    assert(is_alpha3("CIV"@));
    reveal_strlit("HRV");
    assert(is_alpha3("HRV"@));
    reveal_strlit("CUB");
    assert(is_alpha3("CUB"@));
    reveal_strlit("CUW");
    assert(is_alpha3("CUW"@));
    reveal_strlit("CYP");
    assert(is_alpha3("CYP"@));
    reveal_strlit("CZE");
    assert(is_alpha3("CZE"@));
    reveal_strlit("DNK");
    assert(is_alpha3("DNK"@));
    reveal_strlit("DJI");
    assert(is_alpha3("DJI"@));
    reveal_strlit("DMA");
    assert(is_alpha3("DMA"@));
    reveal_strlit("DOM");
    assert(is_alpha3("DOM"@));
    reveal_strlit("ECU");
    assert(is_alpha3("ECU"@));
    reveal_strlit("EGY");
    assert(is_alpha3("EGY"@));
    reveal_strlit("SLV");
    assert(is_alpha3("SLV"@));
    reveal_strlit("GNQ");
    assert(is_alpha3("GNQ"@));
    reveal_strlit("ERI");
    assert(is_alpha3("ERI"@));
    reveal_strlit("EST");
    assert(is_alpha3("EST"@));
    reveal_strlit("SWZ");
    assert(is_alpha3("SWZ"@));
    reveal_strlit("ETH");
    assert(is_alpha3("ETH"@));
    reveal_strlit("FLK");
    assert(is_alpha3("FLK"@));
    reveal_strlit("FRO");
    assert(is_alpha3("FRO"@));
    reveal_strlit("FJI");
    assert(is_alpha3("FJI"@));
    reveal_strlit("FIN");
    assert(is_alpha3("FIN"@));
    reveal_strlit("FRA");
    assert(is_alpha3("FRA"@));
    reveal_strlit("GUF");
    assert(is_alpha3("GUF"@));
    reveal_strlit("PYF");
    assert(is_alpha3("PYF"@));
    reveal_strlit("ATF");
    assert(is_alpha3("ATF"@));
    reveal_strlit("GAB");
    assert(is_alpha3("GAB"@));
    reveal_strlit("GMB");
    assert(is_alpha3("GMB"@));
    reveal_strlit("GEO");
    assert(is_alpha3("GEO"@));
    reveal_strlit("DEU");
    assert(is_alpha3("DEU"@));
    reveal_strlit("GHA");
    assert(is_alpha3("GHA"@));
    reveal_strlit("GIB");
    assert(is_alpha3("GIB"@));
    reveal_strlit("GRC");
    assert(is_alpha3("GRC"@));
    reveal_strlit("GRL");
    assert(is_alpha3("GRL"@));
    reveal_strlit("GRD");
    assert(is_alpha3("GRD"@));
    reveal_strlit("GLP");
    assert(is_alpha3("GLP"@));
    reveal_strlit("GUM");
    assert(is_alpha3("GUM"@));
    reveal_strlit("GTM");
    assert(is_alpha3("GTM"@));
    reveal_strlit("GGY");
    assert(is_alpha3("GGY"@));
    reveal_strlit("GIN");
    assert(is_alpha3("GIN"@));
    reveal_strlit("GNB");
    assert(is_alpha3("GNB"@));
    reveal_strlit("GUY");
    assert(is_alpha3("GUY"@));
    reveal_strlit("HTI");
    assert(is_alpha3("HTI"@));
    reveal_strlit("HMD");
    assert(is_alpha3("HMD"@));
    reveal_strlit("VAT");
    assert(is_alpha3("VAT"@));
    reveal_strlit("HND");
    assert(is_alpha3("HND"@));
    reveal_strlit("HKG");
    assert(is_alpha3("HKG"@));
    reveal_strlit("HUN");
    assert(is_alpha3("HUN"@));
    reveal_strlit("ISL");
    assert(is_alpha3("ISL"@));
    reveal_strlit("IND");
    assert(is_alpha3("IND"@));
    reveal_strlit("IDN");
    assert(is_alpha3("IDN"@));
    reveal_strlit("IRN");
    assert(is_alpha3("IRN"@));
    reveal_strlit("IRQ");
    assert(is_alpha3("IRQ"@));
    reveal_strlit("IRL");
    assert(is_alpha3("IRL"@));
    reveal_strlit("IMN");
    assert(is_alpha3("IMN"@));
    reveal_strlit("ISR");
    assert(is_alpha3("ISR"@));
    reveal_strlit("ITA");
    assert(is_alpha3("ITA"@));
    reveal_strlit("JAM");
    assert(is_alpha3("JAM"@));
    reveal_strlit("JPN");
    assert(is_alpha3("JPN"@));
    reveal_strlit("JEY");
    assert(is_alpha3("JEY"@));
    reveal_strlit("JOR");
    assert(is_alpha3("JOR"@));
    reveal_strlit("KAZ");
    assert(is_alpha3("KAZ"@));
    reveal_strlit("KEN");
    assert(is_alpha3("KEN"@));
    reveal_strlit("KIR");
    assert(is_alpha3("KIR"@));
    reveal_strlit("PRK");
    assert(is_alpha3("PRK"@));
    reveal_strlit("KOR");
    assert(is_alpha3("KOR"@));
    reveal_strlit("KWT");
    assert(is_alpha3("KWT"@));
    reveal_strlit("KGZ");
    assert(is_alpha3("KGZ"@));
    reveal_strlit("LAO");
    assert(is_alpha3("LAO"@));
    reveal_strlit("LVA");
    assert(is_alpha3("LVA"@));
    reveal_strlit("LBN");
    assert(is_alpha3("LBN"@));
    reveal_strlit("LSO");
    assert(is_alpha3("LSO"@));
    reveal_strlit("LBR");
    assert(is_alpha3("LBR"@));
    reveal_strlit("LBY");
    assert(is_alpha3("LBY"@));
    reveal_strlit("LIE");
    assert(is_alpha3("LIE"@));
    reveal_strlit("LTU");
    assert(is_alpha3("LTU"@));
    reveal_strlit("LUX");
    assert(is_alpha3("LUX"@));
    reveal_strlit("MAC");
    assert(is_alpha3("MAC"@));
    reveal_strlit("MDG");
    assert(is_alpha3("MDG"@));
    reveal_strlit("MWI");
    assert(is_alpha3("MWI"@));
    reveal_strlit("MYS");
    assert(is_alpha3("MYS"@));
    reveal_strlit("MDV");
    assert(is_alpha3("MDV"@));
    reveal_strlit("MLI");
    assert(is_alpha3("MLI"@));
    reveal_strlit("MLT");
    assert(is_alpha3("MLT"@));
    reveal_strlit("MHL");
    assert(is_alpha3("MHL"@));
    reveal_strlit("MTQ");
    assert(is_alpha3("MTQ"@));
    reveal_strlit("MRT");
    assert(is_alpha3("MRT"@));
    reveal_strlit("MUS");
    assert(is_alpha3("MUS"@));
    reveal_strlit("MYT");
    assert(is_alpha3("MYT"@));
    reveal_strlit("MEX");
    assert(is_alpha3("MEX"@));
    reveal_strlit("FSM");
    assert(is_alpha3("FSM"@));
    reveal_strlit("MDA");
    assert(is_alpha3("MDA"@));
    reveal_strlit("MCO");
    assert(is_alpha3("MCO"@));
    reveal_strlit("MNG");
    assert(is_alpha3("MNG"@));
    reveal_strlit("MNE");
    assert(is_alpha3("MNE"@));
    reveal_strlit("MSR");
    assert(is_alpha3("MSR"@));
    reveal_strlit("MAR");
    assert(is_alpha3("MAR"@));
    reveal_strlit("MOZ");
    assert(is_alpha3("MOZ"@));
    reveal_strlit("MMR");
    assert(is_alpha3("MMR"@));
    reveal_strlit("NAM");
    assert(is_alpha3("NAM"@));
    reveal_strlit("NRU");
    assert(is_alpha3("NRU"@));
    reveal_strlit("NPL");
    assert(is_alpha3("NPL"@));
    reveal_strlit("NLD");
    assert(is_alpha3("NLD"@));
    reveal_strlit("NCL");
    assert(is_alpha3("NCL"@));
    reveal_strlit("NZL");
    assert(is_alpha3("NZL"@));
    reveal_strlit("NIC");
    assert(is_alpha3("NIC"@));
    reveal_strlit("NER");
    assert(is_alpha3("NER"@));
    reveal_strlit("NGA");
    assert(is_alpha3("NGA"@));
    reveal_strlit("NIU");
    assert(is_alpha3("NIU"@));
    reveal_strlit("NFK");
    assert(is_alpha3("NFK"@));
    reveal_strlit("MKD");
    assert(is_alpha3("MKD"@));
    reveal_strlit("MNP");
    assert(is_alpha3("MNP"@));
    reveal_strlit("NOR");
    assert(is_alpha3("NOR"@));
    reveal_strlit("OMN");
    assert(is_alpha3("OMN"@));
    reveal_strlit("PAK");
    assert(is_alpha3("PAK"@));
    reveal_strlit("PLW");
    assert(is_alpha3("PLW"@));
    reveal_strlit("PSE");
    assert(is_alpha3("PSE"@));
    reveal_strlit("PAN");
    assert(is_alpha3("PAN"@));
    reveal_strlit("PNG");
    assert(is_alpha3("PNG"@));
    reveal_strlit("PRY");
    assert(is_alpha3("PRY"@));
    reveal_strlit("PER");
    assert(is_alpha3("PER"@));
    reveal_strlit("PHL");
    assert(is_alpha3("PHL"@));
    reveal_strlit("PCN");
    assert(is_alpha3("PCN"@));
    reveal_strlit("POL");
    assert(is_alpha3("POL"@));
    reveal_strlit("PRT");
    assert(is_alpha3("PRT"@));
    reveal_strlit("PRI");
    assert(is_alpha3("PRI"@));
    reveal_strlit("QAT");
    assert(is_alpha3("QAT"@));
    reveal_strlit("REU");
    assert(is_alpha3("REU"@));
    reveal_strlit("ROU");
    assert(is_alpha3("ROU"@));
    reveal_strlit("RUS");
    assert(is_alpha3("RUS"@));
    reveal_strlit("RWA");
    assert(is_alpha3("RWA"@));
    reveal_strlit("BLM");
    assert(is_alpha3("BLM"@));
    reveal_strlit("SHN");
    assert(is_alpha3("SHN"@));
    reveal_strlit("KNA");
    assert(is_alpha3("KNA"@));
    reveal_strlit("LCA");
    assert(is_alpha3("LCA"@));
    reveal_strlit("MAF");
    assert(is_alpha3("MAF"@));
    reveal_strlit("SPM");
    assert(is_alpha3("SPM"@));
    reveal_strlit("VCT");
    assert(is_alpha3("VCT"@));
    reveal_strlit("WSM");
    assert(is_alpha3("WSM"@));
    reveal_strlit("SMR");
    assert(is_alpha3("SMR"@));
    reveal_strlit("STP");
    assert(is_alpha3("STP"@));
    reveal_strlit("SAU");
    assert(is_alpha3("SAU"@));
    reveal_strlit("SEN");
    assert(is_alpha3("SEN"@));
    reveal_strlit("SRB");
    assert(is_alpha3("SRB"@));
    reveal_strlit("SYC");
    assert(is_alpha3("SYC"@));
    reveal_strlit("SLE");
    assert(is_alpha3("SLE"@));
    reveal_strlit("SGP");
    assert(is_alpha3("SGP"@));
    reveal_strlit("SXM");
    assert(is_alpha3("SXM"@));
    reveal_strlit("SVK");
    assert(is_alpha3("SVK"@));
    reveal_strlit("SVN");
    assert(is_alpha3("SVN"@));
    reveal_strlit("SLB");
    assert(is_alpha3("SLB"@));
    reveal_strlit("SOM");
    assert(is_alpha3("SOM"@));
    reveal_strlit("ZAF");
    assert(is_alpha3("ZAF"@));
    reveal_strlit("SGS");
    assert(is_alpha3("SGS"@));
    reveal_strlit("SSD");
    assert(is_alpha3("SSD"@));
    reveal_strlit("ESP");
    assert(is_alpha3("ESP"@));
    reveal_strlit("LKA");
    assert(is_alpha3("LKA"@));
    reveal_strlit("SDN");
    assert(is_alpha3("SDN"@));
    reveal_strlit("SUR");
    assert(is_alpha3("SUR"@));
    reveal_strlit("SJM");
    assert(is_alpha3("SJM"@));
    reveal_strlit("SWE");
    assert(is_alpha3("SWE"@));
    reveal_strlit("CHE");
    assert(is_alpha3("CHE"@));
    reveal_strlit("SYR");
    assert(is_alpha3("SYR"@));
    reveal_strlit("TWN");
    assert(is_alpha3("TWN"@));
    reveal_strlit("TJK");
    assert(is_alpha3("TJK"@));
    reveal_strlit("TZA");
    assert(is_alpha3("TZA"@));
    reveal_strlit("THA");
    assert(is_alpha3("THA"@));
    reveal_strlit("TLS");
    assert(is_alpha3("TLS"@));
    reveal_strlit("TGO");
    assert(is_alpha3("TGO"@));
    reveal_strlit("TKL");
    assert(is_alpha3("TKL"@));
    reveal_strlit("TON");
    assert(is_alpha3("TON"@));
    reveal_strlit("TTO");
    assert(is_alpha3("TTO"@));
    reveal_strlit("TUN");
    assert(is_alpha3("TUN"@));
    reveal_strlit("TUR");
    assert(is_alpha3("TUR"@));
    reveal_strlit("TKM");
    assert(is_alpha3("TKM"@));
    reveal_strlit("TCA");
    assert(is_alpha3("TCA"@));
    reveal_strlit("TUV");
    assert(is_alpha3("TUV"@));
    reveal_strlit("UGA");
    assert(is_alpha3("UGA"@));
    reveal_strlit("UKR");
    assert(is_alpha3("UKR"@));
    reveal_strlit("ARE");
    assert(is_alpha3("ARE"@));
    reveal_strlit("GBR");
    assert(is_alpha3("GBR"@));
    reveal_strlit("USA");
    assert(is_alpha3("USA"@));
    reveal_strlit("UMI");
    assert(is_alpha3("UMI"@));
    reveal_strlit("URY");
    assert(is_alpha3("URY"@));
    reveal_strlit("UZB");
    assert(is_alpha3("UZB"@));
    reveal_strlit("VUT");
    assert(is_alpha3("VUT"@));
    reveal_strlit("VEN");
    assert(is_alpha3("VEN"@));
    reveal_strlit("VNM");
    assert(is_alpha3("VNM"@));
    reveal_strlit("VGB");
    assert(is_alpha3("VGB"@));
    reveal_strlit("VIR");
    assert(is_alpha3("VIR"@));
    reveal_strlit("WLF");
    assert(is_alpha3("WLF"@));
    reveal_strlit("ESH");
    assert(is_alpha3("ESH"@));
    reveal_strlit("YEM");
    assert(is_alpha3("YEM"@));
    reveal_strlit("ZMB");
    assert(is_alpha3("ZMB"@));
    reveal_strlit("ZWE");
    assert(is_alpha3("ZWE"@));
    assert(alpha3_shaped()) by {
        reveal(alpha3_shaped);
    }
    assert(sketches_differ(Field::Alpha3)) by {
        reveal(sketches_differ);
    }
}

/// The names of the table have their shape, and no two of them have
/// the same sketch.
#[verifier::rlimit(40)]
proof fn lemma_name_column()
    ensures
        name_shaped(),
        sketches_differ(Field::Name),
{
    reveal_strlit("Afghanistan");
    assert(is_name("Afghanistan"@));
    reveal_strlit("Åland Islands");
    assert(is_name("Åland Islands"@));
    reveal_strlit("Albania");
    assert(is_name("Albania"@));
    reveal_strlit("Algeria");
    assert(is_name("Algeria"@));
    reveal_strlit("American Samoa");
    assert(is_name("American Samoa"@));
    reveal_strlit("Andorra");
    assert(is_name("Andorra"@));
    reveal_strlit("Angola");
    assert(is_name("Angola"@));
    reveal_strlit("Anguilla");
    assert(is_name("Anguilla"@));
    reveal_strlit("Antarctica");
    assert(is_name("Antarctica"@));
    reveal_strlit("Antigua and Barbuda");
    assert(is_name("Antigua and Barbuda"@));
    reveal_strlit("Argentina");
    assert(is_name("Argentina"@));
    reveal_strlit("Armenia");
    assert(is_name("Armenia"@));
    reveal_strlit("Aruba");
    assert(is_name("Aruba"@));
    reveal_strlit("Australia");
    assert(is_name("Australia"@));
    reveal_strlit("Austria");
    assert(is_name("Austria"@));
    reveal_strlit("Azerbaijan");
    assert(is_name("Azerbaijan"@));
    reveal_strlit("Bahamas");
    assert(is_name("Bahamas"@));
    reveal_strlit("Bahrain");
    assert(is_name("Bahrain"@));
    reveal_strlit("Bangladesh");
    assert(is_name("Bangladesh"@));
    reveal_strlit("Barbados");
    assert(is_name("Barbados"@));
    reveal_strlit("Belarus");
    assert(is_name("Belarus"@));
    reveal_strlit("Belgium");
    assert(is_name("Belgium"@));
    reveal_strlit("Belize");
    assert(is_name("Belize"@));
    reveal_strlit("Benin");
    assert(is_name("Benin"@));
    reveal_strlit("Bermuda");
    assert(is_name("Bermuda"@));
    reveal_strlit("Bhutan");
    assert(is_name("Bhutan"@));
    reveal_strlit("Bolivia, Plurinational State of");
    assert(is_name("Bolivia, Plurinational State of"@));
    reveal_strlit("Bonaire, Sint Eustatius and Saba");
    assert(is_name("Bonaire, Sint Eustatius and Saba"@));
    reveal_strlit("Bosnia and Herzegovina");
    assert(is_name("Bosnia and Herzegovina"@));
    reveal_strlit("Botswana");
    assert(is_name("Botswana"@));
    reveal_strlit("Bouvet Island");
    assert(is_name("Bouvet Island"@));
    reveal_strlit("Brazil");
    assert(is_name("Brazil"@));
    reveal_strlit("British Indian Ocean Territory");
    assert(is_name("British Indian Ocean Territory"@));
    reveal_strlit("Brunei Darussalam");
    assert(is_name("Brunei Darussalam"@));
    reveal_strlit("Bulgaria");
    assert(is_name("Bulgaria"@));
    reveal_strlit("Burkina Faso");
    assert(is_name("Burkina Faso"@));
    reveal_strlit("Burundi");
    assert(is_name("Burundi"@));
    reveal_strlit("Cabo Verde");
    assert(is_name("Cabo Verde"@));
    reveal_strlit("Cambodia");
    assert(is_name("Cambodia"@));
    reveal_strlit("Cameroon");
    assert(is_name("Cameroon"@));
    reveal_strlit("Canada");
    assert(is_name("Canada"@));
    reveal_strlit("Cayman Islands");
    assert(is_name("Cayman Islands"@));
    reveal_strlit("Central African Republic");
    assert(is_name("Central African Republic"@));
    reveal_strlit("Chad");
    assert(is_name("Chad"@));
    reveal_strlit("Chile");
    assert(is_name("Chile"@));
    reveal_strlit("China");
    assert(is_name("China"@));
    reveal_strlit("Christmas Island");
    assert(is_name("Christmas Island"@));
    reveal_strlit("Cocos (Keeling) Islands");
    assert(is_name("Cocos (Keeling) Islands"@));
    reveal_strlit("Colombia");
    assert(is_name("Colombia"@));
    reveal_strlit("Comoros");
    assert(is_name("Comoros"@));
    reveal_strlit("Congo");
    assert(is_name("Congo"@));
    reveal_strlit("Congo, Democratic Republic of the");
    assert(is_name("Congo, Democratic Republic of the"@));
    reveal_strlit("Cook Islands");
    assert(is_name("Cook Islands"@));
    reveal_strlit("Costa Rica");
    assert(is_name("Costa Rica"@));
    reveal_strlit("Côte d'Ivoire");
    assert(is_name("Côte d'Ivoire"@));
    reveal_strlit("Croatia");
    assert(is_name("Croatia"@));
    reveal_strlit("Cuba");
    assert(is_name("Cuba"@));
    reveal_strlit("Curaçao");
    assert(is_name("Curaçao"@));
    reveal_strlit("Cyprus");
    assert(is_name("Cyprus"@));
    reveal_strlit("Czechia");
    assert(is_name("Czechia"@));
    reveal_strlit("Denmark");
    assert(is_name("Denmark"@));
    reveal_strlit("Djibouti");
    assert(is_name("Djibouti"@));
    reveal_strlit("Dominica");
    assert(is_name("Dominica"@));
    reveal_strlit("Dominican Republic");
    assert(is_name("Dominican Republic"@));
    reveal_strlit("Ecuador");
    assert(is_name("Ecuador"@));
    reveal_strlit("Egypt");
    assert(is_name("Egypt"@));
    reveal_strlit("El Salvador");
    assert(is_name("El Salvador"@));
    reveal_strlit("Equatorial Guinea");
    assert(is_name("Equatorial Guinea"@));
    reveal_strlit("Eritrea");
    assert(is_name("Eritrea"@));
    reveal_strlit("Estonia");
    assert(is_name("Estonia"@));
    reveal_strlit("Eswatini");
    assert(is_name("Eswatini"@));
    reveal_strlit("Ethiopia");
    assert(is_name("Ethiopia"@));
    reveal_strlit("Falkland Islands (Malvinas)");
    assert(is_name("Falkland Islands (Malvinas)"@));
    reveal_strlit("Faroe Islands");
    assert(is_name("Faroe Islands"@));
    reveal_strlit("Fiji");
    assert(is_name("Fiji"@));
    reveal_strlit("Finland");
    assert(is_name("Finland"@));
    reveal_strlit("France");
    assert(is_name("France"@));
    reveal_strlit("French Guiana");
    assert(is_name("French Guiana"@));
    reveal_strlit("French Polynesia");
    assert(is_name("French Polynesia"@));
    reveal_strlit("French Southern Territories");
    assert(is_name("French Southern Territories"@));
    reveal_strlit("Gabon");
    assert(is_name("Gabon"@));
    reveal_strlit("Gambia");
    assert(is_name("Gambia"@));
    reveal_strlit("Georgia");
    assert(is_name("Georgia"@));
    reveal_strlit("Germany");
    assert(is_name("Germany"@));
    reveal_strlit("Ghana");
    assert(is_name("Ghana"@));
    reveal_strlit("Gibraltar");
    assert(is_name("Gibraltar"@));
    reveal_strlit("Greece");
    assert(is_name("Greece"@));
    reveal_strlit("Greenland");
    assert(is_name("Greenland"@));
    reveal_strlit("Grenada");
    assert(is_name("Grenada"@));
    reveal_strlit("Guadeloupe");
    assert(is_name("Guadeloupe"@));
    reveal_strlit("Guam");
    assert(is_name("Guam"@));
    reveal_strlit("Guatemala");
    assert(is_name("Guatemala"@));
    reveal_strlit("Guernsey");
    assert(is_name("Guernsey"@));
    reveal_strlit("Guinea");
    assert(is_name("Guinea"@));
    reveal_strlit("Guinea-Bissau");
    assert(is_name("Guinea-Bissau"@));
    reveal_strlit("Guyana");
    assert(is_name("Guyana"@));
    reveal_strlit("Haiti");
    assert(is_name("Haiti"@));
    reveal_strlit("Heard Island and McDonald Islands");
    assert(is_name("Heard Island and McDonald Islands"@));
    reveal_strlit("Holy See");
    assert(is_name("Holy See"@));
    reveal_strlit("Honduras");
    assert(is_name("Honduras"@));
    reveal_strlit("Hong Kong");
    assert(is_name("Hong Kong"@));
    reveal_strlit("Hungary");
    assert(is_name("Hungary"@));
    reveal_strlit("Iceland");
    assert(is_name("Iceland"@));
    reveal_strlit("India");
    assert(is_name("India"@));
    reveal_strlit("Indonesia");
    assert(is_name("Indonesia"@));
    reveal_strlit("Iran, Islamic Republic of");
    assert(is_name("Iran, Islamic Republic of"@));
    reveal_strlit("Iraq");
    assert(is_name("Iraq"@));
    reveal_strlit("Ireland");
    assert(is_name("Ireland"@));
    reveal_strlit("Isle of Man");
    assert(is_name("Isle of Man"@));
    reveal_strlit("Israel");
    assert(is_name("Israel"@));
    reveal_strlit("Italy");
    assert(is_name("Italy"@));
    reveal_strlit("Jamaica");
    assert(is_name("Jamaica"@));
    reveal_strlit("Japan");
    assert(is_name("Japan"@));
    reveal_strlit("Jersey");
    assert(is_name("Jersey"@));
    reveal_strlit("Jordan");
    assert(is_name("Jordan"@));
    reveal_strlit("Kazakhstan");
    assert(is_name("Kazakhstan"@));
    reveal_strlit("Kenya");
    assert(is_name("Kenya"@));
    reveal_strlit("Kiribati");
    assert(is_name("Kiribati"@));
    reveal_strlit("Korea, Democratic People's Republic of");
    assert(is_name("Korea, Democratic People's Republic of"@));
    reveal_strlit("Korea, Republic of");
    assert(is_name("Korea, Republic of"@));
    reveal_strlit("Kuwait");
    assert(is_name("Kuwait"@));
    reveal_strlit("Kyrgyzstan");
    assert(is_name("Kyrgyzstan"@));
    reveal_strlit("Lao People's Democratic Republic");
    assert(is_name("Lao People's Democratic Republic"@));
    reveal_strlit("Latvia");
    assert(is_name("Latvia"@));
    reveal_strlit("Lebanon");
    assert(is_name("Lebanon"@));
    reveal_strlit("Lesotho");
    assert(is_name("Lesotho"@));
    reveal_strlit("Liberia");
    assert(is_name("Liberia"@));
    reveal_strlit("Libya");
    assert(is_name("Libya"@));
    reveal_strlit("Liechtenstein");
    assert(is_name("Liechtenstein"@));
    reveal_strlit("Lithuania");
    assert(is_name("Lithuania"@));
    reveal_strlit("Luxembourg");
    assert(is_name("Luxembourg"@));
    reveal_strlit("Macao");
    assert(is_name("Macao"@));
    reveal_strlit("Madagascar");
    assert(is_name("Madagascar"@));
    reveal_strlit("Malawi");
    assert(is_name("Malawi"@));
    reveal_strlit("Malaysia");
    assert(is_name("Malaysia"@));
    reveal_strlit("Maldives");
    assert(is_name("Maldives"@));
    reveal_strlit("Mali");
    assert(is_name("Mali"@));
    reveal_strlit("Malta");
    assert(is_name("Malta"@));
    reveal_strlit("Marshall Islands");
    assert(is_name("Marshall Islands"@));
    reveal_strlit("Martinique");
    assert(is_name("Martinique"@));
    reveal_strlit("Mauritania");
    assert(is_name("Mauritania"@));
    reveal_strlit("Mauritius");
    assert(is_name("Mauritius"@));
    reveal_strlit("Mayotte");
    assert(is_name("Mayotte"@));
    reveal_strlit("Mexico");
    assert(is_name("Mexico"@));
    reveal_strlit("Micronesia, Federated States of");
    assert(is_name("Micronesia, Federated States of"@));
    reveal_strlit("Moldova, Republic of");
    assert(is_name("Moldova, Republic of"@));
    reveal_strlit("Monaco");
    assert(is_name("Monaco"@));
    reveal_strlit("Mongolia");
    assert(is_name("Mongolia"@));
    reveal_strlit("Montenegro");
    assert(is_name("Montenegro"@));
    reveal_strlit("Montserrat");
    assert(is_name("Montserrat"@));
    reveal_strlit("Morocco");
    assert(is_name("Morocco"@));
    reveal_strlit("Mozambique");
    assert(is_name("Mozambique"@));
    reveal_strlit("Myanmar");
    assert(is_name("Myanmar"@));
    reveal_strlit("Namibia");
    assert(is_name("Namibia"@));
    reveal_strlit("Nauru");
    assert(is_name("Nauru"@));
    reveal_strlit("Nepal");
    assert(is_name("Nepal"@));
    reveal_strlit("Netherlands, Kingdom of the");
    assert(is_name("Netherlands, Kingdom of the"@));
    reveal_strlit("New Caledonia");
    assert(is_name("New Caledonia"@));
    reveal_strlit("New Zealand");
    assert(is_name("New Zealand"@));
    reveal_strlit("Nicaragua");
    assert(is_name("Nicaragua"@));
    reveal_strlit("Niger");
    assert(is_name("Niger"@));
    reveal_strlit("Nigeria");
    assert(is_name("Nigeria"@));
    reveal_strlit("Niue");
    assert(is_name("Niue"@));
    reveal_strlit("Norfolk Island");
    assert(is_name("Norfolk Island"@));
    reveal_strlit("North Macedonia");
    assert(is_name("North Macedonia"@));
    reveal_strlit("Northern Mariana Islands");
    assert(is_name("Northern Mariana Islands"@));
    reveal_strlit("Norway");
    assert(is_name("Norway"@));
    reveal_strlit("Oman");
    assert(is_name("Oman"@));
    reveal_strlit("Pakistan");
    assert(is_name("Pakistan"@));
    reveal_strlit("Palau");
    assert(is_name("Palau"@));
    reveal_strlit("Palestine, State of");
    assert(is_name("Palestine, State of"@));
    reveal_strlit("Panama");
    assert(is_name("Panama"@));
    reveal_strlit("Papua New Guinea");
    assert(is_name("Papua New Guinea"@));
    reveal_strlit("Paraguay");
    assert(is_name("Paraguay"@));
    reveal_strlit("Peru");
    assert(is_name("Peru"@));
    reveal_strlit("Philippines");
    assert(is_name("Philippines"@));
    reveal_strlit("Pitcairn");
    assert(is_name("Pitcairn"@));
    reveal_strlit("Poland");
    assert(is_name("Poland"@));
    reveal_strlit("Portugal");
    assert(is_name("Portugal"@));
    reveal_strlit("Puerto Rico");
    assert(is_name("Puerto Rico"@));
    reveal_strlit("Qatar");
    assert(is_name("Qatar"@));
    reveal_strlit("Réunion");
    assert(is_name("Réunion"@));
    reveal_strlit("Romania");
    assert(is_name("Romania"@));
    reveal_strlit("Russian Federation");
    assert(is_name("Russian Federation"@));
    reveal_strlit("Rwanda");
    assert(is_name("Rwanda"@));
    reveal_strlit("Saint Barthélemy");
    assert(is_name("Saint Barthélemy"@));
    reveal_strlit("Saint Helena, Ascension and Tristan da Cunha");
    assert(is_name("Saint Helena, Ascension and Tristan da Cunha"@));
    reveal_strlit("Saint Kitts and Nevis");
    assert(is_name("Saint Kitts and Nevis"@));
    reveal_strlit("Saint Lucia");
    assert(is_name("Saint Lucia"@));
    reveal_strlit("Saint Martin (French part)");
    assert(is_name("Saint Martin (French part)"@));
    reveal_strlit("Saint Pierre and Miquelon");
    assert(is_name("Saint Pierre and Miquelon"@));
    reveal_strlit("Saint Vincent and the Grenadines");
    assert(is_name("Saint Vincent and the Grenadines"@));
    reveal_strlit("Samoa");
    assert(is_name("Samoa"@));
    reveal_strlit("San Marino");
    assert(is_name("San Marino"@));
    reveal_strlit("Sao Tome and Principe");
    assert(is_name("Sao Tome and Principe"@));
    reveal_strlit("Saudi Arabia");
    assert(is_name("Saudi Arabia"@));
    reveal_strlit("Senegal");
    assert(is_name("Senegal"@));
    reveal_strlit("Serbia");
    assert(is_name("Serbia"@));
    reveal_strlit("Seychelles");
    assert(is_name("Seychelles"@));
    reveal_strlit("Sierra Leone");
    assert(is_name("Sierra Leone"@));
    reveal_strlit("Singapore");
    assert(is_name("Singapore"@));
    reveal_strlit("Sint Maarten (Dutch part)");
    assert(is_name("Sint Maarten (Dutch part)"@));
    reveal_strlit("Slovakia");
    assert(is_name("Slovakia"@));
    reveal_strlit("Slovenia");
    assert(is_name("Slovenia"@));
    reveal_strlit("Solomon Islands");
    assert(is_name("Solomon Islands"@));
    reveal_strlit("Somalia");
    assert(is_name("Somalia"@));
    reveal_strlit("South Africa");
    assert(is_name("South Africa"@));
    reveal_strlit("South Georgia and the South Sandwich Islands");
    assert(is_name("South Georgia and the South Sandwich Islands"@));
    reveal_strlit("South Sudan");
    assert(is_name("South Sudan"@));
    reveal_strlit("Spain");
    assert(is_name("Spain"@));
    reveal_strlit("Sri Lanka");
    assert(is_name("Sri Lanka"@));
    reveal_strlit("Sudan");
    assert(is_name("Sudan"@));
    reveal_strlit("Suriname");
    assert(is_name("Suriname"@));
    reveal_strlit("Svalbard and Jan Mayen");
    assert(is_name("Svalbard and Jan Mayen"@));
    reveal_strlit("Sweden");
    assert(is_name("Sweden"@));
    reveal_strlit("Switzerland");
    assert(is_name("Switzerland"@));
    reveal_strlit("Syrian Arab Republic");
    assert(is_name("Syrian Arab Republic"@));
    reveal_strlit("Taiwan, Province of China");
    assert(is_name("Taiwan, Province of China"@));
    reveal_strlit("Tajikistan");
    assert(is_name("Tajikistan"@));
    reveal_strlit("Tanzania, United Republic of");
    assert(is_name("Tanzania, United Republic of"@));
    reveal_strlit("Thailand");
    assert(is_name("Thailand"@));
    reveal_strlit("Timor-Leste");
    assert(is_name("Timor-Leste"@));
    reveal_strlit("Togo");
    assert(is_name("Togo"@));
    reveal_strlit("Tokelau");
    assert(is_name("Tokelau"@));
    reveal_strlit("Tonga");
    assert(is_name("Tonga"@));
    reveal_strlit("Trinidad and Tobago");
    assert(is_name("Trinidad and Tobago"@));
    reveal_strlit("Tunisia");
    assert(is_name("Tunisia"@));
    reveal_strlit("Türkiye");
    assert(is_name("Türkiye"@));
    reveal_strlit("Turkmenistan");
    assert(is_name("Turkmenistan"@));
    reveal_strlit("Turks and Caicos Islands");
    assert(is_name("Turks and Caicos Islands"@));
    reveal_strlit("Tuvalu");
    assert(is_name("Tuvalu"@));
    reveal_strlit("Uganda");
    assert(is_name("Uganda"@));
    reveal_strlit("Ukraine");
    assert(is_name("Ukraine"@));
    reveal_strlit("United Arab Emirates");
    assert(is_name("United Arab Emirates"@));
    reveal_strlit("United Kingdom of Great Britain and Northern Ireland");
    assert(is_name("United Kingdom of Great Britain and Northern Ireland"@));
    reveal_strlit("United States of America");
    assert(is_name("United States of America"@));
    reveal_strlit("United States Minor Outlying Islands");
    assert(is_name("United States Minor Outlying Islands"@));
    reveal_strlit("Uruguay");
    assert(is_name("Uruguay"@));
    reveal_strlit("Uzbekistan");
    assert(is_name("Uzbekistan"@));
    reveal_strlit("Vanuatu");
    assert(is_name("Vanuatu"@));
    reveal_strlit("Venezuela, Bolivarian Republic of");
    assert(is_name("Venezuela, Bolivarian Republic of"@));
    reveal_strlit("Viet Nam");
    assert(is_name("Viet Nam"@));
    reveal_strlit("Virgin Islands (British)");
    assert(is_name("Virgin Islands (British)"@));
    reveal_strlit("Virgin Islands (U.S.)");
    assert(is_name("Virgin Islands (U.S.)"@));
    reveal_strlit("Wallis and Futuna");
    assert(is_name("Wallis and Futuna"@));
    reveal_strlit("Western Sahara");
    assert(is_name("Western Sahara"@));
    reveal_strlit("Yemen");
    assert(is_name("Yemen"@));
    reveal_strlit("Zambia");
    assert(is_name("Zambia"@));
    reveal_strlit("Zimbabwe");
    assert(is_name("Zimbabwe"@));
    assert(name_shaped()) by {
        reveal(name_shaped);
    }
    assert(sketches_differ(Field::Name)) by {
        reveal(sketches_differ);
    }
}

/// The numeric codes of the table have their shape, and no two of them have
/// the same sketch.
#[verifier::rlimit(40)]
proof fn lemma_num_column()
    ensures
        num_shaped(),
        sketches_differ(Field::Num),
{
    reveal_strlit("004");
    assert(is_num("004"@));
    reveal_strlit("248");
    assert(is_num("248"@));
    reveal_strlit("008");
    assert(is_num("008"@));
    reveal_strlit("012");
    assert(is_num("012"@));
    reveal_strlit("016");
    assert(is_num("016"@));
    reveal_strlit("020");
    assert(is_num("020"@));
    reveal_strlit("024");
    assert(is_num("024"@));
    reveal_strlit("660");
    assert(is_num("660"@));
    reveal_strlit("010");
    assert(is_num("010"@));
    reveal_strlit("028");
    assert(is_num("028"@));
    reveal_strlit("032");
    assert(is_num("032"@));
    reveal_strlit("051");
    assert(is_num("051"@));
    reveal_strlit("533");
    assert(is_num("533"@));
    reveal_strlit("036");
    assert(is_num("036"@));
    reveal_strlit("040");
    assert(is_num("040"@));
    reveal_strlit("031");
    assert(is_num("031"@));
    reveal_strlit("044");
    assert(is_num("044"@));
    reveal_strlit("048");
    assert(is_num("048"@));
    reveal_strlit("050");
    assert(is_num("050"@));
    reveal_strlit("052");
    assert(is_num("052"@));
    reveal_strlit("112");
    assert(is_num("112"@));
    reveal_strlit("056");
    assert(is_num("056"@));
    reveal_strlit("084");
    assert(is_num("084"@));
    reveal_strlit("204");
    assert(is_num("204"@));
    reveal_strlit("060");
    assert(is_num("060"@));
    reveal_strlit("064");
    assert(is_num("064"@));
    reveal_strlit("068");
    assert(is_num("068"@));
    reveal_strlit("535");
    assert(is_num("535"@));
    reveal_strlit("070");
    assert(is_num("070"@));
    reveal_strlit("072");
    assert(is_num("072"@));
    reveal_strlit("074");
    assert(is_num("074"@));
    reveal_strlit("076");
    assert(is_num("076"@));
    reveal_strlit("086");
    assert(is_num("086"@));
    reveal_strlit("096");
    assert(is_num("096"@));
    reveal_strlit("100");
    assert(is_num("100"@));
    reveal_strlit("854");
    assert(is_num("854"@));
    reveal_strlit("108");
    assert(is_num("108"@));
    reveal_strlit("132");
    assert(is_num("132"@));
    reveal_strlit("116");
    assert(is_num("116"@));
    reveal_strlit("120");
    assert(is_num("120"@));
    reveal_strlit("124");
    assert(is_num("124"@));
    reveal_strlit("136");
    assert(is_num("136"@));
    reveal_strlit("140");
    assert(is_num("140"@));
    reveal_strlit("148");
    assert(is_num("148"@));
    reveal_strlit("152");
    assert(is_num("152"@));
    reveal_strlit("156");
    assert(is_num("156"@));
    reveal_strlit("162");
    assert(is_num("162"@));
    reveal_strlit("166");
    assert(is_num("166"@));
    reveal_strlit("170");
    assert(is_num("170"@));
    reveal_strlit("174");
    assert(is_num("174"@));
    reveal_strlit("178");
    assert(is_num("178"@));
    reveal_strlit("180");
    assert(is_num("180"@));
    reveal_strlit("184");
    assert(is_num("184"@));
    reveal_strlit("188");
    assert(is_num("188"@));
    reveal_strlit("384");
    assert(is_num("384"@));
    reveal_strlit("191");
    assert(is_num("191"@));
    reveal_strlit("192");
    assert(is_num("192"@));
    reveal_strlit("531");
    assert(is_num("531"@));
    reveal_strlit("196");
    assert(is_num("196"@));
    reveal_strlit("203");
    assert(is_num("203"@));
    reveal_strlit("208");
    assert(is_num("208"@));
    reveal_strlit("262");
    assert(is_num("262"@));
    reveal_strlit("212");
    assert(is_num("212"@));
    reveal_strlit("214");
    assert(is_num("214"@));
    reveal_strlit("218");
    assert(is_num("218"@));
    reveal_strlit("818");
    assert(is_num("818"@));
    reveal_strlit("222");
    assert(is_num("222"@));
    reveal_strlit("226");
    assert(is_num("226"@));
    reveal_strlit("232");
    assert(is_num("232"@));
    reveal_strlit("233");
    assert(is_num("233"@));
    reveal_strlit("748");
    assert(is_num("748"@));
    reveal_strlit("231");
    assert(is_num("231"@));
    reveal_strlit("238");
    assert(is_num("238"@));
    reveal_strlit("234");
    assert(is_num("234"@));
    reveal_strlit("242");
    assert(is_num("242"@));
    reveal_strlit("246");
    assert(is_num("246"@));
    reveal_strlit("250");
    assert(is_num("250"@));
    reveal_strlit("254");
    assert(is_num("254"@));
    reveal_strlit("258");
    assert(is_num("258"@));
    reveal_strlit("260");
    assert(is_num("260"@));
    reveal_strlit("266");
    assert(is_num("266"@));
    reveal_strlit("270");
    assert(is_num("270"@));
    reveal_strlit("268");
    assert(is_num("268"@));
    reveal_strlit("276");
    assert(is_num("276"@));
    reveal_strlit("288");
    assert(is_num("288"@));
    reveal_strlit("292");
    assert(is_num("292"@));
    reveal_strlit("300");
    assert(is_num("300"@));
    reveal_strlit("304");
    assert(is_num("304"@));
    reveal_strlit("308");
    assert(is_num("308"@));
    reveal_strlit("312");
    assert(is_num("312"@));
    reveal_strlit("316");
    assert(is_num("316"@));
    reveal_strlit("320");
    assert(is_num("320"@));
    reveal_strlit("831");
    assert(is_num("831"@));
    reveal_strlit("324");
    assert(is_num("324"@));
    reveal_strlit("624");
    assert(is_num("624"@));
    reveal_strlit("328");
    assert(is_num("328"@));
    reveal_strlit("332");
    assert(is_num("332"@));
    reveal_strlit("334");
    assert(is_num("334"@));
    reveal_strlit("336");
    assert(is_num("336"@));
    reveal_strlit("340");
    assert(is_num("340"@));
    reveal_strlit("344");
    assert(is_num("344"@));
    reveal_strlit("348");
    assert(is_num("348"@));
    reveal_strlit("352");
    assert(is_num("352"@));
    reveal_strlit("356");
    assert(is_num("356"@));
    reveal_strlit("360");
    assert(is_num("360"@));
    reveal_strlit("364");
    assert(is_num("364"@));
    reveal_strlit("368");
    assert(is_num("368"@));
    reveal_strlit("372");
    assert(is_num("372"@));
    reveal_strlit("833");
    assert(is_num("833"@));
    reveal_strlit("376");
    assert(is_num("376"@));
    reveal_strlit("380");
    assert(is_num("380"@));
    reveal_strlit("388");
    assert(is_num("388"@));
    reveal_strlit("392");
    assert(is_num("392"@));
    reveal_strlit("832");
    assert(is_num("832"@));
    reveal_strlit("400");
    assert(is_num("400"@));
    reveal_strlit("398");
    assert(is_num("398"@));
    reveal_strlit("404");
    assert(is_num("404"@));
    reveal_strlit("296");
    assert(is_num("296"@));
    reveal_strlit("408");
    assert(is_num("408"@));
    reveal_strlit("410");
    assert(is_num("410"@));
    reveal_strlit("414");
    assert(is_num("414"@));
    reveal_strlit("417");
    assert(is_num("417"@));
    reveal_strlit("418");
    assert(is_num("418"@));
    reveal_strlit("428");
    assert(is_num("428"@));
    reveal_strlit("422");
    assert(is_num("422"@));
    reveal_strlit("426");
    assert(is_num("426"@));
    reveal_strlit("430");
    assert(is_num("430"@));
    reveal_strlit("434");
    assert(is_num("434"@));
    reveal_strlit("438");
    assert(is_num("438"@));
    reveal_strlit("440");
    assert(is_num("440"@));
    reveal_strlit("442");
    assert(is_num("442"@));
    reveal_strlit("446");
    assert(is_num("446"@));
    reveal_strlit("450");
    assert(is_num("450"@));
    reveal_strlit("454");
    assert(is_num("454"@));
    reveal_strlit("458");
    assert(is_num("458"@));
    reveal_strlit("462");
    assert(is_num("462"@));
    reveal_strlit("466");
    assert(is_num("466"@));
    reveal_strlit("470");
    assert(is_num("470"@));
    reveal_strlit("584");
    assert(is_num("584"@));
    reveal_strlit("474");
    assert(is_num("474"@));
    reveal_strlit("478");
    assert(is_num("478"@));
    reveal_strlit("480");
    assert(is_num("480"@));
    reveal_strlit("175");
    assert(is_num("175"@));
    reveal_strlit("484");
    assert(is_num("484"@));
    reveal_strlit("583");
    assert(is_num("583"@));
    reveal_strlit("498");
    assert(is_num("498"@));
    reveal_strlit("492");
    assert(is_num("492"@));
    reveal_strlit("496");
    assert(is_num("496"@));
    reveal_strlit("499");
    assert(is_num("499"@));
    reveal_strlit("500");
    assert(is_num("500"@));
    reveal_strlit("504");
    assert(is_num("504"@));
    reveal_strlit("508");
    assert(is_num("508"@));
    reveal_strlit("104");
    assert(is_num("104"@));
    reveal_strlit("516");
    assert(is_num("516"@));
    reveal_strlit("520");
    assert(is_num("520"@));
    reveal_strlit("524");
    assert(is_num("524"@));
    reveal_strlit("528");
    assert(is_num("528"@));
    reveal_strlit("540");
    assert(is_num("540"@));
    reveal_strlit("554");
    assert(is_num("554"@));
    reveal_strlit("558");
    assert(is_num("558"@));
    reveal_strlit("562");
    assert(is_num("562"@));
    reveal_strlit("566");
    assert(is_num("566"@));
    reveal_strlit("570");
    assert(is_num("570"@));
    reveal_strlit("574");
    assert(is_num("574"@));
    reveal_strlit("807");
    assert(is_num("807"@));
    reveal_strlit("580");
    assert(is_num("580"@));
    reveal_strlit("578");
    assert(is_num("578"@));
    reveal_strlit("512");
    assert(is_num("512"@));
    reveal_strlit("586");
    assert(is_num("586"@));
    reveal_strlit("585");
    assert(is_num("585"@));
    reveal_strlit("275");
    assert(is_num("275"@));
    reveal_strlit("591");
    assert(is_num("591"@));
    reveal_strlit("598");
    assert(is_num("598"@));
    reveal_strlit("600");
    assert(is_num("600"@));
    reveal_strlit("604");
    assert(is_num("604"@));
    reveal_strlit("608");
    assert(is_num("608"@));
    reveal_strlit("612");
    assert(is_num("612"@));
    reveal_strlit("616");
    assert(is_num("616"@));
    reveal_strlit("620");
    assert(is_num("620"@));
    reveal_strlit("630");
    assert(is_num("630"@));
    reveal_strlit("634");
    assert(is_num("634"@));
    reveal_strlit("638");
    assert(is_num("638"@));
    reveal_strlit("642");
    assert(is_num("642"@));
    reveal_strlit("643");
    assert(is_num("643"@));
    reveal_strlit("646");
    assert(is_num("646"@));
    reveal_strlit("652");
    assert(is_num("652"@));
    reveal_strlit("654");
    assert(is_num("654"@));
    reveal_strlit("659");
    assert(is_num("659"@));
    reveal_strlit("662");
    assert(is_num("662"@));
    reveal_strlit("663");
    assert(is_num("663"@));
    reveal_strlit("666");
    assert(is_num("666"@));
    reveal_strlit("670");
    assert(is_num("670"@));
    reveal_strlit("882");
    assert(is_num("882"@));
    reveal_strlit("674");
    assert(is_num("674"@));
    reveal_strlit("678");
    assert(is_num("678"@));
    reveal_strlit("682");
    assert(is_num("682"@));
    reveal_strlit("686");
    assert(is_num("686"@));
    reveal_strlit("688");
    assert(is_num("688"@));
    reveal_strlit("690");
    assert(is_num("690"@));
    reveal_strlit("694");
    assert(is_num("694"@));
    reveal_strlit("702");
    assert(is_num("702"@));
    reveal_strlit("534");
    assert(is_num("534"@));
    reveal_strlit("703");
    assert(is_num("703"@));
    reveal_strlit("705");
    assert(is_num("705"@));
    reveal_strlit("090");
    assert(is_num("090"@));
    reveal_strlit("706");
    assert(is_num("706"@));
    reveal_strlit("710");
    assert(is_num("710"@));
    reveal_strlit("239");
    assert(is_num("239"@));
    reveal_strlit("728");
    assert(is_num("728"@));
    reveal_strlit("724");
    assert(is_num("724"@));
    reveal_strlit("144");
    assert(is_num("144"@));
    reveal_strlit("729");
    assert(is_num("729"@));
    reveal_strlit("740");
    assert(is_num("740"@));
    reveal_strlit("744");
    assert(is_num("744"@));
    reveal_strlit("752");
    assert(is_num("752"@));
    reveal_strlit("756");
    assert(is_num("756"@));
    reveal_strlit("760");
    assert(is_num("760"@));
    reveal_strlit("158");
    assert(is_num("158"@));
    reveal_strlit("762");
    assert(is_num("762"@));
    reveal_strlit("834");
    assert(is_num("834"@));
    reveal_strlit("764");
    assert(is_num("764"@));
    reveal_strlit("626");
    assert(is_num("626"@));
    reveal_strlit("768");
    assert(is_num("768"@));
    reveal_strlit("772");
    assert(is_num("772"@));
    reveal_strlit("776");
    assert(is_num("776"@));
    reveal_strlit("780");
    assert(is_num("780"@));
    reveal_strlit("788");
    assert(is_num("788"@));
    reveal_strlit("792");
    assert(is_num("792"@));
    reveal_strlit("795");
    assert(is_num("795"@));
    reveal_strlit("796");
    assert(is_num("796"@));
    reveal_strlit("798");
    assert(is_num("798"@));
    reveal_strlit("800");
    assert(is_num("800"@));
    reveal_strlit("804");
    assert(is_num("804"@));
    reveal_strlit("784");
    assert(is_num("784"@));
    reveal_strlit("826");
    assert(is_num("826"@));
    reveal_strlit("840");
    assert(is_num("840"@));
    reveal_strlit("581");
    assert(is_num("581"@));
    reveal_strlit("858");
    assert(is_num("858"@));
    reveal_strlit("860");
    assert(is_num("860"@));
    reveal_strlit("548");
    assert(is_num("548"@));
    reveal_strlit("862");
    assert(is_num("862"@));
    reveal_strlit("704");
    assert(is_num("704"@));
    reveal_strlit("092");
    assert(is_num("092"@));
    reveal_strlit("850");
    assert(is_num("850"@));
    reveal_strlit("876");
    assert(is_num("876"@));
    reveal_strlit("732");
    assert(is_num("732"@));
    reveal_strlit("887");
    assert(is_num("887"@));
    reveal_strlit("894");
    assert(is_num("894"@));
    reveal_strlit("716");
    assert(is_num("716"@));
    assert(num_shaped()) by {
        reveal(num_shaped);
    }
    assert(sketches_differ(Field::Num)) by {
        reveal(sketches_differ);
    }
}

/// Every record of the table is well formed.
pub proof fn lemma_table_well_formed()
    ensures
        all_well_formed(table()),
{
    lemma_alpha2_column();
    lemma_alpha3_column();
    lemma_name_column();
    lemma_num_column();
    reveal(alpha2_shaped);
    reveal(alpha3_shaped);
    reveal(name_shaped);
    reveal(num_shaped);
}

/// No two records of the table agree in any column.
pub proof fn lemma_table_distinct()
    ensures
        all_distinct(table()),
{
    lemma_alpha2_column();
    lemma_alpha3_column();
    lemma_name_column();
    lemma_num_column();
    reveal(sketches_differ);
    let n = table().len();
    assert forall|i: int, j: int| 0 <= i < n && 0 <= j < n && i != j implies (
    #[trigger] table()[i]).differs_everywhere(#[trigger] table()[j]) by {
        let a = table()[i];
        let b = table()[j];
        assert forall|field: Field| a.get(field) != b.get(field) by {
            if i < j {
                assert(sketch(a.get(field)) != sketch(b.get(field)));
            } else {
                assert(sketch(b.get(field)) != sketch(a.get(field)));
            }
        }
    }
}

} // verus!
