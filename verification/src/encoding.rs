use vstd::prelude::*;

verus! {

/// The EBCDIC code page 037 byte for an ASCII byte; bytes without a mapping become `0x3F`.
pub open spec fn spec_ascii7_ebcdic(b: u8) -> u8 {
    match b {
        0u8 => 0x00u8,
        1u8 => 0x01u8,
        2u8 => 0x02u8,
        3u8 => 0x03u8,
        4u8 => 0x1Au8,
        5u8 => 0x09u8,
        6u8 => 0x1Au8,
        7u8 => 0x7Fu8,
        8u8 => 0x1Au8,
        9u8 => 0x1Au8,
        10u8 => 0x1Au8,
        11u8 => 0x0Bu8,
        12u8 => 0x0Cu8,
        13u8 => 0x0Du8,
        14u8 => 0x0Eu8,
        15u8 => 0x0Fu8,
        16u8 => 0x10u8,
        17u8 => 0x11u8,
        18u8 => 0x12u8,
        19u8 => 0x13u8,
        20u8 => 0x3Cu8,
        21u8 => 0x3Du8,
        22u8 => 0x32u8,
        23u8 => 0x26u8,
        24u8 => 0x18u8,
        25u8 => 0x19u8,
        27u8 => 0x27u8,
        28u8 => 0x1Cu8,
        29u8 => 0x1Du8,
        30u8 => 0x1Eu8,
        31u8 => 0x1Fu8,
        32u8 => 0x40u8,
        33u8 => 0x4Fu8,
        34u8 => 0x7Fu8,
        35u8 => 0x7Bu8,
        36u8 => 0x5Bu8,
        37u8 => 0x6Cu8,
        38u8 => 0x50u8,
        39u8 => 0x7Du8,
        40u8 => 0x4Du8,
        41u8 => 0x5Du8,
        42u8 => 0x5Cu8,
        43u8 => 0x4Eu8,
        44u8 => 0x6Bu8,
        45u8 => 0x60u8,
        46u8 => 0x4Bu8,
        47u8 => 0x61u8,
        48u8 => 0xF0u8,
        49u8 => 0xF1u8,
        50u8 => 0xF2u8,
        51u8 => 0xF3u8,
        52u8 => 0xF4u8,
        53u8 => 0xF5u8,
        54u8 => 0xF6u8,
        55u8 => 0xF7u8,
        56u8 => 0xF8u8,
        57u8 => 0xF9u8,
        58u8 => 0x7Au8,
        59u8 => 0x5Eu8,
        60u8 => 0x4Cu8,
        61u8 => 0x7Eu8,
        62u8 => 0x6Eu8,
        63u8 => 0x6Fu8,
        64u8 => 0x7Cu8,
        65u8 => 0xC1u8,
        66u8 => 0xC2u8,
        67u8 => 0xC3u8,
        68u8 => 0xC4u8,
        69u8 => 0xC5u8,
        70u8 => 0xC6u8,
        71u8 => 0xC7u8,
        72u8 => 0xC8u8,
        73u8 => 0xC9u8,
        74u8 => 0xD1u8,
        75u8 => 0xD2u8,
        76u8 => 0xD3u8,
        77u8 => 0xD4u8,
        78u8 => 0xD5u8,
        79u8 => 0xD6u8,
        80u8 => 0xD7u8,
        81u8 => 0xD8u8,
        82u8 => 0xD9u8,
        83u8 => 0xE2u8,
        84u8 => 0xE3u8,
        85u8 => 0xE4u8,
        86u8 => 0xE5u8,
        87u8 => 0xE6u8,
        88u8 => 0xE7u8,
        89u8 => 0xE8u8,
        90u8 => 0xE9u8,
        91u8 => 0x4Au8,
        92u8 => 0xE0u8,
        93u8 => 0x5Au8,
        94u8 => 0x5Fu8,
        95u8 => 0x6Du8,
        96u8 => 0x79u8,
        97u8 => 0x81u8,
        98u8 => 0x82u8,
        99u8 => 0x83u8,
        100u8 => 0x84u8,
        101u8 => 0x85u8,
        102u8 => 0x86u8,
        103u8 => 0x87u8,
        104u8 => 0x88u8,
        105u8 => 0x89u8,
        106u8 => 0x91u8,
        107u8 => 0x92u8,
        108u8 => 0x93u8,
        109u8 => 0x94u8,
        110u8 => 0x95u8,
        111u8 => 0x96u8,
        112u8 => 0x97u8,
        113u8 => 0x98u8,
        114u8 => 0x99u8,
        115u8 => 0xA2u8,
        116u8 => 0xA3u8,
        117u8 => 0xA4u8,
        118u8 => 0xA5u8,
        119u8 => 0xA6u8,
        120u8 => 0xA7u8,
        121u8 => 0xA8u8,
        122u8 => 0xA9u8,
        123u8 => 0xC0u8,
        124u8 => 0x6Au8,
        125u8 => 0xD0u8,
        126u8 => 0xA1u8,
        127u8 => 0x07u8,
        _ => 0x3Fu8,
    }
}

/// The ASCII byte for an EBCDIC code page 037 byte; bytes without a mapping become `0x1A`.
pub open spec fn spec_ebcdic_ascii7(b: u8) -> u8 {
    match b {
        0u8 => 0x00u8,
        1u8 => 0x01u8,
        2u8 => 0x02u8,
        3u8 => 0x03u8,
        5u8 => 0x09u8,
        7u8 => 0x7Fu8,
        11u8 => 0x0Bu8,
        12u8 => 0x0Cu8,
        13u8 => 0x0Du8,
        14u8 => 0x0Eu8,
        15u8 => 0x0Fu8,
        16u8 => 0x10u8,
        17u8 => 0x11u8,
        18u8 => 0x12u8,
        19u8 => 0x13u8,
        22u8 => 0x08u8,
        24u8 => 0x18u8,
        25u8 => 0x19u8,
        28u8 => 0x1Cu8,
        29u8 => 0x1Du8,
        30u8 => 0x1Eu8,
        31u8 => 0x1Fu8,
        37u8 => 0x0Au8,
        38u8 => 0x17u8,
        39u8 => 0x1Bu8,
        45u8 => 0x05u8,
        46u8 => 0x06u8,
        47u8 => 0x07u8,
        50u8 => 0x16u8,
        55u8 => 0x04u8,
        60u8 => 0x14u8,
        61u8 => 0x15u8,
        64u8 => 0x20u8,
        74u8 => 0x5Bu8,
        75u8 => 0x2Eu8,
        76u8 => 0x3Cu8,
        77u8 => 0x28u8,
        78u8 => 0x2Bu8,
        79u8 => 0x21u8,
        80u8 => 0x26u8,
        90u8 => 0x5Du8,
        91u8 => 0x24u8,
        92u8 => 0x2Au8,
        93u8 => 0x29u8,
        94u8 => 0x3Bu8,
        95u8 => 0x5Eu8,
        96u8 => 0x2Du8,
        106u8 => 0x7Cu8,
        107u8 => 0x2Cu8,
        108u8 => 0x25u8,
        109u8 => 0x5Fu8,
        110u8 => 0x3Eu8,
        111u8 => 0x3Fu8,
        121u8 => 0x60u8,
        122u8 => 0x3Au8,
        123u8 => 0x23u8,
        124u8 => 0x40u8,
        125u8 => 0x27u8,
        126u8 => 0x3Du8,
        127u8 => 0x22u8,
        129u8 => 0x61u8,
        130u8 => 0x62u8,
        131u8 => 0x63u8,
        132u8 => 0x64u8,
        133u8 => 0x65u8,
        134u8 => 0x66u8,
        135u8 => 0x67u8,
        136u8 => 0x68u8,
        137u8 => 0x69u8,
        145u8 => 0x6Au8,
        146u8 => 0x6Bu8,
        147u8 => 0x6Cu8,
        148u8 => 0x6Du8,
        149u8 => 0x6Eu8,
        150u8 => 0x6Fu8,
        151u8 => 0x70u8,
        152u8 => 0x71u8,
        153u8 => 0x72u8,
        161u8 => 0x7Eu8,
        162u8 => 0x73u8,
        163u8 => 0x74u8,
        164u8 => 0x75u8,
        165u8 => 0x76u8,
        166u8 => 0x77u8,
        167u8 => 0x78u8,
        168u8 => 0x79u8,
        169u8 => 0x7Au8,
        192u8 => 0x7Bu8,
        193u8 => 0x41u8,
        194u8 => 0x42u8,
        195u8 => 0x43u8,
        196u8 => 0x44u8,
        197u8 => 0x45u8,
        198u8 => 0x46u8,
        199u8 => 0x47u8,
        200u8 => 0x48u8,
        201u8 => 0x49u8,
        208u8 => 0x7Du8,
        209u8 => 0x4Au8,
        210u8 => 0x4Bu8,
        211u8 => 0x4Cu8,
        212u8 => 0x4Du8,
        213u8 => 0x4Eu8,
        214u8 => 0x4Fu8,
        215u8 => 0x50u8,
        216u8 => 0x51u8,
        217u8 => 0x52u8,
        224u8 => 0x5Cu8,
        226u8 => 0x53u8,
        227u8 => 0x54u8,
        228u8 => 0x55u8,
        229u8 => 0x56u8,
        230u8 => 0x57u8,
        231u8 => 0x58u8,
        232u8 => 0x59u8,
        233u8 => 0x5Au8,
        240u8 => 0x30u8,
        241u8 => 0x31u8,
        242u8 => 0x32u8,
        243u8 => 0x33u8,
        244u8 => 0x34u8,
        245u8 => 0x35u8,
        246u8 => 0x36u8,
        247u8 => 0x37u8,
        248u8 => 0x38u8,
        249u8 => 0x39u8,
        _ => 0x1Au8,
    }
}

/// The character set table: the encoding family (1 = EBCDIC, 2 = ASCII, 3 = ISO, 4 = UCS-2,
/// 5 = UTF-8, 6 = EUC, 7 = GB18030) and the short description of each known single byte or
/// Unicode CCSID. Where the table names a CCSID below 2048 twice, the later entry counts.
pub open spec fn spec_ccsid_entry(ccsid: i32) -> Option<(u8, Seq<char>)> {
    match ccsid {
        37 => Some((1u8, "IBM-037"@)),
        256 => Some((1u8, "IBM-256"@)),
        273 => Some((1u8, "IBM-273"@)),
        277 => Some((1u8, "IBM-277"@)),
        278 => Some((1u8, "IBM-278"@)),
        280 => Some((1u8, "IBM-280"@)),
        284 => Some((1u8, "IBM-284"@)),
        285 => Some((1u8, "IBM-285"@)),
        286 => Some((1u8, "IBM-286"@)),
        290 => Some((1u8, "IBM-290"@)),
        297 => Some((1u8, "IBM-297"@)),
        367 => Some((3u8, "IBM-367"@)),
        420 => Some((1u8, "IBM-420"@)),
        421 => Some((1u8, "IBM-421"@)),
        424 => Some((1u8, "IBM-424"@)),
        425 => Some((1u8, "IBM-425"@)),
        437 => Some((2u8, "IBM-437"@)),
        500 => Some((1u8, "IBM-500"@)),
        720 => Some((2u8, "IBM-720"@)),
        737 => Some((2u8, "IBM-737"@)),
        775 => Some((2u8, "IBM-775"@)),
        803 => Some((1u8, "IBM-803"@)),
        806 => Some((2u8, "IBM-806"@)),
        813 => Some((3u8, "ISO-8859-7"@)),
        819 => Some((3u8, "ISO-8859-1"@)),
        833 => Some((1u8, "IBM-833"@)),
        836 => Some((1u8, "IBM-836"@)),
        838 => Some((1u8, "IBM-838"@)),
        850 => Some((2u8, "IBM-850"@)),
        852 => Some((2u8, "IBM-852"@)),
        853 => Some((2u8, "IBM-853"@)),
        855 => Some((2u8, "IBM-855"@)),
        856 => Some((2u8, "IBM-856"@)),
        857 => Some((2u8, "IBM-857"@)),
        858 => Some((2u8, "IBM-858"@)),
        860 => Some((2u8, "IBM-860"@)),
        861 => Some((2u8, "IBM-861"@)),
        862 => Some((2u8, "IBM-860"@)),
        863 => Some((2u8, "IBM-863"@)),
        864 => Some((2u8, "IBM-864"@)),
        865 => Some((2u8, "IBM-865"@)),
        866 => Some((2u8, "IBM-866"@)),
        867 => Some((2u8, "IBM-867"@)),
        868 => Some((2u8, "IBM-868"@)),
        869 => Some((2u8, "IBM-869"@)),
        870 => Some((1u8, "IBM-870"@)),
        871 => Some((1u8, "IBM-871"@)),
        874 => Some((2u8, "TIS-620"@)),
        875 => Some((1u8, "IBM-875"@)),
        878 => Some((3u8, "KOI8-R"@)),
        880 => Some((1u8, "IBM-880"@)),
        891 => Some((2u8, "IBM-891"@)),
        895 => Some((3u8, "IBM-895"@)),
        897 => Some((2u8, "IBM-897"@)),
        901 => Some((3u8, "IBM-901"@)),
        902 => Some((3u8, "IBM-902"@)),
        903 => Some((2u8, "IBM-903"@)),
        904 => Some((2u8, "IBM-904"@)),
        912 => Some((3u8, "ISO-8859-2"@)),
        913 => Some((3u8, "ISO-8859-3"@)),
        915 => Some((3u8, "ISO-8859-5"@)),
        916 => Some((3u8, "ISO-8859-8"@)),
        918 => Some((1u8, "IBM-918"@)),
        920 => Some((3u8, "ISO-8859-9"@)),
        921 => Some((3u8, "ISO-8859-13"@)),
        922 => Some((3u8, "IBM-922"@)),
        923 => Some((3u8, "ISO-8859-15"@)),
        924 => Some((1u8, "IBM-924"@)),
        930 => Some((1u8, "IBM-930"@)),
        931 => Some((1u8, "IBM-931"@)),
        932 => Some((2u8, "IBM-932"@)),
        933 => Some((1u8, "IBM-933"@)),
        935 => Some((1u8, "IBM-935"@)),
        936 => Some((2u8, "IBM-936"@)),
        937 => Some((1u8, "IBM-937"@)),
        938 => Some((2u8, "IBM-938"@)),
        939 => Some((1u8, "IBM-939"@)),
        942 => Some((2u8, "IBM-942"@)),
        943 => Some((2u8, "SHIFT_JIS"@)),
        948 => Some((2u8, "IBM-948"@)),
        949 => Some((2u8, "IBM-949"@)),
        950 => Some((2u8, "BIG5HKSCS"@)),
        954 => Some((6u8, "EUC-JP"@)),
        964 => Some((6u8, "EUC-TW"@)),
        970 => Some((6u8, "EUC-KR"@)),
        1006 => Some((3u8, "IBM-1006"@)),
        1010 => Some((3u8, "IBM-1010"@)),
        1011 => Some((3u8, "IBM-1011"@)),
        1012 => Some((3u8, "IBM-1012"@)),
        1013 => Some((3u8, "IBM-1013"@)),
        1014 => Some((3u8, "IBM-1014"@)),
        1015 => Some((3u8, "IBM-1015"@)),
        1016 => Some((3u8, "IBM-1016"@)),
        1017 => Some((3u8, "IBM-1017"@)),
        1018 => Some((3u8, "IBM-1018"@)),
        1019 => Some((3u8, "IBM-1019"@)),
        1025 => Some((1u8, "IBM-1025"@)),
        1026 => Some((1u8, "IBM-1026"@)),
        1027 => Some((1u8, "IBM-1027"@)),
        1040 => Some((2u8, "IBM-1040"@)),
        1041 => Some((2u8, "IBM-1041"@)),
        1042 => Some((2u8, "IBM-1042"@)),
        1043 => Some((2u8, "IBM-1043"@)),
        1046 => Some((2u8, "IBM-1046"@)),
        1047 => Some((1u8, "IBM-1047"@)),
        1051 => Some((3u8, "IBM-1051"@)),
        1088 => Some((2u8, "IBM-1088"@)),
        1089 => Some((3u8, "ISO-8859-6"@)),
        1097 => Some((1u8, "IBM-1097"@)),
        1098 => Some((2u8, "IBM-1098"@)),
        1112 => Some((1u8, "IBM-1112"@)),
        1114 => Some((2u8, "IBM-1114"@)),
        1115 => Some((2u8, "IBM-1115"@)),
        1122 => Some((1u8, "IBM-1122"@)),
        1123 => Some((1u8, "IBM-1123"@)),
        1124 => Some((3u8, "IBM-1124"@)),
        1125 => Some((2u8, "IBM-1125"@)),
        1127 => Some((2u8, "IBM-1127"@)),
        1129 => Some((3u8, "IBM-1129"@)),
        1130 => Some((1u8, "IBM-1130"@)),
        1131 => Some((2u8, "IBM-1131"@)),
        1132 => Some((1u8, "IBM-1132"@)),
        1133 => Some((3u8, "IBM-1133"@)),
        1137 => Some((1u8, "IBM-1137"@)),
        1140 => Some((1u8, "IBM-1140"@)),
        1141 => Some((1u8, "IBM-1141"@)),
        1142 => Some((1u8, "IBM-1142"@)),
        1143 => Some((1u8, "IBM-1143"@)),
        1144 => Some((1u8, "IBM-1144"@)),
        1145 => Some((1u8, "IBM-1145"@)),
        1146 => Some((1u8, "IBM-1146"@)),
        1147 => Some((1u8, "IBM-1147"@)),
        1148 => Some((1u8, "IBM-1148"@)),
        1149 => Some((1u8, "IBM-1149"@)),
        1153 => Some((1u8, "IBM-1153"@)),
        1156 => Some((1u8, "IBM-1156"@)),
        1157 => Some((1u8, "IBM-1157"@)),
        1159 => Some((1u8, "IBM-1159"@)),
        1208 => Some((5u8, "UTF-8"@)),
        1250 => Some((2u8, "IBM-1250"@)),
        1251 => Some((2u8, "CP1251"@)),
        1252 => Some((2u8, "IBM-1252"@)),
        1253 => Some((2u8, "IBM-1253"@)),
        1254 => Some((2u8, "IBM-1254"@)),
        1255 => Some((2u8, "CP1255"@)),
        1256 => Some((2u8, "IBM-1256"@)),
        1257 => Some((2u8, "IBM-1257"@)),
        1258 => Some((2u8, "IBM-1258"@)),
        1275 => Some((2u8, "IBM-1275"@)),
        1279 => Some((1u8, "IBM-1279"@)),
        1280 => Some((2u8, "IBM-1280"@)),
        1281 => Some((2u8, "IBM-1281"@)),
        1282 => Some((2u8, "IBM-1282"@)),
        1283 => Some((2u8, "IBM-1283"@)),
        1284 => Some((2u8, "IBM-1284"@)),
        1285 => Some((2u8, "IBM-1285"@)),
        1350 => Some((6u8, "JISeucJP"@)),
        1363 => Some((2u8, "IBM-1363"@)),
        1364 => Some((1u8, "IBM-1364"@)),
        1370 => Some((2u8, "IBM-1370"@)),
        1371 => Some((1u8, "IBM-1371"@)),
        1381 => Some((2u8, "GB2312"@)),
        1383 => Some((6u8, "EUC-CN"@)),
        1386 => Some((2u8, "GBK"@)),
        1388 => Some((1u8, "IBM-1388"@)),
        1390 => Some((1u8, "IBM-1390"@)),
        1392 => Some((7u8, "GB18030"@)),
        1399 => Some((1u8, "IBM-1399"@)),
        4133 => Some((1u8, "IBM-037"@)),
        4325 => Some((1u8, "IBM-256"@)),
        4369 => Some((1u8, "IBM-273"@)),
        4370 => Some((1u8, "IBM-4370"@)),
        4371 => Some((1u8, "IBM-4371"@)),
        4372 => Some((1u8, "IBM-4372"@)),
        4373 => Some((1u8, "IBM-277"@)),
        4374 => Some((1u8, "IBM-278"@)),
        4376 => Some((1u8, "IBM-280"@)),
        4378 => Some((1u8, "IBM-4378"@)),
        4380 => Some((1u8, "IBM-284"@)),
        4381 => Some((1u8, "IBM-285"@)),
        4386 => Some((1u8, "IBM-290"@)),
        4393 => Some((1u8, "IBM-297"@)),
        4516 => Some((1u8, "IBM-420"@)),
        4520 => Some((1u8, "IBM-424"@)),
        4533 => Some((2u8, "IBM-437"@)),
        4596 => Some((1u8, "IBM-500"@)),
        4899 => Some((1u8, "IBM-4899"@)),
        4909 => Some((3u8, "ISO-8859-7@euro"@)),
        4929 => Some((1u8, "IBM-833"@)),
        4932 => Some((1u8, "IBM-836"@)),
        4934 => Some((1u8, "IBM-838"@)),
        4946 => Some((2u8, "IBM-850"@)),
        4948 => Some((2u8, "IBM-852"@)),
        4949 => Some((2u8, "IBM-853"@)),
        4951 => Some((2u8, "IBM-855"@)),
        4952 => Some((2u8, "IBM-856"@)),
        4953 => Some((2u8, "IBM-857"@)),
        4960 => Some((2u8, "IBM-864"@)),
        4964 => Some((2u8, "IBM-868"@)),
        4965 => Some((2u8, "IBM-869"@)),
        4966 => Some((1u8, "IBM-870"@)),
        4967 => Some((1u8, "IBM-871"@)),
        4970 => Some((2u8, "TIS-620"@)),
        4971 => Some((1u8, "IBM-4971"@)),
        4976 => Some((1u8, "IBM-880"@)),
        4993 => Some((2u8, "IBM-897"@)),
        5014 => Some((1u8, "IBM-918"@)),
        5026 => Some((1u8, "IBM-930"@)),
        5028 => Some((2u8, "IBM-932"@)),
        5029 => Some((1u8, "IBM-933"@)),
        5031 => Some((1u8, "IBM-935"@)),
        5033 => Some((1u8, "IBM-937"@)),
        5035 => Some((1u8, "IBM-939"@)),
        5039 => Some((2u8, "IBM-5039"@)),
        5045 => Some((2u8, "IBM-949"@)),
        5046 => Some((2u8, "BIG5"@)),
        5050 => Some((6u8, "EUC-JP"@)),
        5060 => Some((6u8, "EUC-TW"@)),
        5066 => Some((6u8, "EUC-KR"@)),
        5123 => Some((1u8, "IBM-5123"@)),
        5137 => Some((2u8, "IBM-1041"@)),
        5142 => Some((2u8, "IBM-1046"@)),
        5143 => Some((1u8, "IBM-1047"@)),
        5210 => Some((2u8, "IBM-5210"@)),
        5211 => Some((2u8, "IBM-1115"@)),
        5346 => Some((2u8, "IBM-5346"@)),
        5347 => Some((2u8, "IBM-5347"@)),
        5348 => Some((2u8, "IBM-5348"@)),
        5349 => Some((2u8, "IBM-5349"@)),
        5350 => Some((2u8, "IBM-5350"@)),
        5351 => Some((2u8, "IBM-5351"@)),
        5352 => Some((2u8, "IBM-5352"@)),
        5353 => Some((2u8, "IBM-5353"@)),
        5354 => Some((2u8, "IBM-5354"@)),
        5477 => Some((2u8, "GB2312"@)),
        5479 => Some((6u8, "EUC-CN"@)),
        5482 => Some((2u8, "GBK"@)),
        5484 => Some((1u8, "IBM-1388"@)),
        5488 => Some((7u8, "GB18030"@)),
        8229 => Some((1u8, "IBM-037"@)),
        8448 => Some((1u8, "IBM-256"@)),
        8478 => Some((1u8, "IBM-284"@)),
        8482 => Some((1u8, "IBM-8482"@)),
        8489 => Some((1u8, "IBM-297"@)),
        8612 => Some((1u8, "IBM-8612"@)),
        8629 => Some((2u8, "IBM-437"@)),
        8692 => Some((1u8, "IBM-500"@)),
        9025 => Some((1u8, "IBM-833"@)),
        9028 => Some((1u8, "IBM-836"@)),
        9030 => Some((1u8, "IBM-838"@)),
        9044 => Some((2u8, "IBM-9044"@)),
        9047 => Some((2u8, "IBM-855"@)),
        9048 => Some((2u8, "IBM-9048"@)),
        9056 => Some((2u8, "IBM-864"@)),
        9060 => Some((2u8, "IBM-868"@)),
        9061 => Some((2u8, "IBM-9061"@)),
        9066 => Some((2u8, "TIS-620"@)),
        9089 => Some((2u8, "IBM-897"@)),
        9122 => Some((1u8, "IBM-930"@)),
        9124 => Some((2u8, "IBM-932"@)),
        9125 => Some((1u8, "IBM-933"@)),
        9127 => Some((1u8, "IBM-935"@)),
        9131 => Some((1u8, "IBM-939"@)),
        9142 => Some((2u8, "BIG5"@)),
        9146 => Some((6u8, "EUC-JP"@)),
        9449 => Some((2u8, "IBM-9449"@)),
        12325 => Some((1u8, "IBM-037"@)),
        12544 => Some((1u8, "IBM-256"@)),
        12712 => Some((1u8, "IBM-12712"@)),
        12725 => Some((2u8, "IBM-437"@)),
        12788 => Some((1u8, "IBM-500"@)),
        13152 => Some((2u8, "IBM-864"@)),
        13218 => Some((1u8, "IBM-930"@)),
        13219 => Some((1u8, "IBM-931"@)),
        13221 => Some((1u8, "IBM-933"@)),
        13223 => Some((1u8, "IBM-935"@)),
        13238 => Some((2u8, "BIG5"@)),
        13242 => Some((6u8, "EUC-JP"@)),
        16421 => Some((1u8, "IBM-037"@)),
        16821 => Some((2u8, "IBM-437"@)),
        16884 => Some((1u8, "IBM-500"@)),
        17314 => Some((1u8, "IBM-930"@)),
        20517 => Some((1u8, "IBM-037"@)),
        20917 => Some((2u8, "IBM-437"@)),
        20980 => Some((1u8, "IBM-500"@)),
        24613 => Some((1u8, "IBM-037"@)),
        25076 => Some((1u8, "IBM-500"@)),
        29172 => Some((1u8, "IBM-500"@)),
        32805 => Some((1u8, "IBM-037"@)),
        33058 => Some((1u8, "IBM-290"@)),
        33268 => Some((1u8, "IBM-500"@)),
        33618 => Some((2u8, "IBM-850"@)),
        33698 => Some((1u8, "IBM-930"@)),
        33699 => Some((1u8, "IBM-931"@)),
        33722 => Some((6u8, "EUC-JP"@)),
        37364 => Some((1u8, "IBM-500"@)),
        41460 => Some((1u8, "IBM-500"@)),
        45556 => Some((1u8, "IBM-500"@)),
        49652 => Some((1u8, "IBM-500"@)),
        53748 => Some((1u8, "IBM-500"@)),
        61696 => Some((1u8, "IBM-500"@)),
        61697 => Some((2u8, "IBM-850"@)),
        61698 => Some((2u8, "IBM-850"@)),
        61699 => Some((3u8, "ISO-8859-1"@)),
        61710 => Some((3u8, "ISO-8859-1"@)),
        61711 => Some((1u8, "IBM-500"@)),
        61712 => Some((1u8, "IBM-500"@)),
        _ => None,
    }
}

/// Translate one EBCDIC (code page 037) byte into 7-bit ASCII.
pub fn ebcdic_ascii7_byte(b: u8) -> (r: u8)
    ensures
        r == spec_ebcdic_ascii7(b),
{
    match b {
        0u8 => 0x00u8,
        1u8 => 0x01u8,
        2u8 => 0x02u8,
        3u8 => 0x03u8,
        5u8 => 0x09u8,
        7u8 => 0x7Fu8,
        11u8 => 0x0Bu8,
        12u8 => 0x0Cu8,
        13u8 => 0x0Du8,
        14u8 => 0x0Eu8,
        15u8 => 0x0Fu8,
        16u8 => 0x10u8,
        17u8 => 0x11u8,
        18u8 => 0x12u8,
        19u8 => 0x13u8,
        22u8 => 0x08u8,
        24u8 => 0x18u8,
        25u8 => 0x19u8,
        28u8 => 0x1Cu8,
        29u8 => 0x1Du8,
        30u8 => 0x1Eu8,
        31u8 => 0x1Fu8,
        37u8 => 0x0Au8,
        38u8 => 0x17u8,
        39u8 => 0x1Bu8,
        45u8 => 0x05u8,
        46u8 => 0x06u8,
        47u8 => 0x07u8,
        50u8 => 0x16u8,
        55u8 => 0x04u8,
        60u8 => 0x14u8,
        61u8 => 0x15u8,
        64u8 => 0x20u8,
        74u8 => 0x5Bu8,
        75u8 => 0x2Eu8,
        76u8 => 0x3Cu8,
        77u8 => 0x28u8,
        78u8 => 0x2Bu8,
        79u8 => 0x21u8,
        80u8 => 0x26u8,
        90u8 => 0x5Du8,
        91u8 => 0x24u8,
        92u8 => 0x2Au8,
        93u8 => 0x29u8,
        94u8 => 0x3Bu8,
        95u8 => 0x5Eu8,
        96u8 => 0x2Du8,
        106u8 => 0x7Cu8,
        107u8 => 0x2Cu8,
        108u8 => 0x25u8,
        109u8 => 0x5Fu8,
        110u8 => 0x3Eu8,
        111u8 => 0x3Fu8,
        121u8 => 0x60u8,
        122u8 => 0x3Au8,
        123u8 => 0x23u8,
        124u8 => 0x40u8,
        125u8 => 0x27u8,
        126u8 => 0x3Du8,
        127u8 => 0x22u8,
        129u8 => 0x61u8,
        130u8 => 0x62u8,
        131u8 => 0x63u8,
        132u8 => 0x64u8,
        133u8 => 0x65u8,
        134u8 => 0x66u8,
        135u8 => 0x67u8,
        136u8 => 0x68u8,
        137u8 => 0x69u8,
        145u8 => 0x6Au8,
        146u8 => 0x6Bu8,
        147u8 => 0x6Cu8,
        148u8 => 0x6Du8,
        149u8 => 0x6Eu8,
        150u8 => 0x6Fu8,
        151u8 => 0x70u8,
        152u8 => 0x71u8,
        153u8 => 0x72u8,
        161u8 => 0x7Eu8,
        162u8 => 0x73u8,
        163u8 => 0x74u8,
        164u8 => 0x75u8,
        165u8 => 0x76u8,
        166u8 => 0x77u8,
        167u8 => 0x78u8,
        168u8 => 0x79u8,
        169u8 => 0x7Au8,
        192u8 => 0x7Bu8,
        193u8 => 0x41u8,
        194u8 => 0x42u8,
        195u8 => 0x43u8,
        196u8 => 0x44u8,
        197u8 => 0x45u8,
        198u8 => 0x46u8,
        199u8 => 0x47u8,
        200u8 => 0x48u8,
        201u8 => 0x49u8,
        208u8 => 0x7Du8,
        209u8 => 0x4Au8,
        210u8 => 0x4Bu8,
        211u8 => 0x4Cu8,
        212u8 => 0x4Du8,
        213u8 => 0x4Eu8,
        214u8 => 0x4Fu8,
        215u8 => 0x50u8,
        216u8 => 0x51u8,
        217u8 => 0x52u8,
        224u8 => 0x5Cu8,
        226u8 => 0x53u8,
        227u8 => 0x54u8,
        228u8 => 0x55u8,
        229u8 => 0x56u8,
        230u8 => 0x57u8,
        231u8 => 0x58u8,
        232u8 => 0x59u8,
        233u8 => 0x5Au8,
        240u8 => 0x30u8,
        241u8 => 0x31u8,
        242u8 => 0x32u8,
        243u8 => 0x33u8,
        244u8 => 0x34u8,
        245u8 => 0x35u8,
        246u8 => 0x36u8,
        247u8 => 0x37u8,
        248u8 => 0x38u8,
        249u8 => 0x39u8,
        _ => 0x1Au8,
    }
}

/// Translate one 7-bit ASCII byte into EBCDIC (code page 037).
pub fn ascii7_ebcdic_byte(b: u8) -> (r: u8)
    ensures
        r == spec_ascii7_ebcdic(b),
{
    match b {
        0u8 => 0x00u8,
        1u8 => 0x01u8,
        2u8 => 0x02u8,
        3u8 => 0x03u8,
        4u8 => 0x1Au8,
        5u8 => 0x09u8,
        6u8 => 0x1Au8,
        7u8 => 0x7Fu8,
        8u8 => 0x1Au8,
        9u8 => 0x1Au8,
        10u8 => 0x1Au8,
        11u8 => 0x0Bu8,
        12u8 => 0x0Cu8,
        13u8 => 0x0Du8,
        14u8 => 0x0Eu8,
        15u8 => 0x0Fu8,
        16u8 => 0x10u8,
        17u8 => 0x11u8,
        18u8 => 0x12u8,
        19u8 => 0x13u8,
        20u8 => 0x3Cu8,
        21u8 => 0x3Du8,
        22u8 => 0x32u8,
        23u8 => 0x26u8,
        24u8 => 0x18u8,
        25u8 => 0x19u8,
        27u8 => 0x27u8,
        28u8 => 0x1Cu8,
        29u8 => 0x1Du8,
        30u8 => 0x1Eu8,
        31u8 => 0x1Fu8,
        32u8 => 0x40u8,
        33u8 => 0x4Fu8,
        34u8 => 0x7Fu8,
        35u8 => 0x7Bu8,
        36u8 => 0x5Bu8,
        37u8 => 0x6Cu8,
        38u8 => 0x50u8,
        39u8 => 0x7Du8,
        40u8 => 0x4Du8,
        41u8 => 0x5Du8,
        42u8 => 0x5Cu8,
        43u8 => 0x4Eu8,
        44u8 => 0x6Bu8,
        45u8 => 0x60u8,
        46u8 => 0x4Bu8,
        47u8 => 0x61u8,
        48u8 => 0xF0u8,
        49u8 => 0xF1u8,
        50u8 => 0xF2u8,
        51u8 => 0xF3u8,
        52u8 => 0xF4u8,
        53u8 => 0xF5u8,
        54u8 => 0xF6u8,
        55u8 => 0xF7u8,
        56u8 => 0xF8u8,
        57u8 => 0xF9u8,
        58u8 => 0x7Au8,
        59u8 => 0x5Eu8,
        60u8 => 0x4Cu8,
        61u8 => 0x7Eu8,
        62u8 => 0x6Eu8,
        63u8 => 0x6Fu8,
        64u8 => 0x7Cu8,
        65u8 => 0xC1u8,
        66u8 => 0xC2u8,
        67u8 => 0xC3u8,
        68u8 => 0xC4u8,
        69u8 => 0xC5u8,
        70u8 => 0xC6u8,
        71u8 => 0xC7u8,
        72u8 => 0xC8u8,
        73u8 => 0xC9u8,
        74u8 => 0xD1u8,
        75u8 => 0xD2u8,
        76u8 => 0xD3u8,
        77u8 => 0xD4u8,
        78u8 => 0xD5u8,
        79u8 => 0xD6u8,
        80u8 => 0xD7u8,
        81u8 => 0xD8u8,
        82u8 => 0xD9u8,
        83u8 => 0xE2u8,
        84u8 => 0xE3u8,
        85u8 => 0xE4u8,
        86u8 => 0xE5u8,
        87u8 => 0xE6u8,
        88u8 => 0xE7u8,
        89u8 => 0xE8u8,
        90u8 => 0xE9u8,
        91u8 => 0x4Au8,
        92u8 => 0xE0u8,
        93u8 => 0x5Au8,
        94u8 => 0x5Fu8,
        95u8 => 0x6Du8,
        96u8 => 0x79u8,
        97u8 => 0x81u8,
        98u8 => 0x82u8,
        99u8 => 0x83u8,
        100u8 => 0x84u8,
        101u8 => 0x85u8,
        102u8 => 0x86u8,
        103u8 => 0x87u8,
        104u8 => 0x88u8,
        105u8 => 0x89u8,
        106u8 => 0x91u8,
        107u8 => 0x92u8,
        108u8 => 0x93u8,
        109u8 => 0x94u8,
        110u8 => 0x95u8,
        111u8 => 0x96u8,
        112u8 => 0x97u8,
        113u8 => 0x98u8,
        114u8 => 0x99u8,
        115u8 => 0xA2u8,
        116u8 => 0xA3u8,
        117u8 => 0xA4u8,
        118u8 => 0xA5u8,
        119u8 => 0xA6u8,
        120u8 => 0xA7u8,
        121u8 => 0xA8u8,
        122u8 => 0xA9u8,
        123u8 => 0xC0u8,
        124u8 => 0x6Au8,
        125u8 => 0xD0u8,
        126u8 => 0xA1u8,
        127u8 => 0x07u8,
        _ => 0x3Fu8,
    }
}

/// Translate bytes one by one with the given direction of the code page 037 table.
fn convert(input: &[u8], to_ascii: bool) -> (r: Vec<u8>)
    ensures
        r@.len() == input@.len(),
        forall|i: int|
            0 <= i < input@.len() ==> #[trigger] r@[i] == if to_ascii {
                spec_ebcdic_ascii7(input@[i])
            } else {
                spec_ascii7_ebcdic(input@[i])
            },
{
    let mut result: Vec<u8> = Vec::with_capacity(input.len());
    let mut i: usize = 0;
    while i < input.len()
        invariant
            i <= input@.len(),
            result@.len() == i,
            forall|j: int|
                0 <= j < i ==> #[trigger] result@[j] == if to_ascii {
                    spec_ebcdic_ascii7(input@[j])
                } else {
                    spec_ascii7_ebcdic(input@[j])
                },
        decreases input@.len() - i,
    {
        let c = if to_ascii {
            ebcdic_ascii7_byte(input[i])
        } else {
            ascii7_ebcdic_byte(input[i])
        };
        result.push(c);
        i = i + 1;
    }
    result
}

/// Translate EBCDIC text into 7-bit ASCII text.
pub fn ebcdic_ascii7(ebcdic: &[u8]) -> (r: Vec<u8>)
    ensures
        r@ == ebcdic@.map_values(|b: u8| spec_ebcdic_ascii7(b)),
{
    let r = convert(ebcdic, true);
    assert(r@ =~= ebcdic@.map_values(|b: u8| spec_ebcdic_ascii7(b)));
    r
}

/// Translate 7-bit ASCII text into EBCDIC text.
pub fn ascii7_ebcdic(ascii: &[u8]) -> (r: Vec<u8>)
    ensures
        r@ == ascii@.map_values(|b: u8| spec_ascii7_ebcdic(b)),
{
    let r = convert(ascii, false);
    assert(r@ =~= ascii@.map_values(|b: u8| spec_ascii7_ebcdic(b)));
    r
}

/// Look up a CCSID in the character set table: `(ccsid, encoding, description)`.
pub fn ccsid_lookup(ccsid: i32) -> (r: Option<(i32, u8, &'static str)>)
    requires
        ccsid >= 0,
    ensures
        r is Some <==> spec_ccsid_entry(ccsid) is Some,
        r matches Some((c, e, name)) ==> c == ccsid && spec_ccsid_entry(ccsid) == Some((e, name@)),
{
    match ccsid {
        37 => Some((37i32, 1u8, "IBM-037")),
        256 => Some((256i32, 1u8, "IBM-256")),
        273 => Some((273i32, 1u8, "IBM-273")),
        277 => Some((277i32, 1u8, "IBM-277")),
        278 => Some((278i32, 1u8, "IBM-278")),
        280 => Some((280i32, 1u8, "IBM-280")),
        284 => Some((284i32, 1u8, "IBM-284")),
        285 => Some((285i32, 1u8, "IBM-285")),
        286 => Some((286i32, 1u8, "IBM-286")),
        290 => Some((290i32, 1u8, "IBM-290")),
        297 => Some((297i32, 1u8, "IBM-297")),
        367 => Some((367i32, 3u8, "IBM-367")),
        420 => Some((420i32, 1u8, "IBM-420")),
        421 => Some((421i32, 1u8, "IBM-421")),
        424 => Some((424i32, 1u8, "IBM-424")),
        425 => Some((425i32, 1u8, "IBM-425")),
        437 => Some((437i32, 2u8, "IBM-437")),
        500 => Some((500i32, 1u8, "IBM-500")),
        720 => Some((720i32, 2u8, "IBM-720")),
        737 => Some((737i32, 2u8, "IBM-737")),
        775 => Some((775i32, 2u8, "IBM-775")),
        803 => Some((803i32, 1u8, "IBM-803")),
        806 => Some((806i32, 2u8, "IBM-806")),
        813 => Some((813i32, 3u8, "ISO-8859-7")),
        819 => Some((819i32, 3u8, "ISO-8859-1")),
        833 => Some((833i32, 1u8, "IBM-833")),
        836 => Some((836i32, 1u8, "IBM-836")),
        838 => Some((838i32, 1u8, "IBM-838")),
        850 => Some((850i32, 2u8, "IBM-850")),
        852 => Some((852i32, 2u8, "IBM-852")),
        853 => Some((853i32, 2u8, "IBM-853")),
        855 => Some((855i32, 2u8, "IBM-855")),
        856 => Some((856i32, 2u8, "IBM-856")),
        857 => Some((857i32, 2u8, "IBM-857")),
        858 => Some((858i32, 2u8, "IBM-858")),
        860 => Some((860i32, 2u8, "IBM-860")),
        861 => Some((861i32, 2u8, "IBM-861")),
        862 => Some((862i32, 2u8, "IBM-860")),
        863 => Some((863i32, 2u8, "IBM-863")),
        864 => Some((864i32, 2u8, "IBM-864")),
        865 => Some((865i32, 2u8, "IBM-865")),
        866 => Some((866i32, 2u8, "IBM-866")),
        867 => Some((867i32, 2u8, "IBM-867")),
        868 => Some((868i32, 2u8, "IBM-868")),
        869 => Some((869i32, 2u8, "IBM-869")),
        870 => Some((870i32, 1u8, "IBM-870")),
        871 => Some((871i32, 1u8, "IBM-871")),
        874 => Some((874i32, 2u8, "TIS-620")),
        875 => Some((875i32, 1u8, "IBM-875")),
        878 => Some((878i32, 3u8, "KOI8-R")),
        880 => Some((880i32, 1u8, "IBM-880")),
        891 => Some((891i32, 2u8, "IBM-891")),
        895 => Some((895i32, 3u8, "IBM-895")),
        897 => Some((897i32, 2u8, "IBM-897")),
        901 => Some((901i32, 3u8, "IBM-901")),
        902 => Some((902i32, 3u8, "IBM-902")),
        903 => Some((903i32, 2u8, "IBM-903")),
        904 => Some((904i32, 2u8, "IBM-904")),
        912 => Some((912i32, 3u8, "ISO-8859-2")),
        913 => Some((913i32, 3u8, "ISO-8859-3")),
        915 => Some((915i32, 3u8, "ISO-8859-5")),
        916 => Some((916i32, 3u8, "ISO-8859-8")),
        918 => Some((918i32, 1u8, "IBM-918")),
        920 => Some((920i32, 3u8, "ISO-8859-9")),
        921 => Some((921i32, 3u8, "ISO-8859-13")),
        922 => Some((922i32, 3u8, "IBM-922")),
        923 => Some((923i32, 3u8, "ISO-8859-15")),
        924 => Some((924i32, 1u8, "IBM-924")),
        930 => Some((930i32, 1u8, "IBM-930")),
        931 => Some((931i32, 1u8, "IBM-931")),
        932 => Some((932i32, 2u8, "IBM-932")),
        933 => Some((933i32, 1u8, "IBM-933")),
        935 => Some((935i32, 1u8, "IBM-935")),
        936 => Some((936i32, 2u8, "IBM-936")),
        937 => Some((937i32, 1u8, "IBM-937")),
        938 => Some((938i32, 2u8, "IBM-938")),
        939 => Some((939i32, 1u8, "IBM-939")),
        942 => Some((942i32, 2u8, "IBM-942")),
        943 => Some((943i32, 2u8, "SHIFT_JIS")),
        948 => Some((948i32, 2u8, "IBM-948")),
        949 => Some((949i32, 2u8, "IBM-949")),
        950 => Some((950i32, 2u8, "BIG5HKSCS")),
        954 => Some((954i32, 6u8, "EUC-JP")),
        964 => Some((964i32, 6u8, "EUC-TW")),
        970 => Some((970i32, 6u8, "EUC-KR")),
        1006 => Some((1006i32, 3u8, "IBM-1006")),
        1010 => Some((1010i32, 3u8, "IBM-1010")),
        1011 => Some((1011i32, 3u8, "IBM-1011")),
        1012 => Some((1012i32, 3u8, "IBM-1012")),
        1013 => Some((1013i32, 3u8, "IBM-1013")),
        1014 => Some((1014i32, 3u8, "IBM-1014")),
        1015 => Some((1015i32, 3u8, "IBM-1015")),
        1016 => Some((1016i32, 3u8, "IBM-1016")),
        1017 => Some((1017i32, 3u8, "IBM-1017")),
        1018 => Some((1018i32, 3u8, "IBM-1018")),
        1019 => Some((1019i32, 3u8, "IBM-1019")),
        1025 => Some((1025i32, 1u8, "IBM-1025")),
        1026 => Some((1026i32, 1u8, "IBM-1026")),
        1027 => Some((1027i32, 1u8, "IBM-1027")),
        1040 => Some((1040i32, 2u8, "IBM-1040")),
        1041 => Some((1041i32, 2u8, "IBM-1041")),
        1042 => Some((1042i32, 2u8, "IBM-1042")),
        1043 => Some((1043i32, 2u8, "IBM-1043")),
        1046 => Some((1046i32, 2u8, "IBM-1046")),
        1047 => Some((1047i32, 1u8, "IBM-1047")),
        1051 => Some((1051i32, 3u8, "IBM-1051")),
        1088 => Some((1088i32, 2u8, "IBM-1088")),
        1089 => Some((1089i32, 3u8, "ISO-8859-6")),
        1097 => Some((1097i32, 1u8, "IBM-1097")),
        1098 => Some((1098i32, 2u8, "IBM-1098")),
        1112 => Some((1112i32, 1u8, "IBM-1112")),
        1114 => Some((1114i32, 2u8, "IBM-1114")),
        1115 => Some((1115i32, 2u8, "IBM-1115")),
        1122 => Some((1122i32, 1u8, "IBM-1122")),
        1123 => Some((1123i32, 1u8, "IBM-1123")),
        1124 => Some((1124i32, 3u8, "IBM-1124")),
        1125 => Some((1125i32, 2u8, "IBM-1125")),
        1127 => Some((1127i32, 2u8, "IBM-1127")),
        1129 => Some((1129i32, 3u8, "IBM-1129")),
        1130 => Some((1130i32, 1u8, "IBM-1130")),
        1131 => Some((1131i32, 2u8, "IBM-1131")),
        1132 => Some((1132i32, 1u8, "IBM-1132")),
        1133 => Some((1133i32, 3u8, "IBM-1133")),
        1137 => Some((1137i32, 1u8, "IBM-1137")),
        1140 => Some((1140i32, 1u8, "IBM-1140")),
        1141 => Some((1141i32, 1u8, "IBM-1141")),
        1142 => Some((1142i32, 1u8, "IBM-1142")),
        1143 => Some((1143i32, 1u8, "IBM-1143")),
        1144 => Some((1144i32, 1u8, "IBM-1144")),
        1145 => Some((1145i32, 1u8, "IBM-1145")),
        1146 => Some((1146i32, 1u8, "IBM-1146")),
        1147 => Some((1147i32, 1u8, "IBM-1147")),
        1148 => Some((1148i32, 1u8, "IBM-1148")),
        1149 => Some((1149i32, 1u8, "IBM-1149")),
        1153 => Some((1153i32, 1u8, "IBM-1153")),
        1156 => Some((1156i32, 1u8, "IBM-1156")),
        1157 => Some((1157i32, 1u8, "IBM-1157")),
        1159 => Some((1159i32, 1u8, "IBM-1159")),
        1208 => Some((1208i32, 5u8, "UTF-8")),
        1250 => Some((1250i32, 2u8, "IBM-1250")),
        1251 => Some((1251i32, 2u8, "CP1251")),
        1252 => Some((1252i32, 2u8, "IBM-1252")),
        1253 => Some((1253i32, 2u8, "IBM-1253")),
        1254 => Some((1254i32, 2u8, "IBM-1254")),
        1255 => Some((1255i32, 2u8, "CP1255")),
        1256 => Some((1256i32, 2u8, "IBM-1256")),
        1257 => Some((1257i32, 2u8, "IBM-1257")),
        1258 => Some((1258i32, 2u8, "IBM-1258")),
        1275 => Some((1275i32, 2u8, "IBM-1275")),
        1279 => Some((1279i32, 1u8, "IBM-1279")),
        1280 => Some((1280i32, 2u8, "IBM-1280")),
        1281 => Some((1281i32, 2u8, "IBM-1281")),
        1282 => Some((1282i32, 2u8, "IBM-1282")),
        1283 => Some((1283i32, 2u8, "IBM-1283")),
        1284 => Some((1284i32, 2u8, "IBM-1284")),
        1285 => Some((1285i32, 2u8, "IBM-1285")),
        1350 => Some((1350i32, 6u8, "JISeucJP")),
        1363 => Some((1363i32, 2u8, "IBM-1363")),
        1364 => Some((1364i32, 1u8, "IBM-1364")),
        1370 => Some((1370i32, 2u8, "IBM-1370")),
        1371 => Some((1371i32, 1u8, "IBM-1371")),
        1381 => Some((1381i32, 2u8, "GB2312")),
        1383 => Some((1383i32, 6u8, "EUC-CN")),
        1386 => Some((1386i32, 2u8, "GBK")),
        1388 => Some((1388i32, 1u8, "IBM-1388")),
        1390 => Some((1390i32, 1u8, "IBM-1390")),
        1392 => Some((1392i32, 7u8, "GB18030")),
        1399 => Some((1399i32, 1u8, "IBM-1399")),
        4133 => Some((4133i32, 1u8, "IBM-037")),
        4325 => Some((4325i32, 1u8, "IBM-256")),
        4369 => Some((4369i32, 1u8, "IBM-273")),
        4370 => Some((4370i32, 1u8, "IBM-4370")),
        4371 => Some((4371i32, 1u8, "IBM-4371")),
        4372 => Some((4372i32, 1u8, "IBM-4372")),
        4373 => Some((4373i32, 1u8, "IBM-277")),
        4374 => Some((4374i32, 1u8, "IBM-278")),
        4376 => Some((4376i32, 1u8, "IBM-280")),
        4378 => Some((4378i32, 1u8, "IBM-4378")),
        4380 => Some((4380i32, 1u8, "IBM-284")),
        4381 => Some((4381i32, 1u8, "IBM-285")),
        4386 => Some((4386i32, 1u8, "IBM-290")),
        4393 => Some((4393i32, 1u8, "IBM-297")),
        4516 => Some((4516i32, 1u8, "IBM-420")),
        4520 => Some((4520i32, 1u8, "IBM-424")),
        4533 => Some((4533i32, 2u8, "IBM-437")),
        4596 => Some((4596i32, 1u8, "IBM-500")),
        4899 => Some((4899i32, 1u8, "IBM-4899")),
        4909 => Some((4909i32, 3u8, "ISO-8859-7@euro")),
        4929 => Some((4929i32, 1u8, "IBM-833")),
        4932 => Some((4932i32, 1u8, "IBM-836")),
        4934 => Some((4934i32, 1u8, "IBM-838")),
        4946 => Some((4946i32, 2u8, "IBM-850")),
        4948 => Some((4948i32, 2u8, "IBM-852")),
        4949 => Some((4949i32, 2u8, "IBM-853")),
        4951 => Some((4951i32, 2u8, "IBM-855")),
        4952 => Some((4952i32, 2u8, "IBM-856")),
        4953 => Some((4953i32, 2u8, "IBM-857")),
        4960 => Some((4960i32, 2u8, "IBM-864")),
        4964 => Some((4964i32, 2u8, "IBM-868")),
        4965 => Some((4965i32, 2u8, "IBM-869")),
        4966 => Some((4966i32, 1u8, "IBM-870")),
        4967 => Some((4967i32, 1u8, "IBM-871")),
        4970 => Some((4970i32, 2u8, "TIS-620")),
        4971 => Some((4971i32, 1u8, "IBM-4971")),
        4976 => Some((4976i32, 1u8, "IBM-880")),
        4993 => Some((4993i32, 2u8, "IBM-897")),
        5014 => Some((5014i32, 1u8, "IBM-918")),
        5026 => Some((5026i32, 1u8, "IBM-930")),
        5028 => Some((5028i32, 2u8, "IBM-932")),
        5029 => Some((5029i32, 1u8, "IBM-933")),
        5031 => Some((5031i32, 1u8, "IBM-935")),
        5033 => Some((5033i32, 1u8, "IBM-937")),
        5035 => Some((5035i32, 1u8, "IBM-939")),
        5039 => Some((5039i32, 2u8, "IBM-5039")),
        5045 => Some((5045i32, 2u8, "IBM-949")),
        5046 => Some((5046i32, 2u8, "BIG5")),
        5050 => Some((5050i32, 6u8, "EUC-JP")),
        5060 => Some((5060i32, 6u8, "EUC-TW")),
        5066 => Some((5066i32, 6u8, "EUC-KR")),
        5123 => Some((5123i32, 1u8, "IBM-5123")),
        5137 => Some((5137i32, 2u8, "IBM-1041")),
        5142 => Some((5142i32, 2u8, "IBM-1046")),
        5143 => Some((5143i32, 1u8, "IBM-1047")),
        5210 => Some((5210i32, 2u8, "IBM-5210")),
        5211 => Some((5211i32, 2u8, "IBM-1115")),
        5346 => Some((5346i32, 2u8, "IBM-5346")),
        5347 => Some((5347i32, 2u8, "IBM-5347")),
        5348 => Some((5348i32, 2u8, "IBM-5348")),
        5349 => Some((5349i32, 2u8, "IBM-5349")),
        5350 => Some((5350i32, 2u8, "IBM-5350")),
        5351 => Some((5351i32, 2u8, "IBM-5351")),
        5352 => Some((5352i32, 2u8, "IBM-5352")),
        5353 => Some((5353i32, 2u8, "IBM-5353")),
        5354 => Some((5354i32, 2u8, "IBM-5354")),
        5477 => Some((5477i32, 2u8, "GB2312")),
        5479 => Some((5479i32, 6u8, "EUC-CN")),
        5482 => Some((5482i32, 2u8, "GBK")),
        5484 => Some((5484i32, 1u8, "IBM-1388")),
        5488 => Some((5488i32, 7u8, "GB18030")),
        8229 => Some((8229i32, 1u8, "IBM-037")),
        8448 => Some((8448i32, 1u8, "IBM-256")),
        8478 => Some((8478i32, 1u8, "IBM-284")),
        8482 => Some((8482i32, 1u8, "IBM-8482")),
        8489 => Some((8489i32, 1u8, "IBM-297")),
        8612 => Some((8612i32, 1u8, "IBM-8612")),
        8629 => Some((8629i32, 2u8, "IBM-437")),
        8692 => Some((8692i32, 1u8, "IBM-500")),
        9025 => Some((9025i32, 1u8, "IBM-833")),
        9028 => Some((9028i32, 1u8, "IBM-836")),
        9030 => Some((9030i32, 1u8, "IBM-838")),
        9044 => Some((9044i32, 2u8, "IBM-9044")),
        9047 => Some((9047i32, 2u8, "IBM-855")),
        9048 => Some((9048i32, 2u8, "IBM-9048")),
        9056 => Some((9056i32, 2u8, "IBM-864")),
        9060 => Some((9060i32, 2u8, "IBM-868")),
        9061 => Some((9061i32, 2u8, "IBM-9061")),
        9066 => Some((9066i32, 2u8, "TIS-620")),
        9089 => Some((9089i32, 2u8, "IBM-897")),
        9122 => Some((9122i32, 1u8, "IBM-930")),
        9124 => Some((9124i32, 2u8, "IBM-932")),
        9125 => Some((9125i32, 1u8, "IBM-933")),
        9127 => Some((9127i32, 1u8, "IBM-935")),
        9131 => Some((9131i32, 1u8, "IBM-939")),
        9142 => Some((9142i32, 2u8, "BIG5")),
        9146 => Some((9146i32, 6u8, "EUC-JP")),
        9449 => Some((9449i32, 2u8, "IBM-9449")),
        12325 => Some((12325i32, 1u8, "IBM-037")),
        12544 => Some((12544i32, 1u8, "IBM-256")),
        12712 => Some((12712i32, 1u8, "IBM-12712")),
        12725 => Some((12725i32, 2u8, "IBM-437")),
        12788 => Some((12788i32, 1u8, "IBM-500")),
        13152 => Some((13152i32, 2u8, "IBM-864")),
        13218 => Some((13218i32, 1u8, "IBM-930")),
        13219 => Some((13219i32, 1u8, "IBM-931")),
        13221 => Some((13221i32, 1u8, "IBM-933")),
        13223 => Some((13223i32, 1u8, "IBM-935")),
        13238 => Some((13238i32, 2u8, "BIG5")),
        13242 => Some((13242i32, 6u8, "EUC-JP")),
        16421 => Some((16421i32, 1u8, "IBM-037")),
        16821 => Some((16821i32, 2u8, "IBM-437")),
        16884 => Some((16884i32, 1u8, "IBM-500")),
        17314 => Some((17314i32, 1u8, "IBM-930")),
        20517 => Some((20517i32, 1u8, "IBM-037")),
        20917 => Some((20917i32, 2u8, "IBM-437")),
        20980 => Some((20980i32, 1u8, "IBM-500")),
        24613 => Some((24613i32, 1u8, "IBM-037")),
        25076 => Some((25076i32, 1u8, "IBM-500")),
        29172 => Some((29172i32, 1u8, "IBM-500")),
        32805 => Some((32805i32, 1u8, "IBM-037")),
        33058 => Some((33058i32, 1u8, "IBM-290")),
        33268 => Some((33268i32, 1u8, "IBM-500")),
        33618 => Some((33618i32, 2u8, "IBM-850")),
        33698 => Some((33698i32, 1u8, "IBM-930")),
        33699 => Some((33699i32, 1u8, "IBM-931")),
        33722 => Some((33722i32, 6u8, "EUC-JP")),
        37364 => Some((37364i32, 1u8, "IBM-500")),
        41460 => Some((41460i32, 1u8, "IBM-500")),
        45556 => Some((45556i32, 1u8, "IBM-500")),
        49652 => Some((49652i32, 1u8, "IBM-500")),
        53748 => Some((53748i32, 1u8, "IBM-500")),
        61696 => Some((61696i32, 1u8, "IBM-500")),
        61697 => Some((61697i32, 2u8, "IBM-850")),
        61698 => Some((61698i32, 2u8, "IBM-850")),
        61699 => Some((61699i32, 3u8, "ISO-8859-1")),
        61710 => Some((61710i32, 3u8, "ISO-8859-1")),
        61711 => Some((61711i32, 1u8, "IBM-500")),
        61712 => Some((61712i32, 1u8, "IBM-500")),
        _ => None,
    }
}

/// The CCSID is an EBCDIC character set, or `None` when the CCSID is not in the table.
pub open spec fn spec_is_ebcdic(ccsid: i32) -> Option<bool> {
    match spec_ccsid_entry(ccsid) {
        Some((e, _)) => Some(e == 1),
        None => None,
    }
}

/// Whether the CCSID is an EBCDIC character set; `None` when the CCSID is not in the table.
pub fn is_ebcdic(ccsid: i32) -> (r: Option<bool>)
    requires
        ccsid >= 0,
    ensures
        r == spec_is_ebcdic(ccsid),
{
    match ccsid_lookup(ccsid) {
        Some((_, e, _)) => Some(e == 1),
        None => None,
    }
}



/// The 7-bit ASCII bytes that EBCDIC translation carries back unchanged: all printable
/// characters but `/`, and the control characters other than `0x04` to `0x0A`.
pub open spec fn ascii7_roundtrips(b: u8) -> bool {
    b < 0x80 && !(4 <= b <= 10) && b != 0x2F
}

/// Translating an ASCII byte to EBCDIC and back gives the byte again.
pub proof fn law_ascii7_ebcdic_roundtrip(b: u8)
    requires
        ascii7_roundtrips(b),
    ensures
        spec_ebcdic_ascii7(spec_ascii7_ebcdic(b)) == b,
{
}


/// The CCSID is an EBCDIC character set exactly when the table gives it the EBCDIC family
/// (1); a CCSID of any other family, ASCII (2) among them, is not, and a CCSID the table does
/// not hold has no answer.
pub proof fn law_is_ebcdic_by_family(ccsid: i32)
    ensures
        spec_is_ebcdic(ccsid) == Some(true) <==> (spec_ccsid_entry(ccsid) matches Some((f, _)) && f == 1u8),
        spec_is_ebcdic(ccsid) == Some(false) <==> (spec_ccsid_entry(ccsid) matches Some((f, _)) && f != 1u8),
        spec_is_ebcdic(ccsid) is None <==> spec_ccsid_entry(ccsid) is None,
        spec_ccsid_entry(ccsid) matches Some((f, _)) && f == 2u8 ==> spec_is_ebcdic(ccsid) == Some(false),
{
}

/// Code page translation of the printable characters other than letters and digits, as the
/// EBCDIC table gives them: each ASCII character's EBCDIC byte, and what each of those bytes
/// reads back as. All come back as the character they were, but `/`, whose byte 0x61 reads
/// back as the substitute character 0x1A.
pub proof fn law_ebcdic_punctuation()
    ensures
        spec_ascii7_ebcdic(0x20u8) == 0x40u8,
        spec_ascii7_ebcdic(0x21u8) == 0x4Fu8,
        spec_ascii7_ebcdic(0x22u8) == 0x7Fu8,
        spec_ascii7_ebcdic(0x23u8) == 0x7Bu8,
        spec_ascii7_ebcdic(0x24u8) == 0x5Bu8,
        spec_ascii7_ebcdic(0x25u8) == 0x6Cu8,
        spec_ascii7_ebcdic(0x26u8) == 0x50u8,
        spec_ascii7_ebcdic(0x27u8) == 0x7Du8,
        spec_ascii7_ebcdic(0x28u8) == 0x4Du8,
        spec_ascii7_ebcdic(0x29u8) == 0x5Du8,
        spec_ascii7_ebcdic(0x2Au8) == 0x5Cu8,
        spec_ascii7_ebcdic(0x2Bu8) == 0x4Eu8,
        spec_ascii7_ebcdic(0x2Cu8) == 0x6Bu8,
        spec_ascii7_ebcdic(0x2Du8) == 0x60u8,
        spec_ascii7_ebcdic(0x2Eu8) == 0x4Bu8,
        spec_ascii7_ebcdic(0x2Fu8) == 0x61u8,
        spec_ascii7_ebcdic(0x3Au8) == 0x7Au8,
        spec_ascii7_ebcdic(0x3Bu8) == 0x5Eu8,
        spec_ascii7_ebcdic(0x3Cu8) == 0x4Cu8,
        spec_ascii7_ebcdic(0x3Du8) == 0x7Eu8,
        spec_ascii7_ebcdic(0x3Eu8) == 0x6Eu8,
        spec_ascii7_ebcdic(0x3Fu8) == 0x6Fu8,
        spec_ascii7_ebcdic(0x40u8) == 0x7Cu8,
        spec_ascii7_ebcdic(0x5Bu8) == 0x4Au8,
        spec_ascii7_ebcdic(0x5Cu8) == 0xE0u8,
        spec_ascii7_ebcdic(0x5Du8) == 0x5Au8,
        spec_ascii7_ebcdic(0x5Eu8) == 0x5Fu8,
        spec_ascii7_ebcdic(0x5Fu8) == 0x6Du8,
        spec_ascii7_ebcdic(0x60u8) == 0x79u8,
        spec_ascii7_ebcdic(0x7Bu8) == 0xC0u8,
        spec_ascii7_ebcdic(0x7Cu8) == 0x6Au8,
        spec_ascii7_ebcdic(0x7Du8) == 0xD0u8,
        spec_ascii7_ebcdic(0x7Eu8) == 0xA1u8,
        spec_ebcdic_ascii7(0x40u8) == 0x20u8,
        spec_ebcdic_ascii7(0x4Fu8) == 0x21u8,
        spec_ebcdic_ascii7(0x7Fu8) == 0x22u8,
        spec_ebcdic_ascii7(0x7Bu8) == 0x23u8,
        spec_ebcdic_ascii7(0x5Bu8) == 0x24u8,
        spec_ebcdic_ascii7(0x6Cu8) == 0x25u8,
        spec_ebcdic_ascii7(0x50u8) == 0x26u8,
        spec_ebcdic_ascii7(0x7Du8) == 0x27u8,
        spec_ebcdic_ascii7(0x4Du8) == 0x28u8,
        spec_ebcdic_ascii7(0x5Du8) == 0x29u8,
        spec_ebcdic_ascii7(0x5Cu8) == 0x2Au8,
        spec_ebcdic_ascii7(0x4Eu8) == 0x2Bu8,
        spec_ebcdic_ascii7(0x6Bu8) == 0x2Cu8,
        spec_ebcdic_ascii7(0x60u8) == 0x2Du8,
        spec_ebcdic_ascii7(0x4Bu8) == 0x2Eu8,
        spec_ebcdic_ascii7(0x61u8) == 0x1Au8,
        spec_ebcdic_ascii7(0x7Au8) == 0x3Au8,
        spec_ebcdic_ascii7(0x5Eu8) == 0x3Bu8,
        spec_ebcdic_ascii7(0x4Cu8) == 0x3Cu8,
        spec_ebcdic_ascii7(0x7Eu8) == 0x3Du8,
        spec_ebcdic_ascii7(0x6Eu8) == 0x3Eu8,
        spec_ebcdic_ascii7(0x6Fu8) == 0x3Fu8,
        spec_ebcdic_ascii7(0x7Cu8) == 0x40u8,
        spec_ebcdic_ascii7(0x4Au8) == 0x5Bu8,
        spec_ebcdic_ascii7(0xE0u8) == 0x5Cu8,
        spec_ebcdic_ascii7(0x5Au8) == 0x5Du8,
        spec_ebcdic_ascii7(0x5Fu8) == 0x5Eu8,
        spec_ebcdic_ascii7(0x6Du8) == 0x5Fu8,
        spec_ebcdic_ascii7(0x79u8) == 0x60u8,
        spec_ebcdic_ascii7(0xC0u8) == 0x7Bu8,
        spec_ebcdic_ascii7(0x6Au8) == 0x7Cu8,
        spec_ebcdic_ascii7(0xD0u8) == 0x7Du8,
        spec_ebcdic_ascii7(0xA1u8) == 0x7Eu8,
{
}

/// Letters and digits translate by the EBCDIC rows: `A`-`I`, `J`-`R` and `S`-`Z` to
/// 0xC1-0xC9, 0xD1-0xD9 and 0xE2-0xE9, the lower case letters to the same columns of the
/// rows 0x81, 0x91 and 0xA2, and the digits to 0xF0-0xF9; each of those bytes reads back as
/// its letter or digit.
pub proof fn law_ebcdic_letters_digits(b: u8)
    ensures
        0x41 <= b <= 0x49 ==> spec_ascii7_ebcdic(b) == b + 0x80 && spec_ebcdic_ascii7((b + 0x80) as u8) == b,
        0x4A <= b <= 0x52 ==> spec_ascii7_ebcdic(b) == b + 0x87 && spec_ebcdic_ascii7((b + 0x87) as u8) == b,
        0x53 <= b <= 0x5A ==> spec_ascii7_ebcdic(b) == b + 0x8F && spec_ebcdic_ascii7((b + 0x8F) as u8) == b,
        0x61 <= b <= 0x69 ==> spec_ascii7_ebcdic(b) == b + 0x20 && spec_ebcdic_ascii7((b + 0x20) as u8) == b,
        0x6A <= b <= 0x72 ==> spec_ascii7_ebcdic(b) == b + 0x27 && spec_ebcdic_ascii7((b + 0x27) as u8) == b,
        0x73 <= b <= 0x7A ==> spec_ascii7_ebcdic(b) == b + 0x2F && spec_ebcdic_ascii7((b + 0x2F) as u8) == b,
        0x30 <= b <= 0x39 ==> spec_ascii7_ebcdic(b) == b + 0xC0 && spec_ebcdic_ascii7((b + 0xC0) as u8) == b,
{
}

} // verus!
