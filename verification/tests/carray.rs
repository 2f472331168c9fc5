use sifli_hal::carray::array::{
    extract_brace_block, find_text, parse_c_arrays, parse_decl_and_values, CArray,
};
use sifli_hal::carray::convert;
use sifli_hal::carray::lex::{collapse_ws, strip_comments, to_lowercase, trim, Class};
use sifli_hal::carray::name::{to_screaming_snake, BaseTy};
use sifli_hal::carray::number::{parse_item, parse_number, parse_values, Item};
use sifli_hal::carray::render::{push_decimal, push_hex, render};

fn strip(s: &str) -> String {
    String::from_utf8(strip_comments(s.as_bytes())).unwrap()
}

fn snake(s: &str, ty: Option<BaseTy>) -> String {
    String::from_utf8(to_screaming_snake(s.as_bytes(), ty)).unwrap()
}

#[test]
fn comments_are_stripped() {
    assert_eq!(strip("a // c\nb"), "a \nb");
    assert_eq!(strip("a /* x */ b"), "a  b");
    assert_eq!(strip("a/**/b"), "ab");
    assert_eq!(strip("a / b"), "a / b");
    assert_eq!(strip("a/b/c"), "a/b/c");
    assert_eq!(strip("x//y"), "x");
    assert_eq!(strip("x//y\n"), "x\n");
    assert_eq!(strip("/*/ still */z"), "z");
    assert_eq!(strip("/* ** */x"), "x");
    assert_eq!(strip("/* a **/x"), "x");
    assert_eq!(strip("end/"), "end/");
    assert_eq!(strip("/* unterminated"), "");
    assert_eq!(strip("no comment = {1};"), "no comment = {1};");
    assert_eq!(strip("a /* // */ b // /* c\n d */"), "a  b \n d */");
    assert_eq!(strip(""), "");
}

#[test]
fn white_space_and_case() {
    assert_eq!(collapse_ws(b" unsigned \t char\n\x0b\x0c\r"), b"unsignedchar");
    assert_eq!(collapse_ws(b""), b"");
    assert_eq!(to_lowercase(b"Const UINT8_t[]"), b"const uint8_t[]");
    assert_eq!(trim(b"  \t x y \n", Class::Space), b"x y");
    assert_eq!(trim(b"{ 12 }", Class::SpaceOrBrace), b"12");
    assert_eq!(trim(b"__a_b__", Class::Underscore), b"a_b");
    assert_eq!(trim(b"   ", Class::Space), b"");
}

#[test]
fn names_become_screaming_snake() {
    assert_eq!(snake("g_lcpu_patch_list", Some(BaseTy::U32)), "G_LCPU_PATCH_LIST_U32");
    assert_eq!(snake("g_lcpu_patch_bin", Some(BaseTy::U8)), "G_LCPU_PATCH_BIN_U8");
    assert_eq!(snake("patchBin", Some(BaseTy::U8)), "PATCH_BIN_U8");
    assert_eq!(snake("__x__y", None), "X_Y");
    assert_eq!(snake("ABc", None), "ABC");
    assert_eq!(snake("aB2c", None), "A_B2C");
    assert_eq!(snake("a.b--c", None), "A_B_C");
    assert_eq!(snake("x_", Some(BaseTy::U32)), "X_U32");
    assert_eq!(snake("", Some(BaseTy::U8)), "_U8");
    assert_eq!(snake("___", None), "");
}

#[test]
fn numbers() {
    assert_eq!(parse_number(b"0", 10), Some(0));
    assert_eq!(parse_number(b"+5", 10), Some(5));
    assert_eq!(parse_number(b"ff", 16), Some(255));
    assert_eq!(parse_number(b"FF", 16), Some(255));
    assert_eq!(parse_number(b"18446744073709551615", 10), Some(u64::MAX));
    assert_eq!(parse_number(b"18446744073709551616", 10), None);
    assert_eq!(parse_number(b"ffffffffffffffff", 16), Some(u64::MAX));
    assert_eq!(parse_number(b"10000000000000000", 16), None);
    assert_eq!(parse_number(b"", 10), None);
    assert_eq!(parse_number(b"+", 10), None);
    assert_eq!(parse_number(b"-1", 10), None);
    assert_eq!(parse_number(b"1a", 10), None);
    assert_eq!(parse_number(b"1 2", 10), None);
    assert_eq!(parse_number(b"g", 16), None);
}

#[test]
fn items() {
    assert_eq!(parse_item(b" 0x10 "), Item::Value(16));
    assert_eq!(parse_item(b"0X1f"), Item::Value(31));
    assert_eq!(parse_item(b"32"), Item::Value(32));
    assert_eq!(parse_item(b"(uint32_t)0xFFu"), Item::Value(255));
    assert_eq!(parse_item(b"(uint8_t) 5"), Item::Value(5));
    assert_eq!(parse_item(b"7UL"), Item::Value(7));
    assert_eq!(parse_item(b"{ 9"), Item::Value(9));
    assert_eq!(parse_item(b"\n"), Item::Skip);
    assert_eq!(parse_item(b" } "), Item::Skip);
    assert_eq!(parse_item(b"x"), Item::Bad);
    assert_eq!(parse_item(b"0x"), Item::Bad);
    assert_eq!(parse_item(b"u"), Item::Bad);
    assert_eq!(parse_item(b")5("), Item::Bad);
}

#[test]
fn value_lists() {
    assert_eq!(
        parse_values(b"0x10, 32, (uint32_t)0xFFu, 7UL,\n"),
        Some(vec![16, 32, 255, 7])
    );
    assert_eq!(parse_values(b"{ 1, 2 }"), Some(vec![1, 2]));
    assert_eq!(parse_values(b""), Some(vec![]));
    assert_eq!(parse_values(b",,,"), Some(vec![]));
    assert_eq!(parse_values(b"1"), Some(vec![1]));
    assert_eq!(parse_values(b"1, x"), None);
    assert_eq!(parse_values(b"x, 1"), None);
    assert_eq!(parse_values(b"1, 2 3, 4"), None);
}

#[test]
fn brace_blocks() {
    assert_eq!(extract_brace_block(b"{1,{2},3} rest"), Some((9, b"1,{2},3".to_vec())));
    assert_eq!(extract_brace_block(b"{}"), Some((2, vec![])));
    assert_eq!(extract_brace_block(b"{ {"), None);
    assert_eq!(extract_brace_block(b"{{}"), None);
    assert_eq!(extract_brace_block(b"{}}"), Some((2, vec![])));
}

#[test]
fn text_search() {
    assert!(find_text(b"staticconstuint8_t", b"uint8_t"));
    assert!(find_text(b"uint8_t", b"uint8_t"));
    assert!(!find_text(b"uint8_", b"uint8_t"));
    assert!(!find_text(b"", b"x"));
    assert!(find_text(b"abc", b""));
    assert!(find_text(b"aab", b"ab"));
}

#[test]
fn declarations() {
    let a = parse_decl_and_values(b"const uint8_t g_patch_bin[]", b" 0x01, 0x02 ", false).unwrap();
    assert_eq!(a.c_name, b"g_patch_bin");
    assert_eq!(a.rust_name, b"G_PATCH_BIN_U8");
    assert_eq!(a.ty, BaseTy::U8);
    assert_eq!(a.values, vec![1, 2]);

    let a = parse_decl_and_values(b"static const unsigned  CHAR *tab [4]", b"1", true).unwrap();
    assert_eq!(a.c_name, b"tab");
    assert_eq!(a.ty, BaseTy::U8);

    let a = parse_decl_and_values(b"unsigned int list[2]", b"3,4", false).unwrap();
    assert_eq!((a.ty, a.rust_name), (BaseTy::U32, b"LIST_U32".to_vec()));
    let a = parse_decl_and_values(b"int16_t other[2]", b"3,4", false).unwrap();
    assert_eq!(a.ty, BaseTy::U32);
    let a = parse_decl_and_values(b"m[2][3]", b"", false).unwrap();
    assert_eq!(a.c_name, b"m[2]");
    assert_eq!(a.values, Vec::<u64>::new());

    assert_eq!(parse_decl_and_values(b"no bracket", b"1", false), None);
    assert_eq!(parse_decl_and_values(b"uint8_t *[2]", b"1", false), None);
    assert_eq!(parse_decl_and_values(b"[2]", b"1", false), None);
    assert_eq!(parse_decl_and_values(b"uint8_t a[2]", b"1, oops", false), None);
}

#[test]
fn arrays_of_a_source() {
    let src = b"int n = 5;\nconst uint8_t g_patch_bin[] = { 0x01, 0x02 };\nstatic const unsigned int list[2] =\n{\n 3, 4\n};\nuint8_t open[] = { 1, 2\n";
    let arrays = parse_c_arrays(src, false);
    assert_eq!(
        arrays,
        vec![
            CArray {
                c_name: b"g_patch_bin".to_vec(),
                rust_name: b"G_PATCH_BIN_U8".to_vec(),
                ty: BaseTy::U8,
                values: vec![1, 2],
            },
            CArray {
                c_name: b"list".to_vec(),
                rust_name: b"LIST_U32".to_vec(),
                ty: BaseTy::U32,
                values: vec![3, 4],
            },
        ]
    );
    assert!(parse_c_arrays(b"", false).is_empty());
    assert!(parse_c_arrays(b"a = b; c == {", false).is_empty());
    assert_eq!(parse_c_arrays(b"x[]={1}y[]={2}", false).len(), 2);
}

#[test]
fn hex_and_decimal_digits() {
    let show = |v: u64, w: usize| {
        let mut out = Vec::new();
        push_hex(&mut out, v, w);
        String::from_utf8(out).unwrap()
    };
    assert_eq!(show(0, 2), "00");
    assert_eq!(show(0xa, 2), "0A");
    assert_eq!(show(0x1ff, 2), "1FF");
    assert_eq!(show(0x1234, 8), "00001234");
    assert_eq!(show(u64::MAX, 8), "FFFFFFFFFFFFFFFF");
    assert_eq!(show(0, 0), "0");
    assert_eq!(show(0xbeef, 1), "BEEF");
    let dec = |v: usize| {
        let mut out = Vec::new();
        push_decimal(&mut out, v);
        String::from_utf8(out).unwrap()
    };
    assert_eq!(dec(0), "0");
    assert_eq!(dec(9), "9");
    assert_eq!(dec(10), "10");
    assert_eq!(dec(8192), "8192");
}

#[test]
fn rendering() {
    let arrays = vec![
        CArray {
            c_name: b"a".to_vec(),
            rust_name: b"NAME_U8".to_vec(),
            ty: BaseTy::U8,
            values: (0..10).collect(),
        },
        CArray {
            c_name: b"b".to_vec(),
            rust_name: b"B_U32".to_vec(),
            ty: BaseTy::U32,
            values: vec![0x1234, 0xdead_beef, 1, 2, 3, 4, 5, 6],
        },
        CArray { c_name: b"c".to_vec(), rust_name: b"C_U8".to_vec(), ty: BaseTy::U8, values: vec![] },
    ];
    let expected = "#![allow(dead_code)]\n\n\
#[rustfmt::skip]\npub const NAME_U8: [u8; 10] = [\n    0x00, 0x01, 0x02, 0x03, 0x04, 0x05, 0x06, 0x07,\n    0x08, 0x09,\n];\n\n\
#[rustfmt::skip]\npub const B_U32: [u32; 8] = [\n    0x00001234, 0xDEADBEEF, 0x00000001, 0x00000002, 0x00000003, 0x00000004, 0x00000005, 0x00000006,\n];\n\n\
#[rustfmt::skip]\npub const C_U8: [u8; 0] = [\n];\n\n";
    assert_eq!(String::from_utf8(render(&arrays)).unwrap(), expected);
}

#[test]
fn whole_conversion() {
    let src = b"/* patch */\nconst uint32_t g_list[] = { // entries\n  0x1u, 0x20u, /* end */ 0x300u\n};\n";
    let out = String::from_utf8(convert(src, false).unwrap()).unwrap();
    assert_eq!(
        out,
        "#![allow(dead_code)]\n\n#[rustfmt::skip]\npub const G_LIST_U32: [u32; 3] = [\n    0x00000001, 0x00000020, 0x00000300,\n];\n\n"
    );
    assert_eq!(convert(b"// nothing here\nint x = 1;\n", false), None);
    assert_eq!(convert(b"/* uint8_t a[] = {1}; */", false), None);
}
