use python_interpreters::caps::CodeObject;
use python_interpreters::code::{ClassicCode, CompactCode, V10Code};

fn classic(first_lineno: i32) -> ClassicCode {
    ClassicCode {
        co_name: 0,
        co_filename: 0,
        co_lnotab: 0,
        co_firstlineno: first_lineno,
        co_nlocals: 0,
        co_argcount: 0,
        co_varnames: 0,
    }
}

fn v10(first_lineno: i32) -> V10Code {
    V10Code {
        co_name: 0,
        co_filename: 0,
        co_linetable: 0,
        co_firstlineno: first_lineno,
        co_nlocals: 0,
        co_argcount: 0,
        co_varnames: 0,
    }
}

fn compact(first_lineno: i32) -> CompactCode {
    CompactCode {
        co_name: 0,
        co_filename: 0,
        co_linetable: 0,
        co_firstlineno: first_lineno,
        co_nlocals: 0,
        co_argcount: 0,
        co_localsplusnames: 0,
        code_adaptive_offset: 0,
    }
}

#[test]
fn test_py3_11_line_numbers() {
    let code = compact(4);
    let table = [
        128_u8, 0, 221, 4, 8, 132, 74, 136, 118, 209, 4, 22, 212, 4, 22, 208, 4, 22, 208, 4, 22,
        208, 4, 22,
    ];
    assert_eq!(code.get_line_number(214, &table), 5);
}

#[test]
fn test_classic_empty_table_returns_first_lineno() {
    let code = classic(7);
    assert_eq!(code.get_line_number(0, &[]), 7);
    assert_eq!(code.get_line_number(1000, &[]), 7);
    let negative = classic(-5);
    assert_eq!(negative.get_line_number(42, &[]), -5);
}

#[test]
fn test_classic_pairs_with_negative_delta() {
    // pairs (2, +1), (4, -1): 255 is the two's-complement byte for -1
    let code = classic(10);
    let table = [2_u8, 1, 4, 255];
    assert_eq!(code.get_line_number(1, &table), 10);
    assert_eq!(code.get_line_number(2, &table), 11);
    assert_eq!(code.get_line_number(7, &table), 10);
}

#[test]
fn test_classic_ignores_trailing_half_pair() {
    let code = classic(1);
    let table = [2_u8, 1, 9];
    assert_eq!(code.get_line_number(10, &table), 2);
}

#[test]
fn test_v10_sentinel_advances_address() {
    // (6, sentinel): the line stays put, but the address still advances past
    // the doubled target, so the scan stops at the anchor line.
    let code = v10(1);
    let table = [6_u8, 0x80, 2, 1];
    assert_eq!(code.get_line_number(2, &table), 1);
}

#[test]
fn test_v10_sentinel_then_applied_delta() {
    let code = v10(1);
    let table = [2_u8, 0x80, 2, 1];
    assert_eq!(code.get_line_number(3, &table), 2);
}

#[test]
fn test_v10_crossing_entry_delta_applies() {
    let code = v10(10);
    let table = [2_u8, 5, 2, 7];
    assert_eq!(code.get_line_number(1, &table), 22);
}

#[test]
fn test_v10_negative_delta() {
    let code = v10(10);
    let table = [2_u8, 0xff];
    assert_eq!(code.get_line_number(5, &table), 9);
}

#[test]
fn test_compact_signed_varint_delta() {
    // header 104: one-instruction span, opcode 13; varint 7 decodes to -3
    let code = compact(10);
    let table = [104_u8, 7];
    assert_eq!(code.get_line_number(0, &table), 7);
}

#[test]
fn test_compact_long_form_consumes_column_varints() {
    // header 112: opcode 14; delta +2, then end line / start and end column
    let code = compact(10);
    let table = [112_u8, 4, 5, 1, 2];
    assert_eq!(code.get_line_number(0, &table), 12);
}

#[test]
fn test_compact_no_line_change_opcode() {
    let code = compact(10);
    let table = [120_u8];
    assert_eq!(code.get_line_number(0, &table), 10);
}

#[test]
fn test_compact_small_delta_opcode_skips_two_bytes() {
    // header 89: two-instruction span, opcode 11, delta 1, two column bytes
    let code = compact(10);
    let table = [89_u8, 0, 0];
    assert_eq!(code.get_line_number(0, &table), 11);
}

#[test]
fn test_compact_default_opcode_skips_one_byte() {
    let code = compact(10);
    let table = [0_u8, 99];
    assert_eq!(code.get_line_number(0, &table), 10);
}

#[test]
fn test_compact_stops_non_strictly() {
    let code = compact(10);
    let table = [120_u8, 89, 0, 0];
    // first record reaches address 2 >= 1: stop before the +1 record
    assert_eq!(code.get_line_number(1, &table), 10);
    // target 3: the second record applies its delta before the stop
    assert_eq!(code.get_line_number(3, &table), 11);
}

#[test]
fn test_compact_truncated_varint_stops_scan() {
    let code = compact(10);
    let table = [104_u8];
    assert_eq!(code.get_line_number(100, &table), 10);
}

#[test]
fn test_compact_overlong_varint_stops_scan() {
    let code = compact(10);
    let table = [104_u8, 64, 64, 64, 64, 64, 64, 64, 64, 64, 64, 0];
    assert_eq!(code.get_line_number(100, &table), 10);
}

#[test]
fn test_classic_fits_rejects_line_overflow() {
    let code = classic(i32::MAX);
    // a negative delta steps down from the ceiling: fine
    assert!(code.line_number_fits(10, &[2, 255]));
    // a positive delta on top of the largest line would overflow
    assert!(!code.line_number_fits(10, &[1, 1]));
    let ok = classic(10);
    assert!(ok.line_number_fits(10, &[1, 1]));
}

#[test]
fn test_v10_fits_rejects_undoubled_offset() {
    let code = v10(10);
    assert!(code.line_number_fits(5, &[2, 1]));
    // this offset cannot be doubled within i32
    assert!(!code.line_number_fits(0x4000_0000, &[2, 1]));
    assert!(!code.line_number_fits(i32::MIN, &[2, 1]));
}

#[test]
fn test_compact_fits_accepts_truncated_table() {
    let code = compact(10);
    // a cut-off varint only stops the scan early: still decodable
    assert!(code.line_number_fits(100, &[104]));
    assert_eq!(code.get_line_number(100, &[104]), 10);
    // a line delta past the i32 ceiling is not
    let extreme = compact(i32::MAX);
    assert!(!extreme.line_number_fits(100, &[89, 0, 0]));
    assert!(extreme.line_number_fits(100, &[120]));
}

#[test]
fn test_compact_rebases_offset_by_bytecode_start() {
    let mut code = compact(4);
    code.code_adaptive_offset = 192;
    let table = [
        128_u8, 0, 221, 4, 8, 132, 74, 136, 118, 209, 4, 22, 212, 4, 22, 208, 4, 22, 208, 4, 22,
        208, 4, 22,
    ];
    // 214 - 192 = 22: the scan crosses 22 at the third record, line 5
    assert_eq!(code.get_line_number(214, &table), 5);
    // a target inside the first record's span stays on the anchor line
    assert_eq!(code.get_line_number(194, &table), 4);
}
