use python_interpreters::caps::{
    BytesObject, CodeObject, FrameObject, InterpreterState, ListObject, Object, StringObject,
    ThreadState, TupleObject, TypeObject,
};
use python_interpreters::code::{ClassicCode, CompactCode, V10Code};
use python_interpreters::layout::current_frame_offset;
use python_interpreters::runtime::{
    AnchoredThreadState, DirectThreadState, GilInterpreterState, HeapFrame, OwnedStackFrame,
    PlainInterpreterState, PyObjectHeader, PyTypeDescriptor, StackFrame, FRAME_OWNED_BY_CSTACK,
};
use python_interpreters::strings::{LegacyString, PyBytes, PyList, PyTuple, PyUnicode};
use python_interpreters::versions::{LineTableKind, Version};

fn check_plain_interp() {
    let interp = PlainInterpreterState { tstate_head: 0x1100, modules: 0x2200 };
    assert_eq!(interp.head(), 0x1100);
    assert_eq!(interp.gil_locked(), None);
    assert_eq!(interp.modules(), 0x2200);
}

fn check_direct_thread() {
    let thread = DirectThreadState { frame: 0x3300, thread_id: 41, next: 0x4400, interp: 0x5500 };
    assert_eq!(thread.interp(), 0x5500);
    assert_eq!(thread.frame_address(), None);
    assert_eq!(thread.frame(None), 0x3300);
    assert_eq!(thread.thread_id(), 41);
    assert_eq!(thread.native_thread_id(), None);
    assert_eq!(thread.next(), 0x4400);
}

fn check_anchored_thread(leading_bytes: u64, expected_offset: u64) {
    let thread = AnchoredThreadState {
        cframe: 0x3300,
        cframe_leading_bytes: leading_bytes,
        thread_id: 41,
        native_thread_id: 42,
        next: 0x4400,
        interp: 0x5500,
    };
    assert_eq!(thread.interp(), 0x5500);
    assert_eq!(thread.frame_address(), Some(0x3300 + expected_offset));
    // the caller fetches the pointer stored there and feeds it back
    assert_eq!(thread.frame(Some(0x6600)), 0x6600);
    assert_eq!(thread.thread_id(), 41);
    assert_eq!(thread.native_thread_id(), Some(42));
    assert_eq!(thread.next(), 0x4400);
}

fn check_heap_frame() {
    let frame = HeapFrame { f_code: 0x7700, f_lasti: 24, f_back: 0x8800 };
    assert_eq!(frame.code(), 0x7700);
    assert_eq!(frame.lasti(), 24);
    assert_eq!(frame.back(), 0x8800);
    assert!(frame.is_entry());
}

fn check_stack_frame() {
    let frame =
        StackFrame { f_code: 0x7700, prev_instr: 0x7700 + 210, previous: 0x8800, is_entry: false };
    assert_eq!(frame.code(), 0x7700);
    assert_eq!(frame.lasti(), 210);
    assert_eq!(frame.back(), 0x8800);
    assert!(!frame.is_entry());
}

fn check_owned_stack_frame() {
    let frame = OwnedStackFrame {
        f_code: 0x7700,
        prev_instr: 0x7700 + 210,
        previous: 0x8800,
        owner: FRAME_OWNED_BY_CSTACK,
    };
    assert_eq!(frame.code(), 0x7700);
    assert_eq!(frame.lasti(), 210);
    assert_eq!(frame.back(), 0x8800);
    assert!(frame.is_entry());
    let plain = OwnedStackFrame { owner: 1, ..frame };
    assert!(!plain.is_entry());
}

fn check_classic_code() {
    let code = ClassicCode {
        co_name: 0x10,
        co_filename: 0x20,
        co_lnotab: 0x30,
        co_firstlineno: 12,
        co_nlocals: 3,
        co_argcount: 2,
        co_varnames: 0x40,
    };
    assert_eq!(code.name(), 0x10);
    assert_eq!(code.filename(), 0x20);
    assert_eq!(code.line_table(), 0x30);
    assert_eq!(code.first_lineno(), 12);
    assert_eq!(code.nlocals(), 3);
    assert_eq!(code.argcount(), 2);
    assert_eq!(code.varnames(), 0x40);
    assert_eq!(code.get_line_number(0, &[2, 1]), 12);
}

fn check_v10_code() {
    let code = V10Code {
        co_name: 0x10,
        co_filename: 0x20,
        co_linetable: 0x30,
        co_firstlineno: 12,
        co_nlocals: 3,
        co_argcount: 2,
        co_varnames: 0x40,
    };
    assert_eq!(code.name(), 0x10);
    assert_eq!(code.filename(), 0x20);
    assert_eq!(code.line_table(), 0x30);
    assert_eq!(code.first_lineno(), 12);
    assert_eq!(code.nlocals(), 3);
    assert_eq!(code.argcount(), 2);
    assert_eq!(code.varnames(), 0x40);
    assert_eq!(code.get_line_number(0, &[2, 1]), 13);
}

fn check_compact_code() {
    let code = CompactCode {
        co_name: 0x10,
        co_filename: 0x20,
        co_linetable: 0x30,
        co_firstlineno: 12,
        co_nlocals: 3,
        co_argcount: 2,
        co_localsplusnames: 0x40,
        code_adaptive_offset: 0,
    };
    assert_eq!(code.name(), 0x10);
    assert_eq!(code.filename(), 0x20);
    assert_eq!(code.line_table(), 0x30);
    assert_eq!(code.first_lineno(), 12);
    assert_eq!(code.nlocals(), 3);
    assert_eq!(code.argcount(), 2);
    assert_eq!(code.varnames(), 0x40);
    assert_eq!(code.get_line_number(0, &[120]), 12);
}

fn check_legacy_string() {
    let text = LegacyString { ob_size: 9 };
    assert!(StringObject::ascii(&text));
    assert_eq!(StringObject::kind(&text), 1);
    assert_eq!(StringObject::size(&text), 9);
    // payload right after the fixed header
    assert_eq!(StringObject::address(&text, 0x9000), 0x9000 + 36);
    assert_eq!(BytesObject::size(&text), 9);
    assert_eq!(BytesObject::address(&text, 0x9000), 0x9000 + 36);
}

fn check_tagged_strings(version: Version) {
    let (ascii_header, compact_header) = version.unicode_headers();
    let compact_ascii = PyUnicode {
        ascii: true,
        compact: true,
        kind: 1,
        length: 5,
        data_any: 0,
        ascii_header,
        compact_header,
    };
    assert!(compact_ascii.ascii());
    assert_eq!(compact_ascii.kind(), 1);
    assert_eq!(compact_ascii.size(), 5);
    assert_eq!(compact_ascii.address(0x9000), 0x9000 + ascii_header);
    let compact_wide = PyUnicode { ascii: false, kind: 2, ..compact_ascii };
    assert!(!compact_wide.ascii());
    assert_eq!(compact_wide.kind(), 2);
    assert_eq!(compact_wide.address(0x9000), 0x9000 + compact_header);
    let out_of_line = PyUnicode { ascii: false, compact: false, data_any: 0xdd00, ..compact_ascii };
    assert_eq!(out_of_line.address(0x9000), 0xdd00);
}

fn check_bytes() {
    let payload = PyBytes { ob_size: 17 };
    assert_eq!(payload.size(), 17);
    assert_eq!(payload.address(0xa000), 0xa000 + 32);
}

fn check_common_objects() {
    let tuple = PyTuple { ob_size: 4 };
    assert_eq!(tuple.size(), 4);
    assert_eq!(tuple.address(0xb000, 0), 0xb000 + 24);
    assert_eq!(tuple.address(0xb000, 3), 0xb000 + 24 + 3 * 8);
    let list = PyList { ob_size: 6, ob_item: 0xc000 };
    assert_eq!(list.size(), 6);
    assert_eq!(list.item(), 0xc000);
    let header = PyObjectHeader { ob_type: 0xd000 };
    assert_eq!(header.ob_type(), 0xd000);
    let descriptor = PyTypeDescriptor { tp_name: 0xe000, tp_dictoffset: 16, tp_flags: 0x200 };
    assert_eq!(descriptor.name(), 0xe000);
    assert_eq!(descriptor.dictoffset(), 16);
    assert_eq!(descriptor.flags(), 0x200);
}

#[test]
fn test_v2_7_layout() {
    let version = Version::V2_7;
    assert_eq!(version.line_table_kind(), LineTableKind::Classic);
    assert!(!version.has_tagged_strings());
    assert_eq!(version.cframe_leading_bytes(), None);
    check_plain_interp();
    check_direct_thread();
    check_heap_frame();
    check_classic_code();
    check_legacy_string();
    check_common_objects();
}

#[test]
fn test_v3_3_layout() {
    let version = Version::V3_3;
    assert_eq!(version.line_table_kind(), LineTableKind::Classic);
    assert_eq!(version.unicode_headers(), (48, 72));
    check_plain_interp();
    check_direct_thread();
    check_heap_frame();
    check_classic_code();
    check_tagged_strings(version);
    check_bytes();
    check_common_objects();
}

#[test]
fn test_v3_5_layout() {
    let version = Version::V3_5;
    assert_eq!(version.line_table_kind(), LineTableKind::Classic);
    assert_eq!(version.unicode_headers(), (48, 72));
    check_plain_interp();
    check_direct_thread();
    check_heap_frame();
    check_classic_code();
    check_tagged_strings(version);
    check_bytes();
    check_common_objects();
}

#[test]
fn test_v3_6_layout() {
    let version = Version::V3_6;
    assert_eq!(version.line_table_kind(), LineTableKind::Classic);
    check_plain_interp();
    check_direct_thread();
    check_heap_frame();
    check_classic_code();
    check_tagged_strings(version);
    check_bytes();
    check_common_objects();
}

#[test]
fn test_v3_7_layout() {
    let version = Version::V3_7;
    assert_eq!(version.line_table_kind(), LineTableKind::Classic);
    check_plain_interp();
    check_direct_thread();
    check_heap_frame();
    check_classic_code();
    check_tagged_strings(version);
    check_bytes();
    check_common_objects();
}

#[test]
fn test_v3_8_layout() {
    let version = Version::V3_8;
    assert_eq!(version.line_table_kind(), LineTableKind::Classic);
    check_plain_interp();
    check_direct_thread();
    check_heap_frame();
    check_classic_code();
    check_tagged_strings(version);
    check_bytes();
    check_common_objects();
}

#[test]
fn test_v3_9_layout() {
    let version = Version::V3_9;
    assert_eq!(version.line_table_kind(), LineTableKind::Classic);
    check_plain_interp();
    check_direct_thread();
    check_heap_frame();
    check_classic_code();
    check_tagged_strings(version);
    check_bytes();
    check_common_objects();
}

#[test]
fn test_v3_10_layout() {
    let version = Version::V3_10;
    assert_eq!(version.line_table_kind(), LineTableKind::DoubledPaired);
    assert_eq!(version.cframe_leading_bytes(), None);
    check_plain_interp();
    check_direct_thread();
    check_heap_frame();
    check_v10_code();
    check_tagged_strings(version);
    check_bytes();
    check_common_objects();
}

#[test]
fn test_v3_11_layout() {
    let version = Version::V3_11;
    assert_eq!(version.line_table_kind(), LineTableKind::CompactVarint);
    assert_eq!(version.unicode_headers(), (48, 72));
    // the anchor opens with a one-byte tracing flag: the pointer lands at 8
    assert_eq!(version.cframe_leading_bytes(), Some(1));
    check_plain_interp();
    check_anchored_thread(1, 8);
    check_stack_frame();
    check_compact_code();
    check_tagged_strings(version);
    check_bytes();
    check_common_objects();
}

#[test]
fn test_v3_12_layout() {
    let version = Version::V3_12;
    assert_eq!(version.line_table_kind(), LineTableKind::CompactVarint);
    assert_eq!(version.unicode_headers(), (40, 56));
    // the tracing flag is gone: the pointer is the anchor's first field
    assert_eq!(version.cframe_leading_bytes(), Some(0));
    let interp = GilInterpreterState { tstate_head: 0x1100, modules: 0x2200, gil_locked_value: 1 };
    assert_eq!(interp.head(), 0x1100);
    assert_eq!(interp.gil_locked(), Some(true));
    assert_eq!(interp.modules(), 0x2200);
    let unlocked = GilInterpreterState { gil_locked_value: 0, ..interp };
    assert_eq!(unlocked.gil_locked(), Some(false));
    check_anchored_thread(0, 0);
    check_owned_stack_frame();
    check_compact_code();
    check_tagged_strings(version);
    check_bytes();
    check_common_objects();
}

#[test]
fn test_frame_anchor_offset_follows_declared_layout() {
    // the offset tracks whatever precedes the pointer, never a constant
    assert_eq!(current_frame_offset(0), 0);
    assert_eq!(current_frame_offset(1), 8);
    assert_eq!(current_frame_offset(4), 8);
    assert_eq!(current_frame_offset(8), 8);
    assert_eq!(current_frame_offset(13), 16);
}

#[test]
fn test_negative_instruction_distance() {
    let frame = StackFrame { f_code: 0x7700, prev_instr: 0x76fc, previous: 0, is_entry: true };
    assert_eq!(frame.lasti(), -4);
}
