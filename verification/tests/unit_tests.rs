//! Unit tests: the hexadecimal renderer, the ignorable-frame tables, the
//! demangling step, the source map, thread correlation, and the unwind walks
//! with their reload flag.

use native_stack_trace::capture::{correlate, NativeStack};
use native_stack_trace::classify::{ignore_frame, is_marker_name, Platform};
use native_stack_trace::demangle::demangle_name;
use native_stack_trace::frame::{
    AddressInfo, Error, Frame, SecondaryUnwindStep, StackTrace, SymbolInfo, ThreadSnapshot,
    UnwindStep,
};
use native_stack_trace::sourcemap::SourceMaps;
use native_stack_trace::text::hex_address;

#[test]
fn hex_address_is_fixed_width() {
    assert_eq!(hex_address(0), "0x0000000000000000");
    assert_eq!(hex_address(0xdead_beef), "0x00000000deadbeef");
    assert_eq!(hex_address(u64::MAX), "0xffffffffffffffff");
    assert_eq!(hex_address(0x0123_4567_89ab_cdef), "0x0123456789abcdef");
}

#[test]
fn linux_ignore_table() {
    assert!(ignore_frame("__libc_start_main", "/usr/lib/libc.so.6", Platform::Linux));
    assert!(ignore_frame("__clone", "/usr/lib/libc-2.31.so", Platform::Linux));
    assert!(ignore_frame("start_thread", "/usr/lib/libpthread.so.0", Platform::Linux));
    assert!(!ignore_frame("__clone", "/usr/lib/libm.so.6", Platform::Linux));
    assert!(!ignore_frame("main", "/usr/lib/libc.so.6", Platform::Linux));
    assert!(!ignore_frame("_start", "/usr/lib/libdyld.dylib", Platform::Linux));
}

#[test]
fn macos_ignore_table() {
    assert!(ignore_frame("_start", "/usr/lib/system/libdyld.dylib", Platform::MacOs));
    assert!(ignore_frame("__pthread_body", "/usr/lib/system/libsystem_pthread.dylib", Platform::MacOs));
    assert!(ignore_frame("_thread_start", "/usr/lib/system/libsystem_pthread.dylib", Platform::MacOs));
    assert!(!ignore_frame("__libc_start_main", "/usr/lib/libc.so.6", Platform::MacOs));
}

#[test]
fn marker_names() {
    assert!(is_marker_name("_PyEval_EvalFrameDefault"));
    assert!(is_marker_name("PyEval_EvalFrameEx"));
    assert!(is_marker_name("__PyEval_EvalFrameDefault"));
    assert!(!is_marker_name("PyObject_Call"));
}

#[test]
fn demangle_step_rewrites_mangled_names() {
    assert_eq!(demangle_name("_Z3fooi"), "foo");
    assert_eq!(demangle_name("_ZN5space3fooEibc"), "space::foo");
}

#[test]
fn demangle_step_keeps_other_names() {
    assert_eq!(demangle_name("main"), "main");
    assert_eq!(demangle_name("_not_a_symbol"), "_not_a_symbol");
    assert_eq!(demangle_name(""), "");
}

#[test]
fn source_map_translates_and_is_idempotent() {
    let mut maps = SourceMaps::new();
    assert!(maps.add_mapping(
        "__pyx_pw_4core_run".to_owned(),
        "run".to_owned(),
        "core.pyx".to_owned(),
    ));
    let mut f = Frame {
        name: "__pyx_pw_4core_run".to_owned(),
        filename: "core.c".to_owned(),
        module: Some("/usr/lib/core.so".to_owned()),
        short_filename: None,
        line: 5,
    };
    maps.translate(&mut f);
    assert_eq!(f.name, "run");
    assert_eq!(f.filename, "core.pyx");
    let once = (f.name.clone(), f.filename.clone());
    maps.translate(&mut f);
    assert_eq!((f.name, f.filename), once);
}

#[test]
fn source_map_refuses_entries_that_break_idempotence() {
    let mut maps = SourceMaps::new();
    assert!(maps.add_mapping("a".to_owned(), "b".to_owned(), "f1".to_owned()));
    assert!(!maps.add_mapping("b".to_owned(), "c".to_owned(), "f2".to_owned()));
    assert!(!maps.add_mapping("c".to_owned(), "a".to_owned(), "f3".to_owned()));
    assert!(!maps.add_mapping("d".to_owned(), "".to_owned(), "f4".to_owned()));
    assert!(!maps.add_mapping("e".to_owned(), "e".to_owned(), "f5".to_owned()));
    assert!(maps.add_mapping("x".to_owned(), "y".to_owned(), "f6".to_owned()));
}

#[test]
fn source_map_ignore_list_drops_frames() {
    let interp = "/usr/bin/python3";
    let mut ns = NativeStack::new(interp, &None, Platform::Linux, false);
    ns.add_ignored_symbol("__pyx_pymod_exec_core".to_owned());
    let traces = vec![StackTrace { thread_id: 1, os_thread_id: None, frames: vec![] }];
    let snapshots = vec![ThreadSnapshot {
        os_thread_id: 9,
        candidate: 1,
        addresses: vec![AddressInfo {
            addr: 0x10,
            symbol: Some(SymbolInfo {
                addr: 0x10,
                module: "/usr/lib/core.so".to_owned(),
                function: Some("__pyx_pymod_exec_core".to_owned()),
                filename: None,
                resolved_filename: None,
                line: None,
            }),
        }],
    }];
    let out = ns.get_native_stack_traces(traces, &snapshots).unwrap();
    assert_eq!(out[0].frames.len(), 0);
}

#[test]
fn capture_translates_extension_frames() {
    let interp = "/usr/bin/python3";
    let mut ns = NativeStack::new(interp, &None, Platform::Linux, false);
    assert!(ns.add_source_mapping(
        "__pyx_pw_4core_run".to_owned(),
        "run".to_owned(),
        "core.pyx".to_owned(),
    ));
    let traces = vec![StackTrace { thread_id: 1, os_thread_id: None, frames: vec![] }];
    let snapshots = vec![ThreadSnapshot {
        os_thread_id: 9,
        candidate: 1,
        addresses: vec![AddressInfo {
            addr: 0x10,
            symbol: Some(SymbolInfo {
                addr: 0x10,
                module: "/usr/lib/core.so".to_owned(),
                function: Some("__pyx_pw_4core_run".to_owned()),
                filename: None,
                resolved_filename: None,
                line: None,
            }),
        }],
    }];
    let out = ns.get_native_stack_traces(traces, &snapshots).unwrap();
    assert_eq!(out[0].frames.len(), 1);
    assert_eq!(out[0].frames[0].name, "run");
    assert_eq!(out[0].frames[0].filename, "core.pyx");
}

#[test]
fn correlate_prefers_matching_candidate() {
    let snapshots = vec![
        ThreadSnapshot { os_thread_id: 100, candidate: 0, addresses: vec![] },
        ThreadSnapshot { os_thread_id: 200, candidate: 55, addresses: vec![] },
    ];
    assert_eq!(correlate(&snapshots, 55), Some(1));
}

#[test]
fn correlate_falls_back_to_first_zero_candidate() {
    let snapshots = vec![
        ThreadSnapshot { os_thread_id: 100, candidate: 7, addresses: vec![] },
        ThreadSnapshot { os_thread_id: 200, candidate: 0, addresses: vec![] },
        ThreadSnapshot { os_thread_id: 300, candidate: 0, addresses: vec![] },
    ];
    assert_eq!(correlate(&snapshots, 55), Some(1));
}

#[test]
fn correlate_without_fallback_is_none() {
    let snapshots = vec![ThreadSnapshot { os_thread_id: 100, candidate: 7, addresses: vec![] }];
    assert_eq!(correlate(&snapshots, 55), None);
}

#[test]
fn uncorrelated_trace_still_merges_via_fallback() {
    let interp = "/usr/bin/python3";
    let ns = NativeStack::new(interp, &None, Platform::Linux, false);
    let traces = vec![StackTrace { thread_id: 99, os_thread_id: None, frames: vec![] }];
    let snapshots = vec![ThreadSnapshot { os_thread_id: 4321, candidate: 0, addresses: vec![] }];
    let out = ns.get_native_stack_traces(traces, &snapshots).unwrap();
    assert_eq!(out[0].os_thread_id, Some(4321));
}

#[test]
fn primary_walk_collects_stack_and_candidate() {
    let mut ns = NativeStack::new("/usr/bin/python3", &None, Platform::Linux, false);
    let threadids = vec![42u64, 43u64];
    let steps = vec![
        UnwindStep::Address { ip: 0x1, bx: 0 },
        UnwindStep::Address { ip: 0x2, bx: 17 },
        UnwindStep::Address { ip: 0x3, bx: 43 },
    ];
    let (stack, bx) = ns.get_thread(&threadids, &steps).unwrap();
    assert_eq!(stack, vec![0x1, 0x2, 0x3]);
    assert_eq!(bx, 43);
    assert!(!ns.take_should_reload());
}

#[test]
fn missing_module_failure_schedules_reload_once() {
    let mut ns = NativeStack::new("/usr/bin/python3", &None, Platform::Linux, false);
    let threadids = vec![42u64];
    let steps = vec![
        UnwindStep::Address { ip: 0x1, bx: 0 },
        UnwindStep::Failure { missing_module: true },
    ];
    let err = ns.get_thread(&threadids, &steps).unwrap_err();
    assert_eq!(err, Error::ThreadUnwind { missing_module: true });
    assert!(ns.take_should_reload());
    assert!(!ns.take_should_reload());
}

#[test]
fn secondary_walk_absorbs_primary_failure() {
    let mut ns = NativeStack::new("/usr/bin/python3", &None, Platform::Linux, true);
    let threadids = vec![42u64];
    let primary = vec![UnwindStep::Failure { missing_module: false }];
    let secondary = vec![
        SecondaryUnwindStep::Address { ip: 0x9, bx_valid: true, bx: 42 },
        SecondaryUnwindStep::Address { ip: 0xa, bx_valid: false, bx: 7 },
    ];
    let (stack, bx) = ns.unwind_thread(&threadids, &primary, Some(&secondary)).unwrap();
    assert_eq!(stack, vec![0x9, 0xa]);
    assert_eq!(bx, 42);
}

#[test]
fn without_secondary_the_primary_error_propagates() {
    let mut ns = NativeStack::new("/usr/bin/python3", &None, Platform::Linux, false);
    let threadids = vec![42u64];
    let primary = vec![UnwindStep::Failure { missing_module: false }];
    let err = ns.unwind_thread(&threadids, &primary, None).unwrap_err();
    assert_eq!(err, Error::ThreadUnwind { missing_module: false });
    assert!(ns.missing_secondary_warned());
}

#[test]
fn candidate_not_in_thread_set_is_ignored() {
    let mut ns = NativeStack::new("/usr/bin/python3", &None, Platform::Linux, false);
    let threadids = vec![42u64];
    let steps = vec![UnwindStep::Address { ip: 0x1, bx: 99 }];
    let (_, bx) = ns.get_thread(&threadids, &steps).unwrap();
    assert_eq!(bx, 0);
}
