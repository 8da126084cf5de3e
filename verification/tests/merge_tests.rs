//! End-to-end scenarios for the merge: splicing, demangling, stubs, the
//! ignorable-frame table, and the frame-count parity check.

use native_stack_trace::capture::NativeStack;
use native_stack_trace::classify::Platform;
use native_stack_trace::frame::{AddressInfo, Frame, StackTrace, SymbolInfo, ThreadSnapshot};
use native_stack_trace::frame::Error;

fn managed_frame(name: &str, filename: &str, line: i32) -> Frame {
    Frame {
        name: name.to_owned(),
        filename: filename.to_owned(),
        module: None,
        short_filename: None,
        line,
    }
}

fn marker_address(addr: u64, interpreter: &str) -> AddressInfo {
    AddressInfo {
        addr,
        symbol: Some(SymbolInfo {
            addr,
            module: interpreter.to_owned(),
            function: Some("_PyEval_EvalFrameDefault".to_owned()),
            filename: None,
            resolved_filename: None,
            line: None,
        }),
    }
}

fn native_address(addr: u64, module: &str, function: &str) -> AddressInfo {
    AddressInfo {
        addr,
        symbol: Some(SymbolInfo {
            addr,
            module: module.to_owned(),
            function: Some(function.to_owned()),
            filename: None,
            resolved_filename: None,
            line: None,
        }),
    }
}

const INTERP: &str = "/usr/bin/python3";

fn stack(ns: &NativeStack, managed: Vec<Frame>, addresses: Vec<AddressInfo>) -> Result<Vec<StackTrace>, Error> {
    let traces = vec![StackTrace { thread_id: 42, os_thread_id: None, frames: managed }];
    let snapshots = vec![ThreadSnapshot { os_thread_id: 7001, candidate: 42, addresses }];
    ns.get_native_stack_traces(traces, &snapshots)
}

#[test]
fn scenario_all_markers_clone_managed_frames() {
    let ns = NativeStack::new(INTERP, &None, Platform::Linux, false);
    let managed = vec![
        managed_frame("outer", "app.py", 10),
        managed_frame("middle", "app.py", 20),
        managed_frame("inner", "lib.py", 30),
    ];
    let addresses = vec![
        marker_address(0x1000, INTERP),
        marker_address(0x2000, INTERP),
        marker_address(0x3000, INTERP),
    ];
    let out = stack(&ns, managed, addresses).unwrap();
    assert_eq!(out.len(), 1);
    assert_eq!(out[0].thread_id, 42);
    assert_eq!(out[0].os_thread_id, Some(7001));
    assert_eq!(out[0].frames.len(), 3);
    assert_eq!(out[0].frames[0].name, "outer");
    assert_eq!(out[0].frames[0].filename, "app.py");
    assert_eq!(out[0].frames[0].line, 10);
    assert_eq!(out[0].frames[1].name, "middle");
    assert_eq!(out[0].frames[2].name, "inner");
    assert_eq!(out[0].frames[2].filename, "lib.py");
}

#[test]
fn scenario_mangled_native_frame_between_markers() {
    let ns = NativeStack::new(INTERP, &None, Platform::Linux, false);
    let managed = vec![
        managed_frame("outer", "app.py", 1),
        managed_frame("inner", "app.py", 2),
    ];
    let addresses = vec![
        marker_address(0x1000, INTERP),
        native_address(0x2000, "/usr/lib/libextension.so", "_Z3fooi"),
        marker_address(0x3000, INTERP),
    ];
    let out = stack(&ns, managed, addresses).unwrap();
    assert_eq!(out[0].frames.len(), 3);
    assert_eq!(out[0].frames[0].name, "outer");
    assert_eq!(out[0].frames[1].name, "foo");
    assert_eq!(out[0].frames[1].filename, "/usr/lib/libextension.so");
    assert_eq!(out[0].frames[1].module.as_deref(), Some("/usr/lib/libextension.so"));
    assert_eq!(out[0].frames[2].name, "inner");
}

#[test]
fn scenario_failed_symbolication_yields_stub() {
    let ns = NativeStack::new(INTERP, &None, Platform::Linux, false);
    let addresses = vec![AddressInfo { addr: 0xdead_beef, symbol: None }];
    let out = stack(&ns, vec![], addresses).unwrap();
    assert_eq!(out[0].frames.len(), 1);
    assert_eq!(out[0].frames[0].filename, "?");
    assert_eq!(out[0].frames[0].name, "0x00000000deadbeef");
    assert_eq!(out[0].frames[0].line, 0);
    assert!(out[0].frames[0].module.is_none());
}

#[test]
fn scenario_denylisted_frame_is_omitted() {
    let ns = NativeStack::new(INTERP, &None, Platform::Linux, false);
    let managed = vec![managed_frame("outer", "app.py", 1)];
    let addresses = vec![
        marker_address(0x1000, INTERP),
        native_address(0x2000, "/usr/lib/libc.so.6", "__clone"),
    ];
    let out = stack(&ns, managed, addresses).unwrap();
    assert_eq!(out[0].frames.len(), 1);
    assert_eq!(out[0].frames[0].name, "outer");
}

#[test]
fn interpreter_internal_frames_are_dropped() {
    let ns = NativeStack::new(INTERP, &None, Platform::Linux, false);
    let addresses = vec![native_address(0x2000, INTERP, "PyObject_Call")];
    let out = stack(&ns, vec![], addresses).unwrap();
    assert_eq!(out[0].frames.len(), 0);
}

#[test]
fn support_library_markers_count() {
    let lib = Some("/usr/lib/libpython3.11.so".to_owned());
    let ns = NativeStack::new(INTERP, &lib, Platform::Linux, false);
    let managed = vec![managed_frame("outer", "app.py", 1)];
    let addresses = vec![marker_address(0x1000, "/usr/lib/libpython3.11.so")];
    let out = stack(&ns, managed, addresses).unwrap();
    assert_eq!(out[0].frames.len(), 1);
    assert_eq!(out[0].frames[0].name, "outer");
}

#[test]
fn truncated_interpreter_module_still_marks() {
    let ns = NativeStack::new(INTERP, &None, Platform::Linux, false);
    let managed = vec![managed_frame("outer", "app.py", 1)];
    let addresses = vec![marker_address(0x1000, "/usr/bin/py")];
    let out = stack(&ns, managed, addresses).unwrap();
    assert_eq!(out[0].frames.len(), 1);
    assert_eq!(out[0].frames[0].name, "outer");
}

#[test]
fn unresolved_filename_keeps_raw_filename() {
    let ns = NativeStack::new(INTERP, &None, Platform::Linux, false);
    let addresses = vec![AddressInfo {
        addr: 0x2000,
        symbol: Some(SymbolInfo {
            addr: 0x2000,
            module: "/usr/lib/libwork.so".to_owned(),
            function: Some("do_work".to_owned()),
            filename: Some("work.c".to_owned()),
            resolved_filename: None,
            line: None,
        }),
    }];
    let out = stack(&ns, vec![], addresses).unwrap();
    assert_eq!(out[0].frames[0].filename, "work.c");
    assert_eq!(out[0].frames[0].line, 0);
}

#[test]
fn frame_count_mismatch_reports_both_counts() {
    let ns = NativeStack::new(INTERP, &None, Platform::Linux, false);
    let managed = vec![
        managed_frame("outer", "app.py", 1),
        managed_frame("inner", "app.py", 2),
    ];
    let addresses = vec![marker_address(0x1000, INTERP)];
    let err = stack(&ns, managed, addresses).unwrap_err();
    assert_eq!(err, Error::FrameCountMismatch { native: 1, managed: 2 });
}

#[test]
fn markers_beyond_managed_frames_mismatch() {
    let ns = NativeStack::new(INTERP, &None, Platform::Linux, false);
    let managed = vec![managed_frame("outer", "app.py", 1)];
    let addresses = vec![
        marker_address(0x1000, INTERP),
        marker_address(0x2000, INTERP),
        marker_address(0x3000, INTERP),
    ];
    let err = stack(&ns, managed, addresses).unwrap_err();
    assert_eq!(err, Error::FrameCountMismatch { native: 3, managed: 1 });
}

#[test]
fn unresolved_line_and_filename_fall_back() {
    let ns = NativeStack::new(INTERP, &None, Platform::Linux, false);
    let addresses = vec![AddressInfo {
        addr: 0x2000,
        symbol: Some(SymbolInfo {
            addr: 0x2000,
            module: "/usr/lib/libwork.so".to_owned(),
            function: Some("do_work".to_owned()),
            filename: Some("work.c".to_owned()),
            resolved_filename: Some("/src/work.c".to_owned()),
            line: Some(77),
        }),
    }];
    let out = stack(&ns, vec![], addresses).unwrap();
    assert_eq!(out[0].frames[0].name, "do_work");
    assert_eq!(out[0].frames[0].filename, "/src/work.c");
    assert_eq!(out[0].frames[0].line, 77);
}

#[test]
fn function_without_name_uses_address() {
    let ns = NativeStack::new(INTERP, &None, Platform::Linux, false);
    let addresses = vec![AddressInfo {
        addr: 0x2000,
        symbol: Some(SymbolInfo {
            addr: 0x2abc,
            module: "/usr/lib/libwork.so".to_owned(),
            function: None,
            filename: None,
            resolved_filename: None,
            line: None,
        }),
    }];
    let out = stack(&ns, vec![], addresses).unwrap();
    assert_eq!(out[0].frames[0].name, "0x0000000000002abc");
    assert_eq!(out[0].frames[0].filename, "/usr/lib/libwork.so");
    assert_eq!(out[0].frames[0].module.as_deref(), Some("/usr/lib/libwork.so"));
}
