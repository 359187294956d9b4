use dylink::error::DylinkError;
use dylink::error::ErrorKind;
use dylink::library::force_and_resolve;
use dylink::library::CloseableLibrary;
use dylink::library::Library;
use dylink::loader::to_wide_name;
use dylink::loader::Close;
use dylink::loader::SelfLoader;
use dylink::loader::SystemLoader;

fn names(list: &[&str]) -> Vec<String> {
    list.iter().map(|s| s.to_string()).collect()
}

#[test]
fn single_candidate_failure_is_library_not_found() {
    let mut lib = Library::new(names(&["libfoo.so"]));
    assert_eq!(lib.pending_open(), Some(0));
    lib.open_failed();
    assert_eq!(lib.pending_open(), None);
    let err = lib.failure().unwrap();
    assert_eq!(err.kind(), ErrorKind::LibraryNotFound);
    match err {
        DylinkError::LibraryNotFound { name } => assert_eq!(name, "libfoo.so"),
        other => panic!("unexpected error: {:?}", other),
    }
}

#[test]
fn multi_candidate_exhaustion_is_list_not_found() {
    let mut lib = Library::new(names(&["liba.so", "libb.so"]));
    lib.open_failed();
    assert_eq!(lib.pending_open(), Some(1));
    lib.open_failed();
    assert_eq!(lib.pending_open(), None);
    let err = lib.failure().unwrap();
    assert_eq!(err.kind(), ErrorKind::ListNotFound);
    match err {
        DylinkError::ListNotFound { names } => {
            assert_eq!(names, vec!["liba.so".to_string(), "libb.so".to_string()]);
        }
        other => panic!("unexpected error: {:?}", other),
    }
}

#[test]
fn first_match_wins_and_no_later_candidate_is_tried() {
    // A fallback list in the shape of the libc one: the first candidate that
    // opens is memoized and nothing further is asked for.
    let mut lib = Library::new(names(&[
        "libc.so.6",
        "/lib/x86_64-linux-gnu/libc.so",
        "libc.so",
    ]));
    assert_eq!(lib.pending_open(), Some(0));
    lib.open_succeeded(0x7f00_1000);
    assert_eq!(lib.pending_open(), None);
    assert_eq!(lib.handle(), Some(0x7f00_1000));
    assert!(lib.failure().is_none());
}

#[test]
fn forcing_twice_is_one_forcing() {
    let mut lib = Library::new(names(&["liba.so", "libb.so"]));
    lib.open_failed();
    lib.open_succeeded(0x4000);
    // A second force finds the slot decided and asks for nothing.
    assert_eq!(lib.pending_open(), None);
    assert_eq!(lib.pending_open(), None);
    assert_eq!(lib.handle(), Some(0x4000));
}

#[test]
fn symbol_found_after_open_resolves() {
    // The Windows system-symbol scenario, as the machine sees it: the single
    // candidate opens and the symbol resolves to a non-null address.
    let mut lib = Library::new(names(&["Kernel32.dll"]));
    lib.open_succeeded(0x1111_0000);
    let addr = lib
        .symbol_outcome(&"SetLastError".to_string(), 0x1111_2222)
        .unwrap();
    assert_eq!(addr, 0x1111_2222);
}

#[test]
fn symbol_missing_after_open_is_symbol_not_found() {
    let mut lib = Library::new(names(&["Kernel32.dll"]));
    lib.open_succeeded(0x1111_0000);
    let err = lib
        .symbol_outcome(&"definitely_not_present".to_string(), 0)
        .unwrap_err();
    assert_eq!(err.kind(), ErrorKind::SymbolNotFound);
    assert_ne!(err.kind(), ErrorKind::LibraryNotFound);
    match err {
        DylinkError::SymbolNotFound { symbol } => {
            assert_eq!(symbol, "definitely_not_present")
        }
        other => panic!("unexpected error: {:?}", other),
    }
    // The library stays opened: no further candidate is tried.
    assert_eq!(lib.pending_open(), None);
}

#[test]
fn closeable_cycle_reopens() {
    let mut lib = CloseableLibrary::new(names(&["libX11.so.6"]));
    lib.open_succeeded(0x5000);
    let addr1 = lib
        .symbol_outcome(&"XOpenDisplay".to_string(), 0x5100)
        .unwrap();
    assert_eq!(addr1, 0x5100);

    let released = lib.close();
    assert_eq!(released, 0x5000);

    // After the close the next forcing cycle starts from the first candidate
    // and may memoize a different handle; resolution succeeds again.
    assert_eq!(lib.pending_open(), Some(0));
    lib.open_succeeded(0x6000);
    let addr2 = lib
        .symbol_outcome(&"XOpenDisplay".to_string(), 0x6100)
        .unwrap();
    assert_eq!(addr2, 0x6100);
}

#[test]
fn close_through_the_trait() {
    let mut lib = CloseableLibrary::new(names(&["libz.so"]));
    lib.open_succeeded(0x9000);
    let handle = Close::close(&mut lib);
    assert_eq!(handle, 0x9000);
    assert_eq!(lib.pending_open(), Some(0));
}

#[test]
fn one_whole_resolution_from_the_platform_answers() {
    // The second candidate opens and the symbol resolves.
    let r = force_and_resolve(
        names(&["liba.so", "libb.so"]),
        &vec![0, 0x800],
        &"floor".to_string(),
        0x900,
    );
    assert_eq!(r.unwrap(), 0x900);

    // The library opens but the symbol is missing.
    let e = force_and_resolve(names(&["liba.so"]), &vec![0x800], &"nope".to_string(), 0)
        .unwrap_err();
    assert_eq!(e.kind(), ErrorKind::SymbolNotFound);

    // No candidate opens: the classification depends on the list's length.
    let e = force_and_resolve(names(&["liba.so"]), &vec![0], &"f".to_string(), 0).unwrap_err();
    assert_eq!(e.kind(), ErrorKind::LibraryNotFound);
    let e = force_and_resolve(
        names(&["liba.so", "libb.so"]),
        &vec![0, 0],
        &"f".to_string(),
        0,
    )
    .unwrap_err();
    assert_eq!(e.kind(), ErrorKind::ListNotFound);
}

#[test]
fn diagnostics_carry_the_triggering_name() {
    let e = DylinkError::LibraryNotFound {
        name: "libfoo.so".to_string(),
    };
    assert_eq!(e.message(), "library not found: libfoo.so");

    let e = DylinkError::ListNotFound {
        names: vec!["liba.so".to_string(), "libb.so".to_string()],
    };
    assert_eq!(
        e.message(),
        "no library in the list could be opened: liba.so, libb.so"
    );

    // A missing symbol after a successful open reads differently from a
    // library that did not open.
    let e = DylinkError::SymbolNotFound {
        symbol: "definitely_not_present".to_string(),
    };
    assert_eq!(e.message(), "symbol not found: definitely_not_present");

    let e = DylinkError::LoaderError {
        message: "bad ELF header".to_string(),
    };
    assert_eq!(e.message(), "loader error: bad ELF header");
}

#[test]
fn loader_error_carries_its_message() {
    let err = DylinkError::LoaderError {
        message: "libfoo.so: cannot open shared object file".to_string(),
    };
    assert_eq!(err.kind(), ErrorKind::LoaderError);
    match err {
        DylinkError::LoaderError { message } => {
            assert_eq!(message, "libfoo.so: cannot open shared object file")
        }
        other => panic!("unexpected error: {:?}", other),
    }
}

#[test]
fn wide_names_for_the_windows_loader() {
    let chars: Vec<char> = "Kernel32.dll".chars().collect();
    let mut expected: Vec<u16> = "Kernel32.dll".encode_utf16().collect();
    expected.push(0);
    assert_eq!(to_wide_name(&chars), expected);

    // A supplementary-plane character becomes a surrogate pair.
    let chars = vec!['a', '\u{1D11E}'];
    assert_eq!(to_wide_name(&chars), vec![0x61, 0xD834, 0xDD1E, 0]);

    assert_eq!(to_wide_name(&Vec::new()), vec![0]);
}

#[test]
fn loader_handles_invalidity() {
    assert!(SystemLoader::new(0).is_invalid());
    assert!(!SystemLoader::new(0x1234).is_invalid());
    assert!(SelfLoader::new(0).is_invalid());
    assert!(!SelfLoader::new(0xfff0).is_invalid());
}
