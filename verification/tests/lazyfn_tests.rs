use dylink::error::DylinkError;
use dylink::error::ErrorKind;
use dylink::lazyfn::LazyFn;
use dylink::lazyfn::LinkType;

#[test]
fn construction_is_pure() {
    let cell = LazyFn::new(
        0xdead_0000,
        "floor".to_string(),
        LinkType::Normal(vec!["libm.so.6".to_string()]),
    );
    // No resolution has run: the cell reports nothing cached and the address
    // slot still holds the placeholder.
    assert!(cell.try_link().is_none());
    assert_eq!(cell.address(), 0xdead_0000);
}

#[test]
fn first_load_commits_and_later_loads_observe_it() {
    // The concurrent-first-call scenario, serialized by the latch: each
    // caller hands in the outcome it computed, only the first one's is
    // committed, and every caller gets the same address back.
    let mut cell = LazyFn::new(0, "vkCreateDevice".to_string(), LinkType::Vulkan);
    let first = cell.load(Ok(0xabc0)).unwrap();
    assert_eq!(first, 0xabc0);
    for other in [0xddd0usize, 0xeee0, 0xfff0, 0x1230, 0x4560] {
        let seen = cell.load(Ok(other)).unwrap();
        assert_eq!(seen, 0xabc0);
    }
    assert_eq!(cell.address(), 0xabc0);
}

#[test]
fn successful_link_is_stable() {
    let mut cell = LazyFn::new(0, "SetLastError".to_string(), LinkType::Vulkan);
    cell.load(Ok(0x77)).unwrap();
    // Subsequent observations, with or without the latch, see one address.
    assert_eq!(cell.try_link().unwrap().unwrap(), 0x77);
    assert_eq!(cell.try_link().unwrap().unwrap(), 0x77);
    assert_eq!(cell.load(Ok(0x99)).unwrap(), 0x77);
}

#[test]
fn failed_link_is_final() {
    let mut cell = LazyFn::new(0, "missing".to_string(), LinkType::Vulkan);
    let err = cell
        .load(Err(DylinkError::SymbolNotFound {
            symbol: "missing".to_string(),
        }))
        .unwrap_err();
    assert_eq!(err.kind(), ErrorKind::SymbolNotFound);
    // The failure is memoized: a later call with a would-be success still
    // reports the first outcome.
    let again = cell.load(Ok(0x1000)).unwrap_err();
    assert_eq!(again.kind(), ErrorKind::SymbolNotFound);
    match cell.try_link().unwrap() {
        Err(DylinkError::SymbolNotFound { symbol }) => assert_eq!(symbol, "missing"),
        other => panic!("unexpected cached result: {:?}", other),
    }
}
