#[test]
fn lib_test_hello() {
    assert!(!ocpp_rs::cp::hello().is_empty());
    assert!(!ocpp_rs::simulator::hello().is_empty());
    assert!(!ocpp_rs::conformance::hello().is_empty());
    assert_eq!(ocpp_rs::cp::hello(), "Hello from ocpp-cp");
    assert_eq!(ocpp_rs::simulator::hello(), "Hello from ocpp-simulator");
    assert_eq!(ocpp_rs::conformance::hello(), "Hello from ocpp-conformance");
}
