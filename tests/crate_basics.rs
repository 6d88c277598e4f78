use ws_codec::WsProtocol;

#[test]
fn lib_good() {
    let _protocol = WsProtocol::new();
    assert!(true);
}
