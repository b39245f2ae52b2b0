use enclave_relay::config::{
    select_endpoint, select_storage_endpoint, select_transport, storage_endpoint, Endpoint, Transport, HOST_CID,
    HOST_STORE_PORT,
};
use enclave_relay::error::ConfigurationError;

#[test]
fn host_is_context_3_and_stores_on_port_7001() {
    assert_eq!(HOST_CID, 3);
    assert_eq!(HOST_STORE_PORT, 7001);
    assert_eq!(storage_endpoint(), Endpoint::Vsock { cid: 3, port: 7001 });
}

#[test]
fn context_and_port_select_the_isolated_transport() {
    assert_eq!(
        select_endpoint(Some(16), Some(8443), None, "127.0.0.1:8443"),
        Ok(Endpoint::Vsock { cid: 16, port: 8443 })
    );
    assert_eq!(
        select_endpoint(Some(16), Some(8443), Some("10.0.0.1:1".to_string()), "127.0.0.1:8443"),
        Ok(Endpoint::Vsock { cid: 16, port: 8443 })
    );
}

#[test]
fn neither_selects_tcp() {
    assert_eq!(
        select_endpoint(None, None, None, "127.0.0.1:8443"),
        Ok(Endpoint::Tcp { address: "127.0.0.1:8443".to_string() })
    );
    assert_eq!(
        select_endpoint(None, None, Some("10.0.0.1:9000".to_string()), "127.0.0.1:8443"),
        Ok(Endpoint::Tcp { address: "10.0.0.1:9000".to_string() })
    );
}

#[test]
fn one_without_the_other_is_a_configuration_error() {
    assert_eq!(
        select_endpoint(Some(16), None, None, "127.0.0.1:8443"),
        Err(ConfigurationError::EndpointIncomplete)
    );
    assert_eq!(
        select_endpoint(None, Some(8443), Some("10.0.0.1:9000".to_string()), "127.0.0.1:8443"),
        Err(ConfigurationError::EndpointIncomplete)
    );
}

#[test]
fn transport_of_a_listener() {
    assert_eq!(select_transport(false, false), Transport::Tcp);
    assert_eq!(select_transport(false, true), Transport::Tls);
    assert_eq!(select_transport(true, false), Transport::Vsock);
    assert_eq!(select_transport(true, true), Transport::Vsock);
}

#[test]
fn records_go_to_the_host_s_storage_port_by_default() {
    assert_eq!(select_storage_endpoint(None, None, None), Ok(Endpoint::Vsock { cid: 3, port: 7001 }));
}

#[test]
fn records_go_where_the_configuration_says() {
    assert_eq!(
        select_storage_endpoint(Some(5), Some(9000), None),
        Ok(Endpoint::Vsock { cid: 5, port: 9000 })
    );
    assert_eq!(
        select_storage_endpoint(None, None, Some("127.0.0.1:7001".to_string())),
        Ok(Endpoint::Tcp { address: "127.0.0.1:7001".to_string() })
    );
    assert_eq!(
        select_storage_endpoint(Some(5), Some(9000), Some("127.0.0.1:7001".to_string())),
        Ok(Endpoint::Vsock { cid: 5, port: 9000 })
    );
}

#[test]
fn storage_with_half_an_endpoint_is_a_configuration_error() {
    assert_eq!(
        select_storage_endpoint(Some(5), None, None),
        Err(ConfigurationError::EndpointIncomplete)
    );
    assert_eq!(
        select_storage_endpoint(None, Some(9000), Some("127.0.0.1:7001".to_string())),
        Err(ConfigurationError::EndpointIncomplete)
    );
}
