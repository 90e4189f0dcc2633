use speednet::args::ArgsClient;

fn config(len: u64, bandwidth: Option<u64>, time: u64) -> ArgsClient {
    ArgsClient {
        hostname: "127.0.0.1".to_string(),
        port: 4000,
        parallel: 1,
        len,
        bandwidth,
        time,
        ..ArgsClient::default()
    }
}

#[test]
fn bufferlen_clamped_below() {
    assert_eq!(config(0, None, 10).get_bufferlen(), 10);
    assert_eq!(config(9, None, 10).get_bufferlen(), 10);
}

#[test]
fn bufferlen_identity_in_range() {
    assert_eq!(config(10, None, 10).get_bufferlen(), 10);
    assert_eq!(config(100000, None, 10).get_bufferlen(), 100000);
    assert_eq!(config(10000000, None, 10).get_bufferlen(), 10000000);
}

#[test]
fn bufferlen_clamped_above() {
    assert_eq!(config(10000001, None, 10).get_bufferlen(), 10000000);
    assert_eq!(config(u64::MAX, None, 10).get_bufferlen(), 10000000);
}

#[test]
fn bandwidth_defaults_to_unlimited() {
    assert_eq!(config(1000, None, 10).get_bandwidth(), 0);
    assert_eq!(config(1000, Some(8000), 10).get_bandwidth(), 8000);
}

#[test]
fn totalpackets_zero_without_bandwidth() {
    assert_eq!(config(1000, None, 10).get_totalpackets(), 0);
    assert_eq!(config(1000, Some(0), 10).get_totalpackets(), 0);
}

#[test]
fn totalpackets_formula() {
    // 3 s * 8000 bit/s / (8 * 1000 byte)
    assert_eq!(config(1000, Some(8000), 3).get_totalpackets(), 3);
    // 10 s * 1 Mbit/s / (8 * 100000 byte) = 12.5, rounded down
    assert_eq!(config(100000, Some(1000000), 10).get_totalpackets(), 12);
    // the clamped length is used: 1 s * 800 bit/s / (8 * 10 byte)
    assert_eq!(config(1, Some(800), 1).get_totalpackets(), 10);
}

#[test]
fn totalpackets_large_product() {
    // the product of time and bandwidth exceeds u64, the quotient does not
    let c = config(10000000, Some(u64::MAX), 16);
    assert_eq!(c.get_totalpackets(), ((16u128 * u64::MAX as u128) / 80000000u128) as u64);
}
