use waymon::collectors::net::NetDevStats;

#[test]
fn net_test_parse() -> Result<(), String> {
    let s = NetDevStats::parse(TEST_DATA);

    assert_eq!(s.interfaces.len(), 5);

    let lo = &s.interfaces.get("lo").ok_or("missing lo".to_string())?;
    assert_eq!(lo.rx_bytes, 9377566);
    assert_eq!(lo.rx_packets, 83111);
    assert_eq!(lo.rx_errs, 0);
    assert_eq!(lo.tx_bytes, 9377566);
    assert_eq!(lo.tx_packets, 83111);

    let wifi = &s.interfaces.get("wlp0s1").ok_or("missing wlp0s1".to_string())?;
    assert_eq!(wifi.rx_bytes, 5045788342);
    assert_eq!(wifi.rx_packets, 5352370);
    assert_eq!(wifi.rx_errs, 9);
    assert_eq!(wifi.rx_drop, 8);
    assert_eq!(wifi.rx_fifo, 7);
    assert_eq!(wifi.rx_frame, 6);
    assert_eq!(wifi.rx_compressed, 5);
    assert_eq!(wifi.rx_multicast, 4);
    assert_eq!(wifi.tx_bytes, 210809056);
    assert_eq!(wifi.tx_packets, 1073720);
    assert_eq!(wifi.tx_errs, 11);
    assert_eq!(wifi.tx_drop, 12);
    assert_eq!(wifi.tx_fifo, 13);
    assert_eq!(wifi.tx_colls, 14);
    assert_eq!(wifi.tx_carrier, 15);
    assert_eq!(wifi.tx_compressed, 16);

    let veth = &s.interfaces.get("veth1000_aBcD").ok_or("missing veth".to_string())?;
    assert_eq!(veth.rx_bytes, 219648629692);
    assert_eq!(veth.rx_packets, 6895126);
    assert_eq!(veth.tx_bytes, 330764094);
    assert_eq!(veth.tx_packets, 4126861);

    Ok(())
}

const TEST_DATA: &str = r#"
Inter-|   Receive                                                |  Transmit
 face |bytes    packets errs drop fifo frame compressed multicast|bytes    packets errs drop fifo colls carrier compressed
lo: 9377566   83111    0    0    0     0          0         0  9377566   83111    0    0    0     0       0          0
wlp0s1: 5045788342 5352370    9    8    7     6          5         4 210809056 1073720   11   12   13    14      15         16
lxcbr0: 219552097928 6895126    0    0    0     0          0       182 330664771 4126237    0    0    0     0       0          0
enx520123456789:       0       0    0    0    0     0          0         0        0       0    0    0    0     0       0          0
veth1000_aBcD: 219648629692 6895126    0    0    0     0          0         0 330764094 4126861    0    0    0     0       0          0
"#;
