use ethercat_hal::interface_discovery::{
    contains_ethercat_frame, dedup_interfaces, ethercat_discovery_frame, is_wired_ethernet_device,
    order_interfaces, test_interface, DiscoveryError, Interface, LinkType,
};

fn iface(name: &str, link_type: LinkType) -> Interface {
    Interface {
        link_type,
        name: name.to_string(),
    }
}

#[test]
fn wired_devices_are_recognised() {
    assert!(is_wired_ethernet_device(b"eth0"));
    assert!(is_wired_ethernet_device(b"enp3s0"));
    assert!(is_wired_ethernet_device(b"EN0"));
    assert!(is_wired_ethernet_device(b"bond1"));
    assert!(!is_wired_ethernet_device(b"wlan0"));
    assert!(!is_wired_ethernet_device(b"lo"));
    assert!(!is_wired_ethernet_device(b"docker0"));
    assert!(!is_wired_ethernet_device(b"bridge100"));
}

#[test]
fn duplicates_keep_the_link_entry() {
    let d = dedup_interfaces(vec![
        iface("en0", LinkType::Ipv4),
        iface("lo0", LinkType::Ipv6),
        iface("en0", LinkType::Link),
        iface("en0", LinkType::Ipv6),
    ]);
    assert_eq!(d.len(), 2);
    assert_eq!(d[0].name, "en0");
    assert_eq!(d[0].link_type, LinkType::Link);
    assert_eq!(d[1].name, "lo0");
}

#[test]
fn wired_devices_come_first_names_reversed() {
    let ordered = order_interfaces(vec![
        iface("bridge0", LinkType::Link),
        iface("en1", LinkType::Link),
        iface("gif0", LinkType::Link),
        iface("en9", LinkType::Link),
        iface("en1", LinkType::Ipv4),
    ]);
    let names: Vec<&str> = ordered.iter().map(|i| i.name.as_str()).collect();
    assert_eq!(names, vec!["en9", "en1", "gif0", "bridge0"]);
}

#[test]
fn discovery_reply_must_be_ethercat() {
    let frame = ethercat_discovery_frame();
    assert_eq!(frame.len(), 29);
    assert_eq!(test_interface(&frame), Ok(()));
    assert_eq!(test_interface(&[]), Err(DiscoveryError::NotEtherCat));
    assert_eq!(test_interface(&frame[..13]), Err(DiscoveryError::NotEtherCat));
    let mut ip = frame.clone();
    ip[12] = 0x08;
    ip[13] = 0x00;
    assert_eq!(test_interface(&ip), Err(DiscoveryError::NotEtherCat));
}

fn bpf_record(frame: &[u8]) -> Vec<u8> {
    let mut r = vec![0u8; 18];
    let caplen = frame.len() as u32;
    r[12..16].copy_from_slice(&caplen.to_le_bytes());
    r[16..18].copy_from_slice(&18u16.to_le_bytes());
    r.extend_from_slice(frame);
    while r.len() % 4 != 0 {
        r.push(0);
    }
    r
}

#[test]
fn bpf_buffers_are_scanned_record_by_record() {
    let frame = ethercat_discovery_frame();
    let mut other = frame.clone();
    other[12] = 0x08;
    let mut buf = bpf_record(&other);
    assert!(!contains_ethercat_frame(&buf));
    buf.extend_from_slice(&bpf_record(&frame));
    assert!(contains_ethercat_frame(&buf));
    // a truncated record ends the scan
    let cut = bpf_record(&frame);
    assert!(!contains_ethercat_frame(&cut[..30]));
}
