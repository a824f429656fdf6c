use ethercat_hal::irq::{get_interface_irq, parse_u32, set_irq_affinity, IrqError};

const PROC_INTERRUPTS: &str = "           CPU0       CPU1\n  \
  0:         36          0   IO-APIC   2-edge      timer\n \
124:     123456          0   PCI-MSI 1048576-edge      eno1\r\n \
125:          5          0   PCI-MSI 1048577-edge      enp2s0\n \
NMI:          0          0   Non-maskable interrupts\n";

#[test]
fn finds_the_irq_of_an_interface() {
    assert_eq!(get_interface_irq(PROC_INTERRUPTS.as_bytes(), b"eno1"), Some(124));
    assert_eq!(get_interface_irq(PROC_INTERRUPTS.as_bytes(), b"enp2s0"), Some(125));
    assert_eq!(get_interface_irq(PROC_INTERRUPTS.as_bytes(), b"wlan0"), None);
}

/// A line that names the interface but has no number before its colon is
/// skipped.
#[test]
fn lines_without_a_number_are_skipped() {
    let text = "NMI: eth0 stuff\n 42: eth0\n";
    assert_eq!(get_interface_irq(text.as_bytes(), b"eth0"), Some(42));
    assert_eq!(get_interface_irq(b"eth0 has no colon\n", b"eth0"), None);
}

#[test]
fn parses_like_str_parse() {
    assert_eq!(parse_u32(b"4294967295"), Some(u32::MAX));
    assert_eq!(parse_u32(b"4294967296"), None);
    assert_eq!(parse_u32(b"+7"), Some(7));
    assert_eq!(parse_u32(b""), None);
    assert_eq!(parse_u32(b"+"), None);
    assert_eq!(parse_u32(b"1 2"), None);
}

#[test]
fn affinity_write_names_the_irq_file() {
    let w = set_irq_affinity(PROC_INTERRUPTS.as_bytes(), b"eno1", 2).unwrap();
    assert_eq!(w.path, "/proc/irq/124/smp_affinity_list");
    assert_eq!(w.cpu_list, "2");
    assert!(matches!(
        set_irq_affinity(PROC_INTERRUPTS.as_bytes(), b"wlan0", 2),
        Err(IrqError::IrqNotFound)
    ));
}
