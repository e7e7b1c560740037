use os_kit::ports::ports_from_scan;
use os_kit::PortInfo;
use os_kit::RawPort;

#[test]
fn test_serial_port_list_empty() {
    let ports = os_kit::serial_port_list();
    assert!(ports.is_empty() || !ports.is_empty());
    let _: Vec<PortInfo> = ports;
}

#[test]
fn test_ports_from_scan_keeps_usb_under_scan_index() {
    let raw = vec![
        RawPort {
            name: "/dev/ttyS0".to_string(),
            is_usb: false,
            manufacturer: None,
        },
        RawPort {
            name: "/dev/ttyUSB0".to_string(),
            is_usb: true,
            manufacturer: Some("Acme".to_string()),
        },
        RawPort {
            name: "/dev/ttyUSB1".to_string(),
            is_usb: true,
            manufacturer: None,
        },
    ];
    let ports = ports_from_scan(raw);
    assert_eq!(ports.len(), 2);
    assert_eq!(ports[0].id(), 1);
    assert_eq!(ports[0].label(), "/dev/ttyUSB0");
    assert_eq!(ports[0].desc(), "Acme");
    assert_eq!(ports[1].id(), 2);
    assert_eq!(ports[1].label(), "/dev/ttyUSB1");
    assert_eq!(ports[1].desc(), "unknown");
}

#[test]
fn test_ports_from_scan_empty() {
    let ports = ports_from_scan(Vec::new());
    assert!(ports.is_empty());
}

#[test]
fn test_nets_with_ids_numbers_from_one() {
    let nets = os_kit::nets_with_ids(vec![
        ("eth0".to_string(), "aa:bb:cc:dd:ee:ff".to_string()),
        ("lo".to_string(), "00:00:00:00:00:00".to_string()),
    ]);
    assert_eq!(nets.len(), 2);
    assert_eq!(nets[0].id, 1);
    assert_eq!(nets[0].name, "eth0");
    assert_eq!(nets[0].mac, "aa:bb:cc:dd:ee:ff");
    assert_eq!(nets[1].id, 2);
    assert_eq!(nets[1].name, "lo");
}
