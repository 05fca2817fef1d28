use ur_script::connection::{Connection, Interface, Mode};

#[test]
fn port_table() {
    let ip: [u8; 4] = [10, 0, 0, 2];
    let pairs: [(Interface, Mode, u16); 8] = [
        (Interface::Primary, Mode::ReadOnly, 30001),
        (Interface::Primary, Mode::ReadWrite, 30011),
        (Interface::Secondary, Mode::ReadOnly, 30002),
        (Interface::Secondary, Mode::ReadWrite, 30012),
        (Interface::RealTime, Mode::ReadOnly, 30003),
        (Interface::RealTime, Mode::ReadWrite, 30013),
        (Interface::RTDE, Mode::ReadOnly, 30004),
        (Interface::RTDE, Mode::ReadWrite, 30004),
    ];
    for (interface, mode, expected) in pairs {
        assert_eq!(Connection::new_ip(interface, mode, &ip).port(), expected);
        assert_eq!(Connection::new_hostname(interface, mode, "ur-0123456789").port(), expected);
    }
}

#[test]
fn rtde_ignores_mode() {
    let ip: [u8; 4] = [192, 168, 1, 30];
    let read = Connection::new_ip(Interface::RTDE, Mode::ReadOnly, &ip);
    let write = Connection::new_ip(Interface::RTDE, Mode::ReadWrite, &ip);
    assert_eq!(read.port(), write.port());
    assert_eq!(read.port(), 30004);
}

#[test]
fn period_and_frequency() {
    assert_eq!(Interface::Primary.period(), 100);
    assert_eq!(Interface::Secondary.period(), 100);
    assert_eq!(Interface::RealTime.period(), 2);
    assert_eq!(Interface::RTDE.period(), 2);

    assert_eq!(Interface::Primary.frequency(), 10);
    assert_eq!(Interface::Secondary.frequency(), 10);
    assert_eq!(Interface::RealTime.frequency(), 500);
    assert_eq!(Interface::RTDE.frequency(), 500);
}

#[test]
fn read_only_tracks_mode() {
    let ip: [u8; 4] = [192, 168, 1, 30];
    assert!(Connection::new_ip(Interface::Primary, Mode::ReadOnly, &ip).read_only());
    assert!(!Connection::new_ip(Interface::Primary, Mode::ReadWrite, &ip).read_only());
}

#[test]
fn interface_is_kept() {
    let ip: [u8; 4] = [192, 168, 1, 30];
    assert_eq!(Connection::new_ip(Interface::RealTime, Mode::ReadOnly, &ip).interface(), Interface::RealTime);
    assert_eq!(Connection::new_hostname(Interface::RTDE, Mode::ReadOnly, "ur-0123456789").interface(), Interface::RTDE);
}

#[test]
fn address_exclusive_ip() {
    let ip: [u8; 4] = [172, 16, 5, 9];
    let c = Connection::new_ip(Interface::Secondary, Mode::ReadWrite, &ip);
    assert_eq!(c.ip_octet(), Some(&ip));
    assert_eq!(c.host_name(), None);
}

#[test]
fn address_exclusive_hostname() {
    let c = Connection::new_hostname(Interface::Secondary, Mode::ReadWrite, "ur-20195501234");
    assert_eq!(c.host_name(), Some("ur-20195501234"));
    assert_eq!(c.ip_octet(), None);
}

#[test]
fn default_connection() {
    let c = Connection::default();
    assert_eq!(c.interface(), Interface::Secondary);
    assert!(c.read_only());
    assert_eq!(c.port(), 30002);
    assert_eq!(c.ip_octet(), Some(&[0, 0, 0, 0]));
    assert_eq!(c.host_name(), None);
}
