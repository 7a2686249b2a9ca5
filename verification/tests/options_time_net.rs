use byor::fs::OpenOptions;
use byor::net::{
    get_socket_addrs, IpAddr, Ipv4Addr, Ipv6Addr, Resolution, SocketAddr, SocketAddrV4,
    SocketAddrsKind, ToSocketAddrs,
};
use byor::time::{sleep_elapsed, wake_at, Interval};
use byor::Suspend;

#[test]
fn open_options_plain_read() {
    let mut o = OpenOptions::new();
    o.read(true);
    let d = o.resolve().expect("read access alone is valid");
    assert!(d.readable);
    assert!(!d.writable);
    assert!(!d.creates);
    assert!(!d.truncates);
    assert!(!d.exclusive);
}

#[test]
fn open_options_create_requires_write() {
    let mut o = OpenOptions::new();
    o.read(true);
    o.create(true);
    assert!(o.resolve().is_err());
    o.write(true);
    let d = o.resolve().expect("create with write is valid");
    assert!(d.creates);
    assert!(d.writable);
}

#[test]
fn open_options_append_implies_write_access() {
    let mut o = OpenOptions::new();
    o.append(true);
    let d = o.resolve().expect("append alone is valid");
    assert!(d.writable);
    assert!(d.appends);
}

#[test]
fn open_options_append_truncate_invalid() {
    let mut o = OpenOptions::new();
    o.append(true);
    o.truncate(true);
    assert!(o.resolve().is_err());
}

#[test]
fn open_options_no_access_invalid() {
    let o = OpenOptions::default();
    assert!(o.resolve().is_err());
}

#[test]
fn open_options_create_new_dominates() {
    let mut o = OpenOptions::new();
    o.write(true);
    o.create(false);
    o.truncate(true);
    o.create_new(true);
    let d = o.resolve().expect("exclusive creation with write is valid");
    // create_new makes create and truncate ignored.
    assert!(d.exclusive);
    assert!(d.creates);
    assert!(!d.truncates);
}

#[test]
fn interval_ticks_and_coalesces() {
    let mut iv = Interval::interval_at(100, 10);
    assert!(matches!(iv.poll_tick(99), Suspend::Pending));
    assert!(matches!(iv.poll_tick(100), Suspend::Ready(100)));
    assert!(matches!(iv.poll_tick(105), Suspend::Pending));
    // A consumer far behind sees one coalesced tick, not a burst.
    assert!(matches!(iv.poll_tick(500), Suspend::Ready(110)));
    assert!(matches!(iv.poll_tick(505), Suspend::Pending));
    assert!(matches!(iv.poll_tick(510), Suspend::Ready(510)));
}

#[test]
fn interval_first_tick_one_period_out() {
    let mut iv = Interval::interval(1000, 50);
    assert!(matches!(iv.poll_tick(1049), Suspend::Pending));
    assert!(matches!(iv.poll_tick(1050), Suspend::Ready(1050)));
}

#[test]
fn sleep_deadline_saturates() {
    assert_eq!(wake_at(10, 5), 15);
    assert_eq!(wake_at(u64::MAX - 3, 10), u64::MAX);
    assert!(!sleep_elapsed(15, 14));
    assert!(sleep_elapsed(15, 15));
    assert!(sleep_elapsed(15, 400));
}

fn v4(a: u8, b: u8, c: u8, d: u8, port: u16) -> SocketAddrV4 {
    SocketAddrV4 { ip: Ipv4Addr { octets: [a, b, c, d] }, port }
}

#[test]
fn literal_forms_resolve_without_lookup() {
    let addr = v4(127, 0, 0, 1, 8080);
    match get_socket_addrs(addr.kind()) {
        Resolution::Resolved(v) => {
            assert_eq!(v.len(), 1);
            assert_eq!(v[0].port(), 8080);
        },
        _ => panic!("a concrete address needs no lookup"),
    }
    let ip = IpAddr::V6(Ipv6Addr { segments: [0, 0, 0, 0, 0, 0, 0, 1] });
    match get_socket_addrs((ip, 443).kind()) {
        Resolution::Resolved(v) => {
            assert_eq!(v.len(), 1);
            assert_eq!(v[0].port(), 443);
        },
        _ => panic!("an ip with port needs no lookup"),
    }
}

#[test]
fn slice_form_keeps_order() {
    let a = SocketAddr::V4(v4(10, 0, 0, 1, 1000));
    let b = SocketAddr::V4(v4(10, 0, 0, 2, 2000));
    match get_socket_addrs(SocketAddrsKind::Slice(vec![a, b])) {
        Resolution::Resolved(v) => {
            assert_eq!(v.len(), 2);
            assert_eq!(v[0].port(), 1000);
            assert_eq!(v[1].port(), 2000);
        },
        _ => panic!("a slice of addresses needs no lookup"),
    }
}

#[test]
fn host_forms_go_to_the_resolver() {
    match get_socket_addrs(SocketAddrsKind::Str(String::from("localhost:80"))) {
        Resolution::Host(h) => assert_eq!(h, "localhost:80"),
        _ => panic!("a bare string is the resolver's to answer"),
    }
    match get_socket_addrs(SocketAddrsKind::StrPort(String::from("localhost"), 80)) {
        Resolution::HostPort(h, p) => {
            assert_eq!(h, "localhost");
            assert_eq!(p, 80);
        },
        _ => panic!("a host with port is the resolver's to answer"),
    }
}
