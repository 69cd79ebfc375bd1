use spud::discovery::{
    bind_options, discovered_server, display_endpoint, is_usable, list_interface_addrs, order_server_addrs,
    read_flag, resolve_icon, strip_service_type, trim_trailing_dots, IpAddress, ResolvedService, icon_property,
    bool_property, local_fqdn, advertises_all_interfaces, service_fullname, instance_name, registration_properties,
};
use spud::config::ServerIcon;
use spud::icons;
use spud::text::truncate;

fn v4(a: u8, b: u8, c: u8, d: u8) -> IpAddress {
    IpAddress::V4([a, b, c, d])
}

#[test]
fn only_usable_addresses_are_offered() {
    assert!(!is_usable(&v4(127, 0, 0, 1)));
    assert!(!is_usable(&v4(169, 254, 1, 1)));
    assert!(!is_usable(&v4(224, 0, 0, 251)));
    assert!(!is_usable(&v4(0, 0, 0, 0)));
    assert!(is_usable(&v4(192, 168, 1, 2)));
    assert!(!is_usable(&IpAddress::V6([0xfe80, 0, 0, 0, 0, 0, 0, 1])));
    assert!(is_usable(&IpAddress::V6([0x2001, 0xdb8, 0, 0, 0, 0, 0, 1])));
}

#[test]
fn addresses_are_ordered_v4_first() {
    let v6 = IpAddress::V6([0x2001, 0xdb8, 0, 0, 0, 0, 0, 1]);
    let addrs = [v6, v4(10, 0, 0, 2), v4(127, 0, 0, 1), v4(10, 0, 0, 1), v4(10, 0, 0, 2)];
    assert_eq!(order_server_addrs(&addrs), vec![v4(10, 0, 0, 1), v4(10, 0, 0, 2), v4(10, 0, 0, 2), v6]);
    assert_eq!(list_interface_addrs(&addrs), vec![v4(10, 0, 0, 1), v4(10, 0, 0, 2), v6]);
}

#[test]
fn endpoints_and_names() {
    assert_eq!(display_endpoint("", 7878), "0.0.0.0:7878");
    assert_eq!(display_endpoint("10.1.2.3", 80), "10.1.2.3:80");
    assert_eq!(strip_service_type("desk._spud._tcp.local."), "desk");
    assert_eq!(strip_service_type("other"), "other");
    assert_eq!(bind_options(&vec!["10.0.0.1".to_string()]), vec!["0.0.0.0".to_string(), "10.0.0.1".to_string()]);
    assert_eq!(resolve_icon(Some("laptop")), icons::LAPTOP);
    assert_eq!(resolve_icon(Some("toaster")), icons::DESKTOP);
    assert_eq!(resolve_icon(None), icons::DESKTOP);
    assert!(read_flag(Some("true")));
    assert!(!read_flag(Some("True")));
    assert!(!read_flag(None));
    assert_eq!(trim_trailing_dots("host.local.."), "host.local");
    assert_eq!(trim_trailing_dots("..."), "");
}

#[test]
fn resolved_service_becomes_a_server() {
    let info = ResolvedService {
        fullname: "desk._spud._tcp.local.".to_string(),
        hostname: "desk.local.".to_string(),
        port: 7878,
        addresses: vec![
            (IpAddress::V6([0x2001, 0xdb8, 0, 0, 0, 0, 0, 1]), "2001:db8::1".to_string()),
            (v4(127, 0, 0, 1), "127.0.0.1".to_string()),
            (v4(192, 168, 1, 9), "192.168.1.9".to_string()),
        ],
        name_property: None,
        hostname_property: None,
        icon_property: Some("server".to_string()),
        auth_property: Some("true".to_string()),
        encrypt_property: Some("false".to_string()),
    };
    let d = discovered_server(&info);
    assert_eq!(d.name, "desk");
    assert_eq!(d.host, "desk.local");
    assert_eq!(d.port, "7878");
    assert_eq!(d.address, "desk.local:7878");
    assert_eq!(d.addrs.len(), 2);
    assert_eq!(d.addrs[0], (v4(192, 168, 1, 9), 7878));
    assert_eq!(d.first_ip_text.as_deref(), Some("192.168.1.9"));
    assert_eq!(d.icon, icons::SERVER);
    assert!(d.auth);
    assert!(!d.encrypt);
}

#[test]
fn labels_are_truncated_with_an_ellipsis() {
    assert_eq!(truncate("short", 10), ("short".to_string(), false));
    assert_eq!(truncate("exactly10!", 10), ("exactly10!".to_string(), false));
    assert_eq!(truncate("a rather long name", 10), ("a rathe...".to_string(), true));
    assert_eq!(truncate("abcdef", 2), ("...".to_string(), true));
    assert_eq!(truncate("héllo wörld", 8), ("héllo...".to_string(), true));
}

#[test]
fn registration_properties_read_back() {
    assert_eq!(icon_property(ServerIcon::Laptop), "laptop");
    assert_eq!(resolve_icon(Some(icon_property(ServerIcon::Server))), icons::SERVER);
    assert!(read_flag(Some(bool_property(true))));
    assert!(!read_flag(Some(bool_property(false))));
    assert_eq!(local_fqdn("box"), "box.local.");
    assert!(advertises_all_interfaces(""));
    assert!(advertises_all_interfaces("::"));
    assert!(!advertises_all_interfaces("10.0.0.1"));
}

#[test]
fn full_service_name_strips_back_to_the_instance() {
    let full = service_fullname("box", 7878, 4242);
    assert_eq!(full, "box-7878-4242._spud._tcp.local.");
    assert_eq!(strip_service_type(&full), instance_name("box", 7878, 4242));
    let props = registration_properties("box", ServerIcon::Desktop, true, false, "box.local.");
    assert_eq!(props[0], ("icon".to_string(), "desktop".to_string()));
    assert_eq!(props[2].1, "true");
    assert_eq!(props[3].1, "false");
}
