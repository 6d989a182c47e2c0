use sysmon::sys_info::{
    get_current_net_totals, should_skip_interface, speed_unit_from_str, sum_counted_traffic,
    speed_unit_to_string, InterfaceCounters, NetSampler, SpeedUnit,
};

fn iface(name: &str, received: u64, transmitted: u64) -> InterfaceCounters {
    InterfaceCounters { name: name.to_string(), received, transmitted }
}

#[test]
fn virtual_and_loopback_interfaces_are_skipped() {
    assert!(should_skip_interface("Loopback Pseudo-Interface 1"));
    assert!(should_skip_interface("lo"));
    assert!(should_skip_interface("lo0"));
    assert!(should_skip_interface("local-bridge"));
    assert!(should_skip_interface("vEthernet (WSL)"));
    assert!(should_skip_interface("Hyper-V Virtual Ethernet Adapter"));
    assert!(should_skip_interface("veth1234"));
    assert!(should_skip_interface("docker0"));
    assert!(should_skip_interface("VMware vnic"));
    assert!(!should_skip_interface("Ethernet"));
    assert!(!should_skip_interface("Wi-Fi"));
    assert!(!should_skip_interface("eth0"));
    assert!(!should_skip_interface("wlan0"));
    assert!(!should_skip_interface("my-lo"));
    assert!(!should_skip_interface(""));
}

#[test]
fn totals_sum_only_counted_interfaces() {
    let entries = vec![
        iface("Ethernet", 1000, 200),
        iface("lo", 5000, 5000),
        iface("Wi-Fi", 24, 6),
        iface("docker0", 7, 7),
    ];
    assert_eq!(sum_counted_traffic(&entries), Some((1024, 206)));
    assert_eq!(sum_counted_traffic(&[]), Some((0, 0)));
}

#[test]
fn totals_do_not_depend_on_order() {
    let a = vec![iface("eth0", 1, 10), iface("wlan0", 2, 20), iface("lo", 4, 40)];
    let b = vec![iface("lo", 4, 40), iface("wlan0", 2, 20), iface("eth0", 1, 10)];
    assert_eq!(sum_counted_traffic(&a), sum_counted_traffic(&b));
    assert_eq!(sum_counted_traffic(&a), Some((3, 30)));
}

#[test]
fn totals_beyond_u64_are_reported() {
    let entries = vec![iface("eth0", u64::MAX, 1), iface("wlan0", 1, 1)];
    assert_eq!(sum_counted_traffic(&entries), None);
    let just_fits = vec![iface("eth0", u64::MAX - 1, 0), iface("wlan0", 1, 0)];
    assert_eq!(sum_counted_traffic(&just_fits), Some((u64::MAX, 0)));
    let skipped_overflow = vec![iface("eth0", u64::MAX, 0), iface("lo", 1, 0)];
    assert_eq!(sum_counted_traffic(&skipped_overflow), Some((u64::MAX, 0)));
}

#[test]
fn totals_of_the_system_interfaces() {
    let networks = sysinfo::Networks::new_with_refreshed_list();
    let mut received: u64 = 0;
    let mut transmitted: u64 = 0;
    for (name, data) in &networks {
        if !should_skip_interface(name) {
            received += data.total_received();
            transmitted += data.total_transmitted();
        }
    }
    assert_eq!(get_current_net_totals(&networks), Some((received, transmitted)));
}

#[test]
fn sampler_yields_deltas_and_remembers_totals() {
    let mut sampler = NetSampler::new(100, 50);
    assert_eq!(sampler.sample(1100, 80, 1_500_000_000), Some((1000, 30)));
    assert_eq!((sampler.prev_received, sampler.prev_transmitted), (1100, 80));
    assert_eq!(sampler.sample(1600, 90, 1_000_000), Some((500, 10)));
}

#[test]
fn sampler_ignores_intervals_under_a_millisecond() {
    let mut sampler = NetSampler::new(100, 50);
    assert_eq!(sampler.sample(900, 900, 999_999), None);
    assert_eq!((sampler.prev_received, sampler.prev_transmitted), (100, 50));
    assert_eq!(sampler.sample(900, 900, 0), None);
    assert_eq!(sampler.sample(900, 900, 1_000_000), Some((800, 850)));
}

#[test]
fn sampler_deltas_never_go_negative() {
    let mut sampler = NetSampler::new(1000, 1000);
    assert_eq!(sampler.sample(10, 2000, 2_000_000), Some((0, 1000)));
    assert_eq!((sampler.prev_received, sampler.prev_transmitted), (10, 2000));
}

#[test]
fn successive_deltas_add_up() {
    let mut sampler = NetSampler::new(0, 0);
    let first = sampler.sample(300, 40, 1_500_000_000).unwrap();
    let second = sampler.sample(1000, 100, 1_500_000_000).unwrap();
    assert_eq!(first.0 + second.0, 1000);
    assert_eq!(first.1 + second.1, 100);
}

#[test]
fn speed_units() {
    assert_eq!(speed_unit_from_str("kb"), SpeedUnit::Kb);
    assert_eq!(speed_unit_from_str("mb"), SpeedUnit::Mb);
    assert_eq!(speed_unit_from_str("auto"), SpeedUnit::Auto);
    assert_eq!(speed_unit_from_str("KB"), SpeedUnit::Auto);
    assert_eq!(speed_unit_from_str(""), SpeedUnit::Auto);
}

#[test]
fn speed_unit_names_round_trip() {
    for unit in [SpeedUnit::Kb, SpeedUnit::Mb, SpeedUnit::Auto] {
        assert_eq!(speed_unit_from_str(speed_unit_to_string(unit)), unit);
    }
    assert_eq!(speed_unit_to_string(SpeedUnit::Auto), "auto");
}
