use lego_powered_up::consts::{HubType, LPF2_HUB_SERVICE, WEDO2_SMART_HUB_SERVICE};
use lego_powered_up::discovery::{identify_hub, scan_step, DiscoveredHub, HubFilter};

fn hub(name: &str, addr: &str) -> DiscoveredHub {
    DiscoveredHub { hub_type: HubType::TechnicMediumHub, addr: addr.to_string(), name: name.to_string() }
}

#[test]
fn filter_by_name_address_or_none() {
    let h = hub("Technic Hub", "90:84:2B:60:3C:B8");
    assert!(HubFilter::Name("Technic Hub".to_string()).matches(&h));
    assert!(!HubFilter::Name("Other".to_string()).matches(&h));
    assert!(HubFilter::Addr("90:84:2B:60:3C:B8".to_string()).matches(&h));
    assert!(!HubFilter::Addr("90:84:2B:60:3A:6C".to_string()).matches(&h));
    assert!(HubFilter::Null.matches(&h));
}

#[test]
fn identify_by_service_and_manufacturer_data() {
    let lpf2 = vec![LPF2_HUB_SERVICE];
    assert_eq!(identify_hub(&vec![0x1234, WEDO2_SMART_HUB_SERVICE], None), Some(HubType::Wedo2SmartHub));
    assert_eq!(identify_hub(&lpf2, Some(&vec![0x00, 0x80, 0x06])), Some(HubType::TechnicMediumHub));
    assert_eq!(identify_hub(&lpf2, Some(&vec![0x00, 0x40])), Some(HubType::MoveHub));
    assert_eq!(identify_hub(&lpf2, Some(&vec![0x00, 0x42])), Some(HubType::RemoteControl));
    assert_eq!(identify_hub(&lpf2, Some(&vec![0x00, 0x99])), None);
    assert_eq!(identify_hub(&lpf2, Some(&vec![0x00])), None);
    assert_eq!(identify_hub(&lpf2, None), None);
    assert_eq!(identify_hub(&vec![], Some(&vec![0x00, 0x80])), None);
}

#[test]
fn scan_stops_at_count() {
    let named = HubFilter::Name("A".to_string());
    assert_eq!(scan_step(&named, &hub("A", "x"), 0, 2), (true, false));
    assert_eq!(scan_step(&named, &hub("B", "y"), 1, 2), (false, false));
    assert_eq!(scan_step(&named, &hub("A", "z"), 1, 2), (true, true));
    assert_eq!(scan_step(&HubFilter::Null, &hub("C", "w"), 0, 1), (true, true));
}
