use mybuds::handler::DeviceHandler;
use mybuds::models::{
    airpods_generic, freebuds_se2, is_known_device, profile_for_device, Transport,
};

fn names(p: &mybuds::models::DeviceProfile) -> Vec<&'static str> {
    p.handlers.iter().map(|h| h.handler_id()).collect()
}

#[test]
fn profiles_by_device_name() {
    assert_eq!(profile_for_device("HUAWEI FreeClip").name, "FreeBuds Pro 3");
    assert_eq!(profile_for_device("HUAWEI FreeBuds Pro").name, "FreeBuds Pro 2");
    assert_eq!(profile_for_device("HONOR Earbuds 2 Lite").name, "FreeBuds 4i");
    assert_eq!(profile_for_device("Jo's AirPods Pro").name, "AirPods Pro");
    assert_eq!(profile_for_device("AirPods Max").name, "AirPods Max");
    assert_eq!(profile_for_device("My AirPods").name, "AirPods");
    assert_eq!(profile_for_device("HUAWEI FreeBuds 7").name, "Generic Huawei");
    assert_eq!(profile_for_device("HUAWEI FreeBuds 5").transport, Transport::Rfcomm(1));
    assert_eq!(profile_for_device("AirPods").transport, Transport::L2cap(0x1001));
}

#[test]
fn profile_modules_in_order() {
    assert_eq!(
        names(&freebuds_se2()),
        vec![
            "device_info",
            "battery",
            "gesture_double",
            "gesture_triple",
            "gesture_long_split",
            "config_eq",
            "low_latency"
        ]
    );
    assert_eq!(names(&airpods_generic()), vec!["device_info", "battery", "ear_detection"]);
}

#[test]
fn known_device_names() {
    assert!(is_known_device("HUAWEI FreeBuds Pro 3"));
    assert!(is_known_device("HONOR Earbuds 2"));
    assert!(is_known_device("HUAWEI FreeLace Pro"));
    assert!(!is_known_device("AirPods Pro"));
    assert!(!is_known_device("HUAWEI Watch"));
}
