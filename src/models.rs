//! Device profiles: for each known model, its transport and its feature
//! modules in registration order.

use vstd::prelude::*;

use crate::airpods::{
    AirPodsAncHandler, AirPodsBatteryHandler, AirPodsConversationAwarenessHandler,
    AirPodsEarDetectionHandler, AirPodsInfoHandler, AirPodsPersonalizedVolumeHandler,
};
use crate::anc::{AncHandler, AncLegacyChangeHandler};
use crate::battery::BatteryHandler;
use crate::config::{AutoPauseHandler, LowLatencyHandler, SoundQualityHandler};
use crate::dual_connect::DualConnectHandler;
use crate::equalizer::EqualizerHandler;
use crate::gestures::{LongTapSplitHandler, SwipeGestureHandler, TapActionHandler};
use crate::handler::{str_eq, DeviceHandler};
use crate::info::InfoHandler;
use crate::modules::Module;
use crate::text::{contains, occurs_at, starts_with};
use vstd::string::StringSliceAdditionalSpecFns;

verus! {

/// The link a device is reached over.
#[derive(Debug, Clone, Copy, PartialEq, Eq, Structural)]
pub enum Transport {
    /// The byte-stream link, on a channel.
    Rfcomm(u16),
    /// The message link, on a PSM.
    L2cap(u16),
}

/// A model's transport and feature modules.
pub struct DeviceProfile {
    pub name: &'static str,
    pub transport: Transport,
    pub handlers: Vec<Module>,
}

/// The names of some modules, in order.
pub open spec fn module_names(s: Seq<Module>) -> Seq<Seq<char>> {
    s.map_values(|m: Module| m.name())
}

proof fn lemma_tap_prefixes()
    ensures
        "triple_tap"@ != "double_tap"@,
{
    reveal_strlit("triple_tap");
    reveal_strlit("double_tap");
    assert("triple_tap"@[0] != "double_tap"@[0]);
}

/// FreeBuds Pro 3, Pro 4 and FreeClip.
pub fn freebuds_pro3() -> (r: DeviceProfile)
    ensures
        r.name@ == "FreeBuds Pro 3"@,
        r.transport == Transport::Rfcomm(1),
        module_names(r.handlers@) == seq![
                "device_info"@,
                "anc"@,
                "anc_change"@,
                "battery"@,
                "config_sound_quality"@,
                "config_eq"@,
                "tws_auto_pause"@,
                "dual_connect"@,
                "gesture_double"@,
                "gesture_long_split"@,
                "gesture_swipe"@,
                "low_latency"@,
            ],
{
    proof {
        lemma_tap_prefixes();
    }
    let handlers = vec![
            Module::Info(InfoHandler),
            Module::Anc(AncHandler::new(true, true, true)),
            Module::AncChange(AncLegacyChangeHandler),
            Module::Battery(BatteryHandler::new(true)),
            Module::SoundQuality(SoundQualityHandler),
            Module::Equalizer(EqualizerHandler::with_presets(vec![(5, "default"), (1, "hardbass"), (2, "treble"), (9, "voice")])),
            Module::AutoPause(AutoPauseHandler),
            Module::DualConnect(DualConnectHandler::new(true)),
            Module::Tap(TapActionHandler::double_tap(false)),
            Module::LongTap(LongTapSplitHandler::new(true, true, false, true)),
            Module::Swipe(SwipeGestureHandler),
            Module::LowLatency(LowLatencyHandler),
    ];
    assert(module_names(handlers@) =~= seq![
                "device_info"@,
                "anc"@,
                "anc_change"@,
                "battery"@,
                "config_sound_quality"@,
                "config_eq"@,
                "tws_auto_pause"@,
                "dual_connect"@,
                "gesture_double"@,
                "gesture_long_split"@,
                "gesture_swipe"@,
                "low_latency"@,
    ]);
    DeviceProfile { name: "FreeBuds Pro 3", transport: Transport::Rfcomm(1), handlers }
}

/// FreeBuds Pro 2 and Pro.
pub fn freebuds_pro2() -> (r: DeviceProfile)
    ensures
        r.name@ == "FreeBuds Pro 2"@,
        r.transport == Transport::Rfcomm(16),
        module_names(r.handlers@) == seq![
                "device_info"@,
                "anc"@,
                "anc_change"@,
                "battery"@,
                "config_sound_quality"@,
                "config_eq"@,
                "tws_auto_pause"@,
                "dual_connect"@,
                "gesture_double"@,
                "gesture_long_split"@,
                "gesture_swipe"@,
                "low_latency"@,
            ],
{
    proof {
        lemma_tap_prefixes();
    }
    let handlers = vec![
            Module::Info(InfoHandler),
            Module::Anc(AncHandler::new(true, true, true)),
            Module::AncChange(AncLegacyChangeHandler),
            Module::Battery(BatteryHandler::new(true)),
            Module::SoundQuality(SoundQualityHandler),
            Module::Equalizer(EqualizerHandler::with_presets(vec![(5, "default"), (1, "hardbass"), (2, "treble"), (9, "voice")])),
            Module::AutoPause(AutoPauseHandler),
            Module::DualConnect(DualConnectHandler::new(true)),
            Module::Tap(TapActionHandler::double_tap(false)),
            Module::LongTap(LongTapSplitHandler::new(true, true, false, true)),
            Module::Swipe(SwipeGestureHandler),
            Module::LowLatency(LowLatencyHandler),
    ];
    assert(module_names(handlers@) =~= seq![
                "device_info"@,
                "anc"@,
                "anc_change"@,
                "battery"@,
                "config_sound_quality"@,
                "config_eq"@,
                "tws_auto_pause"@,
                "dual_connect"@,
                "gesture_double"@,
                "gesture_long_split"@,
                "gesture_swipe"@,
                "low_latency"@,
    ]);
    DeviceProfile { name: "FreeBuds Pro 2", transport: Transport::Rfcomm(16), handlers }
}

/// FreeBuds 5i.
pub fn freebuds_5i() -> (r: DeviceProfile)
    ensures
        r.name@ == "FreeBuds 5i"@,
        r.transport == Transport::Rfcomm(16),
        module_names(r.handlers@) == seq![
                "device_info"@,
                "battery"@,
                "anc"@,
                "anc_change"@,
                "gesture_double"@,
                "gesture_triple"@,
                "gesture_long_split"@,
                "gesture_swipe"@,
                "tws_auto_pause"@,
                "config_sound_quality"@,
                "low_latency"@,
                "config_eq"@,
                "dual_connect"@,
            ],
{
    proof {
        lemma_tap_prefixes();
    }
    let handlers = vec![
            Module::Info(InfoHandler),
            Module::Battery(BatteryHandler::new(true)),
            Module::Anc(AncHandler::new(true, true, false)),
            Module::AncChange(AncLegacyChangeHandler),
            Module::Tap(TapActionHandler::double_tap(true)),
            Module::Tap(TapActionHandler::triple_tap()),
            Module::LongTap(LongTapSplitHandler::new(true, true, false, true)),
            Module::Swipe(SwipeGestureHandler),
            Module::AutoPause(AutoPauseHandler),
            Module::SoundQuality(SoundQualityHandler),
            Module::LowLatency(LowLatencyHandler),
            Module::Equalizer(EqualizerHandler::with_presets(vec![(1, "default"), (2, "hardbass"), (3, "treble"), (9, "voices")])),
            Module::DualConnect(DualConnectHandler::new(true)),
    ];
    assert(module_names(handlers@) =~= seq![
                "device_info"@,
                "battery"@,
                "anc"@,
                "anc_change"@,
                "gesture_double"@,
                "gesture_triple"@,
                "gesture_long_split"@,
                "gesture_swipe"@,
                "tws_auto_pause"@,
                "config_sound_quality"@,
                "low_latency"@,
                "config_eq"@,
                "dual_connect"@,
    ]);
    DeviceProfile { name: "FreeBuds 5i", transport: Transport::Rfcomm(16), handlers }
}

/// FreeBuds 6i.
pub fn freebuds_6i() -> (r: DeviceProfile)
    ensures
        r.name@ == "FreeBuds 6i"@,
        r.transport == Transport::Rfcomm(16),
        module_names(r.handlers@) == seq![
                "device_info"@,
                "battery"@,
                "anc"@,
                "anc_change"@,
                "gesture_double"@,
                "gesture_triple"@,
                "gesture_long_split"@,
                "gesture_swipe"@,
                "tws_auto_pause"@,
                "config_sound_quality"@,
                "low_latency"@,
                "config_eq"@,
                "dual_connect"@,
            ],
{
    proof {
        lemma_tap_prefixes();
    }
    let handlers = vec![
            Module::Info(InfoHandler),
            Module::Battery(BatteryHandler::new(true)),
            Module::Anc(AncHandler::new(true, true, false)),
            Module::AncChange(AncLegacyChangeHandler),
            Module::Tap(TapActionHandler::double_tap(true)),
            Module::Tap(TapActionHandler::triple_tap()),
            Module::LongTap(LongTapSplitHandler::new(true, true, false, true)),
            Module::Swipe(SwipeGestureHandler),
            Module::AutoPause(AutoPauseHandler),
            Module::SoundQuality(SoundQualityHandler),
            Module::LowLatency(LowLatencyHandler),
            Module::Equalizer(EqualizerHandler::with_presets(vec![(1, "default"), (2, "hardbass"), (3, "treble"), (9, "voices")])),
            Module::DualConnect(DualConnectHandler::new(true)),
    ];
    assert(module_names(handlers@) =~= seq![
                "device_info"@,
                "battery"@,
                "anc"@,
                "anc_change"@,
                "gesture_double"@,
                "gesture_triple"@,
                "gesture_long_split"@,
                "gesture_swipe"@,
                "tws_auto_pause"@,
                "config_sound_quality"@,
                "low_latency"@,
                "config_eq"@,
                "dual_connect"@,
    ]);
    DeviceProfile { name: "FreeBuds 6i", transport: Transport::Rfcomm(16), handlers }
}

/// FreeBuds 4i and HONOR Earbuds 2.
pub fn freebuds_4i() -> (r: DeviceProfile)
    ensures
        r.name@ == "FreeBuds 4i"@,
        r.transport == Transport::Rfcomm(16),
        module_names(r.handlers@) == seq![
                "device_info"@,
                "anc"@,
                "anc_change"@,
                "battery"@,
                "gesture_double"@,
                "gesture_long_split"@,
                "tws_auto_pause"@,
            ],
{
    proof {
        lemma_tap_prefixes();
    }
    let handlers = vec![
            Module::Info(InfoHandler),
            Module::Anc(AncHandler::new(false, false, false)),
            Module::AncChange(AncLegacyChangeHandler),
            Module::Battery(BatteryHandler::new(true)),
            Module::Tap(TapActionHandler::double_tap(false)),
            Module::LongTap(LongTapSplitHandler::new(true, false, false, true)),
            Module::AutoPause(AutoPauseHandler),
    ];
    assert(module_names(handlers@) =~= seq![
                "device_info"@,
                "anc"@,
                "anc_change"@,
                "battery"@,
                "gesture_double"@,
                "gesture_long_split"@,
                "tws_auto_pause"@,
    ]);
    DeviceProfile { name: "FreeBuds 4i", transport: Transport::Rfcomm(16), handlers }
}

/// FreeBuds SE 2.
pub fn freebuds_se2() -> (r: DeviceProfile)
    ensures
        r.name@ == "FreeBuds SE 2"@,
        r.transport == Transport::Rfcomm(1),
        module_names(r.handlers@) == seq![
                "device_info"@,
                "battery"@,
                "gesture_double"@,
                "gesture_triple"@,
                "gesture_long_split"@,
                "config_eq"@,
                "low_latency"@,
            ],
{
    proof {
        lemma_tap_prefixes();
    }
    let handlers = vec![
            Module::Info(InfoHandler),
            Module::Battery(BatteryHandler::new(true)),
            Module::Tap(TapActionHandler::double_tap(true)),
            Module::Tap(TapActionHandler::triple_tap()),
            Module::LongTap(LongTapSplitHandler::new(false, false, true, false)),
            Module::Equalizer(EqualizerHandler::with_presets(vec![(1, "default"), (2, "hardbass"), (3, "treble"), (9, "voices")])),
            Module::LowLatency(LowLatencyHandler),
    ];
    assert(module_names(handlers@) =~= seq![
                "device_info"@,
                "battery"@,
                "gesture_double"@,
                "gesture_triple"@,
                "gesture_long_split"@,
                "config_eq"@,
                "low_latency"@,
    ]);
    DeviceProfile { name: "FreeBuds SE 2", transport: Transport::Rfcomm(1), handlers }
}

/// A device of the primary protocol that is not known: every module that probes safely.
pub fn generic_probe() -> (r: DeviceProfile)
    ensures
        r.name@ == "Generic Huawei"@,
        r.transport == Transport::Rfcomm(16),
        module_names(r.handlers@) == seq![
                "device_info"@,
                "battery"@,
                "anc"@,
                "anc_change"@,
                "tws_auto_pause"@,
                "gesture_double"@,
                "gesture_long_split"@,
                "gesture_swipe"@,
                "low_latency"@,
                "config_sound_quality"@,
                "dual_connect"@,
            ],
{
    proof {
        lemma_tap_prefixes();
    }
    let handlers = vec![
            Module::Info(InfoHandler),
            Module::Battery(BatteryHandler::new(true)),
            Module::Anc(AncHandler::new(true, true, true)),
            Module::AncChange(AncLegacyChangeHandler),
            Module::AutoPause(AutoPauseHandler),
            Module::Tap(TapActionHandler::double_tap(true)),
            Module::LongTap(LongTapSplitHandler::new(true, true, true, true)),
            Module::Swipe(SwipeGestureHandler),
            Module::LowLatency(LowLatencyHandler),
            Module::SoundQuality(SoundQualityHandler),
            Module::DualConnect(DualConnectHandler::new(true)),
    ];
    assert(module_names(handlers@) =~= seq![
                "device_info"@,
                "battery"@,
                "anc"@,
                "anc_change"@,
                "tws_auto_pause"@,
                "gesture_double"@,
                "gesture_long_split"@,
                "gesture_swipe"@,
                "low_latency"@,
                "config_sound_quality"@,
                "dual_connect"@,
    ]);
    DeviceProfile { name: "Generic Huawei", transport: Transport::Rfcomm(16), handlers }
}

/// FreeBuds 5 (open fit).
pub fn freebuds_5() -> (r: DeviceProfile)
    ensures
        r.name@ == "FreeBuds 5"@,
        r.transport == Transport::Rfcomm(1),
        module_names(r.handlers@) == seq![
                "device_info"@,
                "battery"@,
                "anc"@,
                "anc_change"@,
                "tws_auto_pause"@,
                "gesture_double"@,
                "gesture_triple"@,
                "gesture_long_split"@,
                "gesture_swipe"@,
                "low_latency"@,
                "config_sound_quality"@,
                "config_eq"@,
            ],
{
    proof {
        lemma_tap_prefixes();
    }
    let handlers = vec![
            Module::Info(InfoHandler),
            Module::Battery(BatteryHandler::new(true)),
            Module::Anc(AncHandler::new(true, false, false)),
            Module::AncChange(AncLegacyChangeHandler),
            Module::AutoPause(AutoPauseHandler),
            Module::Tap(TapActionHandler::double_tap(true)),
            Module::Tap(TapActionHandler::triple_tap()),
            Module::LongTap(LongTapSplitHandler::new(true, true, false, true)),
            Module::Swipe(SwipeGestureHandler),
            Module::LowLatency(LowLatencyHandler),
            Module::SoundQuality(SoundQualityHandler),
            Module::Equalizer(EqualizerHandler::with_presets(vec![(1, "default"), (2, "hardbass"), (3, "treble"), (9, "voices")])),
    ];
    assert(module_names(handlers@) =~= seq![
                "device_info"@,
                "battery"@,
                "anc"@,
                "anc_change"@,
                "tws_auto_pause"@,
                "gesture_double"@,
                "gesture_triple"@,
                "gesture_long_split"@,
                "gesture_swipe"@,
                "low_latency"@,
                "config_sound_quality"@,
                "config_eq"@,
    ]);
    DeviceProfile { name: "FreeBuds 5", transport: Transport::Rfcomm(1), handlers }
}

/// AirPods Pro.
pub fn airpods_pro() -> (r: DeviceProfile)
    ensures
        r.name@ == "AirPods Pro"@,
        r.transport == Transport::L2cap(0x1001),
        module_names(r.handlers@) == seq![
                "device_info"@,
                "battery"@,
                "ear_detection"@,
                "anc"@,
                "conversation_awareness"@,
                "personalized_volume"@,
            ],
{
    proof {
        lemma_tap_prefixes();
    }
    let handlers = vec![
            Module::PodsInfo(AirPodsInfoHandler),
            Module::PodsBattery(AirPodsBatteryHandler),
            Module::PodsEarDetection(AirPodsEarDetectionHandler),
            Module::PodsAnc(AirPodsAncHandler::new(true)),
            Module::PodsConversation(AirPodsConversationAwarenessHandler),
            Module::PodsVolume(AirPodsPersonalizedVolumeHandler),
    ];
    assert(module_names(handlers@) =~= seq![
                "device_info"@,
                "battery"@,
                "ear_detection"@,
                "anc"@,
                "conversation_awareness"@,
                "personalized_volume"@,
    ]);
    DeviceProfile { name: "AirPods Pro", transport: Transport::L2cap(0x1001), handlers }
}

/// AirPods Max.
pub fn airpods_max() -> (r: DeviceProfile)
    ensures
        r.name@ == "AirPods Max"@,
        r.transport == Transport::L2cap(0x1001),
        module_names(r.handlers@) == seq![
                "device_info"@,
                "battery"@,
                "ear_detection"@,
                "anc"@,
                "conversation_awareness"@,
                "personalized_volume"@,
            ],
{
    proof {
        lemma_tap_prefixes();
    }
    let handlers = vec![
            Module::PodsInfo(AirPodsInfoHandler),
            Module::PodsBattery(AirPodsBatteryHandler),
            Module::PodsEarDetection(AirPodsEarDetectionHandler),
            Module::PodsAnc(AirPodsAncHandler::new(true)),
            Module::PodsConversation(AirPodsConversationAwarenessHandler),
            Module::PodsVolume(AirPodsPersonalizedVolumeHandler),
    ];
    assert(module_names(handlers@) =~= seq![
                "device_info"@,
                "battery"@,
                "ear_detection"@,
                "anc"@,
                "conversation_awareness"@,
                "personalized_volume"@,
    ]);
    DeviceProfile { name: "AirPods Max", transport: Transport::L2cap(0x1001), handlers }
}

/// Other AirPods: information, battery and ear detection.
pub fn airpods_generic() -> (r: DeviceProfile)
    ensures
        r.name@ == "AirPods"@,
        r.transport == Transport::L2cap(0x1001),
        module_names(r.handlers@) == seq![
                "device_info"@,
                "battery"@,
                "ear_detection"@,
            ],
{
    proof {
        lemma_tap_prefixes();
    }
    let handlers = vec![
            Module::PodsInfo(AirPodsInfoHandler),
            Module::PodsBattery(AirPodsBatteryHandler),
            Module::PodsEarDetection(AirPodsEarDetectionHandler),
    ];
    assert(module_names(handlers@) =~= seq![
                "device_info"@,
                "battery"@,
                "ear_detection"@,
    ]);
    DeviceProfile { name: "AirPods", transport: Transport::L2cap(0x1001), handlers }
}

/// Whether a device name is that of a supported model of the primary
/// protocol: it begins with "HUAWEI Free", "HUAWEI FreeClip", "HONOR
/// Earbuds" or "HUAWEI FreeLace".
pub open spec fn known_device(b: Seq<u8>) -> bool {
    occurs_at(b, "HUAWEI Free".spec_bytes(), 0) || occurs_at(b, "HUAWEI FreeClip".spec_bytes(), 0)
        || occurs_at(b, "HONOR Earbuds".spec_bytes(), 0) || occurs_at(
        b,
        "HUAWEI FreeLace".spec_bytes(),
        0,
    )
}

pub fn is_known_device(name: &str) -> (r: bool)
    ensures
        r == known_device(name.spec_bytes()),
{
    starts_with(name, "HUAWEI Free") || starts_with(name, "HUAWEI FreeClip") || starts_with(
        name,
        "HONOR Earbuds",
    ) || starts_with(name, "HUAWEI FreeLace")
}

/// The profile of a device, by its Bluetooth name: the exact names of the
/// known models of the primary protocol, then any name that mentions
/// "AirPods Pro", "AirPods Max" or "AirPods"; any other name gets the
/// probing profile.
pub open spec fn profile_name_for(name: Seq<char>, bytes: Seq<u8>) -> Seq<char> {
    if name == "HUAWEI FreeBuds Pro 3"@ || name == "HUAWEI FreeBuds Pro 4"@ || name
        == "HUAWEI FreeClip"@ {
        "FreeBuds Pro 3"@
    } else if name == "HUAWEI FreeBuds Pro 2"@ || name == "HUAWEI FreeBuds Pro"@ {
        "FreeBuds Pro 2"@
    } else if name == "HUAWEI FreeBuds 5"@ {
        "FreeBuds 5"@
    } else if name == "HUAWEI FreeBuds 5i"@ {
        "FreeBuds 5i"@
    } else if name == "HUAWEI FreeBuds 6i"@ {
        "FreeBuds 6i"@
    } else if name == "HUAWEI FreeBuds 4i"@ || name == "HONOR Earbuds 2"@ || name
        == "HONOR Earbuds 2 SE"@ || name == "HONOR Earbuds 2 Lite"@ {
        "FreeBuds 4i"@
    } else if name == "HUAWEI FreeBuds SE 2"@ {
        "FreeBuds SE 2"@
    } else if exists|i: int| occurs_at(bytes, "AirPods Pro".spec_bytes(), i) {
        "AirPods Pro"@
    } else if exists|i: int| occurs_at(bytes, "AirPods Max".spec_bytes(), i) {
        "AirPods Max"@
    } else if exists|i: int| occurs_at(bytes, "AirPods".spec_bytes(), i) {
        "AirPods"@
    } else {
        "Generic Huawei"@
    }
}

/// The profile of a device, by its Bluetooth name.
pub fn profile_for_device(name: &str) -> (r: DeviceProfile)
    ensures
        r.name@ == profile_name_for(name@, name.spec_bytes()),
{
    if str_eq(name, "HUAWEI FreeBuds Pro 3") || str_eq(name, "HUAWEI FreeBuds Pro 4") || str_eq(
        name,
        "HUAWEI FreeClip",
    ) {
        freebuds_pro3()
    } else if str_eq(name, "HUAWEI FreeBuds Pro 2") || str_eq(name, "HUAWEI FreeBuds Pro") {
        freebuds_pro2()
    } else if str_eq(name, "HUAWEI FreeBuds 5") {
        freebuds_5()
    } else if str_eq(name, "HUAWEI FreeBuds 5i") {
        freebuds_5i()
    } else if str_eq(name, "HUAWEI FreeBuds 6i") {
        freebuds_6i()
    } else if str_eq(name, "HUAWEI FreeBuds 4i") || str_eq(name, "HONOR Earbuds 2") || str_eq(
        name,
        "HONOR Earbuds 2 SE",
    ) || str_eq(name, "HONOR Earbuds 2 Lite") {
        freebuds_4i()
    } else if str_eq(name, "HUAWEI FreeBuds SE 2") {
        freebuds_se2()
    } else if contains(name, "AirPods Pro") {
        airpods_pro()
    } else if contains(name, "AirPods Max") {
        airpods_max()
    } else if contains(name, "AirPods") {
        airpods_generic()
    } else {
        generic_probe()
    }
}

} // verus!
