//! The feature modules that this library provides, as one type that the
//! dispatch engine can hold.

use vstd::prelude::*;

use crate::handler::{
    lemma_packets_view, packet_param, packet_view, packets_view, report_view, request_view,
    updates_view, PacketView,
};

use crate::airpods::{
    AirPodsAncHandler, AirPodsBatteryHandler, AirPodsConversationAwarenessHandler,
    AirPodsEarDetectionHandler, AirPodsInfoHandler, AirPodsPersonalizedVolumeHandler,
};
use crate::anc::{AncHandler, AncLegacyChangeHandler};
use crate::battery::BatteryHandler;
use crate::commands::CommandId;
use crate::config::{AutoPauseHandler, LowLatencyHandler, SoundQualityHandler};
use crate::dual_connect::DualConnectHandler;
use crate::equalizer::EqualizerHandler;
use crate::gestures::{LongTapSplitHandler, SwipeGestureHandler, TapActionHandler};
use crate::handler::{DeviceHandler, HandlerError, PropertyUpdate};
use crate::info::InfoHandler;
use crate::packet::HuaweiSppPacket;

verus! {

/// One of the library's feature modules.
pub enum Module {
    Anc(AncHandler),
    AncChange(AncLegacyChangeHandler),
    Battery(BatteryHandler),
    AutoPause(AutoPauseHandler),
    LowLatency(LowLatencyHandler),
    SoundQuality(SoundQualityHandler),
    Tap(TapActionHandler),
    LongTap(LongTapSplitHandler),
    Swipe(SwipeGestureHandler),
    PodsBattery(AirPodsBatteryHandler),
    PodsEarDetection(AirPodsEarDetectionHandler),
    PodsAnc(AirPodsAncHandler),
    PodsConversation(AirPodsConversationAwarenessHandler),
    PodsVolume(AirPodsPersonalizedVolumeHandler),
    PodsInfo(AirPodsInfoHandler),
    Info(InfoHandler),
    Equalizer(EqualizerHandler),
    DualConnect(DualConnectHandler),
}

impl DeviceHandler for Module {
    open spec fn name(&self) -> Seq<char> {
        match self {
            Module::Anc(h) => h.name(),
            Module::AncChange(h) => h.name(),
            Module::Battery(h) => h.name(),
            Module::AutoPause(h) => h.name(),
            Module::LowLatency(h) => h.name(),
            Module::SoundQuality(h) => h.name(),
            Module::Tap(h) => h.name(),
            Module::LongTap(h) => h.name(),
            Module::Swipe(h) => h.name(),
            Module::PodsBattery(h) => h.name(),
            Module::PodsEarDetection(h) => h.name(),
            Module::PodsAnc(h) => h.name(),
            Module::PodsConversation(h) => h.name(),
            Module::PodsVolume(h) => h.name(),
            Module::PodsInfo(h) => h.name(),
            Module::Info(h) => h.name(),
            Module::Equalizer(h) => h.name(),
            Module::DualConnect(h) => h.name(),
        }
    }

    open spec fn group(&self) -> Seq<char> {
        match self {
            Module::Anc(h) => h.group(),
            Module::AncChange(h) => h.group(),
            Module::Battery(h) => h.group(),
            Module::AutoPause(h) => h.group(),
            Module::LowLatency(h) => h.group(),
            Module::SoundQuality(h) => h.group(),
            Module::Tap(h) => h.group(),
            Module::LongTap(h) => h.group(),
            Module::Swipe(h) => h.group(),
            Module::PodsBattery(h) => h.group(),
            Module::PodsEarDetection(h) => h.group(),
            Module::PodsAnc(h) => h.group(),
            Module::PodsConversation(h) => h.group(),
            Module::PodsVolume(h) => h.group(),
            Module::PodsInfo(h) => h.group(),
            Module::Info(h) => h.group(),
            Module::Equalizer(h) => h.group(),
            Module::DualConnect(h) => h.group(),
        }
    }

    open spec fn command_keys(&self) -> Seq<u16> {
        match self {
            Module::Anc(h) => h.command_keys(),
            Module::AncChange(h) => h.command_keys(),
            Module::Battery(h) => h.command_keys(),
            Module::AutoPause(h) => h.command_keys(),
            Module::LowLatency(h) => h.command_keys(),
            Module::SoundQuality(h) => h.command_keys(),
            Module::Tap(h) => h.command_keys(),
            Module::LongTap(h) => h.command_keys(),
            Module::Swipe(h) => h.command_keys(),
            Module::PodsBattery(h) => h.command_keys(),
            Module::PodsEarDetection(h) => h.command_keys(),
            Module::PodsAnc(h) => h.command_keys(),
            Module::PodsConversation(h) => h.command_keys(),
            Module::PodsVolume(h) => h.command_keys(),
            Module::PodsInfo(h) => h.command_keys(),
            Module::Info(h) => h.command_keys(),
            Module::Equalizer(h) => h.command_keys(),
            Module::DualConnect(h) => h.command_keys(),
        }
    }

    open spec fn ignored_keys(&self) -> Seq<u16> {
        match self {
            Module::Anc(h) => h.ignored_keys(),
            Module::AncChange(h) => h.ignored_keys(),
            Module::Battery(h) => h.ignored_keys(),
            Module::AutoPause(h) => h.ignored_keys(),
            Module::LowLatency(h) => h.ignored_keys(),
            Module::SoundQuality(h) => h.ignored_keys(),
            Module::Tap(h) => h.ignored_keys(),
            Module::LongTap(h) => h.ignored_keys(),
            Module::Swipe(h) => h.ignored_keys(),
            Module::PodsBattery(h) => h.ignored_keys(),
            Module::PodsEarDetection(h) => h.ignored_keys(),
            Module::PodsAnc(h) => h.ignored_keys(),
            Module::PodsConversation(h) => h.ignored_keys(),
            Module::PodsVolume(h) => h.ignored_keys(),
            Module::PodsInfo(h) => h.ignored_keys(),
            Module::Info(h) => h.ignored_keys(),
            Module::Equalizer(h) => h.ignored_keys(),
            Module::DualConnect(h) => h.ignored_keys(),
        }
    }

    open spec fn init_requests(&self) -> Seq<PacketView> {
        match self {
            Module::Anc(h) => h.init_requests(),
            Module::AncChange(h) => h.init_requests(),
            Module::Battery(h) => h.init_requests(),
            Module::AutoPause(h) => h.init_requests(),
            Module::LowLatency(h) => h.init_requests(),
            Module::SoundQuality(h) => h.init_requests(),
            Module::Tap(h) => h.init_requests(),
            Module::LongTap(h) => h.init_requests(),
            Module::Swipe(h) => h.init_requests(),
            Module::PodsBattery(h) => h.init_requests(),
            Module::PodsEarDetection(h) => h.init_requests(),
            Module::PodsAnc(h) => h.init_requests(),
            Module::PodsConversation(h) => h.init_requests(),
            Module::PodsVolume(h) => h.init_requests(),
            Module::PodsInfo(h) => h.init_requests(),
            Module::Info(h) => h.init_requests(),
            Module::Equalizer(h) => h.init_requests(),
            Module::DualConnect(h) => h.init_requests(),
        }
    }

    open spec fn packet_result(&self, packet: HuaweiSppPacket) -> Result<Seq<(Seq<char>, Seq<char>)>, HandlerError> {
        match self {
            Module::Anc(h) => h.packet_result(packet),
            Module::AncChange(h) => h.packet_result(packet),
            Module::Battery(h) => h.packet_result(packet),
            Module::AutoPause(h) => h.packet_result(packet),
            Module::LowLatency(h) => h.packet_result(packet),
            Module::SoundQuality(h) => h.packet_result(packet),
            Module::Tap(h) => h.packet_result(packet),
            Module::LongTap(h) => h.packet_result(packet),
            Module::Swipe(h) => h.packet_result(packet),
            Module::PodsBattery(h) => h.packet_result(packet),
            Module::PodsEarDetection(h) => h.packet_result(packet),
            Module::PodsAnc(h) => h.packet_result(packet),
            Module::PodsConversation(h) => h.packet_result(packet),
            Module::PodsVolume(h) => h.packet_result(packet),
            Module::PodsInfo(h) => h.packet_result(packet),
            Module::Info(h) => h.packet_result(packet),
            Module::Equalizer(h) => h.packet_result(packet),
            Module::DualConnect(h) => h.packet_result(packet),
        }
    }

    open spec fn set_result(&self, group: &str, prop: &str, value: &str) -> Result<(Seq<PacketView>, Seq<(Seq<char>, Seq<char>)>), HandlerError> {
        match self {
            Module::Anc(h) => h.set_result(group, prop, value),
            Module::AncChange(h) => h.set_result(group, prop, value),
            Module::Battery(h) => h.set_result(group, prop, value),
            Module::AutoPause(h) => h.set_result(group, prop, value),
            Module::LowLatency(h) => h.set_result(group, prop, value),
            Module::SoundQuality(h) => h.set_result(group, prop, value),
            Module::Tap(h) => h.set_result(group, prop, value),
            Module::LongTap(h) => h.set_result(group, prop, value),
            Module::Swipe(h) => h.set_result(group, prop, value),
            Module::PodsBattery(h) => h.set_result(group, prop, value),
            Module::PodsEarDetection(h) => h.set_result(group, prop, value),
            Module::PodsAnc(h) => h.set_result(group, prop, value),
            Module::PodsConversation(h) => h.set_result(group, prop, value),
            Module::PodsVolume(h) => h.set_result(group, prop, value),
            Module::PodsInfo(h) => h.set_result(group, prop, value),
            Module::Info(h) => h.set_result(group, prop, value),
            Module::Equalizer(h) => h.set_result(group, prop, value),
            Module::DualConnect(h) => h.set_result(group, prop, value),
        }
    }

    fn handler_id(&self) -> (r: &'static str) {
        match self {
            Module::Anc(h) => h.handler_id(),
            Module::AncChange(h) => h.handler_id(),
            Module::Battery(h) => h.handler_id(),
            Module::AutoPause(h) => h.handler_id(),
            Module::LowLatency(h) => h.handler_id(),
            Module::SoundQuality(h) => h.handler_id(),
            Module::Tap(h) => h.handler_id(),
            Module::LongTap(h) => h.handler_id(),
            Module::Swipe(h) => h.handler_id(),
            Module::PodsBattery(h) => h.handler_id(),
            Module::PodsEarDetection(h) => h.handler_id(),
            Module::PodsAnc(h) => h.handler_id(),
            Module::PodsConversation(h) => h.handler_id(),
            Module::PodsVolume(h) => h.handler_id(),
            Module::PodsInfo(h) => h.handler_id(),
            Module::Info(h) => h.handler_id(),
            Module::Equalizer(h) => h.handler_id(),
            Module::DualConnect(h) => h.handler_id(),
        }
    }

    fn property_group(&self) -> (r: &'static str) {
        match self {
            Module::Anc(h) => h.property_group(),
            Module::AncChange(h) => h.property_group(),
            Module::Battery(h) => h.property_group(),
            Module::AutoPause(h) => h.property_group(),
            Module::LowLatency(h) => h.property_group(),
            Module::SoundQuality(h) => h.property_group(),
            Module::Tap(h) => h.property_group(),
            Module::LongTap(h) => h.property_group(),
            Module::Swipe(h) => h.property_group(),
            Module::PodsBattery(h) => h.property_group(),
            Module::PodsEarDetection(h) => h.property_group(),
            Module::PodsAnc(h) => h.property_group(),
            Module::PodsConversation(h) => h.property_group(),
            Module::PodsVolume(h) => h.property_group(),
            Module::PodsInfo(h) => h.property_group(),
            Module::Info(h) => h.property_group(),
            Module::Equalizer(h) => h.property_group(),
            Module::DualConnect(h) => h.property_group(),
        }
    }

    fn commands(&self) -> (r: Vec<CommandId>) {
        match self {
            Module::Anc(h) => h.commands(),
            Module::AncChange(h) => h.commands(),
            Module::Battery(h) => h.commands(),
            Module::AutoPause(h) => h.commands(),
            Module::LowLatency(h) => h.commands(),
            Module::SoundQuality(h) => h.commands(),
            Module::Tap(h) => h.commands(),
            Module::LongTap(h) => h.commands(),
            Module::Swipe(h) => h.commands(),
            Module::PodsBattery(h) => h.commands(),
            Module::PodsEarDetection(h) => h.commands(),
            Module::PodsAnc(h) => h.commands(),
            Module::PodsConversation(h) => h.commands(),
            Module::PodsVolume(h) => h.commands(),
            Module::PodsInfo(h) => h.commands(),
            Module::Info(h) => h.commands(),
            Module::Equalizer(h) => h.commands(),
            Module::DualConnect(h) => h.commands(),
        }
    }

    fn ignore_commands(&self) -> (r: Vec<CommandId>) {
        match self {
            Module::Anc(h) => h.ignore_commands(),
            Module::AncChange(h) => h.ignore_commands(),
            Module::Battery(h) => h.ignore_commands(),
            Module::AutoPause(h) => h.ignore_commands(),
            Module::LowLatency(h) => h.ignore_commands(),
            Module::SoundQuality(h) => h.ignore_commands(),
            Module::Tap(h) => h.ignore_commands(),
            Module::LongTap(h) => h.ignore_commands(),
            Module::Swipe(h) => h.ignore_commands(),
            Module::PodsBattery(h) => h.ignore_commands(),
            Module::PodsEarDetection(h) => h.ignore_commands(),
            Module::PodsAnc(h) => h.ignore_commands(),
            Module::PodsConversation(h) => h.ignore_commands(),
            Module::PodsVolume(h) => h.ignore_commands(),
            Module::PodsInfo(h) => h.ignore_commands(),
            Module::Info(h) => h.ignore_commands(),
            Module::Equalizer(h) => h.ignore_commands(),
            Module::DualConnect(h) => h.ignore_commands(),
        }
    }

    fn on_init(&mut self) -> (r: Vec<HuaweiSppPacket>) {
        match self {
            Module::Anc(h) => h.on_init(),
            Module::AncChange(h) => h.on_init(),
            Module::Battery(h) => h.on_init(),
            Module::AutoPause(h) => h.on_init(),
            Module::LowLatency(h) => h.on_init(),
            Module::SoundQuality(h) => h.on_init(),
            Module::Tap(h) => h.on_init(),
            Module::LongTap(h) => h.on_init(),
            Module::Swipe(h) => h.on_init(),
            Module::PodsBattery(h) => h.on_init(),
            Module::PodsEarDetection(h) => h.on_init(),
            Module::PodsAnc(h) => h.on_init(),
            Module::PodsConversation(h) => h.on_init(),
            Module::PodsVolume(h) => h.on_init(),
            Module::PodsInfo(h) => h.on_init(),
            Module::Info(h) => h.on_init(),
            Module::Equalizer(h) => h.on_init(),
            Module::DualConnect(h) => h.on_init(),
        }
    }

    fn on_packet(&mut self, packet: &HuaweiSppPacket) -> (r: Result<Vec<PropertyUpdate>, HandlerError>) {
        match self {
            Module::Anc(h) => h.on_packet(packet),
            Module::AncChange(h) => h.on_packet(packet),
            Module::Battery(h) => h.on_packet(packet),
            Module::AutoPause(h) => h.on_packet(packet),
            Module::LowLatency(h) => h.on_packet(packet),
            Module::SoundQuality(h) => h.on_packet(packet),
            Module::Tap(h) => h.on_packet(packet),
            Module::LongTap(h) => h.on_packet(packet),
            Module::Swipe(h) => h.on_packet(packet),
            Module::PodsBattery(h) => h.on_packet(packet),
            Module::PodsEarDetection(h) => h.on_packet(packet),
            Module::PodsAnc(h) => h.on_packet(packet),
            Module::PodsConversation(h) => h.on_packet(packet),
            Module::PodsVolume(h) => h.on_packet(packet),
            Module::PodsInfo(h) => h.on_packet(packet),
            Module::Info(h) => h.on_packet(packet),
            Module::Equalizer(h) => h.on_packet(packet),
            Module::DualConnect(h) => h.on_packet(packet),
        }
    }

    fn set_property(&mut self, group: &str, prop: &str, value: &str) -> (r: Result<
        (Vec<HuaweiSppPacket>, Vec<PropertyUpdate>),
        HandlerError,
    >) {
        match self {
            Module::Anc(h) => h.set_property(group, prop, value),
            Module::AncChange(h) => h.set_property(group, prop, value),
            Module::Battery(h) => h.set_property(group, prop, value),
            Module::AutoPause(h) => h.set_property(group, prop, value),
            Module::LowLatency(h) => h.set_property(group, prop, value),
            Module::SoundQuality(h) => h.set_property(group, prop, value),
            Module::Tap(h) => h.set_property(group, prop, value),
            Module::LongTap(h) => h.set_property(group, prop, value),
            Module::Swipe(h) => h.set_property(group, prop, value),
            Module::PodsBattery(h) => h.set_property(group, prop, value),
            Module::PodsEarDetection(h) => h.set_property(group, prop, value),
            Module::PodsAnc(h) => h.set_property(group, prop, value),
            Module::PodsConversation(h) => h.set_property(group, prop, value),
            Module::PodsVolume(h) => h.set_property(group, prop, value),
            Module::PodsInfo(h) => h.set_property(group, prop, value),
            Module::Info(h) => h.set_property(group, prop, value),
            Module::Equalizer(h) => h.set_property(group, prop, value),
            Module::DualConnect(h) => h.set_property(group, prop, value),
        }
    }
}

} // verus!
