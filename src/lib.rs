//! Host-side stack for a vendor Bluetooth accessory protocol spoken by wireless
//! earbuds: the packet codecs, the translation of the secondary protocol onto
//! the primary one, the dispatch of decoded packets to feature modules, the
//! property store, and the decisions of the transports and of the connection
//! supervisor.

pub mod crc;
pub mod commands;
pub mod packet;
pub mod aap;
pub mod link;

pub mod handler;
pub mod dispatch;
pub mod init;
pub mod store;
pub mod supervisor;

pub mod text;

pub mod anc;
pub mod battery;
pub mod config;
pub mod dual_connect;
pub mod equalizer;
pub mod gestures;
pub mod info;
pub mod airpods;
pub mod modules;
pub mod models;
