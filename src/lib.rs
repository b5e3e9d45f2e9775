//! Client-side library for the LEGO Wireless Protocol 3: a verified frame codec, the
//! per-port device registry, the notification dispatcher's decisions and the command
//! builders used by device handles. The transport and the event loop stay with the caller.

pub mod codes;
pub mod consts;
pub mod devices;
pub mod discovery;
pub mod error;
pub mod hubs;
pub mod iodevice;
pub mod notifications;
pub mod text;
pub mod wire;

pub use consts::{HubType, IoTypeId};
pub use devices::light::HubLedMode;
pub use devices::{Device, HubLED, Motor, Power};
pub use discovery::{identify_hub, DiscoveredHub, HubFilter};
pub use error::Error;
pub use hubs::io_event::{ChannelNotification, Dispatch, Publication};
pub use hubs::remote::RemoteControl;
pub use hubs::{HubNotification, HubProperties, HubSession};
pub use iodevice::IoDevice;
pub use notifications::{decode, NotificationMessage};
