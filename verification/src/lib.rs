//! System-tray core: the decisions behind a tray icon with an "Open" and a
//! "Quit" entry, kept apart from the toolkit that draws it.
//!
//! * [`resolver`] finds the icon: a fixed chain of sources, tried in order.
//! * [`decode`] and [`pixel`] turn what was found into the packed bytes that a
//!   tray backend wants, in that backend's channel order.
//! * [`backend`] is the tray's state machine. The platform event loop feeds it
//!   events and carries out what it answers.
//! * [`channel`] hands commands from the tray thread to the UI thread without
//!   ever making the tray thread wait.
//! * [`dispatch`] decides what the UI thread does with a command, given which
//!   of its weakly held targets are still there.

pub mod backend;
pub mod channel;
pub mod command;
pub mod decode;
pub mod dispatch;
pub mod menu;
pub mod pixel;
pub mod resolver;

pub use backend::{BackendAction, BackendEvent, BackendState, Pumped, TrayBackend};
pub use channel::{command_channel, CommandSender, SendOutcome, COMMAND_CAPACITY};
pub use command::{Capability, Target, TrayCommand};
pub use decode::{decode_icon, icon_from_decoded, IconError};
pub use dispatch::{dispatch, DispatchStep, LiveTargets, Received};
pub use menu::{menu_entries, MenuBindings, MenuEntry, MenuItemId, TRAY_TITLE};
pub use pixel::{convert, Channel, ChannelOrder, IconImage, PixelBuffer};
pub use resolver::{
    find_local_icon, first_success, resolve, source_chain, IconSource, LocalIconFile, Resolved,
    ResourceName, ICON_RESOURCE_ORDINAL,
};
