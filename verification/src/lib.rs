//! Core logic of a personal-network dashboard: a registry of linked services
//! loaded from a directory of descriptor files, rendered as an HTML list, and
//! kept live in the browser through an opaque change-notification protocol.
//!
//! The modules hold the pure decision and computation kernels; the surrounding
//! process (HTTP serving, filesystem access, the OS watch mechanism) hands
//! them plain values and performs the actions they decide on.

pub mod descriptor;
pub mod live;
pub mod pages;
pub mod record;
pub mod registry;

pub use descriptor::DescriptorError;
pub use descriptor::parse_descriptor;
pub use live::ChangeNotification;
pub use live::WatchSetup;
pub use pages::PageResponse;
pub use pages::index_response;
pub use record::Service;
pub use record::ServiceView;
pub use record::Services;
pub use registry::DirScan;
pub use registry::EntryOutcome;
pub use registry::LoadReport;
pub use registry::LoadWarning;
pub use registry::load_registry;
