//! Boundary between a microcontroller's Ethernet MAC and an external PHY
//! transceiver.
//!
//! The crate is a vertical stack plus one orthogonal table:
//!
//! - [`smi`]: the station-management interface (SMI), a synchronous two-wire
//!   bus over which the 16-bit PHY registers are read and written;
//! - [`phy`]: the PHY driver protocol (reset, initialise, poll link), written
//!   against any [`smi::StationManagement`] bus and polymorphic over concrete
//!   transceiver chip variants;
//! - [`instance`]: the peripheral singleton that owns a MAC register block
//!   and the exclusive right to issue bus transactions on it;
//! - [`pins`]: the static pin capability registry deciding which physical
//!   pin may carry which Ethernet signal role, consulted once during board
//!   setup and closed over the known hardware.
//!
//! Everything is synchronous and single-threaded: a bus transaction runs to
//! completion on the calling context, and exclusive ownership of the handles
//! makes overlapping access unrepresentable rather than detected.

pub mod instance;
pub mod phy;
pub mod pins;
pub(crate) mod sealed;
pub mod smi;

pub use instance::Eth;
pub use instance::Instance;
pub use instance::Peripherals;
pub use instance::ETH;
pub use phy::Lan8742a;
pub use phy::PHY;
pub use pins::InstanceId;
pub use pins::PinBinding;
pub use pins::PinId;
pub use pins::SignalRole;
pub use smi::SimBus;
pub use smi::StationManagement;
