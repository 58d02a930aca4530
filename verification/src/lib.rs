pub mod device;
pub mod monitor;
pub mod ops;

pub use device::Device;
pub use device::DeviceView;
pub use monitor::DeviceMonitor;
pub use monitor::PROBE_TIMEOUT_SECS;
pub use monitor::SWEEP_INTERVAL_SECS;
