//! Control plane of a paravirtualized network device: the configuration
//! space builder, the control-virtqueue command processor, and the decision
//! logic of the control event loop.

pub mod config;
pub mod ctrl;
pub mod event_loop;
pub mod guest;
pub mod queue;
