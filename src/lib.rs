//! Discrete core of a segmented soft-robot locomotion simulator: the grip
//! state machine of the gripper-equipped bodies, the chain's layout of
//! actuators and grippers, the trajectory export buffer with its frame
//! ordering and decimation, the names of the configuration keys, and a
//! checkpoint profiler.

pub mod actuation;
pub mod config_key;
pub mod export;
pub mod grip;
pub mod profiler;
pub mod text;
pub mod topology;

pub use actuation::{Actuation, JointDrive};
pub use config_key::ConfigKey;
pub use export::{body_label, FrameClock, SimulationProc};
pub use grip::{should_grip, should_release, update_grippers, GripState};
pub use profiler::{fmt_duration, mean_duration, TimeProfiler};
pub use text::{decimal, same_text};
pub use topology::{ChainTopology, TopologyError, UnknownSegment};
