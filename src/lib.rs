//! Render-pipeline orchestration core: a typed registry of GPU resources,
//! bind-group and pipeline factories, and a per-frame pass sequence that
//! records commands for a graphics backend to replay.
pub mod device;
pub mod registry;
pub mod bindgroups;
pub mod container;
pub mod error;
pub mod pipelines;
pub mod frame;
pub mod renderer;
pub mod passes;
pub mod laws;
pub mod schedule;
