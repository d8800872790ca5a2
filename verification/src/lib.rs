//! Verified bootstrap logic for a low-level graphics device and its
//! presentation surface: capability-driven selection policies, swapchain
//! parameter negotiation, and a lifecycle manager that guarantees teardown
//! in exact reverse creation order.
//!
//! The native driver calls themselves (instance, device, swapchain creation
//! and destruction) are performed by an unverified host around this library;
//! every decision about *what* to create, *with which parameters*, and *in
//! which order to destroy* is made here, under contract.

pub mod device;
pub mod error;
pub mod events;
pub mod instance;
pub mod lifecycle;
pub mod model;
pub mod pipeline;
pub mod policy;
pub mod queues;
pub mod swapchain;
