//! Verified core of a minimal hypervisor: ioctl request numbers, the KVM
//! bring-up protocol, and the Apple Hypervisor call outcomes.
#![allow(non_snake_case)]

pub mod ioctl;
pub mod kvm;
pub mod hv;
pub mod hv_session;
