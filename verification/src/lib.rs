//! Trusted CPU identification for a confidential guest.
//!
//! A guest that runs under an encrypted, measured virtual machine cannot take
//! the hypervisor's word for what the CPU is. This crate holds the guest's
//! side of that boundary:
//!
//! * [`cpuid`] — the raw probe, the table of identification results that the
//!   launch firmware vouches for, and the exact-match lookup in that table;
//! * [`flags`] — the catalogue of named capability bits, one set per leaf and
//!   register, and the arithmetic that gives each a feature index;
//! * [`features`] — the two-word feature cache and the cached platform
//!   identity;
//! * [`resolver`] — the ordered signature match that tells a TDX guest from
//!   an SEV guest;
//! * [`once`] — the write-once slot that carries each piece of process-wide
//!   state; it is handed to the functions that need it and never lives in a
//!   global of this crate;
//! * [`types`] — the platform identity.
//!
//! Every function is verified against its contract. The single item taken on
//! trust is [`cpuid::cpuid`], which executes the CPUID instruction.

pub mod cpuid;
pub mod features;
pub mod flags;
pub mod once;
pub mod resolver;
pub mod types;
