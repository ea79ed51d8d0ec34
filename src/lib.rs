//! Booking core of a hotel and business marketplace: pricing, reference
//! codes, the booking lifecycle and the authorization rules around it.

pub mod text;
pub mod money;
pub mod date;
pub mod pricing;
pub mod roles;
pub mod error;
pub mod listing;
pub mod booking;
pub mod laws;
pub mod reference;
pub mod store;
pub mod identity;
