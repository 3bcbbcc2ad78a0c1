//! Verified core of the TStats tournament statistics backend.
//!
//! The library holds the logic of the backend as plain values: the keys under
//! which values are cached, the cache-or-fetch protocol, date conversions, the
//! conversions between stored records and the objects the API hands out, the
//! authentication decisions and the plans of the seed data.

pub mod cache_key;
pub mod cache;
pub mod status;
pub mod dates;
pub mod text;
pub mod osu;
pub mod auth;
pub mod keys;
pub mod db;
pub mod dto;
pub mod api;
pub mod settings;
pub mod seed;
pub mod pool;
