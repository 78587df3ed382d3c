//! A small time-series cache: named series of time-keyed typed values held in
//! bounded ring buffers, with an append log plan per series and a binary
//! request protocol in front of them.

pub mod entity;
pub mod exception;
pub mod queue;
pub mod endian;
pub mod io;
pub mod db;
pub mod method;
pub mod handle;
