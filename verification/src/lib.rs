//! A key-value store with a durable table and a cache-aside in-memory map.
//!
//! `store` models the durable table, `cache` holds the concurrent in-memory
//! map, `hashmap` combines the two with the cache-aside discipline, `model`
//! states that discipline mathematically and proves its laws, and `handlers`
//! maps operation results to HTTP statuses and bodies.

pub mod cache;
pub mod handlers;
pub mod hashmap;
pub mod model;
pub mod store;
