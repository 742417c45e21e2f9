//! Verified core logic of a Massa node: bootstrap serving, node workers,
//! denunciation caches, peer bookkeeping and the wallet key store.
pub mod hints;
pub mod vec_map;
pub mod int_key_map;
pub mod addr;
pub mod keys;
pub mod slot;
pub mod durations;
pub mod bootstrap_server;
pub mod bootstrap_stream;
pub mod bootstrap_session;
pub mod node_worker;
pub mod denunciation_factory;
pub mod processed_denunciations;
pub mod peer_handler;
pub mod wallet;
pub mod wallet_text;
pub mod event_loops;
