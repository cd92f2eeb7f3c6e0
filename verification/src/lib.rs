//! A command-line launcher library that assembles the argument vector for
//! starting a Minecraft client through the Fabric loader: launcher identity,
//! text-encoding and platform system properties, memory and garbage-collector
//! flags, classpath bootstrap, and game-session flags with optional server
//! auto-connect. Every builder's output is pinned down exactly by its
//! contract.
pub mod arg_list;
pub mod launch;
pub mod laws;
pub mod manifest;
pub mod numfmt;
pub mod platform;
