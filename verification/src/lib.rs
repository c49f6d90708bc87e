//! A SOCKS5 proxy core: the per-connection protocol machine, the wire
//! encodings it relies on, and the decisions of the relay loop.
//!
//! The library performs no I/O. A driver owns the sockets, carries out the
//! operation the connection asks for, and reports what came of it.

pub mod server;
