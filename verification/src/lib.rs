//! Tracing and monitoring primitives for Linux performance events.
//!
//! The crate decodes fixed-layout kernel event records, adapts
//! callback-driven kernel buffers and background samplers into pollable
//! streams, and models the supervisor that drives a set of tools
//! concurrently until a tool fails or the user interrupts the run.

pub mod bio_lat;
pub mod cfg;
pub mod cpu_pct;
pub mod event;
pub mod fs_lat;
pub mod mem_pct;
pub mod outf;
pub mod render;
pub mod rq_lat;
pub mod stream;
pub mod supervisor;
pub mod tcp_pkt_lat;
pub mod time;
pub mod tool;

pub use bio_lat::BioLat;
pub use cfg::Cfg;
pub use cpu_pct::CpuPct;
pub use event::decode;
pub use event::Event;
pub use fs_lat::FsLat;
pub use mem_pct::MemPct;
pub use rq_lat::RqLat;
pub use stream::KernelBufStream;
pub use stream::Polled;
pub use tcp_pkt_lat::TcpPktLat;
