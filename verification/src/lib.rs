//! Verified core of the Blue-RDMA device emulator: descriptor layouts,
//! packet segmentation, queue and register bookkeeping, and DMA word
//! transfers.

pub mod bits;
pub mod descriptor;
pub mod types;
pub mod errors;
pub mod command_request;
pub mod command_descriptors;
pub mod send;
pub mod operations;
pub mod meta_report;
pub mod csr;
pub mod dma;
pub mod device;
pub mod csr_proxy;
pub mod mock_agent;
pub mod utils;
pub mod segments;
