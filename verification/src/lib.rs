//! A batch-download engine: a deduplicating task registry, a bounded
//! concurrency permit pool, and the per-task verification/fetch/write/rename
//! decision logic, with a closed error taxonomy classified into ignorable and
//! fatal failures.

pub mod errors;
pub mod pool;
pub mod registry;
pub mod run;
pub mod text;
pub mod worker;

pub use errors::Error;
pub use registry::DownloadFailed;
pub use registry::Downloader;
pub use registry::ProxyType;
