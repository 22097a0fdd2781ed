//! Synchronises files from a camera's built-in HTTP file listing to local
//! storage. This crate holds the decisions: decoding the listing, choosing
//! what to fetch, sequencing each download and the temporary switch to the
//! camera's wireless network. Performing the requests is left to the caller.

pub mod associator;
pub mod config;
pub mod download;
pub mod error;
pub mod item;
pub mod listing;
pub mod policy;
pub mod state;
pub mod text;
pub mod timestamp;
pub mod transfer;
pub mod walk;
pub mod wifi;

pub use associator::{
    run_transfers, with_temporary_network, Associator, Phase, Reversion, Signal, Verdict,
    WifiAction,
};
pub use config::{Config, ConfigError, ErrorStrategy, OverwriteStrategy, Settings, WifiConfig};
pub use download::{Download, DownloadAction, Outcome};
pub use error::Error;
pub use item::{TransferItem, BASE_URL};
pub use listing::{listing_url, order_url, parse_listing};
pub use policy::{IncrementalTransfer, OrderTransfer, Source, Transfer};
pub use state::{format_state, load_state, parse_state};
pub use timestamp::{parse_fat_datetime, Timestamp};
pub use transfer::{execute_transfer, Execution, RunAction};
pub use walk::Walk;
pub use wifi::{WifiInterface, WifiNetwork};
