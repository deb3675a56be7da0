//! WSL layer: output decoding, output parsing and locale-independent merging
//! of distro metadata. No UI and no process spawning here.
pub mod collect;
pub mod commands;
pub mod decode;
pub mod model;
pub mod parse;

pub use collect::collect_distros;
pub use decode::{decode_utf8, decode_wsl_output};
pub use model::{Distro, DistroState, OnlineDistro};
pub use parse::{
    parse_df, parse_df_kib, parse_list_online, parse_list_verbose, parse_meminfo_kib,
    parse_meminfo_total, parse_running,
    RawDistroRow,
};
