//! Bulk retrieval of audio tracks from a video playlist, as a set of pure
//! building blocks: the argument lists handed to the external downloader, the
//! interpretation of what it printed, the metadata tag embedded in each
//! artifact, the sweep of the data directory, and the state machine that
//! sequences a whole run. The caller performs the process and file I/O.

pub mod datadir;
pub mod error;
pub mod run;
pub mod tag;
pub mod text;
pub mod utils;
pub mod youtube;
