//! The commands of the `ragdoll` program, and the report of `doctor`.
use vstd::prelude::*;

use crate::config::Config;
use crate::text::{decimal, push_decimal, push_str};

verus! {

/// The program's command line.
#[derive(Clone, Debug)]
pub struct Cli {
    pub command: Commands,
}

/// What the program is asked to do.
#[derive(Clone, Copy, Debug, PartialEq, Eq, Structural)]
pub enum Commands {
    Serve,
    Migrate,
    ModelsEnsure,
    ModelGuard,
    Doctor,
}

/// The lines `doctor` prints: where the data, database, model cache and
/// staging area are, and the embedding dimension.
pub open spec fn doctor_report(c: Config) -> Seq<Seq<char>> {
    seq![
        "RAGDOLL_DATA_DIR="@ + c.data_dir@,
        "RAGDOLL_DB_PATH="@ + c.db_path@,
        "RAGDOLL_MODEL_CACHE_DIR="@ + c.model_cache_dir@,
        "RAGDOLL_STAGING_DIR="@ + c.staging_dir@,
        "RAGDOLL_EMBEDDING_DIM="@ + decimal(c.embedding_dim as nat),
    ]
}

fn setting_line(name: &str, value: &str) -> (r: String)
    ensures
        r@ == name@ + value@,
{
    let mut s = String::new();
    push_str(&mut s, name);
    push_str(&mut s, value);
    s
}

/// The lines of the `doctor` report.
pub fn doctor_lines(config: &Config) -> (r: Vec<String>)
    ensures
        r@.len() == 5,
        forall|i: int| 0 <= i < 5 ==> (#[trigger] r@[i])@ == doctor_report(*config)[i],
{
    let mut r: Vec<String> = Vec::new();
    r.push(setting_line("RAGDOLL_DATA_DIR=", config.data_dir.as_str()));
    r.push(setting_line("RAGDOLL_DB_PATH=", config.db_path.as_str()));
    r.push(setting_line("RAGDOLL_MODEL_CACHE_DIR=", config.model_cache_dir.as_str()));
    r.push(setting_line("RAGDOLL_STAGING_DIR=", config.staging_dir.as_str()));
    let mut dim = String::new();
    push_str(&mut dim, "RAGDOLL_EMBEDDING_DIM=");
    push_decimal(&mut dim, config.embedding_dim as u64);
    r.push(dim);
    r
}

} // verus!
