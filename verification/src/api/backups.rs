//! Requests of the backup endpoints.
use vstd::prelude::*;

verus! {

#[derive(Clone, Debug)]
pub struct BackupFileRequest {
    pub file_name: String,
}
#[derive(Clone, Debug)]
pub struct RestoreBackupRequest {
    pub file_name: String,
    pub safety_backup: bool,
}
#[derive(Clone, Debug)]
pub struct DownloadBackupQuery {
    pub file_name: String,
}

} // verus!
