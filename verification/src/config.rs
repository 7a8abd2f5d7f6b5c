//! Service configuration: how it is read from the `RAGDOLL_*` environment
//! variables, the configuration tests use, and where model files go.
use vstd::prelude::*;

use crate::generation::endpoints::{chars_eq_ignore_ascii_case, eq_ignore_ascii_case};
use crate::text::{chars_of, parse_uint, parsed_uint, push_char, push_str, str_eq};

verus! {

/// `Path::new(base).join(part)`, as text.
pub uninterp spec fn path_joined(base: Seq<char>, part: Seq<char>) -> Seq<char>;

/// `Path::new(base).join(part)` written back as text. Trusted: the result is
/// the one named above, a function of the two paths alone for the platform
/// the library is built for (whose separator `join` writes).
#[verifier::external_body]
pub(crate) fn path_join(base: &str, part: &str) -> (r: String)
    ensures
        r@ == path_joined(base@, part@),
{
    std::path::Path::new(base).join(part).to_string_lossy().into_owned()
}

/// `Path::new(path).parent()`, as text.
pub uninterp spec fn path_parent_of(path: Seq<char>) -> Option<Seq<char>>;

/// `Path::new(path).parent()` written back as text. Trusted: the result is
/// the one named above, a function of the path alone for the platform the
/// library is built for.
#[verifier::external_body]
pub(crate) fn path_parent(path: &str) -> (r: Option<String>)
    ensures
        match r {
            Some(p) => path_parent_of(path@) == Some(p@),
            None => path_parent_of(path@) is None,
        },
{
    std::path::Path::new(path).parent().map(|p| p.to_string_lossy().into_owned())
}

/// The service configuration; paths are held as text.
#[derive(Clone, Debug)]
pub struct Config {
    pub data_dir: String,
    pub db_path: String,
    pub model_cache_dir: String,
    pub staging_dir: String,
    pub migrations_dir: String,
    pub static_dir: String,
    pub embedding_dim: usize,
    pub distance_metric: String,
    pub port: u16,
    pub onnx_num_threads: usize,
    pub rerank_pool_size: usize,
    pub hf_token: Option<String>,
    pub hf_hub_offline: bool,
    pub worker_poll_interval_ms: u64,
    pub job_lease_seconds: u64,
    pub max_attempts: u32,
    pub secret: String,
    pub superadmin_email: String,
    pub superadmin_password: Option<String>,
    pub backup_dir: String,
    pub backup_keep_daily: u32,
    pub backup_keep_manual: u32,
    /// Maximum number of model downloads that may run at the same time.
    pub model_download_max_concurrent: usize,
    /// Optional download bandwidth cap in bytes per second (`None` = unlimited).
    pub model_download_bandwidth_bps: Option<u64>,
    /// Read/write chunk size for throttled model downloads and materialization.
    pub model_download_write_chunk_bytes: usize,
}

/// The `RAGDOLL_*` variables the configuration is read from (`None` where
/// a variable is unset or not Unicode).
#[derive(Debug)]
pub struct EnvVars {
    pub data_dir: Option<String>,
    pub db_path: Option<String>,
    pub model_cache_dir: Option<String>,
    pub staging_dir: Option<String>,
    pub backup_dir: Option<String>,
    pub migrations_dir: Option<String>,
    pub static_dir: Option<String>,
    pub secret: Option<String>,
    pub embedding_dim: Option<String>,
    pub distance_metric: Option<String>,
    pub port: Option<String>,
    pub onnx_num_threads: Option<String>,
    pub rerank_pool_size: Option<String>,
    pub hf_token: Option<String>,
    pub hf_hub_offline: Option<String>,
    pub worker_poll_interval_ms: Option<String>,
    pub job_lease_seconds: Option<String>,
    pub max_attempts: Option<String>,
    pub superadmin_email: Option<String>,
    pub superadmin_password: Option<String>,
    pub backup_keep_daily: Option<String>,
    pub backup_keep_manual: Option<String>,
    pub model_download_max_concurrent: Option<String>,
    pub model_download_bandwidth_bps: Option<String>,
    pub model_download_write_chunk_bytes: Option<String>,
}

/// A variable's text, or `default` when it is unset.
pub open spec fn text_or(v: Option<String>, default: Seq<char>) -> Seq<char> {
    match v {
        Some(x) => x@,
        None => default,
    }
}

/// A path variable: its text when set and not empty, else `default`.
pub open spec fn path_or(v: Option<String>, default: Seq<char>) -> Seq<char> {
    match v {
        Some(x) => if x@.len() > 0 { x@ } else { default },
        None => default,
    }
}

/// A numeric variable (or its default) read as a number no larger than `max`.
pub open spec fn number_or(v: Option<String>, default: Seq<char>, max: nat) -> Option<nat> {
    parsed_uint(text_or(v, default), max)
}

/// The bandwidth cap: unset or empty means none; otherwise its number, if it reads.
pub open spec fn bandwidth(v: Option<String>) -> Option<Option<nat>> {
    match v {
        Some(x) => if x@.len() == 0 {
            Some(None)
        } else {
            match parsed_uint(x@, u64::MAX as nat) {
                Some(n) => Some(Some(n)),
                None => None,
            }
        },
        None => Some(None),
    }
}

/// The largest `usize`.
pub open spec fn usize_max() -> nat {
    usize::MAX as nat
}

/// Why the variables give no configuration, if they do not: the first
/// missing or unreadable one, in the order they are read.
pub open spec fn config_error(v: EnvVars) -> Option<Seq<char>> {
    if v.data_dir is None {
        Some("RAGDOLL_DATA_DIR is required"@)
    } else if v.secret is None {
        Some("RAGDOLL_SECRET is required"@)
    } else if number_or(v.embedding_dim, "1024"@, usize_max()) is None {
        Some("invalid RAGDOLL_EMBEDDING_DIM"@)
    } else if number_or(v.port, "8080"@, u16::MAX as nat) is None {
        Some("invalid RAGDOLL_PORT"@)
    } else if number_or(v.onnx_num_threads, "4"@, usize_max()) is None {
        Some("invalid RAGDOLL_ONNX_NUM_THREADS"@)
    } else if number_or(v.rerank_pool_size, "1"@, usize_max()) is None {
        Some("invalid RAGDOLL_RERANK_POOL_SIZE"@)
    } else if number_or(v.worker_poll_interval_ms, "1000"@, u64::MAX as nat) is None {
        Some("invalid RAGDOLL_WORKER_POLL_INTERVAL_MS"@)
    } else if number_or(v.job_lease_seconds, "300"@, u64::MAX as nat) is None {
        Some("invalid RAGDOLL_JOB_LEASE_SECONDS"@)
    } else if number_or(v.max_attempts, "3"@, u32::MAX as nat) is None {
        Some("invalid RAGDOLL_MAX_ATTEMPTS"@)
    } else if number_or(v.backup_keep_daily, "7"@, u32::MAX as nat) is None {
        Some("invalid RAGDOLL_BACKUP_KEEP_DAILY"@)
    } else if number_or(v.backup_keep_manual, "10"@, u32::MAX as nat) is None {
        Some("invalid RAGDOLL_BACKUP_KEEP_MANUAL"@)
    } else if number_or(v.model_download_max_concurrent, "1"@, usize_max()) is None {
        Some("invalid RAGDOLL_MODEL_DOWNLOAD_MAX_CONCURRENT"@)
    } else if bandwidth(v.model_download_bandwidth_bps) is None {
        Some("invalid RAGDOLL_MODEL_DOWNLOAD_BANDWIDTH_BPS"@)
    } else if number_or(v.model_download_write_chunk_bytes, "262144"@, usize_max()) is None {
        Some("invalid RAGDOLL_MODEL_DOWNLOAD_WRITE_CHUNK_BYTES"@)
    } else {
        None
    }
}

/// `n` raised to at least `lo`.
pub open spec fn at_least(n: nat, lo: nat) -> nat {
    if n < lo { lo } else { n }
}

/// `n` brought within `lo` to `hi`.
pub open spec fn clamped(n: nat, lo: nat, hi: nat) -> nat {
    if n < lo { lo } else if n > hi { hi } else { n }
}

/// The view of an optional text.
pub open spec fn opt_seq(o: Option<String>) -> Option<Seq<char>> {
    match o {
        Some(x) => Some(x@),
        None => None,
    }
}

/// `c` is the configuration the variables `v` give (when `config_error(v)`
/// is `None`).
pub open spec fn config_from(v: EnvVars, c: Config) -> bool {
    let dd = text_or(v.data_dir, Seq::empty());
    &&& c.data_dir@ == dd
    &&& c.db_path@ == path_or(v.db_path, path_joined(path_joined(dd, "db"@), "ragdoll.db"@))
    &&& c.model_cache_dir@ == path_or(v.model_cache_dir, path_joined(dd, "models"@))
    &&& c.staging_dir@ == path_or(v.staging_dir, path_joined(dd, "staging"@))
    &&& c.backup_dir@ == path_or(v.backup_dir, path_joined(dd, "backups"@))
    &&& c.migrations_dir@ == text_or(v.migrations_dir, "migrations"@)
    &&& c.static_dir@ == text_or(v.static_dir, "frontend/dist"@)
    &&& c.secret@ == text_or(v.secret, Seq::empty())
    &&& number_or(v.embedding_dim, "1024"@, usize_max()) == Some(c.embedding_dim as nat)
    &&& c.distance_metric@ == text_or(v.distance_metric, "cosine"@)
    &&& number_or(v.port, "8080"@, u16::MAX as nat) == Some(c.port as nat)
    &&& number_or(v.onnx_num_threads, "4"@, usize_max()) == Some(c.onnx_num_threads as nat)
    &&& c.rerank_pool_size as nat == at_least(number_or(v.rerank_pool_size, "1"@, usize_max())->0, 1)
    &&& opt_seq(c.hf_token) == match v.hf_token {
        Some(t) => if t@.len() > 0 { Some(t@) } else { None },
        None => None,
    }
    &&& c.hf_hub_offline == match v.hf_hub_offline {
        Some(t) => t@ == "1"@ || eq_ignore_ascii_case(t@, "true"@),
        None => false,
    }
    &&& number_or(v.worker_poll_interval_ms, "1000"@, u64::MAX as nat) == Some(c.worker_poll_interval_ms as nat)
    &&& number_or(v.job_lease_seconds, "300"@, u64::MAX as nat) == Some(c.job_lease_seconds as nat)
    &&& number_or(v.max_attempts, "3"@, u32::MAX as nat) == Some(c.max_attempts as nat)
    &&& c.superadmin_email@ == text_or(v.superadmin_email, "admin@ragdoll.ai"@)
    &&& opt_seq(c.superadmin_password) == opt_seq(v.superadmin_password)
    &&& number_or(v.backup_keep_daily, "7"@, u32::MAX as nat) == Some(c.backup_keep_daily as nat)
    &&& number_or(v.backup_keep_manual, "10"@, u32::MAX as nat) == Some(c.backup_keep_manual as nat)
    &&& c.model_download_max_concurrent as nat == at_least(
        number_or(v.model_download_max_concurrent, "1"@, usize_max())->0,
        1,
    )
    &&& bandwidth(v.model_download_bandwidth_bps) == Some(
        match c.model_download_bandwidth_bps {
            Some(b) => Some(b as nat),
            None => None::<nat>,
        },
    )
    &&& c.model_download_write_chunk_bytes as nat == clamped(
        number_or(v.model_download_write_chunk_bytes, "262144"@, usize_max())->0,
        16384,
        4194304,
    )
}

fn text_or_default(v: &Option<String>, default: &str) -> (r: String)
    ensures
        r@ == text_or(*v, default@),
{
    match v {
        Some(x) => x.clone(),
        None => String::from_str(default),
    }
}

fn path_or_default(v: &Option<String>, default: String) -> (r: String)
    ensures
        r@ == path_or(*v, default@),
{
    match v {
        Some(x) => if x.as_str().is_empty() { default } else { x.clone() },
        None => default,
    }
}

fn number_or_default(v: &Option<String>, default: &str, max: u64) -> (r: Option<u64>)
    ensures
        match number_or(*v, default@, max as nat) {
            Some(n) => r == Some(n as u64),
            None => r is None,
        },
{
    let t = text_or_default(v, default);
    parse_uint(t.as_str(), max)
}

fn copy_opt(o: &Option<String>) -> (r: Option<String>)
    ensures
        opt_seq(r) == opt_seq(*o),
{
    match o {
        Some(x) => Some(x.clone()),
        None => None,
    }
}

/// Builds the configuration from the `RAGDOLL_*` variables: paths default
/// below `RAGDOLL_DATA_DIR`, numbers to their defaults; the data directory
/// and the secret are required, and a number that does not read is refused.
pub fn config_from_env_vars(v: &EnvVars) -> (r: Result<Config, String>)
    ensures
        match config_error(*v) {
            Some(e) => r matches Err(x) && x@ == e,
            None => r matches Ok(c) && config_from(*v, c),
        },
{
    let usize_max = usize::MAX as u64;
    let data_dir = match &v.data_dir {
        Some(d) => d.clone(),
        None => return Err(String::from_str("RAGDOLL_DATA_DIR is required")),
    };
    let secret = match &v.secret {
        Some(s) => s.clone(),
        None => return Err(String::from_str("RAGDOLL_SECRET is required")),
    };
    let embedding_dim = match number_or_default(&v.embedding_dim, "1024", usize_max) {
        Some(n) => n as usize,
        None => return Err(String::from_str("invalid RAGDOLL_EMBEDDING_DIM")),
    };
    let port = match number_or_default(&v.port, "8080", 65535) {
        Some(n) => n as u16,
        None => return Err(String::from_str("invalid RAGDOLL_PORT")),
    };
    let onnx_num_threads = match number_or_default(&v.onnx_num_threads, "4", usize_max) {
        Some(n) => n as usize,
        None => return Err(String::from_str("invalid RAGDOLL_ONNX_NUM_THREADS")),
    };
    let rerank_pool_size = match number_or_default(&v.rerank_pool_size, "1", usize_max) {
        Some(n) => if n < 1 { 1 } else { n as usize },
        None => return Err(String::from_str("invalid RAGDOLL_RERANK_POOL_SIZE")),
    };
    let worker_poll_interval_ms = match number_or_default(&v.worker_poll_interval_ms, "1000", u64::MAX) {
        Some(n) => n,
        None => return Err(String::from_str("invalid RAGDOLL_WORKER_POLL_INTERVAL_MS")),
    };
    let job_lease_seconds = match number_or_default(&v.job_lease_seconds, "300", u64::MAX) {
        Some(n) => n,
        None => return Err(String::from_str("invalid RAGDOLL_JOB_LEASE_SECONDS")),
    };
    let max_attempts = match number_or_default(&v.max_attempts, "3", 4294967295) {
        Some(n) => n as u32,
        None => return Err(String::from_str("invalid RAGDOLL_MAX_ATTEMPTS")),
    };
    let backup_keep_daily = match number_or_default(&v.backup_keep_daily, "7", 4294967295) {
        Some(n) => n as u32,
        None => return Err(String::from_str("invalid RAGDOLL_BACKUP_KEEP_DAILY")),
    };
    let backup_keep_manual = match number_or_default(&v.backup_keep_manual, "10", 4294967295) {
        Some(n) => n as u32,
        None => return Err(String::from_str("invalid RAGDOLL_BACKUP_KEEP_MANUAL")),
    };
    let model_download_max_concurrent = match number_or_default(&v.model_download_max_concurrent, "1", usize_max) {
        Some(n) => if n < 1 { 1 } else { n as usize },
        None => return Err(String::from_str("invalid RAGDOLL_MODEL_DOWNLOAD_MAX_CONCURRENT")),
    };
    let model_download_bandwidth_bps = match &v.model_download_bandwidth_bps {
        Some(b) => if b.as_str().is_empty() {
            None
        } else {
            match parse_uint(b.as_str(), u64::MAX) {
                Some(n) => Some(n),
                None => return Err(String::from_str("invalid RAGDOLL_MODEL_DOWNLOAD_BANDWIDTH_BPS")),
            }
        },
        None => None,
    };
    let model_download_write_chunk_bytes = match number_or_default(&v.model_download_write_chunk_bytes, "262144", usize_max) {
        Some(n) => if n < 16384 {
            16384
        } else if n > 4194304 {
            4194304
        } else {
            n as usize
        },
        None => return Err(String::from_str("invalid RAGDOLL_MODEL_DOWNLOAD_WRITE_CHUNK_BYTES")),
    };
    let hf_token = match &v.hf_token {
        Some(t) => if t.as_str().is_empty() { None } else { Some(t.clone()) },
        None => None,
    };
    let hf_hub_offline = match &v.hf_hub_offline {
        Some(t) => str_eq(t.as_str(), "1") || chars_eq_ignore_ascii_case(&chars_of(t.as_str()), &chars_of("true")),
        None => false,
    };
    let db_default = path_join(path_join(data_dir.as_str(), "db").as_str(), "ragdoll.db");
    let models_default = path_join(data_dir.as_str(), "models");
    let staging_default = path_join(data_dir.as_str(), "staging");
    let backups_default = path_join(data_dir.as_str(), "backups");
    let c = Config {
        db_path: path_or_default(&v.db_path, db_default),
        model_cache_dir: path_or_default(&v.model_cache_dir, models_default),
        staging_dir: path_or_default(&v.staging_dir, staging_default),
        migrations_dir: text_or_default(&v.migrations_dir, "migrations"),
        static_dir: text_or_default(&v.static_dir, "frontend/dist"),
        embedding_dim,
        distance_metric: text_or_default(&v.distance_metric, "cosine"),
        port,
        onnx_num_threads,
        rerank_pool_size,
        hf_token,
        hf_hub_offline,
        worker_poll_interval_ms,
        job_lease_seconds,
        max_attempts,
        secret,
        superadmin_email: text_or_default(&v.superadmin_email, "admin@ragdoll.ai"),
        superadmin_password: copy_opt(&v.superadmin_password),
        backup_dir: path_or_default(&v.backup_dir, backups_default),
        backup_keep_daily,
        backup_keep_manual,
        model_download_max_concurrent,
        model_download_bandwidth_bps,
        model_download_write_chunk_bytes,
        data_dir,
    };
    Ok(c)
}

impl Config {
    /// The configuration tests run with, below `data_dir`.
    pub fn for_test(data_dir: String, secret: String) -> (r: Self)
        ensures
            r.data_dir@ == data_dir@,
            r.db_path@ == path_joined(path_joined(data_dir@, "db"@), "ragdoll.db"@),
            r.model_cache_dir@ == path_joined(data_dir@, "models"@),
            r.staging_dir@ == path_joined(data_dir@, "staging"@),
            r.migrations_dir@ == "migrations"@,
            r.static_dir@ == path_joined(data_dir@, "static"@),
            r.embedding_dim == 1024,
            r.distance_metric@ == "cosine"@,
            r.port == 8080,
            r.onnx_num_threads == 1,
            r.rerank_pool_size == 1,
            r.hf_token is None,
            r.hf_hub_offline,
            r.worker_poll_interval_ms == 1000,
            r.job_lease_seconds == 300,
            r.max_attempts == 3,
            r.secret@ == secret@,
            r.superadmin_email@ == "admin@ragdoll.ai"@,
            opt_seq(r.superadmin_password) == Some("admin"@),
            r.backup_dir@ == path_joined(data_dir@, "backups"@),
            r.backup_keep_daily == 7,
            r.backup_keep_manual == 10,
            r.model_download_max_concurrent == 1,
            r.model_download_bandwidth_bps is None,
            r.model_download_write_chunk_bytes == 262144,
    {
        let d = data_dir.as_str();
        Config {
            db_path: path_join(path_join(d, "db").as_str(), "ragdoll.db"),
            model_cache_dir: path_join(d, "models"),
            staging_dir: path_join(d, "staging"),
            migrations_dir: String::from_str("migrations"),
            static_dir: path_join(d, "static"),
            embedding_dim: 1024,
            distance_metric: String::from_str("cosine"),
            port: 8080,
            onnx_num_threads: 1,
            rerank_pool_size: 1,
            hf_token: None,
            hf_hub_offline: true,
            worker_poll_interval_ms: 1000,
            job_lease_seconds: 300,
            max_attempts: 3,
            secret,
            superadmin_email: String::from_str("admin@ragdoll.ai"),
            superadmin_password: Some(String::from_str("admin")),
            backup_dir: path_join(d, "backups"),
            backup_keep_daily: 7,
            backup_keep_manual: 10,
            model_download_max_concurrent: 1,
            model_download_bandwidth_bps: None,
            model_download_write_chunk_bytes: 262144,
            data_dir: data_dir.clone(),
        }
    }

    /// The directories the service writes to, in the order they are made:
    /// the data directory, the database's directory (`.` when the path has
    /// no parent), the model cache, the staging area and the backups.
    pub fn directories(&self) -> (r: Vec<String>)
        ensures
            r@.len() == 5,
            r@[0]@ == self.data_dir@,
            r@[1]@ == match path_parent_of(self.db_path@) {
                Some(p) => p,
                None => "."@,
            },
            r@[2]@ == self.model_cache_dir@,
            r@[3]@ == self.staging_dir@,
            r@[4]@ == self.backup_dir@,
    {
        let db_dir = match path_parent(self.db_path.as_str()) {
            Some(p) => p,
            None => String::from_str("."),
        };
        let mut r: Vec<String> = Vec::new();
        r.push(self.data_dir.clone());
        r.push(db_dir);
        r.push(self.model_cache_dir.clone());
        r.push(self.staging_dir.clone());
        r.push(self.backup_dir.clone());
        r
    }

    /// The directory a model's files are kept in.
    pub fn model_dir_for(&self, model_name: &str) -> (r: String)
        ensures
            r@ == path_joined(self.model_cache_dir@, sanitized_model_name(model_name@)),
    {
        let name = sanitize_model_name(model_name);
        path_join(self.model_cache_dir.as_str(), name.as_str())
    }
}

/// `model_name` with each `/` written as `__`.
pub open spec fn sanitized_model_name(s: Seq<char>) -> Seq<char>
    decreases s.len(),
{
    if s.len() == 0 {
        s
    } else if s.last() == '/' {
        sanitized_model_name(s.drop_last()) + "__"@
    } else {
        sanitized_model_name(s.drop_last()).push(s.last())
    }
}

/// A model name usable as one directory name: `/` becomes `__`.
pub fn sanitize_model_name(model_name: &str) -> (r: String)
    ensures
        r@ == sanitized_model_name(model_name@),
{
    let v = chars_of(model_name);
    let mut s = String::new();
    let mut i: usize = 0;
    while i < v.len()
        invariant
            i <= v@.len(),
            v@ == model_name@,
            s@ == sanitized_model_name(v@.subrange(0, i as int)),
        decreases v@.len() - i,
    {
        assert(v@.subrange(0, i + 1).drop_last() == v@.subrange(0, i as int));
        if v[i] == '/' {
            push_str(&mut s, "__");
        } else {
            push_char(&mut s, v[i]);
        }
        i += 1;
    }
    assert(v@.subrange(0, v@.len() as int) == v@);
    s
}

} // verus!
