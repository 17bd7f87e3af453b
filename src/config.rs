use vstd::prelude::*;

verus! {

/// Bytes in one mebibyte.
pub const BYTES_PER_MB: u64 = 1048576;

/// Server-wide settings: where to listen and how the disk cache behaves.
#[derive(Debug, Clone)]
pub struct ServerConfig {
    /// Address to bind.
    pub bind: String,
    /// Port to listen on.
    pub port: u16,
    /// Whether the disk cache is consulted and filled.
    pub cache_enabled: bool,
    /// Root directory of the cache tree.
    pub cache_dir: String,
    /// Time-to-live of a cache entry, and period of the sweeper.
    pub cache_ttl_secs: u64,
    /// Size budget of the cache tree, in mebibytes.
    pub cache_max_mb: u64,
    /// Format used when a request names neither "webp" nor "avif".
    pub default_format: String,
}

/// Settings handed to the AVIF encoder.
#[derive(Debug, Clone)]
pub struct AvifConfig {
    /// Quality, on the encoder's 1 to 100 scale.
    pub quality: u8,
    /// Effort, on the encoder's 1 (slowest) to 10 (fastest) scale.
    pub speed: u8,
    /// Worker threads; `None` lets the encoder decide.
    pub thread: Option<usize>,
}

impl ServerConfig {
    /// The size budget in bytes.
    pub open spec fn cache_max_bytes_spec(&self) -> int {
        self.cache_max_mb * BYTES_PER_MB
    }

    /// The size budget in bytes: `cache_max_mb` mebibytes.
    pub fn cache_max_bytes(&self) -> (r: u64)
        requires
            self.cache_max_bytes_spec() <= u64::MAX,
        ensures
            r == self.cache_max_bytes_spec(),
    {
        self.cache_max_mb * BYTES_PER_MB
    }
}

/// Where the original images of one backend prefix come from.
#[derive(Debug, Clone)]
pub enum BackendKind {
    /// A directory on the local file system.
    FileSystem { root: String },
    /// A bucket of an S3-compatible object store.
    S3 {
        bucket: String,
        region: String,
        access_key: String,
        secret_key: String,
        endpoint: Option<String>,
    },
    /// An HTTP endpoint, reached over TCP or over a Unix socket.
    Http { root: String, unix_socket: Option<String> },
}

/// One origin, selected by the first path segment of a request.
#[derive(Debug, Clone)]
pub struct BackendConfig {
    pub prefix: String,
    pub kind: BackendKind,
}

/// The whole configuration file.
#[derive(Debug, Clone)]
pub struct Config {
    pub server: ServerConfig,
    pub backends: Vec<BackendConfig>,
    pub avif: AvifConfig,
}

impl Config {
    /// A commented configuration file to start from.
    pub fn template() -> (r: &'static str)
        ensures
            r@ == CONFIG_TEMPLATE@,
    {
        CONFIG_TEMPLATE
    }
}

/// Text of the starting configuration file.
pub const CONFIG_TEMPLATE: &'static str = "# Image server configuration

[server]
# Address and port to listen on
bind = \"0.0.0.0\"
port = 8080
# Keep transformed images on disk
cache_enabled = true
# Root of the cache tree
cache_dir = \"./cache\"
# Lifetime of a cached file in seconds; also the sweep period
cache_ttl_secs = 86400
# Size budget of the cache tree in MiB
cache_max_mb = 1024
# Used when a request names neither webp nor avif
default_format = \"avif\"

[avif]
# 1 to 100
quality = 70
# 1 (slowest) to 10 (fastest)
speed = 6
# thread = 4

[[backends]]
prefix = \"local\"
type = \"fs\"
root = \"./images\"

# [[backends]]
# prefix = \"s3\"
# type = \"s3\"
# bucket = \"images\"
# region = \"us-east-1\"
# access_key = \"\"
# secret_key = \"\"
# endpoint = \"http://127.0.0.1:9000\"

# [[backends]]
# prefix = \"remote\"
# type = \"http\"
# root = \"http://127.0.0.1:3000\"
# unix_socket = \"/run/images.sock\"
";

} // verus!
