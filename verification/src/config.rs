//! Validated configuration for launching the media server: the absolute
//! paths of the four required files, resolved from one directory, plus the
//! optional feature flags.
//!
//! Checking that a path exists on disk is an operating-system query, so a
//! configuration is built in two steps: [`ServerConfig::new`] computes the
//! candidate paths, the caller checks the file system, and
//! [`ServerConfig::confirm_files`] turns the answers into the final,
//! validated value.  A confirmed configuration is immutable afterward;
//! existence is not re-verified later.

use vstd::prelude::*;
use crate::text::str_eq;
use crate::util::join_path;

verus! {

/// Why a configuration could not be built.
#[derive(Debug, Clone, PartialEq, Eq)]
pub enum ConfigError {
    /// The supplied path is not an existing directory.
    NotADirectory,
    /// The operating system is not one the server ships binaries for.
    UnsupportedOs,
    /// A required file is missing; the path that was probed is carried along.
    FileMissing { path: String },
}

/// File name of the runtime interpreter binary for the given operating
/// system, exactly as the server distribution names it.
pub open spec fn spec_node_bin(os: Seq<char>) -> Result<Seq<char>, ConfigError> {
    if os == "linux"@ || os == "macos"@ {
        Ok("stremio-runtime"@)
    } else if os == "windows"@ {
        Ok("stremio-runtime.exe"@)
    } else {
        Err(ConfigError::UnsupportedOs)
    }
}

/// File name of the media-decoding helper for the given operating system.
pub open spec fn spec_ffmpeg_bin(os: Seq<char>) -> Result<Seq<char>, ConfigError> {
    if os == "linux"@ || os == "macos"@ {
        Ok("ffmpeg"@)
    } else if os == "windows"@ {
        Ok("ffmpeg.exe"@)
    } else {
        Err(ConfigError::UnsupportedOs)
    }
}

/// File name of the media-probing helper for the given operating system.
pub open spec fn spec_ffprobe_bin(os: Seq<char>) -> Result<Seq<char>, ConfigError> {
    if os == "linux"@ || os == "macos"@ {
        Ok("ffprobe"@)
    } else if os == "windows"@ {
        Ok("ffprobe.exe"@)
    } else {
        Err(ConfigError::UnsupportedOs)
    }
}

/// Runtime interpreter file name, per operating system.
pub fn node_bin(os: &str) -> (r: Result<&'static str, ConfigError>)
    ensures
        match r {
            Ok(n) => spec_node_bin(os@) == Ok::<Seq<char>, ConfigError>(n@),
            Err(e) => spec_node_bin(os@) == Err::<Seq<char>, ConfigError>(e),
        },
{
    if str_eq(os, "linux") || str_eq(os, "macos") {
        Ok("stremio-runtime")
    } else if str_eq(os, "windows") {
        Ok("stremio-runtime.exe")
    } else {
        Err(ConfigError::UnsupportedOs)
    }
}

/// Media-decoding helper file name, per operating system.
pub fn ffmpeg_bin(os: &str) -> (r: Result<&'static str, ConfigError>)
    ensures
        match r {
            Ok(n) => spec_ffmpeg_bin(os@) == Ok::<Seq<char>, ConfigError>(n@),
            Err(e) => spec_ffmpeg_bin(os@) == Err::<Seq<char>, ConfigError>(e),
        },
{
    if str_eq(os, "linux") || str_eq(os, "macos") {
        Ok("ffmpeg")
    } else if str_eq(os, "windows") {
        Ok("ffmpeg.exe")
    } else {
        Err(ConfigError::UnsupportedOs)
    }
}

/// Media-probing helper file name, per operating system.
pub fn ffprobe_bin(os: &str) -> (r: Result<&'static str, ConfigError>)
    ensures
        match r {
            Ok(n) => spec_ffprobe_bin(os@) == Ok::<Seq<char>, ConfigError>(n@),
            Err(e) => spec_ffprobe_bin(os@) == Err::<Seq<char>, ConfigError>(e),
        },
{
    if str_eq(os, "linux") || str_eq(os, "macos") {
        Ok("ffprobe")
    } else if str_eq(os, "windows") {
        Ok("ffprobe.exe")
    } else {
        Err(ConfigError::UnsupportedOs)
    }
}

/// Paths of the four files the server needs, plus the feature flags.
///
/// All four binaries sit directly inside one distribution directory; paths
/// are joined with `/`, which every supported operating system accepts.
#[derive(Debug, Clone)]
pub struct ServerConfig {
    /// The server entry script, passed to the interpreter as its argument.
    pub server: String,
    /// The runtime interpreter binary that executes the entry script.
    pub node: String,
    /// The media-decoding helper binary.
    pub ffmpeg: String,
    /// The media-probing helper binary.
    pub ffprobe: String,
    /// Whether the server is asked to disable CORS checks.
    pub no_cors: bool,
}

/// A directory entry: the directory, a `/` separator, the file name.
pub open spec fn spec_join(directory: Seq<char>, name: Seq<char>) -> Seq<char> {
    directory + "/"@ + name
}

/// Which files the caller found on disk, in the order they are validated.
pub struct FilePresence {
    pub server: bool,
    pub node: bool,
    pub ffmpeg: bool,
    pub ffprobe: bool,
}

/// The outcome of [`ServerConfig::confirm_files`]: the first missing file,
/// in validation order, decides the error.
pub open spec fn spec_confirm(c: ServerConfig, p: FilePresence) -> Result<ServerConfig, ConfigError> {
    if !p.server {
        Err(ConfigError::FileMissing { path: c.server })
    } else if !p.node {
        Err(ConfigError::FileMissing { path: c.node })
    } else if !p.ffmpeg {
        Err(ConfigError::FileMissing { path: c.ffmpeg })
    } else if !p.ffprobe {
        Err(ConfigError::FileMissing { path: c.ffprobe })
    } else {
        Ok(c)
    }
}

impl ServerConfig {
    /// Candidate configuration for one distribution directory: the entry
    /// script `server.js` and the three binaries named for `os`.  The caller
    /// reports whether the directory exists (`is_dir`); existence of the
    /// individual files is checked afterwards with [`Self::confirm_files`].
    pub fn new(directory: &str, os: &str, is_dir: bool, no_cors: bool) -> (r: Result<
        ServerConfig,
        ConfigError,
    >)
        ensures
            !is_dir ==> r == Err::<ServerConfig, ConfigError>(ConfigError::NotADirectory),
            is_dir && spec_node_bin(os@) is Err ==> r == Err::<ServerConfig, ConfigError>(
                ConfigError::UnsupportedOs,
            ),
            is_dir && spec_node_bin(os@) is Ok ==> (r matches Ok(c) && {
                &&& c.server@ == spec_join(directory@, "server.js"@)
                &&& c.node@ == spec_join(directory@, spec_node_bin(os@)->Ok_0)
                &&& c.ffmpeg@ == spec_join(directory@, spec_ffmpeg_bin(os@)->Ok_0)
                &&& c.ffprobe@ == spec_join(directory@, spec_ffprobe_bin(os@)->Ok_0)
                &&& c.no_cors == no_cors
            }),
    {
        if !is_dir {
            return Err(ConfigError::NotADirectory);
        }
        let node_name = match node_bin(os) {
            Ok(n) => n,
            Err(e) => {
                return Err(e);
            },
        };
        let ffmpeg_name = match ffmpeg_bin(os) {
            Ok(n) => n,
            Err(e) => {
                return Err(e);
            },
        };
        let ffprobe_name = match ffprobe_bin(os) {
            Ok(n) => n,
            Err(e) => {
                return Err(e);
            },
        };
        Ok(ServerConfig {
            server: join_path(directory, "server.js"),
            node: join_path(directory, node_name),
            ffmpeg: join_path(directory, ffmpeg_name),
            ffprobe: join_path(directory, ffprobe_name),
            no_cors,
        })
    }

    /// Final validation: the caller reports which of the four files exist;
    /// the first missing one, in the order entry script, interpreter,
    /// decoder, prober, decides the error.
    pub fn confirm_files(self, present: FilePresence) -> (r: Result<ServerConfig, ConfigError>)
        ensures
            r == spec_confirm(self, present),
    {
        if !present.server {
            Err(ConfigError::FileMissing { path: self.server })
        } else if !present.node {
            Err(ConfigError::FileMissing { path: self.node })
        } else if !present.ffmpeg {
            Err(ConfigError::FileMissing { path: self.ffmpeg })
        } else if !present.ffprobe {
            Err(ConfigError::FileMissing { path: self.ffprobe })
        } else {
            Ok(self)
        }
    }

    /// An equal copy, field by field.
    pub fn duplicate(&self) -> (r: ServerConfig)
        ensures
            r == *self,
    {
        let r = ServerConfig {
            server: self.server.clone(),
            node: self.node.clone(),
            ffmpeg: self.ffmpeg.clone(),
            ffprobe: self.ffprobe.clone(),
            no_cors: self.no_cors,
        };
        proof {
            assert(r == *self);
        }
        r
    }
}

} // verus!
