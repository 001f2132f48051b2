//! Packaging engine: the decisions of the `package` verb.
//!
//! Packaging archives a directory into a bundle beside it, and — when no
//! explicit configuration path was given — first writes the default
//! configuration next to it.  The filesystem work is the host's; this
//! module decides exactly which paths are involved.

use vstd::prelude::*;
use crate::config::ZephirConfig;
use crate::paths::{spec_parent_dir, spec_join, all_slashes, parent_dir, join_path};

verus! {

/// Why packaging failed.
#[derive(Debug, Clone)]
pub enum PackageError {
    /// Disk or path trouble.
    Io { message: String },
    /// The configuration could not be written or read as YAML.
    Yaml { message: String },
}

impl PackageError {
    /// The single error line the failure prints.
    pub fn message(&self) -> (r: String)
        ensures
            self matches PackageError::Io { message } ==> r@ == "I/O error: "@ + message@,
            self matches PackageError::Yaml { message } ==> r@ == message@,
    {
        match self {
            PackageError::Io { message } => String::from_str("I/O error: ").concat(
                message.as_str(),
            ),
            PackageError::Yaml { message } => message.clone(),
        }
    }
}

/// Everything the `package` verb must do, decided up front.
#[derive(Debug, Clone)]
pub struct PackagePlan {
    /// The directory being archived.
    pub source_dir: String,
    /// Where the default configuration sits, beside the directory.
    pub default_config_path: String,
    /// Whether that default configuration must first be written — true
    /// exactly when no explicit configuration path was given.
    pub write_default_config: bool,
    /// Where the bundle is written, beside the directory.
    pub bundle_path: String,
    /// The compression level the bundle is written with.
    pub compression_level: i32,
}

/// The packaging engine: which directory to archive, and an optional
/// explicit configuration path.
pub struct PackageEngine {
    directory_path: String,
    config_path: Option<String>,
}

impl PackageEngine {
    /// The directory this engine archives.
    pub closed spec fn spec_directory_path(&self) -> Seq<char> {
        self.directory_path@
    }

    /// The explicit configuration path, if one was given.
    pub closed spec fn spec_config_path(&self) -> Option<Seq<char>> {
        match self.config_path {
            Some(s) => Some(s@),
            None => None,
        }
    }

    pub fn new(directory_path: &str, config_path: Option<&str>) -> (r: Self)
        ensures
            r.spec_directory_path() == directory_path@,
            config_path is Some ==> r.spec_config_path() == Some(config_path->0@),
            config_path is None ==> r.spec_config_path() is None,
    {
        let config_path_var: Option<String> = match config_path {
            Some(path) => Some(String::from_str(path)),
            None => None,
        };
        PackageEngine {
            directory_path: String::from_str(directory_path),
            config_path: config_path_var,
        }
    }

    /// The `package` verb, decided: the default configuration file sits
    /// beside the archived directory and is written only when no explicit
    /// configuration path was given; the bundle lands beside the directory
    /// under the default bundle name, compressed at level 1.
    pub fn package_plan(&self) -> (r: PackagePlan)
        requires
            self.spec_directory_path().len() > 0,
            !all_slashes(self.spec_directory_path()),
        ensures
            r.source_dir@ == self.spec_directory_path(),
            r.default_config_path@ == spec_join(
                spec_parent_dir(self.spec_directory_path()),
                "zephir.yaml"@,
            ),
            r.write_default_config <==> self.spec_config_path() is None,
            r.bundle_path@ == spec_join(
                spec_parent_dir(self.spec_directory_path()),
                "function.zephir"@,
            ),
            r.compression_level == 1,
    {
        let parent: String = parent_dir(self.directory_path.as_str());
        let default_config_path: String = join_path(parent.as_str(), "zephir.yaml");
        let default_config: ZephirConfig = ZephirConfig::sane_defaults();
        let bundle_path: String = join_path(
            parent.as_str(),
            default_config.function.bundle.packagePath.as_str(),
        );
        PackagePlan {
            source_dir: self.directory_path.clone(),
            default_config_path,
            write_default_config: self.config_path.is_none(),
            bundle_path,
            compression_level: 1,
        }
    }
}

} // verus!
