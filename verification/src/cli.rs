//! The options of the batch driver and the paths that they stand for.

use vstd::prelude::*;
use vstd::string::*;
use crate::file_op::FileOp;
use crate::text::copy_string;

verus! {

/// The name of the file with the settings of the model, below the
/// configuration directory.
pub const CONFIG_FILE: &'static str = "config.json";

/// The name of the file with the algorithm definitions, below the
/// configuration directory.
pub const ALGORITHM_FILE: &'static str = "algorithm.json";

/// The options of a batch run.
#[derive(Clone, Debug, PartialEq, Eq)]
pub struct Cli {
    /// The directory of the configuration files.
    pub config_path: Option<String>,
    /// The image root.
    pub image_path: Option<String>,
    /// Whether to rename the images in place of running inference.
    pub rename: bool,
    /// Whether to record results in structured form.
    pub parse_json: bool,
}

/// The path of the file `file` in the directory `directory`.
pub open spec fn file_in(directory: Seq<char>, file: Seq<char>) -> Seq<char> {
    directory + "/"@ + file
}

impl Default for Cli {
    /// The options of a run that is given none: configuration below
    /// `config`, images below `images`, inference with structured records.
    fn default() -> (cli: Cli)
        ensures
            cli.config_path.deep_view() == Some("config"@),
            cli.image_path.deep_view() == Some("images"@),
            !cli.rename,
            cli.parse_json,
    {
        Cli {
            config_path: Some("config".to_owned()),
            image_path: Some("images".to_owned()),
            rename: false,
            parse_json: true,
        }
    }
}

impl Cli {
    /// The paths of the run: the two configuration files below the
    /// configuration directory, and the image root. There are none where
    /// the configuration directory or the image root is not given.
    pub fn file_op(&self) -> (paths: Option<FileOp>)
        ensures
            paths is Some <==> self.config_path is Some && self.image_path is Some,
            paths matches Some(file_op) ==> {
                &&& file_op.config_path@ == file_in(self.config_path->0@, CONFIG_FILE@)
                &&& file_op.algorithm_config_path@ == file_in(
                    self.config_path->0@,
                    ALGORITHM_FILE@,
                )
                &&& file_op.image_path@ == self.image_path->0@
            },
    {
        match (&self.config_path, &self.image_path) {
            (Some(directory), Some(images)) => {
                let mut config = copy_string(directory);
                config.append("/");
                config.append(CONFIG_FILE);
                let mut algorithms = copy_string(directory);
                algorithms.append("/");
                algorithms.append(ALGORITHM_FILE);
                Some(FileOp::new(config, algorithms, copy_string(images)))
            },
            _ => None,
        }
    }
}

} // verus!
