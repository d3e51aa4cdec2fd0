//! Path layout of the job service's storage: where a job's upload lives,
//! where its output goes, and where separation stems are written. The
//! directories themselves are created, filled and removed by the shell;
//! this module decides every path.

use vstd::prelude::*;

use crate::text::{chars_to_string, push_str_chars};
use crate::web_config::{path_join, path_joined, Config};

verus! {

/// Storage layout for uploaded files and produced outputs.
#[derive(Debug, Clone, PartialEq)]
pub struct StorageManager {
    /// The directory uploads are stored under, one subdirectory per job.
    pub uploads_dir: String,
    /// The directory outputs are written under.
    pub outputs_dir: String,
}

impl StorageManager {
    /// The layout a configuration prescribes. The shell creates both
    /// directories before use.
    pub fn new(config: &Config) -> (r: StorageManager)
        ensures
            r.uploads_dir@ == path_joined(config.data_dir@, "uploads"@),
            r.outputs_dir@ == path_joined(config.data_dir@, "outputs"@),
    {
        StorageManager { uploads_dir: config.uploads_dir(), outputs_dir: config.outputs_dir() }
    }

    /// The upload directory of one job.
    pub fn job_upload_dir(&self, job_id: &str) -> (r: String)
        ensures
            r@ == path_joined(self.uploads_dir@, job_id@),
    {
        path_join(self.uploads_dir.as_str(), job_id)
    }

    /// The output file path of one job: `{job_id}.{extension}` under the
    /// outputs directory.
    pub fn job_output_path(&self, job_id: &str, extension: &str) -> (r: String)
        ensures
            r@ == path_joined(self.outputs_dir@, job_id@ + "."@ + extension@),
    {
        let mut name: Vec<char> = Vec::new();
        push_str_chars(&mut name, job_id);
        push_str_chars(&mut name, ".");
        push_str_chars(&mut name, extension);
        let name_s = chars_to_string(&name);
        path_join(self.outputs_dir.as_str(), name_s.as_str())
    }

    /// The stem-output directory of one separation job:
    /// `{job_id}_stems` under the outputs directory. The shell creates it.
    pub fn job_demucs_output_dir(&self, job_id: &str) -> (r: String)
        ensures
            r@ == path_joined(self.outputs_dir@, job_id@ + "_stems"@),
    {
        let mut name: Vec<char> = Vec::new();
        push_str_chars(&mut name, job_id);
        push_str_chars(&mut name, "_stems");
        let name_s = chars_to_string(&name);
        path_join(self.outputs_dir.as_str(), name_s.as_str())
    }

    /// The outputs directory (for serving files).
    pub fn outputs_dir(&self) -> (r: &str)
        ensures
            r@ == self.outputs_dir@,
    {
        self.outputs_dir.as_str()
    }
}

} // verus!
