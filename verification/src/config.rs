//! User configuration of the Ghidra front end.
//!
//! Values given in the environment take precedence over the file; the
//! caller reads the environment and hands the values in.

use vstd::prelude::*;
use std::collections::HashMap;
use std::path::PathBuf;
use crate::error::GhidraError;

verus! {

/// The settings stored in the configuration file.
pub struct Config {
    pub ghidra_install_dir: Option<PathBuf>,
    pub ghidra_project_dir: Option<PathBuf>,
    pub default_program: Option<String>,
    pub default_project: Option<String>,
    pub default_output_format: Option<String>,
    pub default_limit: Option<usize>,
    /// Seconds.
    pub timeout: Option<u64>,
    /// Command aliases.
    pub aliases: HashMap<String, String>,
}

impl Default for Config {
    /// Nothing configured but the output format (`auto`), a limit of
    /// 1000 results and a timeout of 300 seconds.
    fn default() -> (r: Self)
        ensures
            r.ghidra_install_dir is None,
            r.ghidra_project_dir is None,
            r.default_program is None,
            r.default_project is None,
            r.default_output_format matches Some(f) && f@ == "auto"@,
            r.default_limit == Some(1000usize),
            r.timeout == Some(300u64),
            r.aliases@ == Map::<String, String>::empty(),
    {
        Config {
            ghidra_install_dir: None,
            ghidra_project_dir: None,
            default_program: None,
            default_project: None,
            default_output_format: Some("auto".to_owned()),
            default_limit: Some(1000),
            timeout: Some(300),
            aliases: HashMap::new(),
        }
    }
}

impl Config {
    /// The program to use when none is named: the one given in the
    /// environment (`GHIDRA_DEFAULT_PROGRAM`), else the configured one.
    pub fn get_default_program(&self, from_env: Option<String>) -> (r: Option<String>)
        ensures
            r == match from_env {
                Some(p) => Some(p),
                None => self.default_program,
            },
    {
        match from_env {
            Some(p) => Some(p),
            None => self.default_program.clone(),
        }
    }

    /// The Ghidra installation: the one given in the environment
    /// (`GHIDRA_INSTALL_DIR`), else the configured one; without either
    /// Ghidra is not found.
    pub fn get_ghidra_install_dir(&self, from_env: Option<PathBuf>) -> (r: Result<PathBuf, GhidraError>)
        ensures
            r == match from_env {
                Some(d) => Ok(d),
                None => match self.ghidra_install_dir {
                    Some(d) => Ok(d),
                    None => Err(GhidraError::GhidraNotFound),
                },
            },
    {
        if let Some(d) = from_env {
            return Ok(d);
        }
        match &self.ghidra_install_dir {
            Some(d) => Ok(d.clone()),
            None => Err(GhidraError::GhidraNotFound),
        }
    }

    /// The directory of Ghidra projects: the one given in the environment
    /// (`GHIDRA_PROJECT_DIR`), else the configured one, else
    /// `default_dir` (`ghidra-cli/projects` in the user's cache
    /// directory, `None` when there is none).
    pub fn get_project_dir(&self, from_env: Option<PathBuf>, default_dir: Option<PathBuf>) -> (r: Result<PathBuf, GhidraError>)
        ensures
            match from_env {
                Some(d) => r == Ok::<PathBuf, GhidraError>(d),
                None => match self.ghidra_project_dir {
                    Some(d) => r == Ok::<PathBuf, GhidraError>(d),
                    None => match default_dir {
                        Some(d) => r == Ok::<PathBuf, GhidraError>(d),
                        None => r matches Err(GhidraError::ConfigError(m)) && m@
                            == "Could not determine cache directory"@,
                    },
                },
            },
    {
        if let Some(d) = from_env {
            return Ok(d);
        }
        if let Some(d) = &self.ghidra_project_dir {
            return Ok(d.clone());
        }
        match default_dir {
            Some(d) => Ok(d),
            None => Err(GhidraError::ConfigError("Could not determine cache directory".to_owned())),
        }
    }
}

} // verus!
