//! The settings under which migrations of a project run.

use vstd::prelude::*;
use vstd::string::StringExecFns;
use crate::ver::Query;

verus! {

/// What a project's configuration file declares.
pub struct ProjectConfig {
    /// The server version that the project asks for.
    pub server_version: Query,
    /// The directory that holds the schema.
    pub schema_dir: String,
}

/// The settings of one run.
pub struct Context {
    pub schema_dir: String,
    /// The server version that the project declares. `None` only says that no
    /// project configuration was read.
    pub edgedb_version: Option<Query>,
    pub quiet: bool,
}

/// The name of the configuration file in a project's directory.
pub fn config_file_name() -> (r: &'static str)
    ensures
        r@ == "edgedb.toml"@,
{
    "edgedb.toml"
}

/// Whether the project's configuration has to be looked for: only when no
/// schema directory is given explicitly.
pub fn needs_project(schema_dir: &Option<String>) -> (r: bool)
    ensures
        r == schema_dir.is_none(),
{
    schema_dir.is_none()
}

impl Context {
    /// The settings that follow from an explicit schema directory, or else
    /// from the project's configuration, or else from the default directory.
    pub open spec fn spec_from_project_or_config(
        self,
        schema_dir: Option<String>,
        project: Option<ProjectConfig>,
        quiet: bool,
    ) -> bool {
        &&& self.quiet == quiet
        &&& match schema_dir {
            Some(dir) => self.schema_dir == dir && self.edgedb_version.is_none(),
            None => match project {
                Some(config) => self.schema_dir == config.schema_dir && self.edgedb_version
                    == Some(config.server_version),
                None => self.schema_dir@ == "./dbschema"@ && self.edgedb_version.is_none(),
            },
        }
    }

    /// Builds the settings of a run. An explicit schema directory wins and
    /// leaves the version unknown; without it the project's configuration
    /// gives both; without a project the schema is in `./dbschema`.
    pub fn from_project_or_config(
        schema_dir: Option<String>,
        project: Option<ProjectConfig>,
        quiet: bool,
    ) -> (r: Context)
        ensures
            r.spec_from_project_or_config(schema_dir, project, quiet),
    {
        match schema_dir {
            Some(dir) => Context { schema_dir: dir, edgedb_version: None, quiet },
            None => match project {
                Some(config) => Context {
                    schema_dir: config.schema_dir,
                    edgedb_version: Some(config.server_version),
                    quiet,
                },
                None => Context {
                    schema_dir: String::from_str("./dbschema"),
                    edgedb_version: None,
                    quiet,
                },
            },
        }
    }

    /// The settings for watching a project: its own schema directory and
    /// version, and never quiet.
    pub fn for_watch(config: ProjectConfig) -> (r: Context)
        ensures
            r.schema_dir == config.schema_dir,
            r.edgedb_version == Some(config.server_version),
            !r.quiet,
    {
        Context {
            schema_dir: config.schema_dir,
            edgedb_version: Some(config.server_version),
            quiet: false,
        }
    }
}

} // verus!
