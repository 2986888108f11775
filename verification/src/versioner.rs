//! The companion project-configuration model: a two-field configuration
//! and the merge rule that folds one configuration into another.

use vstd::prelude::*;

verus! {

/// An error while locating or reading the project configuration file.
#[derive(Debug)]
pub enum VersionerConfigError {
    /// The configuration path could not be rendered as text.
    PathUnavailable,
    /// The configuration file could not be read or parsed; the message
    /// says why.
    ConfigReadError(String),
}

/// The project configuration; both fields may be absent in the file.
#[derive(Debug)]
pub struct VersionerConfig {
    pub projects: Option<String>,
    pub other_field: Option<String>,
}

/// The view of an optional configuration value.
pub open spec fn field_view(o: Option<String>) -> Option<Seq<char>> {
    match o {
        Some(s) => Some(s@),
        None => None,
    }
}

/// What one optional field merges to: an incoming value wins; where none
/// comes in, the existing value is kept, an absent existing value becoming
/// the empty string.
pub open spec fn merged_field(existing: Option<Seq<char>>, incoming: Option<Seq<char>>) -> Option<
    Seq<char>,
> {
    match incoming {
        Some(s) => Some(s),
        None => match existing {
            Some(s) => Some(s),
            None => Some(Seq::empty()),
        },
    }
}

/// The path of the configuration file inside a project directory:
/// `<dir>/versionerrc.json`.
pub fn versioner_config_path(dir: &str) -> (r: String)
    ensures
        r@ == dir@ + "/versionerrc.json"@,
{
    let mut r = dir.to_owned();
    r.append("/versionerrc.json");
    r
}

impl Default for VersionerConfig {
    /// The configuration used when the file provides nothing: no projects,
    /// and the built-in value for the other field.
    fn default() -> (c: Self)
        ensures
            c.projects is None,
            c.other_field matches Some(s) && s@ == "default-other-field"@,
    {
        VersionerConfig { projects: None, other_field: Some("default-other-field".to_owned()) }
    }
}

impl VersionerConfig {
    /// Merges another configuration into this one, field by field, by the
    /// rule of [`merged_field`]; merging `None` changes nothing.
    pub fn merge(&mut self, other_config: Option<VersionerConfig>)
        ensures
            other_config matches Some(c) ==> (field_view(final(self).projects) == merged_field(
                field_view(old(self).projects),
                field_view(c.projects),
            ) && field_view(final(self).other_field) == merged_field(
                field_view(old(self).other_field),
                field_view(c.other_field),
            )),
            other_config is None ==> *final(self) == *old(self),
    {
        match other_config {
            Some(config) => {
                let existing_projects = self.projects.take();
                self.projects = match config.projects {
                    Some(p) => Some(p),
                    None => match existing_projects {
                        Some(s) => Some(s),
                        None => Some(String::new()),
                    },
                };
                let existing_other = self.other_field.take();
                self.other_field = match config.other_field {
                    Some(o) => Some(o),
                    None => match existing_other {
                        Some(s) => Some(s),
                        None => Some(String::new()),
                    },
                };
            },
            None => {},
        }
    }
}

/// Folds the outcome of reading the configuration file into the effective
/// configuration: a configuration that was read is merged with the default
/// — its own projects are kept and the default fills the other field — and
/// a read failure becomes a `ConfigReadError` carrying its message.
pub fn resolve_config(loaded: Result<VersionerConfig, String>) -> (r: Result<
    VersionerConfig,
    VersionerConfigError,
>)
    ensures
        loaded matches Ok(cfg) ==> (r matches Ok(merged) && field_view(merged.projects)
            == merged_field(field_view(cfg.projects), None) && field_view(merged.other_field)
            == Some("default-other-field"@)),
        loaded matches Err(m) ==> (r matches Err(e) && e matches
            VersionerConfigError::ConfigReadError(message) && message@ == m@),
{
    match loaded {
        Ok(mut config) => {
            config.merge(Some(VersionerConfig::default()));
            Ok(config)
        },
        Err(message) => Err(VersionerConfigError::ConfigReadError(message)),
    }
}

} // verus!
