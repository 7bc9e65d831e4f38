//! Builder for bus clients: collects the configuration source, backend
//! mode, default timeout and Docker options, and checks them.
use crate::duration::{duration_millis, duration_of_secs};
use crate::error::Error;
use crate::types::{config_error, BackendMode, BusConfig, ConfigSource, DockerOptions};
use std::time::Duration;
use vstd::prelude::*;

verus! {

/// Builder for creating bus clients.
#[derive(Debug, Clone)]
pub struct StdioBusBuilder {
    config_source: Option<ConfigSource>,
    backend: BackendMode,
    timeout: Duration,
    docker_options: Option<DockerOptions>,
}

/// What a successful build settles: everything needed to create the
/// backend and the client.
#[derive(Debug)]
pub struct BuildPlan {
    pub config_source: ConfigSource,
    pub backend: BackendMode,
    pub timeout: Duration,
    pub docker_options: Option<DockerOptions>,
}

impl StdioBusBuilder {
    /// The configuration source set so far.
    pub closed spec fn source(&self) -> Option<ConfigSource> {
        self.config_source
    }

    /// The backend mode set so far.
    pub closed spec fn mode(&self) -> BackendMode {
        self.backend
    }

    /// The default request timeout set so far.
    pub closed spec fn timeout_setting(&self) -> Duration {
        self.timeout
    }

    /// The Docker options set so far.
    pub closed spec fn docker(&self) -> Option<DockerOptions> {
        self.docker_options
    }

    /// A fresh builder: no configuration, automatic backend selection, a
    /// 30-second default timeout and no Docker options.
    pub open spec fn is_initial(&self) -> bool {
        &&& self.source() is None
        &&& self.mode() == BackendMode::Auto
        &&& self.timeout_setting() == duration_of_secs(30)
        &&& duration_millis(self.timeout_setting()) == 30000
        &&& self.docker() is None
    }

    /// Create a new builder.
    pub fn new() -> (r: StdioBusBuilder)
        ensures
            r.is_initial(),
    {
        StdioBusBuilder {
            config_source: None,
            backend: BackendMode::Auto,
            timeout: Duration::from_secs(30),
            docker_options: None,
        }
    }

    /// Set the configuration file path; it replaces a configuration given
    /// before.
    pub fn config_path(self, path: &str) -> (r: StdioBusBuilder)
        ensures
            r.source() matches Some(ConfigSource::Path(p)) && p@ == path@,
            r.mode() == self.mode(),
            r.timeout_setting() == self.timeout_setting(),
            r.docker() == self.docker(),
    {
        StdioBusBuilder { config_source: Some(ConfigSource::Path(path.to_string())), ..self }
    }

    /// Set the configuration as a value; it replaces a file path given
    /// before.
    pub fn config(self, config: BusConfig) -> (r: StdioBusBuilder)
        ensures
            r.source() == Some(ConfigSource::Config(config)),
            r.mode() == self.mode(),
            r.timeout_setting() == self.timeout_setting(),
            r.docker() == self.docker(),
    {
        StdioBusBuilder { config_source: Some(ConfigSource::Config(config)), ..self }
    }

    /// Set the backend mode.
    pub fn backend(self, mode: BackendMode) -> (r: StdioBusBuilder)
        ensures
            r.mode() == mode,
            r.source() == self.source(),
            r.timeout_setting() == self.timeout_setting(),
            r.docker() == self.docker(),
    {
        StdioBusBuilder { backend: mode, ..self }
    }

    /// Use auto backend selection (default).
    pub fn backend_auto(self) -> (r: StdioBusBuilder)
        ensures
            r.mode() == BackendMode::Auto,
            r.source() == self.source(),
            r.timeout_setting() == self.timeout_setting(),
            r.docker() == self.docker(),
    {
        StdioBusBuilder { backend: BackendMode::Auto, ..self }
    }

    /// Use native backend (requires libstdio_bus).
    pub fn backend_native(self) -> (r: StdioBusBuilder)
        ensures
            r.mode() == BackendMode::Native,
            r.source() == self.source(),
            r.timeout_setting() == self.timeout_setting(),
            r.docker() == self.docker(),
    {
        StdioBusBuilder { backend: BackendMode::Native, ..self }
    }

    /// Use Docker backend.
    pub fn backend_docker(self) -> (r: StdioBusBuilder)
        ensures
            r.mode() == BackendMode::Docker,
            r.source() == self.source(),
            r.timeout_setting() == self.timeout_setting(),
            r.docker() == self.docker(),
    {
        StdioBusBuilder { backend: BackendMode::Docker, ..self }
    }

    /// Set default request timeout.
    pub fn timeout(self, timeout: Duration) -> (r: StdioBusBuilder)
        ensures
            r.timeout_setting() == timeout,
            r.source() == self.source(),
            r.mode() == self.mode(),
            r.docker() == self.docker(),
    {
        StdioBusBuilder { timeout, ..self }
    }

    /// Set Docker options.
    pub fn docker_options(self, options: DockerOptions) -> (r: StdioBusBuilder)
        ensures
            r.docker() == Some(options),
            r.source() == self.source(),
            r.mode() == self.mode(),
            r.timeout_setting() == self.timeout_setting(),
    {
        StdioBusBuilder { docker_options: Some(options), ..self }
    }

    /// Set Docker image; Docker options start from their defaults when none
    /// were set.
    pub fn docker_image(self, image: &str) -> (r: StdioBusBuilder)
        ensures
            r.docker() matches Some(o) && o.image@ == image@ && match self.docker() {
                Some(d) => o == (DockerOptions { image: o.image, ..d }),
                None => o.pull_policy@ == "if-missing"@ && o.engine_path@ == "docker"@
                    && o.startup_timeout == duration_of_secs(15) && duration_millis(
                    o.startup_timeout,
                ) == 15000 && o.container_name_prefix@
                    == "stdiobus"@ && o.extra_args@.len() == 0 && o.env@ == Map::<
                    String,
                    String,
                >::empty(),
            },
            r.source() == self.source(),
            r.mode() == self.mode(),
            r.timeout_setting() == self.timeout_setting(),
    {
        let mut opts = match self.docker_options {
            Some(o) => o,
            None => DockerOptions::default(),
        };
        opts.image = image.to_string();
        StdioBusBuilder { docker_options: Some(opts), ..self }
    }

    /// Set Docker pull policy: "never", "if-missing", "always"; Docker
    /// options start from their defaults when none were set.
    pub fn docker_pull_policy(self, policy: &str) -> (r: StdioBusBuilder)
        ensures
            r.docker() matches Some(o) && o.pull_policy@ == policy@ && match self.docker() {
                Some(d) => o == (DockerOptions { pull_policy: o.pull_policy, ..d }),
                None => o.image@ == "stdiobus/stdiobus:node20"@ && o.engine_path@ == "docker"@
                    && o.startup_timeout == duration_of_secs(15) && duration_millis(
                    o.startup_timeout,
                ) == 15000 && o.container_name_prefix@
                    == "stdiobus"@ && o.extra_args@.len() == 0 && o.env@ == Map::<
                    String,
                    String,
                >::empty(),
            },
            r.source() == self.source(),
            r.mode() == self.mode(),
            r.timeout_setting() == self.timeout_setting(),
    {
        let mut opts = match self.docker_options {
            Some(o) => o,
            None => DockerOptions::default(),
        };
        opts.pull_policy = policy.to_string();
        StdioBusBuilder { docker_options: Some(opts), ..self }
    }

    /// Checks the settings: a configuration source is required, and a
    /// configuration given as a value must pass [`BusConfig::validate`].
    pub fn build(self) -> (r: Result<BuildPlan, Error>)
        ensures
            match self.source() {
                None => r matches Err(Error::InvalidArgument { message }) && message@
                    == "config_path is required"@,
                Some(src) => match src {
                    ConfigSource::Config(c) if config_error(c) is Some => r matches Err(
                        Error::InvalidArgument { message },
                    ) && Some(message@) == config_error(c),
                    _ => r == Ok::<BuildPlan, Error>(
                        BuildPlan {
                            config_source: src,
                            backend: self.mode(),
                            timeout: self.timeout_setting(),
                            docker_options: self.docker(),
                        },
                    ),
                },
            },
    {
        let config_source = match self.config_source {
            Some(s) => s,
            None => {
                return Err(
                    Error::InvalidArgument {
                        message: "config_path is required".to_string(),
                    },
                );
            },
        };
        match &config_source {
            ConfigSource::Config(c) => {
                c.validate()?;
            },
            ConfigSource::Path(_) => {},
        }
        Ok(
            BuildPlan {
                config_source,
                backend: self.backend,
                timeout: self.timeout,
                docker_options: self.docker_options,
            },
        )
    }
}

impl Default for StdioBusBuilder {
    fn default() -> (r: StdioBusBuilder)
        ensures
            r.is_initial(),
    {
        StdioBusBuilder::new()
    }
}

} // verus!
