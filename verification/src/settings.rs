//! The configuration of a deployment: where the server listens and which
//! path prefix is served from which pair of buckets.

use vstd::prelude::*;
use vstd::string::*;
use crate::text::{chars_of, same_text};

verus! {

/// Where the server listens.
#[derive(Debug, Clone)]
pub struct Server {
    pub port: u16,
}

/// One served path prefix, with the bucket of its source images and the bucket
/// that caches what was made of them.
#[derive(Debug, Clone)]
pub struct ImgSource {
    pub path: String,
    pub bucket: String,
    pub cache_bucket: String,
}

/// The whole configuration of a deployment.
#[derive(Debug, Clone)]
pub struct Settings {
    pub server: Server,
    pub img_sources: Vec<ImgSource>,
    pub env: ENV,
    /// The salt of signed URLs. Without one no signature is checked.
    pub secret_salt: Option<String>,
}

/// The environment that a deployment runs in.
#[derive(Debug, Clone, Copy, PartialEq, Eq, Structural)]
pub enum ENV {
    Local,
    Production,
}

impl ENV {
    /// The name of the environment, as configuration files are named after it.
    pub open spec fn name_spec(self) -> Seq<char> {
        match self {
            ENV::Local => "Local"@,
            ENV::Production => "Production"@,
        }
    }

    /// The name of the environment.
    pub fn name(&self) -> (s: &'static str)
        ensures
            s@ == self.name_spec(),
    {
        match self {
            ENV::Local => "Local",
            ENV::Production => "Production",
        }
    }
}

impl From<&str> for ENV {
    /// The environment of that name; `Local` for any name but `Production`.
    fn from(env: &str) -> (e: ENV) {
        let cs = chars_of(env);
        if same_text(&cs, "Production") {
            ENV::Production
        } else {
            ENV::Local
        }
    }
}

impl vstd::std_specs::convert::FromSpecImpl<&str> for ENV {
    open spec fn obeys_from_spec() -> bool {
        true
    }

    open spec fn from_spec(env: &str) -> ENV {
        if env@ == "Production"@ {
            ENV::Production
        } else {
            ENV::Local
        }
    }
}

impl ImgSource {
    /// The route under which the images of this source are served: the path
    /// prefix between slashes, then a wildcard that takes the image key.
    pub open spec fn route_spec(self) -> Seq<char> {
        "/"@ + self.path@ + "/*img_key"@
    }

    /// The route under which the images of this source are served.
    pub fn route(&self) -> (route: String)
        ensures
            route@ == self.route_spec(),
    {
        let mut route = String::from_str("/");
        route.append(self.path.as_str());
        route.append("/*img_key");
        route
    }
}

impl Settings {
    /// The configuration file that every environment reads first.
    pub open spec fn default_file_spec() -> Seq<char> {
        "./config/Default.toml"@
    }

    /// The configuration file of one environment, which may be missing:
    /// the environment's name in the configuration directory.
    pub open spec fn env_file_spec(env_name: Seq<char>) -> Seq<char> {
        "./config/"@ + env_name
    }

    /// The configuration file that every environment reads first.
    pub fn default_file() -> (path: &'static str)
        ensures
            path@ == Self::default_file_spec(),
    {
        "./config/Default.toml"
    }

    /// The configuration file of the environment of that name.
    pub fn env_file(env_name: &str) -> (path: String)
        ensures
            path@ == Self::env_file_spec(env_name@),
    {
        let mut path = String::from_str("./config/");
        path.append(env_name);
        path
    }
}

} // verus!
