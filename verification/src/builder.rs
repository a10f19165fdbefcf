//! How a client is to be configured.

use std::time::Duration;
use vstd::prelude::*;

use crate::profile::{load_profile_from_config, Config, ConfigError, Profile};

verus! {

/// What the client to the cluster is built with.
#[derive(Clone, Debug, PartialEq, Eq)]
pub struct ClientSettings {
    pub host: String,
    pub username: String,
    pub password: String,
    /// Whether the client detects metadata of what it pushes.
    pub metadata_detection: bool,
    /// The options that were set; the client keeps its own default for the
    /// others.
    pub request_timeout: Option<Duration>,
    pub max_retry_count: Option<usize>,
    pub retry_interval: Option<Duration>,
}

impl ClientSettings {
    /// The settings for the plain client of `profile`: its credentials, no
    /// metadata detection, every option at its default.
    pub fn plain(profile: Profile) -> (settings: Self)
        ensures
            settings == (ClientSettings {
                host: profile.host,
                username: profile.username,
                password: profile.password,
                metadata_detection: false,
                request_timeout: None,
                max_retry_count: None,
                retry_interval: None,
            }),
    {
        ClientSettings {
            host: profile.host,
            username: profile.username,
            password: profile.password,
            metadata_detection: false,
            request_timeout: None,
            max_retry_count: None,
            retry_interval: None,
        }
    }
}

/// What a `MenmosBuilder` holds, as plain values.
pub struct BuilderModel {
    pub profile: Seq<char>,
    pub request_timeout: Option<Duration>,
    pub max_retry_count: Option<usize>,
    pub retry_interval: Option<Duration>,
}

/// Collects the options of a client before it is built.
#[derive(Clone, Debug)]
pub struct MenmosBuilder {
    profile: String,
    request_timeout: Option<Duration>,
    max_retry_count: Option<usize>,
    retry_interval: Option<Duration>,
}

impl View for MenmosBuilder {
    type V = BuilderModel;

    closed spec fn view(&self) -> BuilderModel {
        BuilderModel {
            profile: self.profile@,
            request_timeout: self.request_timeout,
            max_retry_count: self.max_retry_count,
            retry_interval: self.retry_interval,
        }
    }
}

impl MenmosBuilder {
    /// A builder for the profile named `profile`, with no option set.
    pub fn new(profile: String) -> (builder: Self)
        ensures
            builder@ == (BuilderModel {
                profile: profile@,
                request_timeout: None,
                max_retry_count: None,
                retry_interval: None,
            }),
    {
        MenmosBuilder {
            profile,
            request_timeout: None,
            max_retry_count: None,
            retry_interval: None,
        }
    }

    #[must_use]
    pub fn with_request_timeout(self, request_timeout: Duration) -> (builder: Self)
        ensures
            builder@ == (BuilderModel { request_timeout: Some(request_timeout), ..self@ }),
    {
        let mut builder = self;
        builder.request_timeout = Some(request_timeout);
        builder
    }

    #[must_use]
    pub fn with_max_retry_count(self, max_retry_count: usize) -> (builder: Self)
        ensures
            builder@ == (BuilderModel { max_retry_count: Some(max_retry_count), ..self@ }),
    {
        let mut builder = self;
        builder.max_retry_count = Some(max_retry_count);
        builder
    }

    #[must_use]
    pub fn with_retry_interval(self, retry_interval: Duration) -> (builder: Self)
        ensures
            builder@ == (BuilderModel { retry_interval: Some(retry_interval), ..self@ }),
    {
        let mut builder = self;
        builder.retry_interval = Some(retry_interval);
        builder
    }

    /// The settings of the client that this builder describes: the
    /// credentials that `config` has under the builder's profile, metadata
    /// detection, and the options that were set. Fails where `config` has no
    /// such profile.
    pub fn build(self, config: &Config) -> (r: Result<ClientSettings, ConfigError>)
        ensures
            match r {
                Ok(settings) => config@.contains_key(self@.profile) && settings == (ClientSettings {
                    host: config@[self@.profile].host,
                    username: config@[self@.profile].username,
                    password: config@[self@.profile].password,
                    metadata_detection: true,
                    request_timeout: self@.request_timeout,
                    max_retry_count: self@.max_retry_count,
                    retry_interval: self@.retry_interval,
                }),
                Err(ConfigError::MissingProfile { name }) => !config@.contains_key(self@.profile)
                    && name@ == self@.profile,
            },
    {
        match load_profile_from_config(config, self.profile.as_str()) {
            Ok(profile) => Ok(
                ClientSettings {
                    host: profile.host,
                    username: profile.username,
                    password: profile.password,
                    metadata_detection: true,
                    request_timeout: self.request_timeout,
                    max_retry_count: self.max_retry_count,
                    retry_interval: self.retry_interval,
                },
            ),
            Err(e) => Err(e),
        }
    }
}

} // verus!
