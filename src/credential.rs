//! Credentials for signing API requests, built from a configuration text or
//! from explicit parameters.
//!
//! A configuration text has this shape:
//!
//! ```toml
//! [default]
//! endpoint = "ovh-eu"
//!
//! [ovh-eu]
//! application_key = "..."
//! application_secret = "..."
//! consumer_key = "..."
//! ```
//!
//! The credentials live in the section named by `default.endpoint` itself,
//! not by the host it resolves to.

use vstd::prelude::*;
use crate::document::{Node, document_of, value_model, child, text_at, parse_document, value_get, lookup_text};
use crate::endpoint::{endpoint_host, endpoint2host, lemma_host_never_empty};

verus! {

/// The file that credentials are read from when no path is given.
pub const DEFAULT_CONFIG_PATH: &'static str = "Config.toml";

/// A key of the configuration that is required.
#[derive(Debug, Clone, Copy, PartialEq, Eq, Structural)]
pub enum Field {
    /// `default.endpoint`: the endpoint identifier, a string.
    DefaultEndpoint,
    /// The table named after the endpoint identifier.
    Section,
    /// `application_key` in the endpoint's section.
    ApplicationKey,
    /// `application_secret` in the endpoint's section.
    ApplicationSecret,
    /// `consumer_key` in the endpoint's section.
    ConsumerKey,
}

/// Why credentials could not be loaded from a configuration file.
#[derive(Debug, Clone, Copy, PartialEq, Eq, Structural)]
pub enum ConfigError {
    /// The file could not be opened or read.
    Io,
    /// The file's text is not valid TOML.
    Parse,
    /// A required key is absent or does not hold a value of the right kind.
    MissingField(Field),
}

/// API application credentials: application key, application secret and
/// consumer key (a token scoped to one user), with the host that requests go to.
#[derive(Debug, Clone, PartialEq)]
pub struct Credential {
    /// The file the credentials were loaded from, if any.
    pub path: Option<String>,
    /// The configuration section the credentials were loaded from, if any.
    pub toml: Option<toml::Value>,
    pub host: String,
    pub application_key: String,
    pub application_secret: String,
    pub consumer_key: String,
}

/// The contents of a [`Credential`].
pub struct CredentialView {
    pub path: Option<Seq<char>>,
    pub config: Option<Node>,
    pub host: Seq<char>,
    pub application_key: Seq<char>,
    pub application_secret: Seq<char>,
    pub consumer_key: Seq<char>,
}

impl View for Credential {
    type V = CredentialView;

    open spec fn view(&self) -> CredentialView {
        CredentialView {
            path: match self.path {
                Some(p) => Some(p@),
                None => None,
            },
            config: match self.toml {
                Some(v) => Some(value_model(v)),
                None => None,
            },
            host: self.host@,
            application_key: self.application_key@,
            application_secret: self.application_secret@,
            consumer_key: self.consumer_key@,
        }
    }
}

impl CredentialView {
    /// The host is never empty, and a source path and a configuration section
    /// are present together or absent together.
    pub open spec fn wf(self) -> bool {
        &&& self.host.len() > 0
        &&& (self.path is Some <==> self.config is Some)
    }
}

/// The credential built from explicit parameters.
pub open spec fn params_credential(
    endpoint: Seq<char>,
    application_key: Seq<char>,
    application_secret: Seq<char>,
    consumer_key: Seq<char>,
) -> CredentialView {
    CredentialView {
        path: None,
        config: None,
        host: endpoint_host(endpoint),
        application_key,
        application_secret,
        consumer_key,
    }
}

/// The endpoint identifier a configuration tree names under `default.endpoint`.
pub open spec fn default_endpoint(doc: Node) -> Option<Seq<char>> {
    match child(doc, "default"@) {
        Some(d) => text_at(d, "endpoint"@),
        None => None,
    }
}

/// What loading credentials from a configuration tree gives: the first
/// required key that is missing, in the order they are looked up, or the
/// credential built from the section named by `default.endpoint`.
pub open spec fn document_credential(path: Seq<char>, doc: Node) -> Result<CredentialView, ConfigError> {
    match default_endpoint(doc) {
        None => Err(ConfigError::MissingField(Field::DefaultEndpoint)),
        Some(endpoint) => match child(doc, endpoint) {
            None => Err(ConfigError::MissingField(Field::Section)),
            Some(section) => match text_at(section, "application_key"@) {
                None => Err(ConfigError::MissingField(Field::ApplicationKey)),
                Some(ak) => match text_at(section, "application_secret"@) {
                    None => Err(ConfigError::MissingField(Field::ApplicationSecret)),
                    Some(secret) => match text_at(section, "consumer_key"@) {
                        None => Err(ConfigError::MissingField(Field::ConsumerKey)),
                        Some(ck) => Ok(
                            CredentialView {
                                path: Some(path),
                                config: Some(section),
                                host: endpoint_host(endpoint),
                                application_key: ak,
                                application_secret: secret,
                                consumer_key: ck,
                            },
                        ),
                    },
                },
            },
        },
    }
}

/// What loading credentials from a file gives, from what reading it gave
/// (`None` when it could not be read).
pub open spec fn text_credential(path: Seq<char>, contents: Option<Seq<char>>) -> Result<CredentialView, ConfigError> {
    match contents {
        None => Err(ConfigError::Io),
        Some(text) => match document_of(text) {
            None => Err(ConfigError::Parse),
            Some(doc) => document_credential(path, doc),
        },
    }
}

/// The contents of a loading outcome.
pub open spec fn outcome_view(r: Result<Credential, ConfigError>) -> Result<CredentialView, ConfigError> {
    match r {
        Ok(c) => Ok(c@),
        Err(e) => Err(e),
    }
}

/// The contents of an optional text.
pub open spec fn opt_view(s: Option<&str>) -> Option<Seq<char>> {
    match s {
        Some(t) => Some(t@),
        None => None,
    }
}

/// Finds the endpoint named under `default.endpoint` in a configuration
/// tree: returns its host and the section named after it.
pub fn read_config(doc: &toml::Value) -> (r: Result<(String, toml::Value), ConfigError>)
    ensures
        match default_endpoint(value_model(*doc)) {
            None => r == Err::<(String, toml::Value), ConfigError>(ConfigError::MissingField(Field::DefaultEndpoint)),
            Some(endpoint) => match child(value_model(*doc), endpoint) {
                None => r == Err::<(String, toml::Value), ConfigError>(ConfigError::MissingField(Field::Section)),
                Some(section) => r matches Ok((host, v)) && host@ == endpoint_host(endpoint)
                    && value_model(v) == section,
            },
        },
{
    let default = match value_get(doc, "default") {
        Some(d) => d,
        None => return Err(ConfigError::MissingField(Field::DefaultEndpoint)),
    };
    let endpoint = match lookup_text(default, "endpoint") {
        Some(e) => e,
        None => return Err(ConfigError::MissingField(Field::DefaultEndpoint)),
    };
    let host = endpoint2host(endpoint.as_str());
    match value_get(doc, endpoint.as_str()) {
        Some(section) => Ok((host, section.clone())),
        None => Err(ConfigError::MissingField(Field::Section)),
    }
}

impl Credential {
    /// Builds credentials from a parsed configuration tree, recording `path`
    /// as the file it came from.
    pub fn new_from_config(path: &str, doc: &toml::Value) -> (r: Result<Credential, ConfigError>)
        ensures
            outcome_view(r) == document_credential(path@, value_model(*doc)),
            r matches Ok(c) ==> c@.wf(),
    {
        let (host, auth) = match read_config(doc) {
            Ok(found) => found,
            Err(e) => return Err(e),
        };
        let app_key = match lookup_text(&auth, "application_key") {
            Some(k) => k,
            None => return Err(ConfigError::MissingField(Field::ApplicationKey)),
        };
        let app_secret = match lookup_text(&auth, "application_secret") {
            Some(k) => k,
            None => return Err(ConfigError::MissingField(Field::ApplicationSecret)),
        };
        let cons_key = match lookup_text(&auth, "consumer_key") {
            Some(k) => k,
            None => return Err(ConfigError::MissingField(Field::ConsumerKey)),
        };
        proof {
            lemma_host_never_empty(default_endpoint(value_model(*doc))->0);
        }
        Ok(
            Credential {
                path: Some(path.to_owned()),
                toml: Some(auth),
                host,
                application_key: app_key,
                application_secret: app_secret,
                consumer_key: cons_key,
            },
        )
    }

    /// Loads credentials from the configuration file at `path`, given what
    /// reading that file gave: its text, or `None` when it could not be
    /// opened or read.
    pub fn new_from_file(path: &str, contents: Option<&str>) -> (r: Result<Credential, ConfigError>)
        ensures
            outcome_view(r) == text_credential(path@, opt_view(contents)),
            r matches Ok(c) ==> c@.wf(),
    {
        let text = match contents {
            Some(t) => t,
            None => return Err(ConfigError::Io),
        };
        match parse_document(text) {
            Ok(doc) => Credential::new_from_config(path, &doc),
            Err(_) => Err(ConfigError::Parse),
        }
    }

    /// Loads credentials from the default configuration file, given what
    /// reading that file gave.
    pub fn new(contents: Option<&str>) -> (r: Result<Credential, ConfigError>)
        ensures
            outcome_view(r) == text_credential(DEFAULT_CONFIG_PATH@, opt_view(contents)),
            r matches Ok(c) ==> c@.wf(),
    {
        Credential::new_from_file(DEFAULT_CONFIG_PATH, contents)
    }

    /// Builds credentials for `endpoint` from an application key and secret,
    /// with an empty consumer key.
    pub fn new_with_application(endpoint: &str, application_key: &str, application_secret: &str) -> (r: Credential)
        ensures
            r@ == params_credential(endpoint@, application_key@, application_secret@, Seq::empty()),
            r@.wf(),
    {
        let host = endpoint2host(endpoint);
        proof {
            lemma_host_never_empty(endpoint@);
        }
        Credential {
            path: None,
            toml: None,
            host,
            application_key: application_key.to_owned(),
            application_secret: application_secret.to_owned(),
            consumer_key: String::new(),
        }
    }

    /// Builds credentials for `endpoint` from an application key, an
    /// application secret and a consumer key.
    pub fn new_with_credential(
        endpoint: &str,
        application_key: &str,
        application_secret: &str,
        consumer_key: &str,
    ) -> (r: Credential)
        ensures
            r@ == params_credential(endpoint@, application_key@, application_secret@, consumer_key@),
            r@.wf(),
    {
        let host = endpoint2host(endpoint);
        proof {
            lemma_host_never_empty(endpoint@);
        }
        Credential {
            path: None,
            toml: None,
            host,
            application_key: application_key.to_owned(),
            application_secret: application_secret.to_owned(),
            consumer_key: consumer_key.to_owned(),
        }
    }
}

/// Building credentials twice from the same endpoint and keys gives two
/// credentials whose fields are equal.
pub proof fn lemma_params_idempotent(
    c1: Credential,
    c2: Credential,
    endpoint: Seq<char>,
    application_key: Seq<char>,
    application_secret: Seq<char>,
    consumer_key: Seq<char>,
)
    requires
        c1@ == params_credential(endpoint, application_key, application_secret, consumer_key),
        c2@ == params_credential(endpoint, application_key, application_secret, consumer_key),
    ensures
        c1@ == c2@,
{
}

/// Loading credentials twice from the same path and the same file contents
/// gives the same outcome: equal credentials, or the same error.
pub proof fn lemma_file_idempotent(
    r1: Result<Credential, ConfigError>,
    r2: Result<Credential, ConfigError>,
    path: Seq<char>,
    contents: Option<Seq<char>>,
)
    requires
        outcome_view(r1) == text_credential(path, contents),
        outcome_view(r2) == text_credential(path, contents),
    ensures
        r1 is Ok <==> r2 is Ok,
        r1 matches Ok(c1) ==> (r2 matches Ok(c2) && c1@ == c2@),
        r1 matches Err(e1) ==> r2 == Err::<Credential, ConfigError>(e1),
{
}

/// Building credentials twice from the same parsed configuration tree gives
/// the same outcome: equal credentials, or the same error.
pub proof fn lemma_config_idempotent(
    r1: Result<Credential, ConfigError>,
    r2: Result<Credential, ConfigError>,
    path: Seq<char>,
    doc: Node,
)
    requires
        outcome_view(r1) == document_credential(path, doc),
        outcome_view(r2) == document_credential(path, doc),
    ensures
        r1 is Ok <==> r2 is Ok,
        r1 matches Ok(c1) ==> (r2 matches Ok(c2) && c1@ == c2@),
        r1 matches Err(e1) ==> r2 == Err::<Credential, ConfigError>(e1),
{
}

} // verus!
