//! The settings of a run, fixed before anything is fetched.

use vstd::prelude::*;
use crate::query::{params_of, parse_query_params, Param};
use crate::record::copy_labels;

verus! {

/// The word that stands before the credential in the authorization header.
pub const TOKEN_SCHEME: &'static str = "token ";

/// A required argument is missing.
#[derive(Debug, Clone, Copy, PartialEq, Eq, Structural)]
pub enum ConfigError {
    MissingApiKey,
    MissingRepoPath,
    MissingQueryParam,
}

/// What a run is set up with. Nothing in it changes during the run.
#[derive(Debug, Clone, PartialEq, Eq)]
pub struct Settings {
    /// The destination repository, as it stands in request paths.
    pub repopath: String,
    /// Whether the run only reports what it would send.
    pub preview: bool,
    /// The predicates that select the bugs.
    pub queryparams: Vec<(String, String)>,
    /// The labels given to every issue that is created or amended.
    pub labels: Vec<String>,
    /// The value of the authorization header of every request to the
    /// destination.
    pub authorization: String,
}

/// What the settings are.
pub struct SettingsView {
    pub repopath: Seq<char>,
    pub preview: bool,
    pub queryparams: Seq<Param>,
    pub labels: Seq<Seq<char>>,
    pub authorization: Seq<char>,
}

impl DeepView for Settings {
    type V = SettingsView;

    open spec fn deep_view(&self) -> SettingsView {
        SettingsView {
            repopath: self.repopath@,
            preview: self.preview,
            queryparams: self.queryparams.deep_view(),
            labels: self.labels.deep_view(),
            authorization: self.authorization@,
        }
    }
}

impl View for Settings {
    type V = SettingsView;

    open spec fn view(&self) -> SettingsView {
        self.deep_view()
    }
}

/// The value of the authorization header for a credential.
pub open spec fn authorization_of(apikey: Seq<char>) -> Seq<char> {
    TOKEN_SCHEME@ + apikey
}

/// The settings that the arguments give, where none that is required is
/// missing.
pub open spec fn settings_of(
    apikey: Seq<char>,
    repopath: Seq<char>,
    preview: bool,
    queryparams: Seq<Seq<char>>,
    labels: Option<Seq<Seq<char>>>,
) -> SettingsView {
    SettingsView {
        repopath,
        preview,
        queryparams: params_of(queryparams),
        labels: match labels {
            Some(labels) => labels,
            None => Seq::empty(),
        },
        authorization: authorization_of(apikey),
    }
}

/// The value of the authorization header for a credential: the scheme,
/// then the credential as it is.
pub fn authorization_header(apikey: &str) -> (value: String)
    ensures
        value@ == authorization_of(apikey@),
{
    let mut value = String::from_str(TOKEN_SCHEME);
    value.append(apikey);
    value
}

impl Settings {
    /// Sets a run up from its arguments. The credential, the repository
    /// path and the query predicates are required, and the first of them
    /// that is missing, in this order, is the error. Predicates that are
    /// not of the form `key=value` are dropped; without labels the label
    /// set is empty.
    pub fn from_args(
        apikey: Option<&str>,
        repopath: Option<&str>,
        preview: bool,
        queryparams: Option<&Vec<String>>,
        labels: Option<&Vec<String>>,
    ) -> (settings: Result<Settings, ConfigError>)
        ensures
            settings is Ok <==> apikey is Some && repopath is Some && queryparams is Some,
            settings matches Ok(s) ==> s.deep_view() == settings_of(
                apikey->0@,
                repopath->0@,
                preview,
                queryparams->0.deep_view(),
                labels.deep_view(),
            ),
            settings == Err::<Settings, ConfigError>(ConfigError::MissingApiKey) <==> apikey is None,
            settings == Err::<Settings, ConfigError>(ConfigError::MissingRepoPath) <==> apikey is Some
                && repopath is None,
            settings == Err::<Settings, ConfigError>(ConfigError::MissingQueryParam) <==> apikey
                is Some && repopath is Some && queryparams is None,
    {
        let apikey = match apikey {
            Some(apikey) => apikey,
            None => {
                return Err(ConfigError::MissingApiKey);
            },
        };
        let repopath = match repopath {
            Some(repopath) => repopath,
            None => {
                return Err(ConfigError::MissingRepoPath);
            },
        };
        let queryparams = match queryparams {
            Some(queryparams) => queryparams,
            None => {
                return Err(ConfigError::MissingQueryParam);
            },
        };
        let own_labels = match labels {
            Some(labels) => copy_labels(labels),
            None => {
                let none: Vec<String> = Vec::new();
                assert(none.deep_view() =~= Seq::<Seq<char>>::empty());
                none
            },
        };
        Ok(
            Settings {
                repopath: String::from_str(repopath),
                preview,
                queryparams: parse_query_params(queryparams),
                labels: own_labels,
                authorization: authorization_header(apikey),
            },
        )
    }
}

} // verus!
