//! Profiles and the configuration that holds them by name.

use vstd::prelude::*;
use std::path::PathBuf;
use crate::error::{ErrorModel, OidcError};
use crate::text::{concat2, opt_text};
use crate::trusted::{parse_url, path_with, url_parse};
use crate::utils::name_map::{
    distinct_keys,
    has_key,
    value_of,
    with_entry,
    without_key,
    NameMap,
};

verus! {

/// One identity provider as the user configured it.
#[derive(Debug)]
pub struct Profile {
    pub discovery_uri: Option<String>,
    pub client_id: String,
    pub client_secret: Option<String>,
    pub redirect_uri: String,
    pub scope: String,
    pub authorization_endpoint: Option<String>,
    pub token_endpoint: Option<String>,
}

/// The model of a profile.
pub struct ProfileModel {
    pub discovery_uri: Option<Seq<char>>,
    pub client_id: Seq<char>,
    pub client_secret: Option<Seq<char>>,
    pub redirect_uri: Seq<char>,
    pub scope: Seq<char>,
    pub authorization_endpoint: Option<Seq<char>>,
    pub token_endpoint: Option<Seq<char>>,
}

impl View for Profile {
    type V = ProfileModel;

    open spec fn view(&self) -> ProfileModel {
        ProfileModel {
            discovery_uri: opt_text(self.discovery_uri),
            client_id: self.client_id@,
            client_secret: opt_text(self.client_secret),
            redirect_uri: self.redirect_uri@,
            scope: self.scope@,
            authorization_endpoint: opt_text(self.authorization_endpoint),
            token_endpoint: opt_text(self.token_endpoint),
        }
    }
}

impl Clone for Profile {
    fn clone(&self) -> (r: Self)
        ensures
            r == *self,
    {
        Profile {
            discovery_uri: self.discovery_uri.clone(),
            client_id: self.client_id.clone(),
            client_secret: self.client_secret.clone(),
            redirect_uri: self.redirect_uri.clone(),
            scope: self.scope.clone(),
            authorization_endpoint: self.authorization_endpoint.clone(),
            token_endpoint: self.token_endpoint.clone(),
        }
    }
}

/// Whether an optional text is there and does not parse as a URL.
pub open spec fn is_bad_url(value: Option<Seq<char>>) -> bool {
    value matches Some(text) && url_parse(text) is None
}

/// The first fault of a profile, in the order in which `validate` looks: a
/// missing required field, a redirect URI that does not parse, a discovery
/// URI or an endpoint that does not parse, and neither discovery nor both
/// endpoints given.
pub open spec fn profile_fault(p: ProfileModel) -> Option<ErrorModel> {
    if p.client_id.len() == 0 {
        Some(ErrorModel::MissingField("client_id"@))
    } else if p.redirect_uri.len() == 0 {
        Some(ErrorModel::MissingField("redirect_uri"@))
    } else if p.scope.len() == 0 {
        Some(ErrorModel::MissingField("scope"@))
    } else if url_parse(p.redirect_uri) is None {
        Some(ErrorModel::InvalidRedirectUri(p.redirect_uri))
    } else if is_bad_url(p.discovery_uri) {
        Some(ErrorModel::Config("Invalid discovery URI: "@ + p.discovery_uri.unwrap()))
    } else if is_bad_url(p.authorization_endpoint) {
        Some(
            ErrorModel::Config(
                "Invalid authorization endpoint: "@ + p.authorization_endpoint.unwrap(),
            ),
        )
    } else if is_bad_url(p.token_endpoint) {
        Some(ErrorModel::Config("Invalid token endpoint: "@ + p.token_endpoint.unwrap()))
    } else if p.discovery_uri is None && (p.authorization_endpoint is None || p.token_endpoint
        is None) {
        Some(
            ErrorModel::Config(
                "Either discovery_uri or both authorization_endpoint and token_endpoint must be provided"@,
            ),
        )
    } else {
        None
    }
}

/// Whether a text parses as a URL.
pub fn parses_as_url(text: &str) -> (r: bool)
    ensures
        r == url_parse(text@) is Some,
{
    parse_url(text).is_ok()
}

fn check_optional_url(value: &Option<String>, what: &str) -> (r: Result<(), OidcError>)
    ensures
        r is Ok <==> !is_bad_url(opt_text(*value)),
        r matches Err(e) ==> e@ == ErrorModel::Config(what@ + value.unwrap()@),
{
    match value {
        Some(text) => {
            if parses_as_url(text.as_str()) {
                Ok(())
            } else {
                Err(OidcError::Config(concat2(what, text.as_str())))
            }
        },
        None => Ok(()),
    }
}

impl Profile {
    /// Checks the profile and reports its first fault.
    pub fn validate(&self) -> (r: Result<(), OidcError>)
        ensures
            r is Ok <==> profile_fault(self@) is None,
            r matches Err(e) ==> profile_fault(self@) == Some(e@),
    {
        if self.client_id.as_str().is_empty() {
            return Err(OidcError::MissingField("client_id".to_string()));
        }
        if self.redirect_uri.as_str().is_empty() {
            return Err(OidcError::MissingField("redirect_uri".to_string()));
        }
        if self.scope.as_str().is_empty() {
            return Err(OidcError::MissingField("scope".to_string()));
        }
        if !parses_as_url(self.redirect_uri.as_str()) {
            return Err(OidcError::InvalidRedirectUri(self.redirect_uri.clone()));
        }
        match check_optional_url(&self.discovery_uri, "Invalid discovery URI: ") {
            Err(e) => {
                return Err(e);
            },
            Ok(()) => {},
        }
        match check_optional_url(&self.authorization_endpoint, "Invalid authorization endpoint: ") {
            Err(e) => {
                return Err(e);
            },
            Ok(()) => {},
        }
        match check_optional_url(&self.token_endpoint, "Invalid token endpoint: ") {
            Err(e) => {
                return Err(e);
            },
            Ok(()) => {},
        }
        if self.discovery_uri.is_none() && (self.authorization_endpoint.is_none()
            || self.token_endpoint.is_none()) {
            return Err(
                OidcError::Config(
                    "Either discovery_uri or both authorization_endpoint and token_endpoint must be provided".to_string(),
                ),
            );
        }
        Ok(())
    }
}

/// The profiles, by name.
#[derive(Debug)]
pub struct Config {
    pub profiles: NameMap<Profile>,
}

impl Config {
    /// A configuration without profiles.
    pub fn new() -> (r: Self)
        ensures
            r.profiles@.len() == 0,
    {
        Config { profiles: NameMap::new() }
    }

    /// Adds a valid profile under a name that is still free.
    pub fn add_profile(&mut self, name: String, profile: Profile) -> (r: Result<(), OidcError>)
        ensures
            match r {
                Ok(()) => profile_fault(profile@) is None && !has_key(old(self).profiles@, name@)
                    && final(self).profiles@ == old(self).profiles@.push((name@, profile)),
                Err(e) => final(self).profiles@ == old(self).profiles@ && (match profile_fault(
                    profile@,
                ) {
                    Some(fault) => e@ == fault,
                    None => has_key(old(self).profiles@, name@) && e@ == ErrorModel::ProfileExists(
                        name@,
                    ),
                }),
            },
    {
        match profile.validate() {
            Err(e) => {
                return Err(e);
            },
            Ok(()) => {},
        }
        if self.profiles.contains_key(name.as_str()) {
            return Err(OidcError::ProfileExists(name));
        }
        self.profiles.insert(name, profile);
        Ok(())
    }

    /// The profile of a name.
    pub fn get_profile(&self, name: &str) -> (r: Result<&Profile, OidcError>)
        ensures
            match r {
                Ok(profile) => has_key(self.profiles@, name@) && *profile == value_of(
                    self.profiles@,
                    name@,
                ),
                Err(e) => !has_key(self.profiles@, name@) && e@ == ErrorModel::ProfileNotFound(
                    name@,
                ),
            },
    {
        match self.profiles.get(name) {
            Some(profile) => Ok(profile),
            None => Err(OidcError::ProfileNotFound(name.to_string())),
        }
    }

    /// Takes the profile of a name out.
    pub fn remove_profile(&mut self, name: &str) -> (r: Result<Profile, OidcError>)
        ensures
            final(self).profiles@ == without_key(old(self).profiles@, name@),
            match r {
                Ok(profile) => has_key(old(self).profiles@, name@) && profile == value_of(
                    old(self).profiles@,
                    name@,
                ),
                Err(e) => !has_key(old(self).profiles@, name@) && e@
                    == ErrorModel::ProfileNotFound(name@),
            },
    {
        match self.profiles.remove(name) {
            Some(profile) => Ok(profile),
            None => Err(OidcError::ProfileNotFound(name.to_string())),
        }
    }

    /// Replaces the profile of a name that is there by a valid profile.
    pub fn update_profile(&mut self, name: String, profile: Profile) -> (r: Result<
        (),
        OidcError,
    >)
        ensures
            match r {
                Ok(()) => profile_fault(profile@) is None && has_key(old(self).profiles@, name@)
                    && final(self).profiles@ == with_entry(old(self).profiles@, name@, profile),
                Err(e) => final(self).profiles@ == old(self).profiles@ && (match profile_fault(
                    profile@,
                ) {
                    Some(fault) => e@ == fault,
                    None => !has_key(old(self).profiles@, name@) && e@
                        == ErrorModel::ProfileNotFound(name@),
                }),
            },
    {
        match profile.validate() {
            Err(e) => {
                return Err(e);
            },
            Ok(()) => {},
        }
        if !self.profiles.contains_key(name.as_str()) {
            return Err(OidcError::ProfileNotFound(name));
        }
        self.profiles.insert(name, profile);
        Ok(())
    }

    /// Moves a profile to a name that is still free: it leaves its place and
    /// is added under the new name.
    pub fn rename_profile(&mut self, old_name: &str, new_name: String) -> (r: Result<
        (),
        OidcError,
    >)
        ensures
            match r {
                Ok(()) => !has_key(old(self).profiles@, new_name@) && has_key(
                    old(self).profiles@,
                    old_name@,
                ) && final(self).profiles@ == without_key(old(self).profiles@, old_name@).push(
                    (new_name@, value_of(old(self).profiles@, old_name@)),
                ),
                Err(e) => final(self).profiles@ == old(self).profiles@ && (if has_key(
                    old(self).profiles@,
                    new_name@,
                ) {
                    e@ == ErrorModel::ProfileExists(new_name@)
                } else {
                    !has_key(old(self).profiles@, old_name@) && e@ == ErrorModel::ProfileNotFound(
                        old_name@,
                    )
                }),
            },
    {
        if self.profiles.contains_key(new_name.as_str()) {
            return Err(OidcError::ProfileExists(new_name));
        }
        let profile = match self.remove_profile(old_name) {
            Ok(profile) => profile,
            Err(e) => {
                return Err(e);
            },
        };
        proof {
            crate::utils::name_map::without_key_keeps(old(self).profiles@, old_name@, new_name@);
        }
        self.profiles.insert(new_name, profile);
        Ok(())
    }

    /// The names of the profiles, in the order in which they were added.
    pub fn list_profiles(&self) -> (r: Vec<&String>)
        ensures
            r@.len() == self.profiles@.len(),
            forall|i: int| 0 <= i < r@.len() ==> (#[trigger] r@[i])@ == self.profiles@[i].0,
    {
        self.profiles.keys()
    }
}

impl Clone for Config {
    fn clone(&self) -> (r: Self)
        ensures
            r.profiles@ == self.profiles@,
    {
        let mut copy = Config::new();
        let n = self.profiles.len();
        let mut i: usize = 0;
        while i < n
            invariant
                i <= n == self.profiles@.len(),
                distinct_keys(self.profiles@),
                copy.profiles@ == self.profiles@.take(i as int),
            decreases n - i,
        {
            let name = self.profiles.name_at(i).clone();
            let profile = self.profiles.value_at(i).clone();
            proof {
                let before = self.profiles@.take(i as int);
                crate::utils::name_map::position_of_spec(before, name@);
                if let Some(j) = crate::utils::name_map::position_of(before, name@) {
                    assert(before[j] == self.profiles@[j]);
                    assert(self.profiles@[j].0 != self.profiles@[i as int].0);
                }
                assert(before.push((name@, profile)) =~= self.profiles@.take(i + 1));
            }
            copy.profiles.insert(name, profile);
            i = i + 1;
        }
        assert(self.profiles@.take(n as int) =~= self.profiles@);
        copy
    }
}

/// The directory of the configuration: `oidc-cli` below the user's
/// configuration directory, which the caller looked up.
pub fn get_config_dir(base: Option<PathBuf>) -> (r: Result<PathBuf, OidcError>)
    ensures
        r is Ok <==> base is Some,
        r matches Err(e) ==> e@ == ErrorModel::Config("Could not determine config directory"@),
{
    match base {
        Some(path) => Ok(path_with(path, "oidc-cli")),
        None => Err(OidcError::Config("Could not determine config directory".to_string())),
    }
}

/// The file of the configuration: `profiles.json` in the directory of the
/// configuration.
pub fn get_config_file_path(base: Option<PathBuf>) -> (r: Result<PathBuf, OidcError>)
    ensures
        r is Ok <==> base is Some,
        r matches Err(e) ==> e@ == ErrorModel::Config("Could not determine config directory"@),
{
    match get_config_dir(base) {
        Ok(path) => Ok(path_with(path, "profiles.json")),
        Err(e) => Err(e),
    }
}

} // verus!
