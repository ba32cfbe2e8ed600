//! The profiles of one user, and the operations that the commands perform on
//! them. The caller loads the configuration and stores it again after every
//! operation that succeeds.

use vstd::prelude::*;
use crate::config::{profile_fault, Config, Profile, ProfileModel};
use crate::error::{ErrorModel, OidcError};
use crate::profile::validation::{input_fault, sanitize_input, validate_profile_input};
use crate::text::{concat3, lines_of, opt_text, slice_text, trimmed};
use crate::utils::name_map::{
    has_key,
    position_of_spec,
    value_of,
    with_entry,
    with_entry_sets,
    without_key,
};

verus! {

/// What is entered for a profile, with its name.
#[derive(Debug)]
pub struct ProfileParams {
    pub name: String,
    pub client_id: String,
    pub client_secret: Option<String>,
    pub redirect_uri: String,
    pub scope: String,
    pub discovery_uri: Option<String>,
    pub authorization_endpoint: Option<String>,
    pub token_endpoint: Option<String>,
}

/// An optional text without whitespace at either end.
pub open spec fn trimmed_option(value: Option<Seq<char>>) -> Option<Seq<char>> {
    match value {
        Some(text) => Some(trimmed(text)),
        None => None,
    }
}

/// An optional string without whitespace at either end.
pub open spec fn trimmed_opt(value: Option<String>) -> Option<Seq<char>> {
    trimmed_option(opt_text(value))
}

/// The profile that parameters name, as they were entered.
pub open spec fn params_model(params: ProfileParams) -> ProfileModel {
    ProfileModel {
        discovery_uri: opt_text(params.discovery_uri),
        client_id: params.client_id@,
        client_secret: opt_text(params.client_secret),
        redirect_uri: params.redirect_uri@,
        scope: params.scope@,
        authorization_endpoint: opt_text(params.authorization_endpoint),
        token_endpoint: opt_text(params.token_endpoint),
    }
}

/// A profile with every text without whitespace at either end.
pub open spec fn trimmed_model(entered: ProfileModel) -> ProfileModel {
    ProfileModel {
        discovery_uri: trimmed_option(entered.discovery_uri),
        client_id: trimmed(entered.client_id),
        client_secret: trimmed_option(entered.client_secret),
        redirect_uri: trimmed(entered.redirect_uri),
        scope: trimmed(entered.scope),
        authorization_endpoint: trimmed_option(entered.authorization_endpoint),
        token_endpoint: trimmed_option(entered.token_endpoint),
    }
}

/// The profile that the parameters stand for: every text without whitespace
/// at either end.
pub open spec fn sanitized(params: ProfileParams) -> ProfileModel {
    trimmed_model(params_model(params))
}

/// The first fault of a profile as input, then as a profile.
pub open spec fn model_fault(p: ProfileModel) -> Option<ErrorModel> {
    match input_fault(
        p.client_id,
        p.redirect_uri,
        p.scope,
        p.discovery_uri,
        p.authorization_endpoint,
        p.token_endpoint,
    ) {
        Some(fault) => Some(fault),
        None => profile_fault(p),
    }
}

/// The first fault of the sanitized parameters.
pub open spec fn params_fault(params: ProfileParams) -> Option<ErrorModel> {
    model_fault(sanitized(params))
}

/// Why a profile cannot be created under a name: the name is blank, the
/// profile has a fault once sanitized, or the name is taken.
pub open spec fn creation_fault_of(
    profiles: Seq<(Seq<char>, Profile)>,
    name: Seq<char>,
    entered: ProfileModel,
) -> Option<ErrorModel> {
    if trimmed(name).len() == 0 {
        Some(ErrorModel::Config("Profile name cannot be empty"@))
    } else if model_fault(trimmed_model(entered)) is Some {
        model_fault(trimmed_model(entered))
    } else if has_key(profiles, trimmed(name)) {
        Some(ErrorModel::ProfileExists(trimmed(name)))
    } else {
        None
    }
}

/// Why a profile cannot be created from parameters.
pub open spec fn creation_fault(
    profiles: Seq<(Seq<char>, Profile)>,
    params: ProfileParams,
) -> Option<ErrorModel> {
    creation_fault_of(profiles, params.name@, params_model(params))
}

/// Why the profile of a name cannot be replaced: the new profile has a fault
/// once sanitized, or there is no profile of the name.
pub open spec fn update_fault_of(
    profiles: Seq<(Seq<char>, Profile)>,
    name: Seq<char>,
    entered: ProfileModel,
) -> Option<ErrorModel> {
    if model_fault(trimmed_model(entered)) is Some {
        model_fault(trimmed_model(entered))
    } else if !has_key(profiles, trimmed(name)) {
        Some(ErrorModel::ProfileNotFound(trimmed(name)))
    } else {
        None
    }
}

/// Why a profile cannot be updated from parameters.
pub open spec fn update_fault(
    profiles: Seq<(Seq<char>, Profile)>,
    params: ProfileParams,
) -> Option<ErrorModel> {
    update_fault_of(profiles, params.name@, params_model(params))
}

/// Why a profile cannot be renamed: the new name is blank or taken, or there
/// is no profile of the old name.
pub open spec fn rename_fault(
    profiles: Seq<(Seq<char>, Profile)>,
    old_name: Seq<char>,
    new_name: Seq<char>,
) -> Option<ErrorModel> {
    if trimmed(new_name).len() == 0 {
        Some(ErrorModel::Config("New profile name cannot be empty"@))
    } else if has_key(profiles, trimmed(new_name)) {
        Some(ErrorModel::ProfileExists(trimmed(new_name)))
    } else if !has_key(profiles, old_name) {
        Some(ErrorModel::ProfileNotFound(old_name))
    } else {
        None
    }
}

/// The profiles of the given names, taken in the order of the names; a name
/// given twice is taken once.
pub open spec fn selected(profiles: Seq<(Seq<char>, Profile)>, names: Seq<Seq<char>>) -> Seq<
    (Seq<char>, Profile),
>
    decreases names.len(),
{
    if names.len() == 0 {
        Seq::empty()
    } else {
        with_entry(
            selected(profiles, names.drop_last()),
            names.last(),
            value_of(profiles, names.last()),
        )
    }
}

/// The first of the names that no profile has.
pub open spec fn first_missing(profiles: Seq<(Seq<char>, Profile)>, names: Seq<Seq<char>>)
    -> Option<Seq<char>>
    decreases names.len(),
{
    if names.len() == 0 {
        None
    } else {
        match first_missing(profiles, names.drop_last()) {
            Some(name) => Some(name),
            None => if has_key(profiles, names.last()) {
                None
            } else {
                Some(names.last())
            },
        }
    }
}

pub const TAKEN_HEAD: &'static str = "Profile '";

pub const TAKEN_TAIL: &'static str = "' already exists. Use --overwrite to replace it.";

/// The profiles during an import, and the fault that stopped it.
pub struct ImportState {
    pub profiles: Seq<(Seq<char>, Profile)>,
    pub fault: Option<ErrorModel>,
}

/// The state after the first `count` incoming profiles were taken in, one
/// after the other. With `overwrite` each replaces the profile of its name or
/// is added. Without, a taken name stops the import, and so does a profile
/// with a fault; what was taken in before stays.
pub open spec fn import_upto(
    profiles: Seq<(Seq<char>, Profile)>,
    incoming: Seq<(Seq<char>, Profile)>,
    overwrite: bool,
    count: int,
) -> ImportState
    decreases count,
{
    if count <= 0 {
        ImportState { profiles, fault: None }
    } else {
        let before = import_upto(profiles, incoming, overwrite, count - 1);
        let (name, profile) = incoming[count - 1];
        if before.fault is Some {
            before
        } else if overwrite {
            ImportState { profiles: with_entry(before.profiles, name, profile), fault: None }
        } else if has_key(before.profiles, name) {
            ImportState {
                profiles: before.profiles,
                fault: Some(ErrorModel::ProfileExists(TAKEN_HEAD@ + name + TAKEN_TAIL@)),
            }
        } else if profile_fault(profile@) is Some {
            ImportState { profiles: before.profiles, fault: profile_fault(profile@) }
        } else {
            ImportState { profiles: before.profiles.push((name, profile)), fault: None }
        }
    }
}

/// The profiles of one user.
#[derive(Debug)]
pub struct ProfileManager {
    config: Config,
}

fn sanitize_optional(value: &Option<String>) -> (r: Option<String>)
    ensures
        opt_text(r) == trimmed_opt(*value),
{
    match value {
        Some(text) => Some(sanitize_input(text.as_str())),
        None => None,
    }
}

fn as_slice_text(value: &Option<String>) -> (r: Option<&str>)
    ensures
        slice_text(r) == opt_text(*value),
{
    match value {
        Some(text) => Some(text.as_str()),
        None => None,
    }
}

/// The profile that the parameters stand for, if they have no fault as
/// input.
fn checked_profile(params: &ProfileParams) -> (r: Result<Profile, OidcError>)
    ensures
        match r {
            Ok(profile) => profile@ == sanitized(*params) && input_fault(
                profile@.client_id,
                profile@.redirect_uri,
                profile@.scope,
                profile@.discovery_uri,
                profile@.authorization_endpoint,
                profile@.token_endpoint,
            ) is None,
            Err(e) => params_fault(*params) == Some(e@),
        },
{
    let client_id = sanitize_input(params.client_id.as_str());
    let redirect_uri = sanitize_input(params.redirect_uri.as_str());
    let scope = sanitize_input(params.scope.as_str());
    let client_secret = sanitize_optional(&params.client_secret);
    let discovery_uri = sanitize_optional(&params.discovery_uri);
    let authorization_endpoint = sanitize_optional(&params.authorization_endpoint);
    let token_endpoint = sanitize_optional(&params.token_endpoint);
    match validate_profile_input(
        client_id.as_str(),
        redirect_uri.as_str(),
        scope.as_str(),
        as_slice_text(&discovery_uri),
        as_slice_text(&authorization_endpoint),
        as_slice_text(&token_endpoint),
    ) {
        Err(e) => {
            return Err(e);
        },
        Ok(()) => {},
    }
    Ok(
        Profile {
            discovery_uri,
            client_id,
            client_secret,
            redirect_uri,
            scope,
            authorization_endpoint,
            token_endpoint,
        },
    )
}

impl ProfileManager {
    /// The profiles, in the order in which they were added.
    pub closed spec fn profiles(&self) -> Seq<(Seq<char>, Profile)> {
        self.config.profiles@
    }

    /// A manager of the profiles of a configuration that was loaded.
    pub fn new(config: Config) -> (r: Self)
        ensures
            r.profiles() == config.profiles@,
    {
        ProfileManager { config }
    }

    /// The configuration, for the caller to store.
    pub fn config(&self) -> (r: &Config)
        ensures
            r.profiles@ == self.profiles(),
    {
        &self.config
    }

    /// The names of the profiles.
    pub fn list_profiles(&self) -> (r: Vec<&String>)
        ensures
            r@.len() == self.profiles().len(),
            forall|i: int| 0 <= i < r@.len() ==> (#[trigger] r@[i])@ == self.profiles()[i].0,
    {
        self.config.list_profiles()
    }

    /// The profile of a name.
    pub fn get_profile(&self, name: &str) -> (r: Result<&Profile, OidcError>)
        ensures
            match r {
                Ok(profile) => has_key(self.profiles(), name@) && *profile == value_of(
                    self.profiles(),
                    name@,
                ),
                Err(e) => !has_key(self.profiles(), name@) && e@ == ErrorModel::ProfileNotFound(
                    name@,
                ),
            },
    {
        self.config.get_profile(name)
    }

    /// Adds the profile that the parameters stand for, sanitized, under its
    /// sanitized name.
    pub fn create_profile(&mut self, params: ProfileParams) -> (r: Result<(), OidcError>)
        ensures
            match r {
                Ok(()) => {
                    &&& creation_fault(old(self).profiles(), params) is None
                    &&& final(self).profiles().len() == old(self).profiles().len() + 1
                    &&& final(self).profiles().drop_last() == old(self).profiles()
                    &&& final(self).profiles().last().0 == trimmed(params.name@)
                    &&& final(self).profiles().last().1@ == sanitized(params)
                },
                Err(e) => creation_fault(old(self).profiles(), params) == Some(e@) && final(self).profiles() == old(self).profiles(),
            },
    {
        let name = sanitize_input(params.name.as_str());
        if name.as_str().is_empty() {
            return Err(OidcError::Config("Profile name cannot be empty".to_string()));
        }
        let profile = match checked_profile(&params) {
            Ok(profile) => profile,
            Err(e) => {
                return Err(e);
            },
        };
        let ghost before = self.config.profiles@;
        let r = self.config.add_profile(name, profile);
        proof {
            if r is Ok {
                assert(self.config.profiles@.drop_last() =~= before);
            }
        }
        r
    }

    /// Replaces the profile of the sanitized name by the profile that the
    /// parameters stand for, sanitized.
    pub fn update_profile(&mut self, params: ProfileParams) -> (r: Result<(), OidcError>)
        ensures
            match r {
                Ok(()) => {
                    &&& update_fault(old(self).profiles(), params) is None
                    &&& final(self).profiles().len() == old(self).profiles().len()
                    &&& has_key(final(self).profiles(), trimmed(params.name@))
                    &&& value_of(final(self).profiles(), trimmed(params.name@))@ == sanitized(
                        params,
                    )
                    &&& final(self).profiles() == with_entry(
                        old(self).profiles(),
                        trimmed(params.name@),
                        value_of(final(self).profiles(), trimmed(params.name@)),
                    )
                },
                Err(e) => update_fault(old(self).profiles(), params) == Some(e@) && final(self).profiles() == old(self).profiles(),
            },
    {
        let name = sanitize_input(params.name.as_str());
        let profile = match checked_profile(&params) {
            Ok(profile) => profile,
            Err(e) => {
                return Err(e);
            },
        };
        let ghost before = self.config.profiles@;
        let ghost key = name@;
        let ghost value = profile;
        let known = self.config.profiles.contains_key(name.as_str());
        let r = self.config.update_profile(name, profile);
        proof {
            if r is Ok {
                with_entry_sets(before, key, value);
                position_of_spec(before, key);
            }
        }
        r
    }

    /// Removes the profile of a name.
    pub fn delete_profile(&mut self, name: &str) -> (r: Result<(), OidcError>)
        ensures
            final(self).profiles() == without_key(old(self).profiles(), name@),
            r is Ok <==> has_key(old(self).profiles(), name@),
            r matches Err(e) ==> e@ == ErrorModel::ProfileNotFound(name@),
    {
        match self.config.remove_profile(name) {
            Ok(_) => Ok(()),
            Err(e) => Err(e),
        }
    }

    /// Moves a profile to the sanitized new name.
    pub fn rename_profile(&mut self, old_name: &str, new_name: String) -> (r: Result<
        (),
        OidcError,
    >)
        ensures
            match r {
                Ok(()) => rename_fault(old(self).profiles(), old_name@, new_name@) is None
                    && final(self).profiles() == without_key(old(self).profiles(), old_name@).push(
                    (trimmed(new_name@), value_of(old(self).profiles(), old_name@)),
                ),
                Err(e) => rename_fault(old(self).profiles(), old_name@, new_name@) == Some(e@)
                    && final(self).profiles() == old(self).profiles(),
            },
    {
        let new_name = sanitize_input(new_name.as_str());
        if new_name.as_str().is_empty() {
            return Err(OidcError::Config("New profile name cannot be empty".to_string()));
        }
        self.config.rename_profile(old_name, new_name)
    }

    /// The configuration to export: all profiles, or those of the given
    /// names. It fails on the first name that no profile has.
    pub fn export_profiles(&self, profile_names: Option<Vec<String>>) -> (r: Result<
        Config,
        OidcError,
    >)
        ensures
            match profile_names {
                None => r matches Ok(config) && config.profiles@ == self.profiles(),
                Some(names) => match r {
                    Ok(config) => first_missing(self.profiles(), lines_of(names@)) is None
                        && config.profiles@ == selected(self.profiles(), lines_of(names@)),
                    Err(e) => first_missing(self.profiles(), lines_of(names@)) matches Some(name)
                        && e@ == ErrorModel::ProfileNotFound(name),
                },
            },
    {
        match profile_names {
            None => Ok(self.config.clone()),
            Some(names) => {
                let mut filtered = Config::new();
                let mut i: usize = 0;
                assert(lines_of(names@).take(0) =~= Seq::<Seq<char>>::empty());
                assert(filtered.profiles@ =~= selected(self.profiles(), Seq::empty()));
                while i < names.len()
                    invariant
                        i <= names@.len(),
                        profile_names == Some(names),
                        first_missing(self.profiles(), lines_of(names@).take(i as int)) is None,
                        filtered.profiles@ == selected(
                            self.profiles(),
                            lines_of(names@).take(i as int),
                        ),
                    decreases names@.len() - i,
                {
                    let ghost upto = lines_of(names@).take(i + 1);
                    proof {
                        assert(upto.drop_last() =~= lines_of(names@).take(i as int));
                        assert(upto.last() == names@[i as int]@);
                    }
                    let profile = match self.config.get_profile(names[i].as_str()) {
                        Ok(profile) => profile.clone(),
                        Err(e) => {
                            proof {
                                assert(first_missing(self.profiles(), upto) == Some(
                                    names@[i as int]@,
                                ));
                                first_missing_grows(
                                    self.profiles(),
                                    lines_of(names@),
                                    i + 1,
                                );
                            }
                            return Err(e);
                        },
                    };
                    filtered.profiles.insert(names[i].clone(), profile);
                    proof {
                        assert(first_missing(self.profiles(), upto) is None);
                        assert(filtered.profiles@ == selected(self.profiles(), upto));
                    }
                    i = i + 1;
                }
                assert(lines_of(names@).take(names@.len() as int) =~= lines_of(names@));
                Ok(filtered)
            },
        }
    }

    /// Takes the profiles of an imported configuration in, one after the
    /// other, and returns their names. See `import_upto` for what stops it and
    /// what stays when it stops.
    pub fn import_profiles(&mut self, imported: Config, overwrite: bool) -> (r: Result<
        Vec<String>,
        OidcError,
    >)
        ensures
            final(self).profiles() == import_upto(
                old(self).profiles(),
                imported.profiles@,
                overwrite,
                imported.profiles@.len() as int,
            ).profiles,
            match r {
                Ok(names) => import_upto(
                    old(self).profiles(),
                    imported.profiles@,
                    overwrite,
                    imported.profiles@.len() as int,
                ).fault is None && names@.len() == imported.profiles@.len() && forall|i: int|
                    0 <= i < names@.len() ==> (#[trigger] names@[i])@ == imported.profiles@[i].0,
                Err(e) => import_upto(
                    old(self).profiles(),
                    imported.profiles@,
                    overwrite,
                    imported.profiles@.len() as int,
                ).fault == Some(e@),
            },
    {
        let mut imported_names: Vec<String> = Vec::new();
        let n = imported.profiles.len();
        let ghost start = self.config.profiles@;
        let mut i: usize = 0;
        while i < n
            invariant
                i <= n == imported.profiles@.len(),
                start == old(self).profiles(),
                import_upto(start, imported.profiles@, overwrite, i as int).fault is None,
                self.config.profiles@ == import_upto(
                    start,
                    imported.profiles@,
                    overwrite,
                    i as int,
                ).profiles,
                imported_names@.len() == i,
                forall|j: int|
                    0 <= j < i ==> (#[trigger] imported_names@[j])@ == imported.profiles@[j].0,
            decreases n - i,
        {
            let name = imported.profiles.name_at(i).clone();
            let profile = imported.profiles.value_at(i).clone();
            let ghost before = import_upto(start, imported.profiles@, overwrite, i as int);
            let ghost after = import_upto(start, imported.profiles@, overwrite, i + 1);
            proof {
                assert(imported.profiles@[i as int] == (name@, profile));
                assert(after == if overwrite {
                    ImportState {
                        profiles: with_entry(before.profiles, name@, profile),
                        fault: None,
                    }
                } else if has_key(before.profiles, name@) {
                    ImportState {
                        profiles: before.profiles,
                        fault: Some(
                            ErrorModel::ProfileExists(TAKEN_HEAD@ + name@ + TAKEN_TAIL@),
                        ),
                    }
                } else if profile_fault(profile@) is Some {
                    ImportState { profiles: before.profiles, fault: profile_fault(profile@) }
                } else {
                    ImportState { profiles: before.profiles.push((name@, profile)), fault: None }
                });
            }
            if self.config.profiles.contains_key(name.as_str()) && !overwrite {
                proof {
                    import_stays_stopped(start, imported.profiles@, overwrite, i + 1, n as int);
                }
                return Err(
                    OidcError::ProfileExists(concat3(TAKEN_HEAD, name.as_str(), TAKEN_TAIL)),
                );
            }
            if overwrite {
                self.config.profiles.insert(name.clone(), profile);
            } else {
                match self.config.add_profile(name.clone(), profile) {
                    Err(e) => {
                        proof {
                            import_stays_stopped(
                                start,
                                imported.profiles@,
                                overwrite,
                                i + 1,
                                n as int,
                            );
                        }
                        return Err(e);
                    },
                    Ok(()) => {},
                }
            }
            imported_names.push(name);
            i = i + 1;
        }
        Ok(imported_names)
    }

    /// Whether there is a profile.
    pub fn has_profiles(&self) -> (r: bool)
        ensures
            r == (self.profiles().len() > 0),
    {
        !self.config.profiles.is_empty()
    }

    /// The one profile with its name, where there is exactly one.
    pub fn get_single_profile(&self) -> (r: Option<(&String, &Profile)>)
        ensures
            r is Some <==> self.profiles().len() == 1,
            r matches Some(found) ==> found.0@ == self.profiles()[0].0 && *found.1
                == self.profiles()[0].1,
    {
        if self.config.profiles.len() == 1 {
            Some((self.config.profiles.name_at(0), self.config.profiles.value_at(0)))
        } else {
            None
        }
    }
}

impl Clone for ProfileManager {
    fn clone(&self) -> (r: Self)
        ensures
            r.profiles() == self.profiles(),
    {
        ProfileManager { config: self.config.clone() }
    }
}

/// A name that is missing among the first names is missing among all.
proof fn first_missing_grows(profiles: Seq<(Seq<char>, Profile)>, names: Seq<Seq<char>>, k: int)
    requires
        0 <= k <= names.len(),
        first_missing(profiles, names.take(k)) is Some,
    ensures
        first_missing(profiles, names) == first_missing(profiles, names.take(k)),
    decreases names.len() - k,
{
    if k < names.len() {
        assert(names.take(k + 1).drop_last() =~= names.take(k));
        first_missing_grows(profiles, names, k + 1);
    } else {
        assert(names.take(k) =~= names);
    }
}

/// Once an import has stopped, the profiles that follow change nothing.
proof fn import_stays_stopped(
    profiles: Seq<(Seq<char>, Profile)>,
    incoming: Seq<(Seq<char>, Profile)>,
    overwrite: bool,
    k: int,
    n: int,
)
    requires
        0 <= k <= n,
        import_upto(profiles, incoming, overwrite, k).fault is Some,
    ensures
        import_upto(profiles, incoming, overwrite, n) == import_upto(
            profiles,
            incoming,
            overwrite,
            k,
        ),
    decreases n - k,
{
    if k < n {
        import_stays_stopped(profiles, incoming, overwrite, k, n - 1);
    }
}

} // verus!
