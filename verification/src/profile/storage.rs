//! What is decided around the stored configuration. Reading, parsing and
//! writing the file are the caller's.

use vstd::prelude::*;
use vstd::string::*;
use crate::config::{profile_fault, Config, Profile};
use crate::error::{ErrorModel, OidcError};
use crate::text::{blank, concat3, is_blank};

verus! {

pub const INVALID_STORED: &'static str = "Invalid profile '";

pub const INVALID_IMPORTED: &'static str = "Invalid imported profile '";

/// The position of the first profile with a fault among the first `count`,
/// if there is one.
pub open spec fn first_invalid(profiles: Seq<(Seq<char>, Profile)>, count: int) -> Option<int>
    decreases count,
{
    if count <= 0 {
        None
    } else {
        match first_invalid(profiles, count - 1) {
            Some(i) => Some(i),
            None => if profile_fault(profiles[count - 1].1@) is Some {
                Some(count - 1)
            } else {
                None
            },
        }
    }
}

/// The error for the first profile with a fault: `head`, its name, `': `,
/// and the message of its fault.
pub open spec fn invalid_profile_error(
    profiles: Seq<(Seq<char>, Profile)>,
    head: Seq<char>,
) -> Option<ErrorModel> {
    match first_invalid(profiles, profiles.len() as int) {
        Some(i) => Some(
            ErrorModel::Profile(
                head + profiles[i].0 + "': "@ + profile_fault(profiles[i].1@).unwrap().message(),
            ),
        ),
        None => None,
    }
}

proof fn first_invalid_stays(profiles: Seq<(Seq<char>, Profile)>, k: int, n: int)
    requires
        0 <= k <= n,
        first_invalid(profiles, k) is Some,
    ensures
        first_invalid(profiles, n) == first_invalid(profiles, k),
    decreases n - k,
{
    if k < n {
        first_invalid_stays(profiles, k, n - 1);
    }
}

fn check_profiles(config: &Config, head: &str) -> (r: Result<(), OidcError>)
    ensures
        r is Ok <==> invalid_profile_error(config.profiles@, head@) is None,
        r matches Err(e) ==> invalid_profile_error(config.profiles@, head@) == Some(e@),
{
    let n = config.profiles.len();
    let mut i: usize = 0;
    while i < n
        invariant
            i <= n == config.profiles@.len(),
            first_invalid(config.profiles@, i as int) is None,
        decreases n - i,
    {
        match config.profiles.value_at(i).validate() {
            Err(e) => {
                proof {
                    assert(first_invalid(config.profiles@, i + 1) == Some(i as int));
                    first_invalid_stays(config.profiles@, i + 1, n as int);
                }
                let mut text = concat3(head, config.profiles.name_at(i).as_str(), "': ");
                let reason = e.message();
                text.append(reason.as_str());
                return Err(OidcError::Profile(text));
            },
            Ok(()) => {},
        }
        i = i + 1;
    }
    Ok(())
}

/// The decisions around the stored configuration.
pub struct ProfileStorage;

impl ProfileStorage {
    /// Whether the content of the configuration file is to be parsed: a file
    /// that is missing or blank stands for a configuration without profiles.
    pub fn has_config(content: Option<&str>) -> (r: bool)
        ensures
            r == (content matches Some(text) && !is_blank(text@)),
    {
        match content {
            Some(text) => !blank(text),
            None => false,
        }
    }

    /// Accepts the configuration that was parsed from the stored file if all
    /// its profiles are valid.
    pub fn load_config(parsed: Config) -> (r: Result<Config, OidcError>)
        ensures
            match r {
                Ok(config) => config == parsed && invalid_profile_error(
                    parsed.profiles@,
                    INVALID_STORED@,
                ) is None,
                Err(e) => invalid_profile_error(parsed.profiles@, INVALID_STORED@) == Some(e@),
            },
    {
        match check_profiles(&parsed, INVALID_STORED) {
            Ok(()) => Ok(parsed),
            Err(e) => Err(e),
        }
    }

    /// Accepts the configuration that was parsed from an import file if all
    /// its profiles are valid.
    pub fn import_config(parsed: Config) -> (r: Result<Config, OidcError>)
        ensures
            match r {
                Ok(config) => config == parsed && invalid_profile_error(
                    parsed.profiles@,
                    INVALID_IMPORTED@,
                ) is None,
                Err(e) => invalid_profile_error(parsed.profiles@, INVALID_IMPORTED@) == Some(e@),
            },
    {
        match check_profiles(&parsed, INVALID_IMPORTED) {
            Ok(()) => Ok(parsed),
            Err(e) => Err(e),
        }
    }
}

} // verus!
