//! What is made of the lines that the user types at a prompt. Showing the
//! prompt and reading the line are the caller's.

use vstd::prelude::*;
use vstd::string::*;
use crate::error::{ErrorModel, OidcError};
use crate::profile::manager::ProfileManager;
use crate::profile::validation::sanitize_input;
use crate::text::{
    concat3,
    decimal,
    decimal_text,
    lines_of,
    number_of,
    opt_text,
    parse_number,
    slice_text,
    trimmed,
};

verus! {

/// How the profile of a login is found without a name on the command line.
#[derive(Debug)]
pub enum ProfileChoice {
    /// There is one profile: this is its name.
    Chosen(String),
    /// There are several: show these lines and ask which.
    Ask(Vec<String>),
}

/// The lines that list the profiles to choose from, numbered from 1.
pub open spec fn choice_lines(names: Seq<Seq<char>>) -> Seq<Seq<char>> {
    seq!["Multiple profiles available:"@] + Seq::new(
        names.len(),
        |i: int| "  "@ + decimal_text((i + 1) as nat) + ". "@ + names[i],
    )
}

/// The names among a list of entries.
pub open spec fn names_in<T>(entries: Seq<(Seq<char>, T)>) -> Seq<Seq<char>> {
    Seq::new(entries.len(), |i: int| entries[i].0)
}

pub const NO_PROFILES: &'static str =
    "No profiles found. Create a profile first using 'create' command.";

pub const SEVERAL_PROFILES: &'static str =
    "Multiple profiles available. Please specify a profile name.";

/// Finds the profile of a login that names none: the only profile; an error
/// where there is none, or where there are several and nobody can be asked;
/// else the lines to ask with.
pub fn select_profile(profile_manager: &ProfileManager, quiet: bool) -> (r: Result<
    ProfileChoice,
    OidcError,
>)
    ensures
        match r {
            Err(e) => if profile_manager.profiles().len() == 0 {
                e@ == ErrorModel::Profile(NO_PROFILES@)
            } else {
                profile_manager.profiles().len() > 1 && quiet && e@ == ErrorModel::Profile(
                    SEVERAL_PROFILES@,
                )
            },
            Ok(ProfileChoice::Chosen(name)) => profile_manager.profiles().len() == 1 && name@
                == profile_manager.profiles()[0].0,
            Ok(ProfileChoice::Ask(lines)) => profile_manager.profiles().len() > 1 && !quiet
                && lines_of(lines@) == choice_lines(names_in(profile_manager.profiles())),
        },
{
    let profiles = profile_manager.list_profiles();
    if profiles.len() == 0 {
        return Err(OidcError::Profile(NO_PROFILES.to_string()));
    }
    if profiles.len() == 1 {
        return Ok(ProfileChoice::Chosen(profiles[0].clone()));
    }
    if quiet {
        return Err(OidcError::Profile(SEVERAL_PROFILES.to_string()));
    }
    let mut lines: Vec<String> = Vec::new();
    lines.push("Multiple profiles available:".to_string());
    let ghost names = names_in(profile_manager.profiles());
    let mut i: usize = 0;
    while i < profiles.len()
        invariant
            i <= profiles@.len(),
            profiles@.len() == names.len(),
            forall|j: int| 0 <= j < profiles@.len() ==> (#[trigger] profiles@[j])@ == names[j],
            lines@.len() == i + 1,
            lines@[0]@ == "Multiple profiles available:"@,
            forall|j: int|
                0 <= j < i ==> (#[trigger] lines@[j + 1])@ == "  "@ + decimal_text((j + 1) as nat)
                    + ". "@ + names[j],
        decreases profiles@.len() - i,
    {
        let number = decimal((i + 1) as u64);
        let mut line = concat3("  ", number.as_str(), ". ");
        line.append(profiles[i].as_str());
        lines.push(line);
        i = i + 1;
    }
    assert(lines_of(lines@) =~= choice_lines(names));
    Ok(ProfileChoice::Ask(lines))
}

/// The prompt that asks which of `count` profiles is meant.
pub fn selection_prompt(count: usize) -> (r: String)
    ensures
        r@ == "Select a profile (1-"@ + decimal_text(count as nat) + "): "@,
{
    let number = decimal(count as u64);
    concat3("Select a profile (1-", number.as_str(), "): ")
}

/// The complaint about an answer that names none of `count` profiles.
pub fn selection_complaint(count: usize) -> (r: String)
    ensures
        r@ == "Invalid selection. Please enter a number between 1 and "@ + decimal_text(
            count as nat,
        ) + "."@,
{
    let number = decimal(count as u64);
    concat3("Invalid selection. Please enter a number between 1 and ", number.as_str(), ".")
}

/// The position that an answer names among `count` choices: the answer,
/// whitespace at its ends aside, is a number from 1 to `count`, and the
/// position is one less.
pub open spec fn chosen_position(input: Seq<char>, count: nat) -> Option<int> {
    match number_of(trimmed(input)) {
        Some(number) => if 1 <= number <= count {
            Some(number - 1)
        } else {
            None
        },
        None => None,
    }
}

/// Reads which of `count` choices an answer names.
pub fn parse_selection(input: &str, count: usize) -> (r: Option<usize>)
    ensures
        match r {
            Some(position) => chosen_position(input@, count as nat) == Some(position as int),
            None => chosen_position(input@, count as nat) is None,
        },
{
    let text = sanitize_input(input);
    match parse_number(text.as_str()) {
        Some(number) => if number > 0 && number <= count {
            Some(number - 1)
        } else {
            None
        },
        None => None,
    }
}

/// What an answer to a prompt gives: the answer without whitespace at its
/// ends, or nothing where it is empty and a value is required.
pub fn prompt_input(input: &str, required: bool) -> (r: Option<String>)
    ensures
        match r {
            Some(value) => value@ == trimmed(input@) && !(required && value@.len() == 0),
            None => required && trimmed(input@).len() == 0,
        },
{
    let value = sanitize_input(input);
    if value.as_str().is_empty() && required {
        None
    } else {
        Some(value)
    }
}

/// The answer to a prompt with a default: the default where the answer is
/// empty.
pub fn prompt_input_with_default(input: &str, default: &str) -> (r: String)
    ensures
        r@ == if trimmed(input@).len() == 0 {
            default@
        } else {
            trimmed(input@)
        },
{
    let value = sanitize_input(input);
    if value.as_str().is_empty() {
        default.to_string()
    } else {
        value
    }
}

/// The answer to a prompt that shows the current value: the current value
/// where the answer is empty.
pub fn prompt_input_with_current(input: &str, current: &str) -> (r: String)
    ensures
        r@ == if trimmed(input@).len() == 0 {
            current@
        } else {
            trimmed(input@)
        },
{
    prompt_input_with_default(input, current)
}

/// The answer to a prompt for an optional value: nothing where it is empty.
pub fn prompt_optional_input(input: &str) -> (r: Option<String>)
    ensures
        opt_text(r) == if trimmed(input@).len() == 0 {
            None
        } else {
            Some(trimmed(input@))
        },
{
    let value = sanitize_input(input);
    if value.as_str().is_empty() {
        None
    } else {
        Some(value)
    }
}

/// The answer to a prompt for an optional value that shows the current one:
/// the current value where the answer is empty, nothing where it is `none`
/// or `null`.
pub fn prompt_optional_input_with_current(input: &str, current: Option<&str>) -> (r: Option<
    String,
>)
    ensures
        opt_text(r) == if trimmed(input@).len() == 0 {
            slice_text(current)
        } else if trimmed(input@) == "none"@ || trimmed(input@) == "null"@ {
            None
        } else {
            Some(trimmed(input@))
        },
{
    let value = sanitize_input(input);
    if value.as_str().is_empty() {
        match current {
            Some(text) => Some(text.to_string()),
            None => None,
        }
    } else if *value.as_str() == *"none" || *value.as_str() == *"null" {
        None
    } else {
        Some(value)
    }
}

} // verus!
