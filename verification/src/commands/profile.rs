//! The commands that create, edit, delete and rename profiles. Each takes
//! what the user typed and returns the lines to print; storing the
//! configuration after a success is the caller's.

use vstd::prelude::*;
use vstd::string::*;
use crate::config::Profile;
use crate::error::{ErrorModel, OidcError};
use crate::profile::manager::{
    creation_fault,
    params_model,
    rename_fault,
    sanitized,
    trimmed_model,
    update_fault_of,
    ProfileManager,
    ProfileParams,
};
use crate::text::{concat3, lines_of, opt_text, slice_text, trimmed};
use crate::trusted::{lowercased, to_lowercase};
use crate::ui::prompts::{
    prompt_input_with_current,
    prompt_optional_input,
    prompt_optional_input_with_current,
};
use crate::utils::name_map::{has_key, value_of, with_entry, without_key};

verus! {

/// The `create` command as it was given.
#[derive(Debug)]
pub struct CreateParams {
    pub name: String,
    pub client_id: Option<String>,
    pub client_secret: Option<String>,
    pub redirect_uri: Option<String>,
    pub scope: Option<String>,
    pub discovery_uri: Option<String>,
    pub auth_endpoint: Option<String>,
    pub token_endpoint: Option<String>,
    pub non_interactive: bool,
    pub quiet: bool,
}

/// What a `create` command without prompts lacks: the client id, the redirect
/// URI, the scope, or the endpoints.
pub open spec fn missing_option(params: CreateParams) -> Option<ErrorModel> {
    if params.client_id is None {
        Some(ErrorModel::Config("--client-id is required in non-interactive mode"@))
    } else if params.redirect_uri is None {
        Some(ErrorModel::Config("--redirect-uri is required in non-interactive mode"@))
    } else if params.scope is None {
        Some(ErrorModel::Config("--scope is required in non-interactive mode"@))
    } else if params.discovery_uri is None && (params.auth_endpoint is None
        || params.token_endpoint is None) {
        Some(
            ErrorModel::Config(
                "Either --discovery-uri or both --auth-endpoint and --token-endpoint are required in non-interactive mode"@,
            ),
        )
    } else {
        None
    }
}

/// The parameters of the profile that a complete `create` command names.
pub open spec fn given_params(params: CreateParams) -> ProfileParams {
    ProfileParams {
        name: params.name,
        client_id: params.client_id.unwrap(),
        client_secret: params.client_secret,
        redirect_uri: params.redirect_uri.unwrap(),
        scope: params.scope.unwrap(),
        discovery_uri: params.discovery_uri,
        authorization_endpoint: params.auth_endpoint,
        token_endpoint: params.token_endpoint,
    }
}

/// The parameters of the profile that a `create` command without prompts
/// names, or what it lacks.
pub fn non_interactive_params(params: CreateParams) -> (r: Result<ProfileParams, OidcError>)
    ensures
        match r {
            Ok(given) => missing_option(params) is None && given == given_params(params),
            Err(e) => missing_option(params) == Some(e@),
        },
{
    let client_id = match params.client_id {
        Some(client_id) => client_id,
        None => {
            return Err(
                OidcError::Config("--client-id is required in non-interactive mode".to_string()),
            );
        },
    };
    let redirect_uri = match params.redirect_uri {
        Some(redirect_uri) => redirect_uri,
        None => {
            return Err(
                OidcError::Config(
                    "--redirect-uri is required in non-interactive mode".to_string(),
                ),
            );
        },
    };
    let scope = match params.scope {
        Some(scope) => scope,
        None => {
            return Err(
                OidcError::Config("--scope is required in non-interactive mode".to_string()),
            );
        },
    };
    if params.discovery_uri.is_none() && (params.auth_endpoint.is_none()
        || params.token_endpoint.is_none()) {
        return Err(
            OidcError::Config(
                "Either --discovery-uri or both --auth-endpoint and --token-endpoint are required in non-interactive mode".to_string(),
            ),
        );
    }
    Ok(
        ProfileParams {
            name: params.name,
            client_id,
            client_secret: params.client_secret,
            redirect_uri,
            scope,
            discovery_uri: params.discovery_uri,
            authorization_endpoint: params.auth_endpoint,
            token_endpoint: params.token_endpoint,
        },
    )
}

/// What follows a `create` command.
#[derive(Debug)]
pub enum CreateStep {
    /// The profile was created: print these lines.
    Created(Vec<String>),
    /// The values are to be asked for: print these lines, prompt, and call
    /// `create_profile_interactive`.
    Interactive(Vec<String>),
}

/// The lines of a command: none when quiet.
pub open spec fn unless_quiet(quiet: bool, lines: Seq<Seq<char>>) -> Seq<Seq<char>> {
    if quiet {
        Seq::empty()
    } else {
        lines
    }
}

fn report(quiet: bool, head: &str, name: &str, tail: &str) -> (r: Vec<String>)
    ensures
        lines_of(r@) == unless_quiet(quiet, seq![head@ + name@ + tail@]),
{
    let mut lines: Vec<String> = Vec::new();
    if !quiet {
        lines.push(concat3(head, name, tail));
    }
    assert(lines_of(lines@) =~= unless_quiet(quiet, seq![head@ + name@ + tail@]));
    lines
}

/// Handles a `create` command. Without prompts the profile is created from
/// the options, which must be complete. With prompts nothing is created yet.
pub fn handle_create(profile_manager: &mut ProfileManager, params: CreateParams) -> (r: Result<
    CreateStep,
    OidcError,
>)
    ensures
        !params.non_interactive ==> {
            &&& final(profile_manager).profiles() == old(profile_manager).profiles()
            &&& r matches Ok(CreateStep::Interactive(lines))
            &&& lines_of(lines@) == unless_quiet(
                params.quiet,
                seq![
                    "Creating new profile '"@ + params.name@ + "'"@,
                    "Press Ctrl+C to cancel at any time"@,
                    ""@,
                ],
            )
        },
        params.non_interactive ==> match r {
            Ok(step) => {
                &&& missing_option(params) is None
                &&& creation_fault(old(profile_manager).profiles(), given_params(params)) is None
                &&& final(profile_manager).profiles().drop_last() == old(
                    profile_manager,
                ).profiles()
                &&& final(profile_manager).profiles().len() == old(profile_manager).profiles().len()
                    + 1
                &&& final(profile_manager).profiles().last().0 == trimmed(params.name@)
                &&& final(profile_manager).profiles().last().1@ == sanitized(given_params(params))
                &&& step matches CreateStep::Created(lines)
                &&& lines_of(lines@) == unless_quiet(
                    params.quiet,
                    seq!["Profile '"@ + params.name@ + "' created successfully."@],
                )
            },
            Err(e) => final(profile_manager).profiles() == old(profile_manager).profiles()
                && match missing_option(params) {
                Some(fault) => e@ == fault,
                None => creation_fault(old(profile_manager).profiles(), given_params(params))
                    == Some(e@),
            },
        },
{
    let quiet = params.quiet;
    let name = params.name.clone();
    if params.non_interactive {
        let given = match non_interactive_params(params) {
            Ok(given) => given,
            Err(e) => {
                return Err(e);
            },
        };
        match profile_manager.create_profile(given) {
            Err(e) => {
                return Err(e);
            },
            Ok(()) => {},
        }
        Ok(CreateStep::Created(report(quiet, "Profile '", name.as_str(), "' created successfully.")))
    } else {
        let mut lines: Vec<String> = Vec::new();
        if !quiet {
            lines.push(concat3("Creating new profile '", name.as_str(), "'"));
            lines.push("Press Ctrl+C to cancel at any time".to_string());
            lines.push("".to_string());
        }
        assert(lines_of(lines@) =~= unless_quiet(
            quiet,
            seq![
                "Creating new profile '"@ + name@ + "'"@,
                "Press Ctrl+C to cancel at any time"@,
                ""@,
            ],
        ));
        Ok(CreateStep::Interactive(lines))
    }
}

/// Which way of naming the endpoints an answer chooses: `1` is discovery,
/// `2` is by hand, anything else is no answer.
pub fn parse_method_choice(input: &str) -> (r: Option<bool>)
    ensures
        r == if trimmed(input@) == "1"@ {
            Some(true)
        } else if trimmed(input@) == "2"@ {
            Some(false)
        } else {
            None
        },
{
    let text = crate::profile::validation::sanitize_input(input);
    if *text.as_str() == *"1" {
        Some(true)
    } else if *text.as_str() == *"2" {
        Some(false)
    } else {
        None
    }
}

/// How the endpoints of a new profile were named at the prompt.
#[derive(Debug)]
pub enum EndpointAnswers {
    Discovery { discovery_uri: String },
    Manual { authorization_endpoint: String, token_endpoint: String },
}

/// The answers to the prompts of `create`.
#[derive(Debug)]
pub struct CreateAnswers {
    pub client_id: String,
    pub client_secret: Option<String>,
    pub redirect_uri: String,
    pub scope: String,
    pub endpoints: EndpointAnswers,
}

/// The parameters of the profile that the answers name.
pub open spec fn answered_params(name: String, answers: CreateAnswers) -> ProfileParams {
    ProfileParams {
        name,
        client_id: answers.client_id,
        client_secret: answers.client_secret,
        redirect_uri: answers.redirect_uri,
        scope: answers.scope,
        discovery_uri: match answers.endpoints {
            EndpointAnswers::Discovery { discovery_uri } => Some(discovery_uri),
            EndpointAnswers::Manual { .. } => None,
        },
        authorization_endpoint: match answers.endpoints {
            EndpointAnswers::Discovery { .. } => None,
            EndpointAnswers::Manual { authorization_endpoint, .. } => Some(authorization_endpoint),
        },
        token_endpoint: match answers.endpoints {
            EndpointAnswers::Discovery { .. } => None,
            EndpointAnswers::Manual { token_endpoint, .. } => Some(token_endpoint),
        },
    }
}

/// Creates the profile that the answers to the prompts name.
pub fn create_profile_interactive(
    profile_manager: &mut ProfileManager,
    name: String,
    answers: CreateAnswers,
    quiet: bool,
) -> (r: Result<Vec<String>, OidcError>)
    ensures
        match r {
            Ok(lines) => {
                &&& creation_fault(old(profile_manager).profiles(), answered_params(name, answers))
                    is None
                &&& final(profile_manager).profiles().drop_last() == old(
                    profile_manager,
                ).profiles()
                &&& final(profile_manager).profiles().len() == old(profile_manager).profiles().len()
                    + 1
                &&& final(profile_manager).profiles().last().0 == trimmed(name@)
                &&& final(profile_manager).profiles().last().1@ == sanitized(
                    answered_params(name, answers),
                )
                &&& lines_of(lines@) == unless_quiet(
                    quiet,
                    seq![""@, "\u{2713} Profile '"@ + name@ + "' created successfully!"@],
                )
            },
            Err(e) => final(profile_manager).profiles() == old(profile_manager).profiles()
                && creation_fault(old(profile_manager).profiles(), answered_params(name, answers))
                == Some(e@),
        },
{
    let shown = name.clone();
    let (discovery_uri, authorization_endpoint, token_endpoint) = match answers.endpoints {
        EndpointAnswers::Discovery { discovery_uri } => (Some(discovery_uri), None, None),
        EndpointAnswers::Manual { authorization_endpoint, token_endpoint } => (
            None,
            Some(authorization_endpoint),
            Some(token_endpoint),
        ),
    };
    let params = ProfileParams {
        name,
        client_id: answers.client_id,
        client_secret: answers.client_secret,
        redirect_uri: answers.redirect_uri,
        scope: answers.scope,
        discovery_uri,
        authorization_endpoint,
        token_endpoint,
    };
    match profile_manager.create_profile(params) {
        Err(e) => {
            return Err(e);
        },
        Ok(()) => {},
    }
    let mut lines: Vec<String> = Vec::new();
    if !quiet {
        lines.push("".to_string());
        lines.push(concat3("\u{2713} Profile '", shown.as_str(), "' created successfully!"));
    }
    assert(lines_of(lines@) =~= unless_quiet(
        quiet,
        seq![""@, "\u{2713} Profile '"@ + shown@ + "' created successfully!"@],
    ));
    Ok(lines)
}

/// The lines typed at the prompts of `edit`, one for each value. A line for a
/// value that was not asked for is not read.
#[derive(Debug)]
pub struct EditAnswers {
    pub client_id: String,
    pub client_secret: String,
    pub redirect_uri: String,
    pub scope: String,
    pub discovery_uri: String,
    pub authorization_endpoint: String,
    pub token_endpoint: String,
}

/// A value after its prompt: the current value where the line is blank.
pub open spec fn kept_or(line: Seq<char>, current: Seq<char>) -> Seq<char> {
    if trimmed(line).len() == 0 {
        current
    } else {
        trimmed(line)
    }
}

/// An optional value after its prompt: the current value where the line is
/// blank, nothing where it is `none` or `null`.
pub open spec fn optional_kept_or(line: Seq<char>, current: Option<Seq<char>>) -> Option<
    Seq<char>,
> {
    if trimmed(line).len() == 0 {
        current
    } else if trimmed(line) == "none"@ || trimmed(line) == "null"@ {
        None
    } else {
        Some(trimmed(line))
    }
}

/// An optional value that had none: nothing where the line is blank.
pub open spec fn optional_entered(line: Seq<char>) -> Option<Seq<char>> {
    if trimmed(line).len() == 0 {
        None
    } else {
        Some(trimmed(line))
    }
}

/// The profile that the answers make of the current one. A profile with a
/// discovery URI keeps no endpoints; one without keeps no discovery URI.
pub open spec fn edited(current: Profile, answers: EditAnswers) -> crate::config::ProfileModel {
    crate::config::ProfileModel {
        client_id: kept_or(answers.client_id@, current.client_id@),
        client_secret: match current.client_secret {
            Some(secret) => optional_kept_or(answers.client_secret@, Some(secret@)),
            None => optional_entered(answers.client_secret@),
        },
        redirect_uri: kept_or(answers.redirect_uri@, current.redirect_uri@),
        scope: kept_or(answers.scope@, current.scope@),
        discovery_uri: match current.discovery_uri {
            Some(uri) => optional_kept_or(answers.discovery_uri@, Some(uri@)),
            None => None,
        },
        authorization_endpoint: match current.discovery_uri {
            Some(_) => None,
            None => optional_kept_or(
                answers.authorization_endpoint@,
                opt_text(current.authorization_endpoint),
            ),
        },
        token_endpoint: match current.discovery_uri {
            Some(_) => None,
            None => optional_kept_or(answers.token_endpoint@, opt_text(current.token_endpoint)),
        },
    }
}

fn current_text(value: &Option<String>) -> (r: Option<&str>)
    ensures
        match r {
            Some(text) => opt_text(*value) == Some(text@),
            None => *value is None,
        },
{
    match value {
        Some(text) => Some(text.as_str()),
        None => None,
    }
}

/// The parameters that the answers to the prompts of `edit` make of a
/// profile.
pub fn edited_params(name: String, current: &Profile, answers: &EditAnswers) -> (r: ProfileParams)
    ensures
        r.name == name,
        r.client_id@ == edited(*current, *answers).client_id,
        opt_text(r.client_secret) == edited(*current, *answers).client_secret,
        r.redirect_uri@ == edited(*current, *answers).redirect_uri,
        r.scope@ == edited(*current, *answers).scope,
        opt_text(r.discovery_uri) == edited(*current, *answers).discovery_uri,
        opt_text(r.authorization_endpoint) == edited(*current, *answers).authorization_endpoint,
        opt_text(r.token_endpoint) == edited(*current, *answers).token_endpoint,
{
    let client_id = prompt_input_with_current(
        answers.client_id.as_str(),
        current.client_id.as_str(),
    );
    let client_secret = if current.client_secret.is_some() {
        prompt_optional_input_with_current(
            answers.client_secret.as_str(),
            current_text(&current.client_secret),
        )
    } else {
        prompt_optional_input(answers.client_secret.as_str())
    };
    let redirect_uri = prompt_input_with_current(
        answers.redirect_uri.as_str(),
        current.redirect_uri.as_str(),
    );
    let scope = prompt_input_with_current(answers.scope.as_str(), current.scope.as_str());
    let (discovery_uri, authorization_endpoint, token_endpoint) =
        if current.discovery_uri.is_some() {
        (
            prompt_optional_input_with_current(
                answers.discovery_uri.as_str(),
                current_text(&current.discovery_uri),
            ),
            None,
            None,
        )
    } else {
        (
            None,
            prompt_optional_input_with_current(
                answers.authorization_endpoint.as_str(),
                current_text(&current.authorization_endpoint),
            ),
            prompt_optional_input_with_current(
                answers.token_endpoint.as_str(),
                current_text(&current.token_endpoint),
            ),
        )
    };
    ProfileParams {
        name,
        client_id,
        client_secret,
        redirect_uri,
        scope,
        discovery_uri,
        authorization_endpoint,
        token_endpoint,
    }
}

/// The lines that open the prompts of `edit`.
pub fn edit_intro(name: &str, quiet: bool) -> (r: Vec<String>)
    ensures
        lines_of(r@) == unless_quiet(
            quiet,
            seq![
                "Editing profile '"@ + name@ + "'"@,
                "Press Enter to keep current value, or enter new value:"@,
                ""@,
            ],
        ),
{
    let mut lines: Vec<String> = Vec::new();
    if !quiet {
        lines.push(concat3("Editing profile '", name, "'"));
        lines.push("Press Enter to keep current value, or enter new value:".to_string());
        lines.push("".to_string());
    }
    assert(lines_of(lines@) =~= unless_quiet(
        quiet,
        seq![
            "Editing profile '"@ + name@ + "'"@,
            "Press Enter to keep current value, or enter new value:"@,
            ""@,
        ],
    ));
    lines
}

/// Handles an `edit` command with the answers to its prompts: the profile of
/// the name is replaced by what the answers make of it, sanitized.
pub fn handle_edit(
    profile_manager: &mut ProfileManager,
    name: String,
    answers: EditAnswers,
    quiet: bool,
) -> (r: Result<Vec<String>, OidcError>)
    ensures
        match r {
            Ok(lines) => {
                let before = old(profile_manager).profiles();
                let after = final(profile_manager).profiles();
                let entered = edited(value_of(before, name@), answers);
                &&& has_key(before, name@)
                &&& update_fault_of(before, name@, entered) is None
                &&& has_key(after, trimmed(name@))
                &&& value_of(after, trimmed(name@))@ == trimmed_model(entered)
                &&& after == with_entry(before, trimmed(name@), value_of(after, trimmed(name@)))
                &&& lines_of(lines@) == unless_quiet(
                    quiet,
                    seq!["\u{2713} Profile '"@ + name@ + "' updated successfully!"@],
                )
            },
            Err(e) => {
                let before = old(profile_manager).profiles();
                &&& final(profile_manager).profiles() == before
                &&& if has_key(before, name@) {
                    update_fault_of(before, name@, edited(value_of(before, name@), answers))
                        == Some(e@)
                } else {
                    e@ == ErrorModel::ProfileNotFound(name@)
                }
            },
        },
{
    let current = match profile_manager.get_profile(name.as_str()) {
        Ok(profile) => profile.clone(),
        Err(e) => {
            return Err(e);
        },
    };
    let shown = name.clone();
    let params = edited_params(name, &current, &answers);
    assert(params_model(params) == edited(current, answers));
    match profile_manager.update_profile(params) {
        Err(e) => {
            return Err(e);
        },
        Ok(()) => {},
    }
    Ok(report(quiet, "\u{2713} Profile '", shown.as_str(), "' updated successfully!"))
}

/// Whether an answer confirms: it is `y` or `yes`, in any case, whitespace at
/// its ends aside.
pub open spec fn confirms(answer: Seq<char>) -> bool {
    lowercased(trimmed(answer)) == "y"@ || lowercased(trimmed(answer)) == "yes"@
}

/// Whether an answer confirms.
pub fn is_confirmation(answer: &str) -> (r: bool)
    ensures
        r == confirms(answer@),
{
    let text = crate::profile::validation::sanitize_input(answer);
    let lower = to_lowercase(text.as_str());
    *lower.as_str() == *"y" || *lower.as_str() == *"yes"
}

/// Whether `delete` asks before it deletes.
pub fn needs_confirmation(force: bool, quiet: bool) -> (r: bool)
    ensures
        r == (!force && !quiet),
{
    !force && !quiet
}

/// Whether a `delete` goes ahead: it was forced or is quiet, or the answer
/// confirms.
pub open spec fn delete_goes_ahead(force: bool, quiet: bool, answer: Option<Seq<char>>) -> bool {
    force || quiet || (answer matches Some(text) && confirms(text))
}

/// Handles a `delete` command. `answer` is what the user typed when asked
/// whether to delete; it is read only where `needs_confirmation` holds.
pub fn handle_delete(
    profile_manager: &mut ProfileManager,
    name: String,
    force: bool,
    quiet: bool,
    answer: Option<&str>,
) -> (r: Result<Vec<String>, OidcError>)
    ensures
        match r {
            Err(e) => !has_key(old(profile_manager).profiles(), name@) && e@
                == ErrorModel::ProfileNotFound(name@) && final(profile_manager).profiles() == old(
                profile_manager,
            ).profiles(),
            Ok(lines) => has_key(old(profile_manager).profiles(), name@) && if delete_goes_ahead(
                force,
                quiet,
                slice_text(answer),
            ) {
                final(profile_manager).profiles() == without_key(
                    old(profile_manager).profiles(),
                    name@,
                ) && lines_of(lines@) == unless_quiet(
                    quiet,
                    seq!["\u{2713} Profile '"@ + name@ + "' deleted successfully."@],
                )
            } else {
                final(profile_manager).profiles() == old(profile_manager).profiles() && lines_of(
                    lines@,
                ) == seq!["Operation cancelled."@]
            },
        },
{
    match profile_manager.get_profile(name.as_str()) {
        Err(e) => {
            return Err(e);
        },
        Ok(_) => {},
    }
    if needs_confirmation(force, quiet) {
        let confirmed = match answer {
            Some(text) => is_confirmation(text),
            None => false,
        };
        if !confirmed {
            let mut lines: Vec<String> = Vec::new();
            lines.push("Operation cancelled.".to_string());
            assert(lines_of(lines@) =~= seq!["Operation cancelled."@]);
            return Ok(lines);
        }
    }
    match profile_manager.delete_profile(name.as_str()) {
        Err(e) => {
            return Err(e);
        },
        Ok(()) => {},
    }
    Ok(report(quiet, "\u{2713} Profile '", name.as_str(), "' deleted successfully."))
}

/// Handles a `rename` command.
pub fn handle_rename(
    profile_manager: &mut ProfileManager,
    old_name: String,
    new_name: String,
    quiet: bool,
) -> (r: Result<Vec<String>, OidcError>)
    ensures
        match r {
            Ok(lines) => rename_fault(old(profile_manager).profiles(), old_name@, new_name@)
                is None && final(profile_manager).profiles() == without_key(
                old(profile_manager).profiles(),
                old_name@,
            ).push((trimmed(new_name@), value_of(old(profile_manager).profiles(), old_name@)))
                && lines_of(lines@) == unless_quiet(
                quiet,
                seq![
                    "\u{2713} Profile '"@ + old_name@ + "' renamed to '"@ + new_name@
                        + "' successfully."@,
                ],
            ),
            Err(e) => rename_fault(old(profile_manager).profiles(), old_name@, new_name@) == Some(
                e@,
            ) && final(profile_manager).profiles() == old(profile_manager).profiles(),
        },
{
    match profile_manager.rename_profile(old_name.as_str(), new_name.clone()) {
        Err(e) => {
            return Err(e);
        },
        Ok(()) => {},
    }
    let mut lines: Vec<String> = Vec::new();
    if !quiet {
        let mut line = concat3("\u{2713} Profile '", old_name.as_str(), "' renamed to '");
        line.append(new_name.as_str());
        line.append("' successfully.");
        lines.push(line);
    }
    assert(lines_of(lines@) =~= unless_quiet(
        quiet,
        seq![
            "\u{2713} Profile '"@ + old_name@ + "' renamed to '"@ + new_name@ + "' successfully."@,
        ],
    ));
    Ok(lines)
}

} // verus!
