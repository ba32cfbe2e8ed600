//! The commands that list, export and import profiles. Reading and writing
//! the files is the caller's.

use vstd::prelude::*;
use vstd::string::*;
use crate::commands::profile::unless_quiet;
use crate::config::{Config, Profile};
use crate::error::{ErrorModel, OidcError};
use crate::profile::manager::{first_missing, import_upto, selected, ProfileManager};
use crate::profile::storage::{invalid_profile_error, ProfileStorage, INVALID_IMPORTED};
use crate::text::{concat2, concat3, decimal, decimal_text, lines_of};
use crate::ui::prompts::names_in;

verus! {

/// The lines that list profiles: quiet, the names alone; else a heading and
/// the names as bullets, or the remark that there are none.
pub open spec fn list_lines(names: Seq<Seq<char>>, quiet: bool) -> Seq<Seq<char>> {
    if names.len() == 0 {
        unless_quiet(quiet, seq!["No profiles found."@])
    } else if quiet {
        names
    } else {
        seq!["Available profiles:"@] + Seq::new(names.len(), |i: int| "  \u{2022} "@ + names[i])
    }
}

/// Handles a `list` command.
pub fn handle_list(profile_manager: &ProfileManager, quiet: bool) -> (r: Result<
    Vec<String>,
    OidcError,
>)
    ensures
        r matches Ok(lines) && lines_of(lines@) == list_lines(
            names_in(profile_manager.profiles()),
            quiet,
        ),
{
    let profiles = profile_manager.list_profiles();
    let ghost names = names_in(profile_manager.profiles());
    let mut lines: Vec<String> = Vec::new();
    if profiles.len() == 0 {
        if !quiet {
            lines.push("No profiles found.".to_string());
        }
        assert(lines_of(lines@) =~= list_lines(names, quiet));
        return Ok(lines);
    }
    if !quiet {
        lines.push("Available profiles:".to_string());
    }
    let offset = lines.len();
    let mut i: usize = 0;
    while i < profiles.len()
        invariant
            i <= profiles@.len(),
            profiles@.len() == names.len(),
            forall|j: int| 0 <= j < profiles@.len() ==> (#[trigger] profiles@[j])@ == names[j],
            offset == if quiet {
                0usize
            } else {
                1usize
            },
            lines@.len() == offset + i,
            !quiet ==> lines@[0]@ == "Available profiles:"@,
            forall|j: int|
                0 <= j < i ==> (#[trigger] lines@[offset + j])@ == if quiet {
                    names[j]
                } else {
                    "  \u{2022} "@ + names[j]
                },
        decreases profiles@.len() - i,
    {
        if quiet {
            lines.push(profiles[i].clone());
        } else {
            lines.push(concat2("  \u{2022} ", profiles[i].as_str()));
        }
        i = i + 1;
    }
    assert(lines_of(lines@) =~= list_lines(names, quiet)) by {
        assert forall|k: int| 0 <= k < lines@.len() implies lines_of(lines@)[k] == list_lines(
            names,
            quiet,
        )[k] by {
            if k >= offset {
                assert(lines@[offset + (k - offset)]@ == if quiet {
                    names[k - offset]
                } else {
                    "  \u{2022} "@ + names[k - offset]
                });
            }
        }
    }
    Ok(lines)
}

/// Handles an `export` command: the configuration to write, all profiles
/// where no name is given, and the line to print after it was written.
/// `file` is the path as it is shown.
pub fn handle_export(
    profile_manager: &ProfileManager,
    file: &str,
    profiles: Vec<String>,
    quiet: bool,
) -> (r: Result<(Config, Vec<String>), OidcError>)
    ensures
        match r {
            Ok((config, lines)) => first_missing(profile_manager.profiles(), lines_of(profiles@))
                is None && config.profiles@ == (if profiles@.len() == 0 {
                profile_manager.profiles()
            } else {
                selected(profile_manager.profiles(), lines_of(profiles@))
            }) && lines_of(lines@) == unless_quiet(
                quiet,
                seq!["\u{2713} Profiles exported to "@ + file@ + " successfully."@],
            ),
            Err(e) => first_missing(profile_manager.profiles(), lines_of(profiles@)) matches Some(
                name,
            ) && e@ == ErrorModel::ProfileNotFound(name),
        },
{
    let profile_names = if profiles.len() == 0 {
        None
    } else {
        Some(profiles)
    };
    proof {
        if profiles@.len() == 0 {
            assert(first_missing(profile_manager.profiles(), lines_of(profiles@)) is None);
        }
    }
    let config = match profile_manager.export_profiles(profile_names) {
        Ok(config) => config,
        Err(e) => {
            return Err(e);
        },
    };
    let mut lines: Vec<String> = Vec::new();
    if !quiet {
        lines.push(concat3("\u{2713} Profiles exported to ", file, " successfully."));
    }
    assert(lines_of(lines@) =~= unless_quiet(
        quiet,
        seq!["\u{2713} Profiles exported to "@ + file@ + " successfully."@],
    ));
    Ok((config, lines))
}

/// The lines after an import: how many profiles came from where, and their
/// names as bullets.
pub open spec fn import_lines(names: Seq<Seq<char>>, file: Seq<char>) -> Seq<Seq<char>> {
    seq![
        "\u{2713} Imported "@ + decimal_text(names.len()) + " profile(s) from "@ + file + ":"@,
    ] + Seq::new(names.len(), |i: int| "  \u{2022} "@ + names[i])
}

/// Handles an `import` command. `parsed` is the configuration that the file
/// parsed to, or nothing where there is no such file; `file` is the path as
/// it is shown. The profiles are checked and then taken in as `import_upto`
/// says.
pub fn handle_import(
    profile_manager: &mut ProfileManager,
    file: &str,
    parsed: Option<Config>,
    overwrite: bool,
    quiet: bool,
) -> (r: Result<Vec<String>, OidcError>)
    ensures
        match parsed {
            None => {
                &&& r matches Err(e)
                &&& e@ == ErrorModel::Profile("Import file not found: "@ + file@)
                &&& final(profile_manager).profiles() == old(profile_manager).profiles()
            },
            Some(config) => match invalid_profile_error(config.profiles@, INVALID_IMPORTED@) {
                Some(fault) => {
                    &&& r matches Err(e)
                    &&& e@ == fault
                    &&& final(profile_manager).profiles() == old(profile_manager).profiles()
                },
                None => {
                    let outcome = import_upto(
                        old(profile_manager).profiles(),
                        config.profiles@,
                        overwrite,
                        config.profiles@.len() as int,
                    );
                    &&& final(profile_manager).profiles() == outcome.profiles
                    &&& match r {
                        Ok(lines) => outcome.fault is None && lines_of(lines@) == unless_quiet(
                            quiet,
                            import_lines(names_in(config.profiles@), file@),
                        ),
                        Err(e) => outcome.fault == Some(e@),
                    }
                },
            },
        },
{
    let config = match parsed {
        Some(config) => config,
        None => {
            return Err(OidcError::Profile(concat2("Import file not found: ", file)));
        },
    };
    let ghost incoming = config.profiles@;
    let config = match ProfileStorage::import_config(config) {
        Ok(config) => config,
        Err(e) => {
            return Err(e);
        },
    };
    let names = match profile_manager.import_profiles(config, overwrite) {
        Ok(names) => names,
        Err(e) => {
            return Err(e);
        },
    };
    let mut lines: Vec<String> = Vec::new();
    if !quiet {
        let count = decimal(names.len() as u64);
        let mut line = concat3("\u{2713} Imported ", count.as_str(), " profile(s) from ");
        line.append(file);
        line.append(":");
        lines.push(line);
        let mut i: usize = 0;
        while i < names.len()
            invariant
                i <= names@.len(),
                names@.len() == incoming.len(),
                forall|j: int| 0 <= j < names@.len() ==> (#[trigger] names@[j])@ == incoming[j].0,
                lines@.len() == i + 1,
                lines@[0]@ == "\u{2713} Imported "@ + decimal_text(names@.len())
                    + " profile(s) from "@ + file@ + ":"@,
                forall|j: int|
                    0 <= j < i ==> (#[trigger] lines@[j + 1])@ == "  \u{2022} "@ + incoming[j].0,
            decreases names@.len() - i,
        {
            lines.push(concat2("  \u{2022} ", names[i].as_str()));
            i = i + 1;
        }
        proof {
            let expected = import_lines(names_in(incoming), file@);
            assert forall|k: int| 0 <= k < lines@.len() implies lines_of(lines@)[k]
                == expected[k] by {
                if k >= 1 {
                    assert(lines@[(k - 1) + 1]@ == "  \u{2022} "@ + incoming[k - 1].0);
                }
            }
        }
    }
    assert(lines_of(lines@) =~= unless_quiet(quiet, import_lines(names_in(incoming), file@)));
    Ok(lines)
}

} // verus!
