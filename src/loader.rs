//! Turning what a plugin library exports into a plugin descriptor.
//!
//! Opening the library and resolving its symbols is foreign work done by the
//! caller; what it found is handed in here as plain values, and the rules
//! for what makes a usable plugin are applied in this module.
use vstd::prelude::*;
use vstd::utf8::{decode_utf8, valid_utf8};
use crate::registry::{Origin, PluginDescriptor};
use crate::text::{advertised_commands, decode_text, DecodeError};

verus! {

/// The three entry points every plugin library exports.
#[derive(Clone, Copy, Debug, PartialEq, Eq, Structural)]
pub enum EntryPoint {
    /// `name`: the plugin's name.
    Name,
    /// `meta_commands`: the comma-joined commands it owns.
    MetaCommands,
    /// `execute_command`: the handler.
    ExecuteCommand,
}

/// Why one plugin library could not be loaded.
#[derive(Debug, PartialEq, Eq)]
pub enum LoadError {
    /// The file could not be opened as a dynamic library.
    Open { path: String, reason: String },
    /// A required entry point is not exported.
    MissingEntryPoint { path: String, entry: EntryPoint },
    /// An entry point returned text that could not be taken in.
    BadText { path: String, entry: EntryPoint, cause: DecodeError },
    /// The `name` entry point returned an empty name.
    EmptyName { path: String },
}

/// What a text-returning entry point yielded, in the library's terms: an
/// error, or the text.
pub open spec fn text_outcome(t: Option<Seq<u8>>) -> Result<Seq<char>, DecodeError> {
    match t {
        None => Err(DecodeError::Null),
        Some(b) => if valid_utf8(b) {
            Ok(decode_utf8(b))
        } else {
            Err(DecodeError::InvalidUtf8)
        },
    }
}

/// The bytes behind an optional slice.
pub open spec fn bytes_view(t: Option<&[u8]>) -> Option<Seq<u8>> {
    match t {
        None => None,
        Some(b) => Some(b@),
    }
}

/// What an entry point gave, as bytes.
pub open spec fn entry_view(t: Option<Option<&[u8]>>) -> Option<Option<Seq<u8>>> {
    match t {
        None => None,
        Some(b) => Some(bytes_view(b)),
    }
}

/// The error that loading a library yields, checked in the order the entry
/// points are resolved, or `None` where it loads. `name` and `commands` are
/// `None` where the entry point is missing, and otherwise hold what it
/// returned (`None` for a null pointer).
pub open spec fn load_failure(
    path: String,
    name: Option<Option<Seq<u8>>>,
    commands: Option<Option<Seq<u8>>>,
    has_execute: bool,
) -> Option<LoadError> {
    match name {
        None => Some(LoadError::MissingEntryPoint { path, entry: EntryPoint::Name }),
        Some(n) => match text_outcome(n) {
            Err(e) => Some(LoadError::BadText { path, entry: EntryPoint::Name, cause: e }),
            Ok(nt) => if nt.len() == 0 {
                Some(LoadError::EmptyName { path })
            } else {
                match commands {
                    None => Some(
                        LoadError::MissingEntryPoint { path, entry: EntryPoint::MetaCommands },
                    ),
                    Some(c) => match text_outcome(c) {
                        Err(e) => Some(
                            LoadError::BadText { path, entry: EntryPoint::MetaCommands, cause: e },
                        ),
                        Ok(_) => if has_execute {
                            None
                        } else {
                            Some(
                                LoadError::MissingEntryPoint {
                                    path,
                                    entry: EntryPoint::ExecuteCommand,
                                },
                            )
                        },
                    },
                }
            },
        },
    }
}

/// Takes in the text an entry point returned.
fn entry_text(path: &String, entry: EntryPoint, t: Option<Option<&[u8]>>) -> (r: Result<
    String,
    LoadError,
>)
    ensures
        t is None ==> r == Err::<String, LoadError>(
            LoadError::MissingEntryPoint { path: *path, entry },
        ),
        t matches Some(b) ==> match text_outcome(bytes_view(b)) {
            Err(e) => r == Err::<String, LoadError>(LoadError::BadText { path: *path, entry, cause: e }),
            Ok(s) => r matches Ok(x) && x@ == s,
        },
{
    match t {
        None => Err(LoadError::MissingEntryPoint { path: path.clone(), entry }),
        Some(b) => match decode_text(b) {
            Ok(s) => Ok(s),
            Err(e) => Err(LoadError::BadText { path: path.clone(), entry, cause: e }),
        },
    }
}

/// Builds the descriptor of a plugin library at `path` from what its entry
/// points gave: `name` and `commands` are `None` where that entry point is
/// missing, and otherwise hold the bytes it returned (`None` for a null
/// pointer); `execute` is the resolved handler, if any.
pub fn load_descriptor<H>(
    path: String,
    name: Option<Option<&[u8]>>,
    commands: Option<Option<&[u8]>>,
    execute: Option<H>,
) -> (r: Result<PluginDescriptor<H>, LoadError>)
    ensures
        load_failure(path, entry_view(name), entry_view(commands), execute is Some) matches Some(e)
            ==> r == Err::<PluginDescriptor<H>, LoadError>(e),
        load_failure(path, entry_view(name), entry_view(commands), execute is Some) is None ==> (
        r matches Ok(d) && {
            &&& d.name_view() == text_outcome(bytes_view(name->0))->Ok_0
            &&& d.command_set() == advertised_commands(
                text_outcome(bytes_view(commands->0))->Ok_0,
            )
            &&& d.handler() == execute->0
            &&& d.origin_view() == Origin::Discovered(path)
        }),
{
    let plugin_name = match entry_text(&path, EntryPoint::Name, name) {
        Ok(s) => s,
        Err(e) => return Err(e),
    };
    if plugin_name.unicode_len() == 0 {
        return Err(LoadError::EmptyName { path });
    }
    let commands_text = match entry_text(&path, EntryPoint::MetaCommands, commands) {
        Ok(s) => s,
        Err(e) => return Err(e),
    };
    let handler = match execute {
        Some(h) => h,
        None => {
            return Err(LoadError::MissingEntryPoint { path, entry: EntryPoint::ExecuteCommand });
        },
    };
    let origin = Origin::Discovered(path);
    match PluginDescriptor::new(plugin_name, commands_text.as_str(), handler, origin) {
        Some(d) => Ok(d),
        // Never taken: the name was found non-empty above.
        None => Err(LoadError::EmptyName { path: String::new() }),
    }
}

} // verus!
