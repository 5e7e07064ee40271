//! The versioned plugin manifest contract and the identifiers it uses.
use vstd::prelude::*;

use crate::domain::plugin::{
    PluginCommand, PluginId, PluginManifest, PluginManifestView, PLUGIN_API_VERSION,
    PLUGIN_API_VERSION_EXPORT, PLUGIN_DISABLE_EXPORT, PLUGIN_ENABLE_EXPORT,
    PLUGIN_MANIFEST_FILE_NAME,
};
use crate::path::{
    path_component_kinds, path_extension, path_file_name, path_is_absolute,
    spec_path_component_kinds, spec_path_extension, spec_path_file_name, spec_path_is_absolute,
    COMPONENT_NORMAL,
};
use crate::plugin_error::{PluginServiceError, PluginServiceErrorKind};
use crate::text::{
    char_count, chars_of, contains_char, is_ascii_alphabetic, is_ascii_alphabetic_char,
    is_ascii_alphanumeric, is_ascii_alphanumeric_char, is_ascii_digit, is_ascii_digit_char,
    is_ascii_lowercase, is_ascii_lowercase_char, is_control, is_control_char, is_whitespace_char,
    str_eq, trim, trim_end_seq, trim_seq, trim_start_seq,
};

verus! {

pub const MAX_PLUGIN_MANIFEST_BYTES: u64 = 64 * 1024;

pub const MAX_PLUGIN_MODULE_BYTES: u64 = 16 * 1024 * 1024;

pub const MAX_PLUGIN_COMMANDS: usize = 64;

pub const MAX_PATH_CHARS: usize = 4_096;

pub const MAX_PLUGIN_ID_CHARS: usize = 128;

pub const MAX_PLUGIN_NAME_CHARS: usize = 128;

pub const MAX_PLUGIN_VERSION_CHARS: usize = 64;

pub const MAX_PLUGIN_DESCRIPTION_CHARS: usize = 1_024;

pub const MAX_COMMAND_NAME_CHARS: usize = 64;

pub const MAX_EXPORT_NAME_CHARS: usize = 128;

/// Whether `semver::Version::parse` accepts `text`.
pub uninterp spec fn spec_semver_accepts(text: Seq<char>) -> bool;

/// Calls `semver::Version::parse` on `text` and reports whether it succeeded.
/// Its source rejects empty text before anything else.
#[verifier::external_body]
pub(crate) fn semver_accepts(text: &str) -> (r: bool)
    ensures
        r == spec_semver_accepts(text@),
        text@.len() == 0 ==> !r,
{
    semver::Version::parse(text).is_ok()
}

pub open spec fn is_plugin_id_char(c: char) -> bool {
    is_ascii_lowercase_char(c) || is_ascii_digit_char(c) || c == '.' || c == '-'
}

pub open spec fn is_command_name_char(c: char) -> bool {
    is_ascii_lowercase_char(c) || is_ascii_digit_char(c) || c == '.' || c == '_' || c == '-'
}

pub open spec fn is_export_char(c: char) -> bool {
    is_ascii_alphanumeric_char(c) || c == '_'
}

pub open spec fn has_double_dot(s: Seq<char>) -> bool {
    exists|i: int| 0 <= i < s.len() - 1 && #[trigger] s[i] == '.' && s[i + 1] == '.'
}

/// A plugin id: 3 to 128 characters of `a-z`, `0-9`, `.` and `-`, starting and ending with a
/// letter or digit, holding a dot and no two dots in a row.
pub open spec fn is_valid_plugin_id(s: Seq<char>) -> bool {
    &&& trim_seq(s) == s
    &&& 3 <= s.len() <= MAX_PLUGIN_ID_CHARS
    &&& forall|i: int| 0 <= i < s.len() ==> is_plugin_id_char(#[trigger] s[i])
    &&& is_ascii_alphanumeric_char(s[0])
    &&& is_ascii_alphanumeric_char(s.last())
    &&& s.contains('.')
    &&& !has_double_dot(s)
}

/// An id of 3 to 128 characters, each a lowercase letter `a`-`z`, a digit `0`-`9`, a dot or a
/// hyphen, that begins and ends with a letter or digit, holds a dot and has no two dots in a
/// row, is a valid plugin id.
pub proof fn lemma_well_formed_plugin_id_is_valid(s: Seq<char>)
    requires
        3 <= s.len() <= 128,
        forall|i: int|
            0 <= i < s.len() ==> ('a' <= #[trigger] s[i] && s[i] <= 'z') || ('0' <= s[i] && s[i]
                <= '9') || s[i] == '.' || s[i] == '-',
        ('a' <= s[0] && s[0] <= 'z') || ('0' <= s[0] && s[0] <= '9'),
        ('a' <= s.last() && s.last() <= 'z') || ('0' <= s.last() && s.last() <= '9'),
        exists|i: int| 0 <= i < s.len() && #[trigger] s[i] == '.',
        forall|i: int| 0 <= i < s.len() - 1 ==> !(#[trigger] s[i] == '.' && s[i + 1] == '.'),
    ensures
        is_valid_plugin_id(s),
{
    assert(!is_whitespace_char(s[0]));
    assert(trim_start_seq(s) == s);
    assert(!is_whitespace_char(s.last()));
    assert(trim_end_seq(s) == s);
    assert(trim_seq(s) == s);
    assert(!has_double_dot(s));
}

/// A command name: 1 to 64 characters of `a-z`, `0-9`, `.`, `_` and `-`.
pub open spec fn is_valid_command_name(s: Seq<char>) -> bool {
    &&& trim_seq(s) == s
    &&& 1 <= s.len() <= MAX_COMMAND_NAME_CHARS
    &&& forall|i: int| 0 <= i < s.len() ==> is_command_name_char(#[trigger] s[i])
}

/// A WebAssembly export name: a letter or `_`, then letters, digits and `_`; at most 128.
pub open spec fn is_valid_export_name(s: Seq<char>) -> bool {
    &&& 1 <= s.len() <= MAX_EXPORT_NAME_CHARS
    &&& (is_ascii_alphabetic_char(s[0]) || s[0] == '_')
    &&& forall|i: int| 1 <= i < s.len() ==> is_export_char(#[trigger] s[i])
}

/// Text with no surrounding whitespace, no control characters, and 1 to `max` characters.
pub open spec fn is_valid_bounded_text(s: Seq<char>, max: nat) -> bool {
    &&& trim_seq(s) == s
    &&& 1 <= s.len() <= max
    &&& forall|i: int| 0 <= i < s.len() ==> !is_control_char(#[trigger] s[i])
}

pub open spec fn is_valid_description(description: Option<String>) -> bool {
    match description {
        Some(text) => is_valid_bounded_text(text@, MAX_PLUGIN_DESCRIPTION_CHARS as nat),
        None => true,
    }
}

pub open spec fn is_valid_version(s: Seq<char>) -> bool {
    s.len() <= MAX_PLUGIN_VERSION_CHARS && spec_semver_accepts(s)
}

/// One plain relative file name ending in `.wasm`.
pub open spec fn is_valid_entrypoint(s: Seq<char>) -> bool {
    &&& spec_path_component_kinds(s) == seq![COMPONENT_NORMAL]
    &&& spec_path_extension(s) == Some("wasm"@)
}

pub open spec fn is_reserved_export(s: Seq<char>) -> bool {
    s == PLUGIN_API_VERSION_EXPORT@ || s == PLUGIN_ENABLE_EXPORT@ || s == PLUGIN_DISABLE_EXPORT@
}

pub open spec fn is_valid_command(command: PluginCommand) -> bool {
    &&& is_valid_command_name(command.name@)
    &&& is_valid_export_name(command.export@)
    &&& !is_reserved_export(command.export@)
    &&& is_valid_description(command.description)
}

/// Command names are pairwise distinct, and so are their exports.
pub open spec fn commands_unique(commands: Seq<PluginCommand>) -> bool {
    forall|i: int, j: int|
        0 <= i < j < commands.len() ==> #[trigger] commands[i].name@ != #[trigger] commands[j].name@
            && commands[i].export@ != commands[j].export@
}

/// The whole manifest contract of plugin API version 1.
pub open spec fn is_valid_manifest(manifest: PluginManifestView) -> bool {
    &&& manifest.api_version == PLUGIN_API_VERSION
    &&& is_valid_plugin_id(manifest.id@)
    &&& is_valid_bounded_text(manifest.name@, MAX_PLUGIN_NAME_CHARS as nat)
    &&& is_valid_version(manifest.version@)
    &&& is_valid_entrypoint(manifest.entrypoint@)
    &&& is_valid_description(manifest.description)
    &&& manifest.commands.len() <= MAX_PLUGIN_COMMANDS
    &&& forall|i: int| 0 <= i < manifest.commands.len() ==> is_valid_command(
        #[trigger] manifest.commands[i],
    )
    &&& commands_unique(manifest.commands)
}

/// An absolute path, at most 4096 characters once trimmed, naming a `plugin.json` file.
pub open spec fn is_valid_manifest_path(value: Seq<char>) -> bool {
    let path = trim_seq(value);
    &&& 1 <= path.len() <= MAX_PATH_CHARS
    &&& spec_path_is_absolute(path)
    &&& spec_path_file_name(path) == Some(PLUGIN_MANIFEST_FILE_NAME@)
}

fn all_plugin_id_chars(v: &Vec<char>) -> (r: bool)
    ensures
        r == forall|i: int| 0 <= i < v@.len() ==> is_plugin_id_char(#[trigger] v@[i]),
{
    let mut i: usize = 0;
    while i < v.len()
        invariant
            0 <= i <= v@.len(),
            forall|k: int| 0 <= k < i ==> is_plugin_id_char(#[trigger] v@[k]),
        decreases v@.len() - i,
    {
        let c = v[i];
        if !(is_ascii_lowercase(c) || is_ascii_digit(c) || c == '.' || c == '-') {
            return false;
        }
        i = i + 1;
    }
    true
}

fn find_double_dot(v: &Vec<char>) -> (r: bool)
    ensures
        r == has_double_dot(v@),
{
    let n = v.len();
    if n < 2 {
        return false;
    }
    let mut i: usize = 0;
    while i < n - 1
        invariant
            n == v@.len(),
            n >= 2,
            0 <= i <= n - 1,
            forall|k: int| 0 <= k < i && k < v@.len() - 1 ==> !(#[trigger] v@[k] == '.' && v@[k + 1] == '.'),
        decreases v@.len() - i,
    {
        if v[i] == '.' && v[i + 1] == '.' {
            assert(v@[i as int] == '.' && v@[i + 1] == '.');
            return true;
        }
        i = i + 1;
    }
    false
}

/// Checks a plugin id and returns it; an id with surrounding whitespace is refused, not trimmed.
pub fn validate_plugin_id(value: &str) -> (r: Result<PluginId, PluginServiceError>)
    ensures
        r is Ok <==> is_valid_plugin_id(value@),
        r matches Ok(id) ==> id@ == value@,
        r matches Err(e) ==> e.spec_kind() == PluginServiceErrorKind::InvalidInput,
{
    let trimmed = trim(value);
    if !str_eq(trimmed, value) {
        return Err(PluginServiceError::invalid_input("plugin id is invalid"));
    }
    let v = chars_of(value);
    let n = v.len();
    let valid_length = 3 <= n && n <= MAX_PLUGIN_ID_CHARS;
    let valid_characters = all_plugin_id_chars(&v);
    let valid_edges = n > 0 && is_ascii_alphanumeric(v[0]) && is_ascii_alphanumeric(v[n - 1]);
    let has_dot = contains_char(value, '.');
    let double_dot = find_double_dot(&v);
    if !valid_length || !valid_characters || !valid_edges || !has_dot || double_dot {
        return Err(PluginServiceError::invalid_input("plugin id is invalid"));
    }
    Ok(PluginId::new(value))
}

/// Checks a command name and returns it; surrounding whitespace is refused, not trimmed.
pub fn validate_command_name(value: &str) -> (r: Result<String, PluginServiceError>)
    ensures
        r is Ok <==> is_valid_command_name(value@),
        r matches Ok(name) ==> name@ == value@,
        r matches Err(e) ==> e.spec_kind() == PluginServiceErrorKind::InvalidInput,
{
    let trimmed = trim(value);
    if !str_eq(trimmed, value) {
        return Err(PluginServiceError::invalid_input("plugin command name is invalid"));
    }
    let v = chars_of(value);
    let n = v.len();
    let valid_length = 1 <= n && n <= MAX_COMMAND_NAME_CHARS;
    let mut i: usize = 0;
    while i < n
        invariant
            n == v@.len(),
            v@ == value@,
            0 <= i <= n,
            forall|k: int| 0 <= k < i ==> is_command_name_char(#[trigger] v@[k]),
        decreases n - i,
    {
        let c = v[i];
        if !(is_ascii_lowercase(c) || is_ascii_digit(c) || c == '.' || c == '_' || c == '-') {
            return Err(PluginServiceError::invalid_input("plugin command name is invalid"));
        }
        i = i + 1;
    }
    if !valid_length {
        return Err(PluginServiceError::invalid_input("plugin command name is invalid"));
    }
    Ok(value.to_owned())
}

/// Checks a WebAssembly export name.
pub fn validate_export_name(value: &str) -> (r: Result<(), PluginServiceError>)
    ensures
        r is Ok <==> is_valid_export_name(value@),
        r matches Err(e) ==> e.spec_kind() == PluginServiceErrorKind::InvalidManifest,
{
    let v = chars_of(value);
    let n = v.len();
    if n == 0 || n > MAX_EXPORT_NAME_CHARS || !(is_ascii_alphabetic(v[0]) || v[0] == '_') {
        return Err(PluginServiceError::invalid_manifest("plugin command export is invalid"));
    }
    let mut i: usize = 1;
    while i < n
        invariant
            n == v@.len(),
            v@ == value@,
            1 <= i <= n,
            forall|k: int| 1 <= k < i ==> is_export_char(#[trigger] v@[k]),
        decreases n - i,
    {
        if !(is_ascii_alphanumeric(v[i]) || v[i] == '_') {
            return Err(PluginServiceError::invalid_manifest("plugin command export is invalid"));
        }
        i = i + 1;
    }
    Ok(())
}

/// Checks manifest text: refused (not trimmed) with surrounding whitespace, empty, longer than
/// `max_chars`, or holding a control character.
pub fn validate_bounded_text(value: &str, max_chars: usize, message: &str) -> (r: Result<
    (),
    PluginServiceError,
>)
    ensures
        r is Ok <==> is_valid_bounded_text(value@, max_chars as nat),
        r matches Err(e) ==> e.spec_kind() == PluginServiceErrorKind::InvalidManifest && e.spec_message()
            == message@,
{
    let trimmed = trim(value);
    if !str_eq(trimmed, value) {
        return Err(PluginServiceError::invalid_manifest(message));
    }
    let v = chars_of(value);
    let n = v.len();
    if n == 0 || n > max_chars {
        return Err(PluginServiceError::invalid_manifest(message));
    }
    let mut i: usize = 0;
    while i < n
        invariant
            n == v@.len(),
            v@ == value@,
            0 <= i <= n,
            forall|k: int| 0 <= k < i ==> !is_control_char(#[trigger] v@[k]),
        decreases n - i,
    {
        if is_control(v[i]) {
            return Err(PluginServiceError::invalid_manifest(message));
        }
        i = i + 1;
    }
    Ok(())
}

pub fn validate_optional_description(value: Option<&str>, message: &str) -> (r: Result<
    (),
    PluginServiceError,
>)
    ensures
        r is Ok <==> (match value {
            Some(text) => is_valid_bounded_text(text@, MAX_PLUGIN_DESCRIPTION_CHARS as nat),
            None => true,
        }),
        r matches Err(e) ==> e.spec_kind() == PluginServiceErrorKind::InvalidManifest,
{
    match value {
        Some(text) => validate_bounded_text(text, MAX_PLUGIN_DESCRIPTION_CHARS, message),
        None => Ok(()),
    }
}

/// Checks that a version is a semantic version of at most 64 characters.
pub fn validate_version(value: &str) -> (r: Result<(), PluginServiceError>)
    ensures
        r is Ok <==> is_valid_version(value@),
        r matches Err(e) ==> e.spec_kind() == PluginServiceErrorKind::InvalidManifest,
{
    if char_count(value) > MAX_PLUGIN_VERSION_CHARS || !semver_accepts(value) {
        return Err(
            PluginServiceError::invalid_manifest("plugin version must be a valid semantic version"),
        );
    }
    Ok(())
}

/// Checks that an entrypoint is one relative `.wasm` file name.
pub fn validate_entrypoint(value: &str) -> (r: Result<(), PluginServiceError>)
    ensures
        r is Ok <==> is_valid_entrypoint(value@),
        r matches Err(e) ==> e.spec_kind() == PluginServiceErrorKind::InvalidManifest,
{
    let kinds = path_component_kinds(value);
    let is_single_file = kinds.len() == 1 && kinds[0] == COMPONENT_NORMAL;
    let is_wasm = match path_extension(value) {
        Some(extension) => str_eq(extension.as_str(), "wasm"),
        None => false,
    };
    proof {
        if is_single_file {
            assert(kinds@ =~= seq![COMPONENT_NORMAL]);
        }
    }
    if !is_single_file || !is_wasm {
        return Err(
            PluginServiceError::invalid_manifest(
                "plugin entrypoint must be one relative .wasm file name",
            ),
        );
    }
    Ok(())
}

/// Checks the path of a package's `plugin.json` and returns it trimmed.
pub fn validate_manifest_path(value: &str) -> (r: Result<String, PluginServiceError>)
    ensures
        r is Ok <==> is_valid_manifest_path(value@),
        r matches Ok(path) ==> path@ == trim_seq(value@),
        r matches Err(e) ==> e.spec_kind() == PluginServiceErrorKind::InvalidInput,
{
    let path = trim(value);
    let length = char_count(path);
    if length == 0 || length > MAX_PATH_CHARS {
        return Err(PluginServiceError::invalid_input("plugin manifest path is invalid"));
    }
    if !path_is_absolute(path) {
        return Err(PluginServiceError::invalid_input("plugin manifest path must be absolute"));
    }
    let named_manifest = match path_file_name(path) {
        Some(name) => str_eq(name.as_str(), PLUGIN_MANIFEST_FILE_NAME),
        None => false,
    };
    if !named_manifest {
        return Err(
            PluginServiceError::invalid_input("plugin manifest file must be named plugin.json"),
        );
    }
    Ok(path.to_owned())
}

fn is_reserved(export: &str) -> (r: bool)
    ensures
        r == is_reserved_export(export@),
{
    str_eq(export, PLUGIN_API_VERSION_EXPORT) || str_eq(export, PLUGIN_ENABLE_EXPORT) || str_eq(
        export,
        PLUGIN_DISABLE_EXPORT,
    )
}

/// Turns an input error into a manifest error with the same message.
pub fn as_manifest_error(error: PluginServiceError) -> (r: PluginServiceError)
    ensures
        r.spec_kind() == PluginServiceErrorKind::InvalidManifest,
        r.spec_message() == error.spec_message(),
{
    PluginServiceError::invalid_manifest(error.message())
}

/// Checks the versioned manifest contract.
pub fn validate_manifest(manifest: &PluginManifest) -> (r: Result<(), PluginServiceError>)
    ensures
        r is Ok <==> is_valid_manifest(manifest@),
        r matches Err(e) ==> e.spec_kind() == PluginServiceErrorKind::InvalidManifest,
{
    if manifest.api_version != PLUGIN_API_VERSION {
        return Err(PluginServiceError::invalid_manifest("unsupported plugin api version"));
    }
    match validate_plugin_id(manifest.id.as_str()) {
        Ok(_) => {},
        Err(error) => return Err(as_manifest_error(error)),
    }
    validate_bounded_text(manifest.name.as_str(), MAX_PLUGIN_NAME_CHARS, "plugin name is invalid")?;
    validate_version(manifest.version.as_str())?;
    validate_entrypoint(manifest.entrypoint.as_str())?;
    let description: Option<&str> = match &manifest.description {
        Some(text) => Some(text.as_str()),
        None => None,
    };
    validate_optional_description(description, "plugin description is invalid")?;
    if manifest.commands.len() > MAX_PLUGIN_COMMANDS {
        return Err(PluginServiceError::invalid_manifest("plugin declares too many commands"));
    }
    let commands = &manifest.commands;
    let mut i: usize = 0;
    while i < commands.len()
        invariant
            commands@ == manifest.commands@,
            0 <= i <= commands@.len(),
            forall|k: int| 0 <= k < i ==> is_valid_command(#[trigger] commands@[k]),
            commands_unique(commands@.take(i as int)),
        decreases commands@.len() - i,
    {
        let command = &commands[i];
        match validate_command_name(command.name.as_str()) {
            Ok(_) => {},
            Err(error) => return Err(as_manifest_error(error)),
        }
        validate_export_name(command.export.as_str())?;
        if is_reserved(command.export.as_str()) {
            return Err(
                PluginServiceError::invalid_manifest(
                    "plugin command cannot use a reserved lifecycle export",
                ),
            );
        }
        let mut j: usize = 0;
        while j < i
            invariant
                commands@ == manifest.commands@,
                0 <= j <= i < commands@.len(),
                *command == commands@[i as int],
                forall|k: int|
                    0 <= k < j ==> #[trigger] commands@[k].name@ != command.name@ && commands@[k].export@
                        != command.export@,
            decreases i - j,
        {
            if str_eq(commands[j].name.as_str(), command.name.as_str()) || str_eq(
                commands[j].export.as_str(),
                command.export.as_str(),
            ) {
                proof {
                    assert(!commands_unique(manifest@.commands)) by {
                        assert(manifest@.commands[j as int] == commands@[j as int]);
                        assert(manifest@.commands[i as int] == commands@[i as int]);
                    }
                }
                return Err(
                    PluginServiceError::invalid_manifest(
                        "plugin command names and exports must be unique",
                    ),
                );
            }
            assert(commands@[j as int].name@ != command.name@ && commands@[j as int].export@
                != command.export@);
            let ghost jj = j;
            j = j + 1;
            assert forall|k: int| 0 <= k < j implies #[trigger] commands@[k].name@ != command.name@
                && commands@[k].export@ != command.export@ by {
                if k < jj {
                } else {
                    assert(k == jj);
                }
            }
        }
        let description: Option<&str> = match &command.description {
            Some(text) => Some(text.as_str()),
            None => None,
        };
        validate_optional_description(description, "plugin command description is invalid")?;
        proof {
            let prefix = commands@.take(i + 1);
            assert forall|a: int, b: int| 0 <= a < b < prefix.len() implies #[trigger] prefix[a].name@
                != #[trigger] prefix[b].name@ && prefix[a].export@ != prefix[b].export@ by {
                if b < i {
                    assert(prefix[a] == commands@.take(i as int)[a]);
                    assert(prefix[b] == commands@.take(i as int)[b]);
                } else {
                    assert(prefix[b] == *command);
                    assert(prefix[a] == commands@[a]);
                }
            }
        }
        i = i + 1;
    }
    assert(commands@.take(i as int) =~= commands@);
    Ok(())
}

/// Checks a module's size: empty modules are invalid and large ones too large.
pub fn validate_module_size(module: &[u8]) -> (r: Result<(), PluginServiceError>)
    ensures
        r is Ok <==> 1 <= module@.len() <= MAX_PLUGIN_MODULE_BYTES,
        module@.len() == 0 ==> (r matches Err(e) && e.spec_kind()
            == PluginServiceErrorKind::InvalidManifest),
        module@.len() > MAX_PLUGIN_MODULE_BYTES ==> (r matches Err(e) && e.spec_kind()
            == PluginServiceErrorKind::PackageTooLarge),
{
    if module.len() == 0 {
        return Err(PluginServiceError::invalid_manifest("plugin module is empty"));
    }
    if module.len() as u64 > MAX_PLUGIN_MODULE_BYTES {
        return Err(
            PluginServiceError::new(
                PluginServiceErrorKind::PackageTooLarge,
                "plugin module exceeds the configured size limit",
            ),
        );
    }
    Ok(())
}

} // verus!
