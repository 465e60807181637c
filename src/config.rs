use vstd::prelude::*;

use crate::error::{DateTimeParseError, FileExtensionError};
use crate::input::{check_date_point, check_direction, check_extension, UnsupportedDirectionError};
use crate::outside::utc_representable;
use crate::text::eq_ignore_ascii_case_spec;

verus! {

pub enum TelegramCommands {
    /// Resolve the usernames of a text file, one per line.
    ResolveUsers { usernames: String },
    /// Dump the messages of the peers of a resolved-peers JSON file.
    DumpMessages { users_file: String, limit: Option<u32>, date_point: i64, reverse: bool },
}

pub enum DiscordCommands {
    /// Dump the messages of the channels of a text file, one id per line.
    DumpMessages { targets_file: String, limit: Option<u32>, date_point: i64, reverse: bool },
}

pub enum PlatformCommands {
    Telegram { method: TelegramCommands },
    Discord { method: DiscordCommands },
}

pub enum ApplicationCommands {
    Data { platform: PlatformCommands },
}

pub struct ApplicationArguments {
    pub command: ApplicationCommands,
}

pub struct TelegramEnvironment {
    pub api_id: u32,
    pub api_hash: String,
    pub session_path: String,
}

pub struct DiscordEnvironment {
    pub auth_file: String,
}

pub struct Environment {
    pub telegram: TelegramEnvironment,
    pub discord: DiscordEnvironment,
}

/// A command whose inputs passed validation.
pub enum Task {
    ResolveUsers { usernames: String },
    DumpTelegram { users_file: String, limit: Option<u32>, date_point: i64 },
    DumpDiscord { targets_file: String, limit: Option<u32>, date_point: i64 },
}

/// Why a command was refused before any remote work.
pub enum CommandError {
    Extension(FileExtensionError),
    Direction(UnsupportedDirectionError),
    DateTime(DateTimeParseError),
}

/// The extension that a command's input file must have.
pub open spec fn expected_extension(cmd: PlatformCommands) -> Seq<char> {
    match cmd {
        PlatformCommands::Telegram { method: TelegramCommands::DumpMessages { .. } } => "json"@,
        _ => "txt"@,
    }
}

pub open spec fn extension_ok(extension: Option<String>, expected: Seq<char>) -> bool {
    extension is Some && eq_ignore_ascii_case_spec(extension->0@, expected)
}

/// Validates a command, given the extension of its input file (which the
/// caller has found to exist): first the extension, then the direction, then
/// the date point.
pub fn plan_command(cmd: PlatformCommands, extension: Option<String>) -> (r: Result<
    Task,
    CommandError,
>)
    ensures
        !extension_ok(extension, expected_extension(cmd)) <==> r matches Err(
            CommandError::Extension(_),
        ),
        extension_ok(extension, expected_extension(cmd)) ==> match cmd {
            PlatformCommands::Telegram { method: TelegramCommands::ResolveUsers { usernames } } => r
                matches Ok(Task::ResolveUsers { usernames: u }) && u == usernames,
            PlatformCommands::Telegram {
                method: TelegramCommands::DumpMessages { users_file, limit, date_point, reverse },
            } => if reverse {
                r matches Err(CommandError::Direction(_))
            } else if !utc_representable(date_point as int) {
                r matches Err(CommandError::DateTime(_))
            } else {
                r matches Ok(Task::DumpTelegram { users_file: f, limit: l, date_point: d }) && f
                    == users_file && l == limit && d == date_point
            },
            PlatformCommands::Discord {
                method: DiscordCommands::DumpMessages { targets_file, limit, date_point, reverse },
            } => if reverse {
                r matches Err(CommandError::Direction(_))
            } else if !utc_representable(date_point as int) {
                r matches Err(CommandError::DateTime(_))
            } else {
                r matches Ok(Task::DumpDiscord { targets_file: f, limit: l, date_point: d }) && f
                    == targets_file && l == limit && d == date_point
            },
        },
{
    match cmd {
        PlatformCommands::Telegram { method: TelegramCommands::ResolveUsers { usernames } } => {
            match check_extension(extension, "txt") {
                Err(e) => Err(CommandError::Extension(e)),
                Ok(()) => Ok(Task::ResolveUsers { usernames }),
            }
        },
        PlatformCommands::Telegram {
            method: TelegramCommands::DumpMessages { users_file, limit, date_point, reverse },
        } => {
            if let Err(e) = check_extension(extension, "json") {
                return Err(CommandError::Extension(e));
            }
            if let Err(e) = check_direction(String::from_str("telegram"), reverse) {
                return Err(CommandError::Direction(e));
            }
            match check_date_point(date_point) {
                Err(e) => Err(CommandError::DateTime(e)),
                Ok(d) => Ok(Task::DumpTelegram { users_file, limit, date_point: d }),
            }
        },
        PlatformCommands::Discord {
            method: DiscordCommands::DumpMessages { targets_file, limit, date_point, reverse },
        } => {
            if let Err(e) = check_extension(extension, "txt") {
                return Err(CommandError::Extension(e));
            }
            if let Err(e) = check_direction(String::from_str("discord"), reverse) {
                return Err(CommandError::Direction(e));
            }
            match check_date_point(date_point) {
                Err(e) => Err(CommandError::DateTime(e)),
                Ok(d) => Ok(Task::DumpDiscord { targets_file, limit, date_point: d }),
            }
        },
    }
}

} // verus!
