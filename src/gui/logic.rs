//! The standalone uploader's command line, and the decisions of its upload
//! and login steps.
use vstd::prelude::*;

use crate::encoding::{parse_cookie_value, parsed_cookie_value};
use crate::text::str_eq;

verus! {

/// What the uploader was asked to do.
#[derive(Debug)]
pub enum Command {
    Upload { file_path: String },
    Config,
    Notice,
    Help,
    Version,
}

/// A command as a value of specifications.
pub enum CommandView {
    Upload(Seq<char>),
    Config,
    Notice,
    Help,
    Version,
}

impl View for Command {
    type V = CommandView;

    open spec fn view(&self) -> CommandView {
        match self {
            Command::Upload { file_path } => CommandView::Upload(file_path@),
            Command::Config => CommandView::Config,
            Command::Notice => CommandView::Notice,
            Command::Help => CommandView::Help,
            Command::Version => CommandView::Version,
        }
    }
}

/// How much the uploader logs, least first.
#[derive(Debug, Clone, Copy, PartialEq, Eq, Structural)]
pub enum LogLevel {
    Error,
    Warn,
    Info,
    Debug,
    Trace,
}

#[derive(Debug)]
pub struct OptionsStruct {
    pub command: Command,
    pub log_level: LogLevel,
}

/// Why the command line was refused.
#[derive(Debug, Clone, Copy, PartialEq, Eq, Structural)]
pub enum ArgsError {
    NoProgramName,
    MultipleCommands,
    NoCommand,
}

/// A second factor entered by the user.
pub enum TwoFactorAuthenticationCode {
    Absent,
    Totp(String),
    EmailOtp(String),
}

/// Reads the arguments after the program's name, given the command and the
/// log level read so far. Flags set the log level and come before the
/// command; `help`, `config` and `notice` end the reading; `version` or a
/// file name is the command unless anything follows it.
pub open spec fn parse_from(args: Seq<Seq<char>>, command: Option<CommandView>, level: LogLevel) -> Result<
    (CommandView, LogLevel),
    ArgsError,
>
    decreases args.len(),
{
    if args.len() == 0 {
        match command {
            Some(c) => Ok((c, level)),
            None => Err(ArgsError::NoCommand),
        }
    } else if command is Some {
        Err(ArgsError::MultipleCommands)
    } else {
        let a = args[0];
        let rest = args.drop_first();
        if a == "help"@ || a == "-h"@ || a == "--help"@ {
            Ok((CommandView::Help, level))
        } else if a == "version"@ || a == "--version"@ {
            parse_from(rest, Some(CommandView::Version), level)
        } else if a == "--verbose"@ {
            parse_from(rest, None, LogLevel::Info)
        } else if a == "--debug"@ {
            parse_from(rest, None, LogLevel::Debug)
        } else if a == "--trace"@ {
            parse_from(rest, None, LogLevel::Trace)
        } else if a == "config"@ {
            Ok((CommandView::Config, level))
        } else if a == "notice"@ {
            Ok((CommandView::Notice, level))
        } else {
            parse_from(rest, Some(CommandView::Upload(a)), level)
        }
    }
}

/// The options that a command line, the program's name first, asks for.
pub open spec fn parse_args_spec(args: Seq<Seq<char>>) -> Result<(CommandView, LogLevel), ArgsError> {
    if args.len() == 0 {
        Err(ArgsError::NoProgramName)
    } else {
        parse_from(args.drop_first(), None, LogLevel::Warn)
    }
}

pub open spec fn views(args: Seq<String>) -> Seq<Seq<char>> {
    args.map_values(|s: String| s@)
}

pub open spec fn opt_view(c: Option<Command>) -> Option<CommandView> {
    match c {
        Some(c) => Some(c@),
        None => None,
    }
}

/// Reads the uploader's command line, the program's name first.
pub fn pasrse_args(args: &[String]) -> (r: Result<OptionsStruct, ArgsError>)
    ensures
        match (r, parse_args_spec(views(args@))) {
            (Ok(o), Ok((c, l))) => o.command@ == c && o.log_level == l,
            (Err(e), Err(f)) => e == f,
            _ => false,
        },
{
    if args.len() == 0 {
        return Err(ArgsError::NoProgramName);
    }
    let ghost all = views(args@);
    let mut command: Option<Command> = None;
    let mut log_level = LogLevel::Warn;
    let mut i: usize = 1;
    assert(all.drop_first() =~= all.skip(1));
    while i < args.len()
        invariant
            1 <= i <= args@.len(),
            all == views(args@),
            parse_args_spec(all) == parse_from(
                all.skip(i as int),
                opt_view(command),
                log_level,
            ),
        decreases args@.len() - i,
    {
        let a = args[i].as_str();
        let ghost rest = all.skip(i + 1);
        assert(all.skip(i as int).drop_first() =~= rest);
        assert(all.skip(i as int)[0] == a@);
        if command.is_some() {
            return Err(ArgsError::MultipleCommands);
        }
        if str_eq(a, "help") || str_eq(a, "-h") || str_eq(a, "--help") {
            return Ok(OptionsStruct { command: Command::Help, log_level });
        } else if str_eq(a, "version") || str_eq(a, "--version") {
            command = Some(Command::Version);
        } else if str_eq(a, "--verbose") {
            log_level = LogLevel::Info;
        } else if str_eq(a, "--debug") {
            log_level = LogLevel::Debug;
        } else if str_eq(a, "--trace") {
            log_level = LogLevel::Trace;
        } else if str_eq(a, "config") {
            return Ok(OptionsStruct { command: Command::Config, log_level });
        } else if str_eq(a, "notice") {
            return Ok(OptionsStruct { command: Command::Notice, log_level });
        } else {
            command = Some(Command::Upload { file_path: String::from_str(a) });
        }
        i = i + 1;
    }
    assert(all.skip(i as int) =~= Seq::<Seq<char>>::empty());
    match command {
        Some(c) => Ok(OptionsStruct { command: c, log_level }),
        None => Err(ArgsError::NoCommand),
    }
}

/// Whether an image of the given size is scaled down before it is printed:
/// prints hold at most 1920 by 1080 pixels.
pub fn needs_downscale(width: u32, height: u32) -> (b: bool)
    ensures
        b == (width > 1920 || height > 1080),
{
    width > 1920 || height > 1080
}

/// What the login does after the first request.
pub enum TwoFactorStep {
    /// No second factor is asked for.
    NotRequired,
    VerifyTotp(String),
    VerifyEmailOtp(String),
}

pub open spec fn contains_name(methods: Seq<String>, name: Seq<char>) -> bool {
    exists|i: int| 0 <= i < methods.len() && methods[i]@ == name
}

fn contains(methods: &Vec<String>, name: &str) -> (b: bool)
    ensures
        b == contains_name(methods@, name@),
{
    let mut i: usize = 0;
    while i < methods.len()
        invariant
            i <= methods@.len(),
            forall|k: int| 0 <= k < i ==> methods@[k]@ != name@,
        decreases methods@.len() - i,
    {
        if str_eq(methods[i].as_str(), name) {
            return true;
        }
        i = i + 1;
    }
    false
}

/// The second-factor step for a login that asks for the methods `required`
/// (none when absent) and a code the user gave. A TOTP code is used when TOTP
/// is asked for, an e-mail code when e-mail is; with nothing asked for no
/// code is needed; anything else is refused (`None`).
pub fn two_factor_step(required: Option<Vec<String>>, code: TwoFactorAuthenticationCode) -> (r:
    Option<TwoFactorStep>)
    ensures
        ({
            let (totp, email) = match required {
                Some(m) => (contains_name(m@, "totp"@), contains_name(m@, "emailotp"@)),
                None => (false, false),
            };
            match code {
                TwoFactorAuthenticationCode::Totp(c) if totp => (r matches Some(
                    TwoFactorStep::VerifyTotp(v),
                ) && v@ == c@),
                TwoFactorAuthenticationCode::EmailOtp(c) if email => (r matches Some(
                    TwoFactorStep::VerifyEmailOtp(v),
                ) && v@ == c@),
                _ => if !totp && !email {
                    r matches Some(TwoFactorStep::NotRequired)
                } else {
                    r is None
                },
            }
        }),
{
    let (totp, email) = match &required {
        Some(m) => (contains(m, "totp"), contains(m, "emailotp")),
        None => (false, false),
    };
    match code {
        TwoFactorAuthenticationCode::Totp(c) if totp => Some(TwoFactorStep::VerifyTotp(c)),
        TwoFactorAuthenticationCode::EmailOtp(c) if email => Some(TwoFactorStep::VerifyEmailOtp(c)),
        _ => if !totp && !email {
            Some(TwoFactorStep::NotRequired)
        } else {
            None
        },
    }
}

/// Why signing in failed before any second factor was tried.
#[derive(Debug, Clone, Copy, PartialEq, Eq, Structural)]
pub enum LoginError {
    /// A `Set-Cookie` header for `auth` did not parse.
    MalformedCookie,
    /// No `Set-Cookie` header set `auth`.
    NoAuthCookie,
}

pub open spec fn has_prefix(s: Seq<char>, prefix: Seq<char>) -> bool {
    prefix.len() <= s.len() && s.subrange(0, prefix.len() as int) == prefix
}

fn starts_with(s: &str, prefix: &str) -> (b: bool)
    ensures
        b == has_prefix(s@, prefix@),
{
    let n = prefix.unicode_len();
    if n > s.unicode_len() {
        return false;
    }
    str_eq(s.substring_char(0, n), prefix)
}

/// The value of the last `auth` cookie among the `Set-Cookie` header values
/// `headers`, read in order; the first of them that does not parse ends the
/// reading with an error.
pub open spec fn auth_scan(headers: Seq<Seq<char>>) -> Result<Option<Seq<char>>, LoginError>
    decreases headers.len(),
{
    if headers.len() == 0 {
        Ok(None)
    } else {
        match auth_scan(headers.drop_last()) {
            Err(e) => Err(e),
            Ok(found) => {
                let h = headers.last();
                if has_prefix(h, "auth="@) {
                    match parsed_cookie_value(h) {
                        Some(v) => Ok(Some(v)),
                        None => Err(LoginError::MalformedCookie),
                    }
                } else {
                    Ok(found)
                }
            },
        }
    }
}

/// The authentication cookie that a login response sets through its
/// `Set-Cookie` header values `headers`.
pub fn auth_cookie_of(headers: &Vec<String>) -> (r: Result<String, LoginError>)
    ensures
        match auth_scan(views(headers@)) {
            Ok(Some(v)) => (r matches Ok(c) && c@ == v),
            Ok(None) => r == Err::<String, LoginError>(LoginError::NoAuthCookie),
            Err(e) => r == Err::<String, LoginError>(e),
        },
{
    let ghost all = views(headers@);
    let mut found: Option<String> = None;
    let mut i: usize = 0;
    assert(all.subrange(0, 0) =~= Seq::<Seq<char>>::empty());
    while i < headers.len()
        invariant
            i <= headers@.len(),
            all == views(headers@),
            auth_scan(all.subrange(0, i as int)) == Ok::<Option<Seq<char>>, LoginError>(
                match found {
                    Some(v) => Some(v@),
                    None => None,
                },
            ),
        decreases headers@.len() - i,
    {
        let h = headers[i].as_str();
        assert(all.subrange(0, i + 1).drop_last() =~= all.subrange(0, i as int));
        assert(all.subrange(0, i + 1).last() == h@);
        if starts_with(h, "auth=") {
            match parse_cookie_value(h) {
                Some(v) => {
                    found = Some(v);
                },
                None => {
                    proof {
                        lemma_scan_error_stays(all, i as int + 1);
                    }
                    return Err(LoginError::MalformedCookie);
                },
            }
        }
        i = i + 1;
    }
    assert(all.subrange(0, i as int) =~= all);
    match found {
        Some(v) => Ok(v),
        None => Err(LoginError::NoAuthCookie),
    }
}

proof fn lemma_scan_error_stays(headers: Seq<Seq<char>>, i: int)
    requires
        0 <= i <= headers.len(),
        auth_scan(headers.subrange(0, i)) is Err,
    ensures
        auth_scan(headers) == auth_scan(headers.subrange(0, i)),
    decreases headers.len() - i,
{
    if i < headers.len() {
        assert(headers.subrange(0, i + 1).drop_last() =~= headers.subrange(0, i));
        lemma_scan_error_stays(headers, i + 1);
    } else {
        assert(headers.subrange(0, i) =~= headers);
    }
}

} // verus!
