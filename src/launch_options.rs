//! What the application was asked to do on its command line.
use vstd::prelude::*;

use crate::error::AppError;
use crate::text::str_eq;

verus! {

#[derive(Debug, PartialEq, Eq)]
pub enum LaunchOptionsMode {
    Default,
    Send { file: String },
    Capture,
}

#[derive(Debug)]
pub struct LaunchOptions {
    pub mode: LaunchOptionsMode,
}

/// Reads the program's arguments, the program's own name first. No argument
/// opens the application; `send FILE` or a lone `FILE` sends a file;
/// `capture` starts a capture. Arguments after the second are not read.
pub fn parse_launch_options(args: Vec<String>) -> (r: Result<LaunchOptions, AppError>)
    ensures
        args@.len() <= 1 ==> (r matches Ok(o) && o.mode is Default),
        args@.len() >= 2 && args@[1]@ == "send"@ ==> if args@.len() >= 3 {
            (r matches Ok(o) && o.mode matches LaunchOptionsMode::Send { file } && file@
                == args@[2]@)
        } else {
            r matches Err(AppError::Unknown(_))
        },
        args@.len() >= 2 && args@[1]@ == "capture"@ ==> if args@.len() >= 3 {
            r matches Err(AppError::Unknown(_))
        } else {
            (r matches Ok(o) && o.mode is Capture)
        },
        args@.len() >= 2 && args@[1]@ != "send"@ && args@[1]@ != "capture"@ ==> if args@.len()
            >= 3 {
            r matches Err(AppError::Unknown(_))
        } else {
            (r matches Ok(o) && o.mode matches LaunchOptionsMode::Send { file } && file@
                == args@[1]@)
        },
{
    proof {
        reveal_strlit("send");
        reveal_strlit("capture");
        assert("send"@.len() != "capture"@.len());
    }
    if args.len() <= 1 {
        return Ok(LaunchOptions { mode: LaunchOptionsMode::Default });
    }
    let first = args[1].as_str();
    if str_eq(first, "send") {
        if args.len() < 3 {
            return Err(AppError::Unknown(String::from_str("Send subcommand requires a file argument")));
        }
        return Ok(LaunchOptions { mode: LaunchOptionsMode::Send { file: args[2].clone() } });
    }
    if str_eq(first, "capture") {
        if args.len() >= 3 {
            return Err(AppError::Unknown(String::from_str("Capture subcommand does not take arguments")));
        }
        return Ok(LaunchOptions { mode: LaunchOptionsMode::Capture });
    }
    if args.len() >= 3 {
        return Err(AppError::Unknown(String::from_str("Invalid launch arguments")));
    }
    Ok(LaunchOptions { mode: LaunchOptionsMode::Send { file: args[1].clone() } })
}

} // verus!
