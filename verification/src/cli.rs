//! Command-line parsing: the one-word grammar that selects install,
//! uninstall, or running as the service.

use vstd::prelude::*;

verus! {

/// The action the process was asked to perform.
#[derive(Clone, Copy, Debug, PartialEq, Eq, Structural)]
pub enum Command {
    Install,
    Uninstall,
    Service,
}

/// The parsed command line.
#[derive(Clone, Copy, Debug, PartialEq, Eq, Structural)]
pub struct Cli {
    pub command: Command,
}

/// Why a command line was rejected.
#[derive(Clone, Copy, Debug, PartialEq, Eq, Structural)]
pub enum CliParseError {
    MissingCommand,
    ExtraArguments,
    UnknownCommand,
}

/// Parses the full argument list of the process, program name included:
/// exactly one of `install`, `uninstall` or `service` must follow it.
pub fn parse(args: &Vec<String>) -> (r: Result<Cli, CliParseError>)
    ensures
        args@.len() < 2 ==> r == Err::<Cli, CliParseError>(CliParseError::MissingCommand),
        args@.len() > 2 ==> r == Err::<Cli, CliParseError>(CliParseError::ExtraArguments),
        args@.len() == 2 ==> {
            let cmd = args@[1]@;
            &&& cmd == "install"@ ==> r == Ok::<Cli, CliParseError>(
                Cli { command: Command::Install },
            )
            &&& cmd == "uninstall"@ ==> r == Ok::<Cli, CliParseError>(
                Cli { command: Command::Uninstall },
            )
            &&& cmd == "service"@ ==> r == Ok::<Cli, CliParseError>(
                Cli { command: Command::Service },
            )
            &&& cmd != "install"@ && cmd != "uninstall"@ && cmd != "service"@ ==> r
                == Err::<Cli, CliParseError>(CliParseError::UnknownCommand)
        },
{
    proof {
        // The three keywords must be known pairwise distinct, or the
        // postcondition's cases could overlap.
        reveal_strlit("install");
        reveal_strlit("uninstall");
        reveal_strlit("service");
        assert("install"@.len() == 7);
        assert("uninstall"@.len() == 9);
        assert("service"@.len() == 7);
        assert("install"@ != "uninstall"@);
        assert("uninstall"@ != "service"@);
        assert("install"@[0] != "service"@[0]);
        assert("install"@ != "service"@);
    }
    if args.len() < 2 {
        return Err(CliParseError::MissingCommand);
    }
    if args.len() > 2 {
        return Err(CliParseError::ExtraArguments);
    }
    let cmd = &args[1];
    if *cmd == String::from_str("install") {
        Ok(Cli { command: Command::Install })
    } else if *cmd == String::from_str("uninstall") {
        Ok(Cli { command: Command::Uninstall })
    } else if *cmd == String::from_str("service") {
        Ok(Cli { command: Command::Service })
    } else {
        Err(CliParseError::UnknownCommand)
    }
}

} // verus!
