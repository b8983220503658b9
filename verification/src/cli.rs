//! The commands of the command line, and what follows from their options:
//! which script to run, where to listen, and whether a run can begin.

use vstd::prelude::*;
use crate::host::EntryPoint;
use crate::path::joint;
use crate::text::{chars_of, text_of};

verus! {

/// The command line.
#[derive(Debug)]
pub struct Args {
    pub command: Commands,
}

/// The commands. Paths are held as text.
#[derive(Debug)]
pub enum Commands {
    /// Start the web server.
    Listen {
        /// Server port.
        port: u16,
        /// Server host address.
        host: String,
        /// Context directory path.
        context: String,
        /// Script file path.
        script: Option<String>,
    },
    /// Run the collect function and show what it returns.
    Collect {
        /// Script file path.
        script: Option<String>,
        /// Context directory path.
        context: String,
        /// Whether to read the output as JSON.
        parse: bool,
    },
    /// Run the check function and show what it returns.
    Check {
        /// Script file path.
        script: Option<String>,
        /// User input.
        input: String,
        /// Context directory path.
        context: String,
        /// Whether to read the output as JSON.
        parse: bool,
    },
}

/// The port that the server listens on unless told otherwise.
pub open spec fn default_port() -> u16 {
    3000
}

/// The host that the server listens on unless told otherwise.
pub open spec fn default_host() -> Seq<char> {
    "127.0.0.1"@
}

/// The context directory unless told otherwise.
pub open spec fn default_context() -> Seq<char> {
    "./context"@
}

/// The name of the script that is looked for in the context directory when
/// no script is given.
pub open spec fn main_script() -> Seq<char> {
    "configure.rn"@
}

/// The text of an option that may be missing.
pub open spec fn option_text(value: Option<String>) -> Option<Seq<char>> {
    match value {
        Some(text) => Some(text@),
        None => None,
    }
}

/// The text of an option, or `otherwise` where it is missing.
pub open spec fn text_or(value: Option<String>, otherwise: Seq<char>) -> Seq<char> {
    match value {
        Some(text) => text@,
        None => otherwise,
    }
}

/// The decimal digit for a number below ten.
pub open spec fn digit(d: nat) -> char {
    if d == 0 {
        '0'
    } else if d == 1 {
        '1'
    } else if d == 2 {
        '2'
    } else if d == 3 {
        '3'
    } else if d == 4 {
        '4'
    } else if d == 5 {
        '5'
    } else if d == 6 {
        '6'
    } else if d == 7 {
        '7'
    } else if d == 8 {
        '8'
    } else {
        '9'
    }
}

/// The decimal digits of a number, without leading zeros.
pub open spec fn decimal(n: nat) -> Seq<char>
    decreases n,
{
    if n < 10 {
        seq![digit(n)]
    } else {
        decimal(n / 10).push(digit(n % 10))
    }
}

/// The address that a server on `host` and `port` binds to.
pub open spec fn address(host: Seq<char>, port: u16) -> Seq<char> {
    host + ":"@ + decimal(port as nat)
}

/// The script in the context directory that is run when none is given.
pub open spec fn script_in(context: Seq<char>) -> Seq<char> {
    joint(context) + main_script()
}

/// The message for a script that is not there.
pub open spec fn script_missing(script: Seq<char>) -> Seq<char> {
    "Error: Rune script file does not exist: "@ + script
}

/// The message for a context directory that is not there.
pub open spec fn context_missing(context: Seq<char>) -> Seq<char> {
    "Error: Context directory does not exist: "@ + context
}

/// Whether a run can begin: the script has to be there, and then the
/// context directory; the first that is missing is reported.
pub open spec fn preflight_result(
    script: Seq<char>,
    script_exists: bool,
    context: Seq<char>,
    context_exists: bool,
) -> Result<(), Seq<char>> {
    if !script_exists {
        Err(script_missing(script))
    } else if !context_exists {
        Err(context_missing(context))
    } else {
        Ok(())
    }
}

/// The decimal digit for a number below ten.
fn digit_of(d: u16) -> (c: char)
    requires
        d < 10,
    ensures
        c == digit(d as nat),
{
    if d == 0 {
        '0'
    } else if d == 1 {
        '1'
    } else if d == 2 {
        '2'
    } else if d == 3 {
        '3'
    } else if d == 4 {
        '4'
    } else if d == 5 {
        '5'
    } else if d == 6 {
        '6'
    } else if d == 7 {
        '7'
    } else if d == 8 {
        '8'
    } else {
        '9'
    }
}

/// Appends the decimal digits of `n` to `buf`.
fn push_decimal(buf: &mut Vec<char>, n: u16)
    ensures
        final(buf)@ == old(buf)@ + decimal(n as nat),
    decreases n,
{
    if n >= 10 {
        push_decimal(buf, n / 10);
    }
    buf.push(digit_of(n % 10));
}

/// The address that a server on `host` and `port` binds to: the host, a
/// colon, and the port in decimal.
pub fn bind_address(host: &str, port: u16) -> (out: String)
    ensures
        out@ == address(host@, port),
{
    let mut digits: Vec<char> = Vec::new();
    push_decimal(&mut digits, port);
    let mut out = String::from_str(host);
    out.append(":");
    let tail = text_of(&digits);
    out.append(tail.as_str());
    out
}

/// The script in the context directory that is run when none is given: the
/// context, a separator where one is needed, and the script's name.
pub fn default_script(context: &str) -> (out: String)
    ensures
        out@ == script_in(context@),
{
    let chars = chars_of(context);
    let n: usize = chars.len();
    let mut out = String::from_str(context);
    if n > 0 && chars[n - 1] != '/' {
        out.append("/");
        proof {
            reveal_strlit("/");
        }
    }
    out.append("configure.rn");
    out
}

/// Whether a run can begin, given what the caller found on disk: nothing to
/// report, or the message for the first thing that is missing.
pub fn preflight(script: &str, script_exists: bool, context: &str, context_exists: bool) -> (out:
    Result<(), String>)
    ensures
        match out {
            Ok(_) => preflight_result(script@, script_exists, context@, context_exists) is Ok,
            Err(message) => preflight_result(script@, script_exists, context@, context_exists)
                == Err::<(), Seq<char>>(message@),
        },
{
    if !script_exists {
        let mut message = String::from_str("Error: Rune script file does not exist: ");
        message.append(script);
        Err(message)
    } else if !context_exists {
        let mut message = String::from_str("Error: Context directory does not exist: ");
        message.append(context);
        Err(message)
    } else {
        Ok(())
    }
}

impl Commands {
    /// The context directory of this command.
    pub open spec fn context_text(&self) -> Seq<char> {
        match self {
            Commands::Listen { context, .. } => context@,
            Commands::Collect { context, .. } => context@,
            Commands::Check { context, .. } => context@,
        }
    }

    /// The script given with this command, if any.
    pub open spec fn given_script(&self) -> Option<Seq<char>> {
        match self {
            Commands::Listen { script, .. } => option_text(*script),
            Commands::Collect { script, .. } => option_text(*script),
            Commands::Check { script, .. } => option_text(*script),
        }
    }

    /// The script that this command runs.
    pub open spec fn script_text(&self) -> Seq<char> {
        match self.given_script() {
            Some(script) => script,
            None => script_in(self.context_text()),
        }
    }

    /// The command that starts the server, with the defaults for what is
    /// not given: port 3000, host `127.0.0.1`, context `./context`.
    pub fn listen(
        port: Option<u16>,
        host: Option<String>,
        context: Option<String>,
        script: Option<String>,
    ) -> (command: Self)
        ensures
            command matches Commands::Listen { port: p, host: h, context: c, script: s } && {
                &&& p == port.unwrap_or(default_port())
                &&& h@ == text_or(host, default_host())
                &&& c@ == text_or(context, default_context())
                &&& s == script
            },
    {
        Commands::Listen {
            port: match port {
                Some(given) => given,
                None => 3000,
            },
            host: match host {
                Some(given) => given,
                None => String::from_str("127.0.0.1"),
            },
            context: match context {
                Some(given) => given,
                None => String::from_str("./context"),
            },
            script,
        }
    }

    /// The command that runs `collect`, with the defaults for what is not
    /// given: context `./context`, output shown as it is.
    pub fn collect(
        script: Option<String>,
        context: Option<String>,
        parse: Option<bool>,
    ) -> (command: Self)
        ensures
            command matches Commands::Collect { script: s, context: c, parse: p } && {
                &&& s == script
                &&& c@ == text_or(context, default_context())
                &&& p == parse.unwrap_or(false)
            },
    {
        Commands::Collect {
            script,
            context: match context {
                Some(given) => given,
                None => String::from_str("./context"),
            },
            parse: match parse {
                Some(given) => given,
                None => false,
            },
        }
    }

    /// The command that runs `check` on `input`, with the defaults for what
    /// is not given: context `./context`, output shown as it is.
    pub fn check(
        script: Option<String>,
        input: String,
        context: Option<String>,
        parse: Option<bool>,
    ) -> (command: Self)
        ensures
            command matches Commands::Check { script: s, input: i, context: c, parse: p } && {
                &&& s == script
                &&& i == input
                &&& c@ == text_or(context, default_context())
                &&& p == parse.unwrap_or(false)
            },
    {
        Commands::Check {
            script,
            input,
            context: match context {
                Some(given) => given,
                None => String::from_str("./context"),
            },
            parse: match parse {
                Some(given) => given,
                None => false,
            },
        }
    }

    /// The context directory of this command.
    pub fn context(&self) -> (context: &str)
        ensures
            context@ == self.context_text(),
    {
        match self {
            Commands::Listen { context, .. } => context.as_str(),
            Commands::Collect { context, .. } => context.as_str(),
            Commands::Check { context, .. } => context.as_str(),
        }
    }

    /// The script that this command runs: the one given with it, else the
    /// main script in the context directory.
    pub fn script_path(&self) -> (script: String)
        ensures
            script@ == self.script_text(),
    {
        let script = match self {
            Commands::Listen { script, .. } => script,
            Commands::Collect { script, .. } => script,
            Commands::Check { script, .. } => script,
        };
        match script {
            Some(script) => script.clone(),
            None => default_script(self.context()),
        }
    }

    /// The entry point that this command calls; none for the server, which
    /// calls what its callers ask for.
    pub fn entry(&self) -> (entry: Option<EntryPoint>)
        ensures
            entry == match self {
                Commands::Listen { .. } => None,
                Commands::Collect { .. } => Some(EntryPoint::Collect),
                Commands::Check { .. } => Some(EntryPoint::Check),
            },
    {
        match self {
            Commands::Listen { .. } => None,
            Commands::Collect { .. } => Some(EntryPoint::Collect),
            Commands::Check { .. } => Some(EntryPoint::Check),
        }
    }
}

} // verus!
