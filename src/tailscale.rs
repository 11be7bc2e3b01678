//! Values of the Tailscale client: configuration, authentication and errors.
use vstd::prelude::*;
use vstd::string::StringExecFns;
use vstd::utf8::encode_utf8;

use crate::auth::{basic_auth, basic_header, credentials};
use crate::secret::Secret;

verus! {

/// Tailscale API configuration.
#[derive(Clone)]
pub struct TailscaleConfiguration {
    /// Tailscale API token.
    pub token: Option<Secret>,
    /// Tailscale network.
    pub tailnet: Option<String>,
}

/// Authentication with a Tailscale API token, sent as the user name of basic
/// authentication without a password.
#[derive(Clone)]
pub struct TailscaleApiAuth(pub Secret);

impl TailscaleApiAuth {
    /// The value of the `Authorization` header.
    pub fn header_value(&self) -> (r: String)
        requires
            encode_utf8(credentials(self.0@, None)).len() <= usize::MAX / 2,
        ensures
            r@ == basic_header(self.0@, None),
    {
        basic_auth(self.0.revealed(), None)
    }
}

/// IP address version.
#[derive(Debug, Clone, Copy, PartialEq, Eq, Structural)]
pub enum IpVersion {
    /// An IPv4 address.
    V4,
    /// An IPv6 address.
    V6,
}

impl IpVersion {
    /// The command-line flag that asks for this version.
    pub fn ip_arg(&self) -> (r: &'static str)
        ensures
            r@ == match self {
                IpVersion::V4 => "-4"@,
                IpVersion::V6 => "-6"@,
            },
    {
        match self {
            IpVersion::V4 => "-4",
            IpVersion::V6 => "-6",
        }
    }
}

/// An error of a Tailscale operation. Where an underlying error caused it,
/// `source` holds that error's message.
#[derive(Debug, Clone)]
#[allow(inconsistent_fields)]
pub enum TailscaleError {
    /// An API request failed.
    Api { source: String, context: String },
    /// A command failed, or could not be started.
    Command { command: String, output: Option<String>, source: Option<String> },
    /// Data could not be parsed.
    Parsing { what: String, input: String, source: Option<String> },
    /// Data could not be converted (UTF-8, paths).
    Conversion { what: String, source: Option<String> },
    /// Anything else.
    Other { message: String, source: Option<String> },
}

/// The message of an error.
pub open spec fn error_text(e: TailscaleError) -> Seq<char> {
    match e {
        TailscaleError::Api { context, .. } => "Tailscale API error: "@ + context@,
        TailscaleError::Command { command, output, .. } => match output {
            Some(o) => "Command '"@ + command@ + "' failed: "@ + o@,
            None => "Command '"@ + command@ + "' failed"@,
        },
        TailscaleError::Parsing { what, input, .. } => "Failed to parse "@ + what@ + " from '"@
            + input@ + "'"@,
        TailscaleError::Conversion { what, .. } => "Failed to convert "@ + what@,
        TailscaleError::Other { message, .. } => message@,
    }
}

impl TailscaleError {
    /// An API error.
    pub fn api(source: String, context: String) -> (r: Self)
        ensures
            r == (TailscaleError::Api { source, context }),
    {
        TailscaleError::Api { source, context }
    }

    /// A failed command, with its output if there is any.
    pub fn command(command: String, output: Option<String>) -> (r: Self)
        ensures
            r == (TailscaleError::Command { command, output, source: None }),
    {
        TailscaleError::Command { command, output, source: None }
    }

    /// A command that could not be started.
    pub fn command_spawn(command: String, source: String) -> (r: Self)
        ensures
            r == (TailscaleError::Command { command, output: None, source: Some(source) }),
    {
        TailscaleError::Command { command, output: None, source: Some(source) }
    }

    /// A parsing error.
    pub fn parsing(what: String, input: String) -> (r: Self)
        ensures
            r == (TailscaleError::Parsing { what, input, source: None }),
    {
        TailscaleError::Parsing { what, input, source: None }
    }

    /// A parsing error with its cause.
    pub fn parsing_with_source(what: String, input: String, source: String) -> (r: Self)
        ensures
            r == (TailscaleError::Parsing { what, input, source: Some(source) }),
    {
        TailscaleError::Parsing { what, input, source: Some(source) }
    }

    /// A conversion error.
    pub fn conversion(what: String) -> (r: Self)
        ensures
            r == (TailscaleError::Conversion { what, source: None }),
    {
        TailscaleError::Conversion { what, source: None }
    }

    /// A conversion error with its cause.
    pub fn conversion_with_source(what: String, source: String) -> (r: Self)
        ensures
            r == (TailscaleError::Conversion { what, source: Some(source) }),
    {
        TailscaleError::Conversion { what, source: Some(source) }
    }

    /// Any other error.
    pub fn other(message: String) -> (r: Self)
        ensures
            r == (TailscaleError::Other { message, source: None }),
    {
        TailscaleError::Other { message, source: None }
    }

    /// Any other error, with its cause.
    pub fn other_with_source(message: String, source: String) -> (r: Self)
        ensures
            r == (TailscaleError::Other { message, source: Some(source) }),
    {
        TailscaleError::Other { message, source: Some(source) }
    }

    /// The message of the error that caused this one, if any.
    pub fn source(&self) -> (r: Option<&str>)
        ensures
            match self {
                TailscaleError::Api { source, .. } => r is Some && r.unwrap()@ == source@,
                TailscaleError::Command { source, .. } | TailscaleError::Parsing { source, .. }
                | TailscaleError::Conversion { source, .. } | TailscaleError::Other {
                    source,
                    ..
                } => match source {
                    Some(s) => r is Some && r.unwrap()@ == s@,
                    None => r is None,
                },
            },
    {
        let s = match self {
            TailscaleError::Api { source, .. } => return Some(source.as_str()),
            TailscaleError::Command { source, .. } => source,
            TailscaleError::Parsing { source, .. } => source,
            TailscaleError::Conversion { source, .. } => source,
            TailscaleError::Other { source, .. } => source,
        };
        match s {
            Some(s) => Some(s.as_str()),
            None => None,
        }
    }

    /// The message of this error.
    pub fn message(&self) -> (r: String)
        ensures
            r@ == error_text(*self),
    {
        match self {
            TailscaleError::Api { context, .. } => {
                let mut out = "Tailscale API error: ".to_owned();
                out.append(context.as_str());
                out
            },
            TailscaleError::Command { command, output, .. } => {
                let mut out = "Command '".to_owned();
                out.append(command.as_str());
                match output {
                    Some(o) => {
                        out.append("' failed: ");
                        out.append(o.as_str());
                    },
                    None => out.append("' failed"),
                }
                out
            },
            TailscaleError::Parsing { what, input, .. } => {
                let mut out = "Failed to parse ".to_owned();
                out.append(what.as_str());
                out.append(" from '");
                out.append(input.as_str());
                out.append("'");
                out
            },
            TailscaleError::Conversion { what, .. } => {
                let mut out = "Failed to convert ".to_owned();
                out.append(what.as_str());
                out
            },
            TailscaleError::Other { message, .. } => message.clone(),
        }
    }
}

} // verus!
