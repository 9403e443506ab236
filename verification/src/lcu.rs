//! Finding the local game client among the running processes, and the
//! connection to it.

use vstd::prelude::*;
use vstd::string::{StringExecFns, StringSliceAdditionalSpecFns};
use crate::models::LcuConnection;
use crate::text::{
    replace, spec_eq_ignore_ascii_case, spec_replace, spec_starts_with, str_eq_ignore_ascii_case,
    str_starts_with,
};

verus! {

/// The standard base64 encoding, with padding, of a text's UTF-8 bytes.
pub uninterp spec fn spec_base64(text: Seq<char>) -> Seq<char>;

/// Whether the encoding of `bytes` bytes has a length that a `usize` holds.
pub open spec fn spec_encodable(bytes: nat) -> bool {
    (bytes / 3) * 4 + 4 <= usize::MAX
}

/// Calls `base64::Engine::encode` on `base64::engine::general_purpose::STANDARD`.
/// The contract only names the result. The call panics where the length of
/// the encoding overflows, which `requires` leaves out.
#[verifier::external_body]
fn base64_standard(text: &str) -> (r: String)
    requires
        spec_encodable(text.spec_bytes().len()),
    ensures
        r@ == spec_base64(text@),
{
    base64::Engine::encode(&base64::engine::general_purpose::STANDARD, text)
}

/// The address at which a client listens on `port`.
pub open spec fn spec_client_url(port: Seq<char>) -> Seq<char> {
    "https://127.0.0.1:"@ + port
}

/// The secret that opens a client with the authentication token `token`.
pub open spec fn spec_client_secret(token: Seq<char>) -> Seq<char> {
    "riot:"@ + token
}

/// The authorization header for a client with the token `token`.
pub open spec fn spec_client_auth(token: Seq<char>) -> Seq<char> {
    "Basic "@ + spec_base64(spec_client_secret(token))
}

/// The authorization header that carries the encoded secret `encoded`.
pub fn basic_auth(encoded: &str) -> (r: String)
    ensures
        r@ == "Basic "@ + encoded@,
{
    let mut header = "Basic ".to_string();
    header.append(encoded);
    header
}

impl LcuConnection {
    /// The connection to the client that listens on `port` and was started
    /// with the authentication token `token`; `None` for a token so long
    /// that its encoding cannot be held.
    pub fn for_client(port: &str, token: &str) -> (r: Option<LcuConnection>)
        ensures
            r is Some <==> spec_encodable(vstd::utf8::encode_utf8(spec_client_secret(token@)).len()),
            match r {
                Some(connection) => {
                    &&& connection.url@ == spec_client_url(port@)
                    &&& connection.auth_header@ == spec_client_auth(token@)
                },
                None => true,
            },
    {
        let mut secret = "riot:".to_string();
        secret.append(token);
        let bytes = secret.as_str().as_bytes().len();
        if bytes / 3 > (usize::MAX - 4) / 4 {
            return None;
        }
        let mut url = "https://127.0.0.1:".to_string();
        url.append(port);
        let encoded = base64_standard(secret.as_str());
        Some(LcuConnection { url, auth_header: basic_auth(encoded.as_str()) })
    }
}

/// What is read of one running process.
#[derive(Clone, Debug)]
pub struct ProcessInfo {
    pub name: String,
    /// The command line, argument by argument.
    pub cmd: Vec<String>,
}

/// The value that an argument gives to the option `prefix`: the argument
/// without the prefix, where it begins with it.
pub open spec fn spec_option_value(argument: Seq<char>, prefix: Seq<char>) -> Option<Seq<char>> {
    if spec_starts_with(argument, prefix) {
        Some(spec_replace(argument, prefix, Seq::empty()))
    } else {
        None
    }
}

/// The value that a command line gives to the option `prefix`: that of the
/// last argument that gives one.
pub open spec fn spec_last_option_value(cmd: Seq<String>, prefix: Seq<char>) -> Option<Seq<char>>
    decreases cmd.len(),
{
    if cmd.len() == 0 {
        None
    } else {
        match spec_option_value(cmd.last()@, prefix) {
            Some(value) => Some(value),
            None => spec_last_option_value(cmd.drop_last(), prefix),
        }
    }
}

/// Whether a process is the game client.
pub open spec fn spec_is_client(process: ProcessInfo) -> bool {
    spec_eq_ignore_ascii_case(process.name@, "LeagueClientUx.exe"@)
}

/// The port and the token of a process, where it is the game client and
/// its command line gives both.
pub open spec fn spec_credentials(process: ProcessInfo) -> Option<(Seq<char>, Seq<char>)> {
    if spec_is_client(process) {
        match (
            spec_last_option_value(process.cmd@, "--app-port="@),
            spec_last_option_value(process.cmd@, "--remoting-auth-token="@),
        ) {
            (Some(port), Some(token)) => Some((port, token)),
            _ => None,
        }
    } else {
        None
    }
}

/// The credentials of the first process that has some.
pub open spec fn spec_find_lcu_process(processes: Seq<ProcessInfo>) -> Option<(Seq<char>, Seq<char>)>
    decreases processes.len(),
{
    if processes.len() == 0 {
        None
    } else {
        match spec_credentials(processes.first()) {
            Some(found) => Some(found),
            None => spec_find_lcu_process(processes.drop_first()),
        }
    }
}

/// The value that a command line gives to the option `prefix`.
pub fn last_option_value(cmd: &Vec<String>, prefix: &str) -> (r: Option<String>)
    ensures
        match r {
            Some(value) => spec_last_option_value(cmd@, prefix@) == Some(value@),
            None => spec_last_option_value(cmd@, prefix@) is None,
        },
{
    proof {
        reveal_strlit("");
        assert(""@ =~= Seq::<char>::empty());
    }
    let mut found: Option<String> = None;
    let mut i: usize = 0;
    while i < cmd.len()
        invariant
            i <= cmd.len(),
            ""@ == Seq::<char>::empty(),
            match found {
                Some(value) => spec_last_option_value(cmd@.take(i as int), prefix@) == Some(value@),
                None => spec_last_option_value(cmd@.take(i as int), prefix@) is None,
            },
        decreases cmd.len() - i,
    {
        assert(cmd@.take(i + 1).drop_last() =~= cmd@.take(i as int));
        let argument = cmd[i].as_str();
        if str_starts_with(argument, prefix) {
            found = Some(replace(argument, prefix, ""));
        }
        i = i + 1;
    }
    assert(cmd@.take(i as int) =~= cmd@);
    found
}

/// The port and the token of a process, where it is the game client and
/// its command line gives both.
pub fn credentials_of(process: &ProcessInfo) -> (r: Option<(String, String)>)
    ensures
        match r {
            Some(found) => spec_credentials(*process) == Some((found.0@, found.1@)),
            None => spec_credentials(*process) is None,
        },
{
    if !str_eq_ignore_ascii_case(process.name.as_str(), "LeagueClientUx.exe") {
        return None;
    }
    let port = last_option_value(&process.cmd, "--app-port=");
    let token = last_option_value(&process.cmd, "--remoting-auth-token=");
    match (port, token) {
        (Some(port), Some(token)) => Some((port, token)),
        _ => None,
    }
}

/// Looks for the game client among `processes` and returns the port it
/// listens on and its authentication token.
pub fn find_lcu_process(processes: &Vec<ProcessInfo>) -> (r: Option<(String, String)>)
    ensures
        match r {
            Some(found) => spec_find_lcu_process(processes@) == Some((found.0@, found.1@)),
            None => spec_find_lcu_process(processes@) is None,
        },
{
    let mut i: usize = 0;
    assert(processes@.skip(0) =~= processes@);
    while i < processes.len()
        invariant
            i <= processes.len(),
            spec_find_lcu_process(processes@) == spec_find_lcu_process(processes@.skip(i as int)),
        decreases processes.len() - i,
    {
        assert(processes@.skip(i as int).drop_first() =~= processes@.skip(i + 1));
        match credentials_of(&processes[i]) {
            Some(found) => {
                return Some(found);
            },
            None => {},
        }
        i = i + 1;
    }
    None
}

} // verus!
