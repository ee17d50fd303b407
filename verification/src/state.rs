//! The observable state of the engine, and what else its parts share.
use vstd::prelude::*;
use vstd::string::*;
use crate::layout::InstallPath;
use crate::{layout, text};

verus! {

/// Observable state of the LanguageTool engine.
#[derive(Debug, PartialEq)]
pub enum EngineState {
    /// LanguageTool has not been provisioned (downloaded) yet.
    NotInstalled,
    /// Download in progress.
    Downloading { downloaded: u64, total: Option<u64> },
    /// Verifying checksum / unzipping.
    Installing,
    /// Server process spawned; waiting for it to become healthy.
    Starting,
    /// Server is up and accepting requests.
    Ready,
    /// Server was stopped cleanly.
    Stopped,
    /// An unrecoverable error occurred.
    Error { message: String },
}

/// The name under which a state is shown.
pub open spec fn state_text(state: EngineState) -> Seq<char> {
    match state {
        EngineState::NotInstalled => "not_installed"@,
        EngineState::Downloading { downloaded, total: Some(total) } => "downloading ("@
            + text::decimal(downloaded as nat) + "/"@ + text::decimal(total as nat) + " bytes)"@,
        EngineState::Downloading { downloaded, total: None } => "downloading ("@ + text::decimal(
            downloaded as nat,
        ) + " bytes)"@,
        EngineState::Installing => "installing"@,
        EngineState::Starting => "starting"@,
        EngineState::Ready => "ready"@,
        EngineState::Stopped => "stopped"@,
        EngineState::Error { message } => "error: "@ + message@,
    }
}

impl Clone for EngineState {
    fn clone(&self) -> (res: Self)
        ensures
            res == *self,
    {
        match self {
            EngineState::NotInstalled => EngineState::NotInstalled,
            EngineState::Downloading { downloaded, total } => EngineState::Downloading {
                downloaded: *downloaded,
                total: *total,
            },
            EngineState::Installing => EngineState::Installing,
            EngineState::Starting => EngineState::Starting,
            EngineState::Ready => EngineState::Ready,
            EngineState::Stopped => EngineState::Stopped,
            EngineState::Error { message } => EngineState::Error { message: message.clone() },
        }
    }
}

impl EngineState {
    /// The name under which the state is shown.
    pub fn to_string(&self) -> (res: String)
        ensures
            res@ == state_text(*self),
    {
        match self {
            EngineState::NotInstalled => String::from_str("not_installed"),
            EngineState::Downloading { downloaded, total } => {
                let mut res: String = String::from_str("downloading (");
                res.append(text::format_u64(*downloaded).as_str());
                if let Some(t) = total {
                    res.append("/");
                    res.append(text::format_u64(*t).as_str());
                }
                res.append(" bytes)");
                res
            },
            EngineState::Installing => String::from_str("installing"),
            EngineState::Starting => String::from_str("starting"),
            EngineState::Ready => String::from_str("ready"),
            EngineState::Stopped => String::from_str("stopped"),
            EngineState::Error { message } => text::concat("error: ", message.as_str()),
        }
    }
}

/// Whether two states are the same, down to the text of an error.
pub open spec fn same_state(a: EngineState, b: EngineState) -> bool {
    match (a, b) {
        (EngineState::Error { message: m }, EngineState::Error { message: n }) => m@ == n@,
        _ => a == b,
    }
}

/// A number, then a character that is no digit: both can be read off the text.
proof fn lemma_number_then(m: nat, s: Seq<char>, n: nat, t: Seq<char>)
    requires
        s.len() > 0,
        !text::is_digit(s[0]),
        t.len() > 0,
        !text::is_digit(t[0]),
        text::decimal(m) + s == text::decimal(n) + t,
    ensures
        m == n,
        s == t,
{
    let a = text::decimal(m);
    let b = text::decimal(n);
    text::lemma_decimal_digits(m);
    text::lemma_decimal_digits(n);
    let whole = a + s;
    assert(whole[a.len() as int] == s[0]);
    assert((b + t)[b.len() as int] == t[0]);
    if a.len() < b.len() {
        assert((b + t)[a.len() as int] == b[a.len() as int]);
        assert(text::is_digit(b[a.len() as int]));
    } else if b.len() < a.len() {
        assert(whole[b.len() as int] == a[b.len() as int]);
        assert(text::is_digit(a[b.len() as int]));
    }
    assert(a =~= whole.take(a.len() as int));
    assert(b =~= (b + t).take(b.len() as int));
    assert(s =~= whole.skip(a.len() as int));
    assert(t =~= (b + t).skip(b.len() as int));
}

/// What a download prints behind its first words.
proof fn lemma_downloading_text(downloaded: u64, total: Option<u64>) -> (rest: Seq<char>)
    ensures
        rest.len() > 0,
        !text::is_digit(rest[0]),
        rest == match total {
            Some(total) => "/"@ + (text::decimal(total as nat) + " bytes)"@),
            None => " bytes)"@,
        },
        state_text(EngineState::Downloading { downloaded, total }) == "downloading ("@ + (
        text::decimal(downloaded as nat) + rest),
{
    reveal_strlit("/");
    reveal_strlit(" bytes)");
    let rest = match total {
        Some(total) => "/"@ + (text::decimal(total as nat) + " bytes)"@),
        None => " bytes)"@,
    };
    assert(state_text(EngineState::Downloading { downloaded, total }) =~= "downloading ("@ + (
    text::decimal(downloaded as nat) + rest));
    rest
}

/// Two characters tell the kinds of states apart.
proof fn lemma_state_kind(s: EngineState)
    ensures
        state_text(s).len() > 2,
        match s {
            EngineState::NotInstalled => state_text(s)[0] == 'n',
            EngineState::Downloading { downloaded: _, total: _ } => state_text(s)[0] == 'd',
            EngineState::Installing => state_text(s)[0] == 'i',
            EngineState::Starting => state_text(s)[0] == 's' && state_text(s)[2] == 'a',
            EngineState::Ready => state_text(s)[0] == 'r',
            EngineState::Stopped => state_text(s)[0] == 's' && state_text(s)[2] == 'o',
            EngineState::Error { message: _ } => state_text(s)[0] == 'e',
        },
{
    reveal_strlit("not_installed");
    reveal_strlit("installing");
    reveal_strlit("starting");
    reveal_strlit("ready");
    reveal_strlit("stopped");
    reveal_strlit("error: ");
    reveal_strlit("downloading (");
    if let EngineState::Downloading { downloaded, total } = s {
        let rest = lemma_downloading_text(downloaded, total);
    }
}

/// No two states are shown alike.
pub proof fn law_states_print_differently(a: EngineState, b: EngineState)
    requires
        state_text(a) == state_text(b),
    ensures
        same_state(a, b),
{
    reveal_strlit("/");
    reveal_strlit(" bytes)");
    lemma_state_kind(a);
    lemma_state_kind(b);
    match (a, b) {
        (
            EngineState::Downloading { downloaded: d, total: t },
            EngineState::Downloading { downloaded: e, total: u },
        ) => {
            let r = lemma_downloading_text(d, t);
            let s = lemma_downloading_text(e, u);
            let start = "downloading ("@;
            assert(state_text(a).skip(start.len() as int) =~= text::decimal(d as nat) + r);
            assert(state_text(b).skip(start.len() as int) =~= text::decimal(e as nat) + s);
            lemma_number_then(d as nat, r, e as nat, s);
            assert(r[0] == s[0]);
            match (t, u) {
                (Some(x), Some(y)) => {
                    let end = " bytes)"@;
                    assert(r.skip(1) =~= text::decimal(x as nat) + end);
                    assert(s.skip(1) =~= text::decimal(y as nat) + end);
                    lemma_number_then(x as nat, end, y as nat, end);
                },
                _ => {},
            }
        },
        (EngineState::Error { message: m }, EngineState::Error { message: n }) => {
            let start = "error: "@;
            assert(state_text(a).skip(start.len() as int) =~= m@);
            assert(state_text(b).skip(start.len() as int) =~= n@);
        },
        _ => {},
    }
}

/// What the parts of a running engine share: the observable state, the port of the server and
/// the Java runtime that was chosen.
#[derive(Debug)]
pub struct SharedState {
    pub state: EngineState,
    pub port: Option<u16>,
    pub java_path: Option<InstallPath>,
    pub using_system_java: bool,
}

impl SharedState {
    /// The state of an engine that has done nothing yet.
    pub fn new() -> (res: Self)
        ensures
            res.state == EngineState::NotInstalled,
            res.port is None,
            res.java_path is None,
            !res.using_system_java,
    {
        SharedState {
            state: EngineState::NotInstalled,
            port: None,
            java_path: None,
            using_system_java: false,
        }
    }

    /// The observable state.
    pub fn get(&self) -> (res: EngineState)
        ensures
            res == self.state,
    {
        self.state.clone()
    }

    /// Replaces the observable state and nothing else.
    pub fn set(&mut self, state: EngineState)
        ensures
            *final(self) == (SharedState { state, ..*old(self) }),
    {
        self.state = state;
    }

    /// The port of the server, once one was spawned.
    pub fn port(&self) -> (res: Option<u16>)
        ensures
            res == self.port,
    {
        self.port
    }

    /// Records the port of the server.
    pub fn set_port(&mut self, port: u16)
        ensures
            *final(self) == (SharedState { port: Some(port), ..*old(self) }),
    {
        self.port = Some(port);
    }

    /// The Java binary, once one was chosen.
    pub fn java_path(&self) -> (res: Option<InstallPath>)
        ensures
            layout::optional_path(res) == layout::optional_path(self.java_path),
    {
        match &self.java_path {
            Some(path) => Some(path.clone()),
            None => None,
        }
    }

    /// Records the Java binary and whether it is one of the system.
    pub fn set_java(&mut self, path: InstallPath, system: bool)
        ensures
            *final(self) == (SharedState {
                java_path: Some(path),
                using_system_java: system,
                ..*old(self)
            }),
    {
        self.java_path = Some(path);
        self.using_system_java = system;
    }

    /// Whether the chosen Java binary is one of the system.
    pub fn using_system_java(&self) -> (res: bool)
        ensures
            res == self.using_system_java,
    {
        self.using_system_java
    }

    /// Whether the engine accepts checks.
    pub fn is_ready(&self) -> (res: bool)
        ensures
            res == (self.state == EngineState::Ready),
    {
        match self.state {
            EngineState::Ready => true,
            _ => false,
        }
    }
}

/// How far a download has come can be read off what is shown: the number of bytes, and the total
/// behind a slash where it is known.
pub proof fn law_progress_can_be_read(downloaded: u64, total: Option<u64>)
    ensures
        exists|count: Seq<char>, rest: Seq<char>|
            #![trigger count + rest]
            {
                &&& state_text(EngineState::Downloading { downloaded, total }) == "downloading ("@
                    + (count + rest)
                &&& text::digits_value(count) == downloaded
                &&& match total {
                    Some(total) => exists|size: Seq<char>|
                        #![trigger size + " bytes)"@]
                        rest == "/"@ + (size + " bytes)"@) && text::digits_value(size) == total,
                    None => rest == " bytes)"@,
                }
            },
{
    let rest = lemma_downloading_text(downloaded, total);
    let count = text::decimal(downloaded as nat);
    text::lemma_decimal_digits(downloaded as nat);
    if let Some(total) = total {
        let size = text::decimal(total as nat);
        text::lemma_decimal_digits(total as nat);
        assert(rest == "/"@ + (size + " bytes)"@));
    }
    assert(state_text(EngineState::Downloading { downloaded, total }) == "downloading ("@ + (count
        + rest));
}

/// An error is shown with its whole message.
pub proof fn law_error_is_shown_whole(message: String)
    ensures
        state_text(EngineState::Error { message }) == "error: "@ + message@,
{
}

} // verus!
