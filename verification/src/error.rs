//! What can go wrong, and how it is told.
use vstd::prelude::*;
use vstd::string::*;
use crate::text;

verus! {

/// A failure of the engine. The last four variants hold the message of the failure underneath.
#[derive(Debug)]
pub enum Error {
    /// A check was asked for while the engine was in another state than ready.
    NotReady { state: String },
    /// Provisioning failed for the given reason.
    Provision(String),
    /// A download does not have the expected SHA-256 digest.
    ChecksumMismatch { expected: String, actual: String },
    /// There is no usable Java runtime, and none can be downloaded.
    NoJavaRuntime,
    /// The server did not become healthy in time.
    StartupTimeout { seconds: u64 },
    /// The server process exited unexpectedly.
    ServerCrashed,
    /// Reading, writing or running something failed.
    Io(String),
    /// A request failed.
    Http(String),
    /// A text was not the JSON that was expected.
    Json(String),
    /// An archive could not be read.
    Zip(String),
}

/// The message of an error.
pub open spec fn error_text(error: Error) -> Seq<char> {
    match error {
        Error::NotReady { state } => "engine not ready (state: "@ + state@ + ")"@,
        Error::Provision(reason) => "provisioning failed: "@ + reason@,
        Error::ChecksumMismatch { expected, actual } => "checksum mismatch: expected "@ + expected@
            + ", got "@ + actual@,
        Error::NoJavaRuntime =>
            "no usable Java runtime found (need ≥17); provide via JAVA_HOME or PATH, or configure a JRE download URL"@,
        Error::StartupTimeout { seconds } => "server startup timed out after "@ + text::decimal(
            seconds as nat,
        ) + "s"@,
        Error::ServerCrashed => "server process exited unexpectedly"@,
        Error::Io(cause) => "IO error: "@ + cause@,
        Error::Http(cause) => "HTTP error: "@ + cause@,
        Error::Json(cause) => "JSON error: "@ + cause@,
        Error::Zip(cause) => "zip error: "@ + cause@,
    }
}

impl Clone for Error {
    fn clone(&self) -> (res: Self)
        ensures
            res == *self,
    {
        match self {
            Error::NotReady { state } => Error::NotReady { state: state.clone() },
            Error::Provision(reason) => Error::Provision(reason.clone()),
            Error::ChecksumMismatch { expected, actual } => Error::ChecksumMismatch {
                expected: expected.clone(),
                actual: actual.clone(),
            },
            Error::NoJavaRuntime => Error::NoJavaRuntime,
            Error::StartupTimeout { seconds } => Error::StartupTimeout { seconds: *seconds },
            Error::ServerCrashed => Error::ServerCrashed,
            Error::Io(cause) => Error::Io(cause.clone()),
            Error::Http(cause) => Error::Http(cause.clone()),
            Error::Json(cause) => Error::Json(cause.clone()),
            Error::Zip(cause) => Error::Zip(cause.clone()),
        }
    }
}

impl Error {
    /// The message of the error.
    pub fn to_string(&self) -> (res: String)
        ensures
            res@ == error_text(*self),
    {
        match self {
            Error::NotReady { state } => {
                let mut res: String = text::concat("engine not ready (state: ", state.as_str());
                res.append(")");
                res
            },
            Error::Provision(reason) => text::concat("provisioning failed: ", reason.as_str()),
            Error::ChecksumMismatch { expected, actual } => {
                let mut res: String = text::concat(
                    "checksum mismatch: expected ",
                    expected.as_str(),
                );
                res.append(", got ");
                res.append(actual.as_str());
                res
            },
            Error::NoJavaRuntime => String::from_str(
                "no usable Java runtime found (need ≥17); provide via JAVA_HOME or PATH, or configure a JRE download URL",
            ),
            Error::StartupTimeout { seconds } => {
                let mut res: String = text::concat(
                    "server startup timed out after ",
                    text::format_u64(*seconds).as_str(),
                );
                res.append("s");
                res
            },
            Error::ServerCrashed => String::from_str("server process exited unexpectedly"),
            Error::Io(cause) => text::concat("IO error: ", cause.as_str()),
            Error::Http(cause) => text::concat("HTTP error: ", cause.as_str()),
            Error::Json(cause) => text::concat("JSON error: ", cause.as_str()),
            Error::Zip(cause) => text::concat("zip error: ", cause.as_str()),
        }
    }
}

/// What an error is about can be read in its message, to the last character: the state, the
/// reason, the two digests, the number of seconds or the cause.
pub proof fn law_message_names_what_it_is_about(e: Error)
    ensures
        match e {
            Error::NotReady { state } => exists|before: Seq<char>|
                #![trigger before + state@]
                error_text(e) == before + state@ + ")"@ && "engine not ready"@.is_prefix_of(before),
            Error::Provision(reason) => reason@.is_suffix_of(error_text(e)),
            Error::ChecksumMismatch { expected, actual } => error_text(e)
                == "checksum mismatch: expected "@ + expected@ + ", got "@ + actual@,
            Error::StartupTimeout { seconds } => exists|before: Seq<char>, number: Seq<char>|
                #![trigger before + number]
                error_text(e) == before + number + "s"@ && text::digits_value(number) == seconds,
            Error::Io(cause) => cause@.is_suffix_of(error_text(e)),
            Error::Http(cause) => cause@.is_suffix_of(error_text(e)),
            Error::Json(cause) => cause@.is_suffix_of(error_text(e)),
            Error::Zip(cause) => cause@.is_suffix_of(error_text(e)),
            _ => true,
        },
{
    match e {
        Error::NotReady { state } => {
            let before = "engine not ready (state: "@;
            reveal_strlit("engine not ready (state: ");
            reveal_strlit("engine not ready");
            assert("engine not ready"@ =~= before.take("engine not ready"@.len() as int));
            assert(error_text(e) == before + state@ + ")"@);
        },
        Error::Provision(reason) => lemma_suffix("provisioning failed: "@, reason@),
        Error::StartupTimeout { seconds } => {
            let before = "server startup timed out after "@;
            let number = text::decimal(seconds as nat);
            text::lemma_decimal_digits(seconds as nat);
            assert(error_text(e) == before + number + "s"@);
        },
        Error::Io(cause) => lemma_suffix("IO error: "@, cause@),
        Error::Http(cause) => lemma_suffix("HTTP error: "@, cause@),
        Error::Json(cause) => lemma_suffix("JSON error: "@, cause@),
        Error::Zip(cause) => lemma_suffix("zip error: "@, cause@),
        _ => {},
    }
}

proof fn lemma_suffix(before: Seq<char>, s: Seq<char>)
    ensures
        s.is_suffix_of(before + s),
{
    assert((before + s).subrange(before.len() as int, (before + s).len() as int) =~= s);
}

} // verus!
