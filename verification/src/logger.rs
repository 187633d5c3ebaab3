//! Nix's logger model: verbosity levels, activity types, result types,
//! the [`Logger`] trait that receives them, and the decoding of the raw
//! values that Nix hands to a logger callback into [`LoggerEvent`]s.

use vstd::prelude::*;
use vstd::utf8::{decode_utf8, valid_utf8};
use crate::codes::{NIX_ACTIVITY_TYPE_BUILD, NIX_ACTIVITY_TYPE_BUILDS, NIX_ACTIVITY_TYPE_BUILD_WAITING, NIX_ACTIVITY_TYPE_COPY_PATH, NIX_ACTIVITY_TYPE_COPY_PATHS, NIX_ACTIVITY_TYPE_FETCH_TREE, NIX_ACTIVITY_TYPE_FILE_TRANSFER, NIX_ACTIVITY_TYPE_OPTIMISE_STORE, NIX_ACTIVITY_TYPE_POST_BUILD_HOOK, NIX_ACTIVITY_TYPE_QUERY_PATH_INFO, NIX_ACTIVITY_TYPE_REALISE, NIX_ACTIVITY_TYPE_SUBSTITUTE, NIX_ACTIVITY_TYPE_UNKNOWN, NIX_ACTIVITY_TYPE_VERIFY_PATHS, NIX_LVL_CHATTY, NIX_LVL_DEBUG, NIX_LVL_ERROR, NIX_LVL_INFO, NIX_LVL_NOTICE, NIX_LVL_TALKATIVE, NIX_LVL_VOMIT, NIX_LVL_WARN, NIX_RESULT_TYPE_BUILD_LOG_LINE, NIX_RESULT_TYPE_BUILD_RESULT, NIX_RESULT_TYPE_CORRUPTED_PATH, NIX_RESULT_TYPE_FETCH_STATUS, NIX_RESULT_TYPE_FILE_LINKED, NIX_RESULT_TYPE_HASH_MISMATCH, NIX_RESULT_TYPE_POST_BUILD_LOG_LINE, NIX_RESULT_TYPE_PROGRESS, NIX_RESULT_TYPE_SET_EXPECTED, NIX_RESULT_TYPE_SET_PHASE, NIX_RESULT_TYPE_UNTRUSTED_PATH};

verus! {

/// Verbosity level of a log message.
///
/// Mirrors the C `nix_verbosity` enum.
#[derive(Debug, Clone, Copy, PartialEq, Eq, Hash, Structural)]
#[non_exhaustive]
pub enum Verbosity {
    Error,
    Warn,
    Notice,
    Info,
    Talkative,
    Chatty,
    Debug,
    Vomit,
    /// A verbosity level not (yet) modelled by this crate.
    Unknown(u32),
}

/// The verbosity level that the raw C value `v` stands for.
pub open spec fn verbosity_of_code(v: u32) -> Verbosity {
    if v == NIX_LVL_ERROR {
        Verbosity::Error
    } else if v == NIX_LVL_WARN {
        Verbosity::Warn
    } else if v == NIX_LVL_NOTICE {
        Verbosity::Notice
    } else if v == NIX_LVL_INFO {
        Verbosity::Info
    } else if v == NIX_LVL_TALKATIVE {
        Verbosity::Talkative
    } else if v == NIX_LVL_CHATTY {
        Verbosity::Chatty
    } else if v == NIX_LVL_DEBUG {
        Verbosity::Debug
    } else if v == NIX_LVL_VOMIT {
        Verbosity::Vomit
    } else {
        Verbosity::Unknown(v)
    }
}

/// The raw C value of a verbosity level.
pub open spec fn verbosity_code(l: Verbosity) -> u32 {
    match l {
        Verbosity::Error => NIX_LVL_ERROR,
        Verbosity::Warn => NIX_LVL_WARN,
        Verbosity::Notice => NIX_LVL_NOTICE,
        Verbosity::Info => NIX_LVL_INFO,
        Verbosity::Talkative => NIX_LVL_TALKATIVE,
        Verbosity::Chatty => NIX_LVL_CHATTY,
        Verbosity::Debug => NIX_LVL_DEBUG,
        Verbosity::Vomit => NIX_LVL_VOMIT,
        Verbosity::Unknown(v) => v,
    }
}

impl Verbosity {
    /// Decodes a raw `nix_verbosity` value; values that no variant names
    /// are kept in `Unknown`.
    pub fn from_raw(v: u32) -> (res: Self)
        ensures
            res == verbosity_of_code(v),
    {
        if v == NIX_LVL_ERROR {
            Verbosity::Error
        } else if v == NIX_LVL_WARN {
            Verbosity::Warn
        } else if v == NIX_LVL_NOTICE {
            Verbosity::Notice
        } else if v == NIX_LVL_INFO {
            Verbosity::Info
        } else if v == NIX_LVL_TALKATIVE {
            Verbosity::Talkative
        } else if v == NIX_LVL_CHATTY {
            Verbosity::Chatty
        } else if v == NIX_LVL_DEBUG {
            Verbosity::Debug
        } else if v == NIX_LVL_VOMIT {
            Verbosity::Vomit
        } else {
            Verbosity::Unknown(v)
        }
    }
}

/// Decoding a verbosity level loses nothing: the raw value can always be
/// read back from the decoded level, so two different raw values never
/// decode to the same level.
pub proof fn lemma_verbosity_round_trip(v: u32, w: u32)
    ensures
        verbosity_code(verbosity_of_code(v)) == v,
        verbosity_of_code(v) == verbosity_of_code(w) ==> v == w,
{
}

/// A level is decoded as `Unknown` exactly when its raw value is none of
/// the values that the named levels stand for.
pub proof fn lemma_verbosity_unknown(v: u32)
    ensures
        (verbosity_of_code(v) is Unknown) <==> !(v <= NIX_LVL_VOMIT),
{
}

/// Identifier for a logger activity. `0` is the implicit root.
pub type ActivityId = u64;

/// Type of an activity.
///
/// Mirrors the C `nix_activity_type` enum.
#[derive(Debug, Clone, Copy, PartialEq, Eq, Hash, Structural)]
#[non_exhaustive]
pub enum ActivityType {
    Unknown,
    CopyPath,
    FileTransfer,
    Realise,
    CopyPaths,
    Builds,
    Build,
    OptimiseStore,
    VerifyPaths,
    Substitute,
    QueryPathInfo,
    PostBuildHook,
    BuildWaiting,
    FetchTree,
    /// An activity type not (yet) modelled by this crate.
    Other(u32),
}

/// The activity type that the raw C value `t` stands for.
pub open spec fn activity_type_of_code(t: u32) -> ActivityType {
    if t == NIX_ACTIVITY_TYPE_UNKNOWN {
        ActivityType::Unknown
    } else if t == NIX_ACTIVITY_TYPE_COPY_PATH {
        ActivityType::CopyPath
    } else if t == NIX_ACTIVITY_TYPE_FILE_TRANSFER {
        ActivityType::FileTransfer
    } else if t == NIX_ACTIVITY_TYPE_REALISE {
        ActivityType::Realise
    } else if t == NIX_ACTIVITY_TYPE_COPY_PATHS {
        ActivityType::CopyPaths
    } else if t == NIX_ACTIVITY_TYPE_BUILDS {
        ActivityType::Builds
    } else if t == NIX_ACTIVITY_TYPE_BUILD {
        ActivityType::Build
    } else if t == NIX_ACTIVITY_TYPE_OPTIMISE_STORE {
        ActivityType::OptimiseStore
    } else if t == NIX_ACTIVITY_TYPE_VERIFY_PATHS {
        ActivityType::VerifyPaths
    } else if t == NIX_ACTIVITY_TYPE_SUBSTITUTE {
        ActivityType::Substitute
    } else if t == NIX_ACTIVITY_TYPE_QUERY_PATH_INFO {
        ActivityType::QueryPathInfo
    } else if t == NIX_ACTIVITY_TYPE_POST_BUILD_HOOK {
        ActivityType::PostBuildHook
    } else if t == NIX_ACTIVITY_TYPE_BUILD_WAITING {
        ActivityType::BuildWaiting
    } else if t == NIX_ACTIVITY_TYPE_FETCH_TREE {
        ActivityType::FetchTree
    } else {
        ActivityType::Other(t)
    }
}

/// The raw C value of an activity type.
pub open spec fn activity_type_code(t: ActivityType) -> u32 {
    match t {
        ActivityType::Unknown => NIX_ACTIVITY_TYPE_UNKNOWN,
        ActivityType::CopyPath => NIX_ACTIVITY_TYPE_COPY_PATH,
        ActivityType::FileTransfer => NIX_ACTIVITY_TYPE_FILE_TRANSFER,
        ActivityType::Realise => NIX_ACTIVITY_TYPE_REALISE,
        ActivityType::CopyPaths => NIX_ACTIVITY_TYPE_COPY_PATHS,
        ActivityType::Builds => NIX_ACTIVITY_TYPE_BUILDS,
        ActivityType::Build => NIX_ACTIVITY_TYPE_BUILD,
        ActivityType::OptimiseStore => NIX_ACTIVITY_TYPE_OPTIMISE_STORE,
        ActivityType::VerifyPaths => NIX_ACTIVITY_TYPE_VERIFY_PATHS,
        ActivityType::Substitute => NIX_ACTIVITY_TYPE_SUBSTITUTE,
        ActivityType::QueryPathInfo => NIX_ACTIVITY_TYPE_QUERY_PATH_INFO,
        ActivityType::PostBuildHook => NIX_ACTIVITY_TYPE_POST_BUILD_HOOK,
        ActivityType::BuildWaiting => NIX_ACTIVITY_TYPE_BUILD_WAITING,
        ActivityType::FetchTree => NIX_ACTIVITY_TYPE_FETCH_TREE,
        ActivityType::Other(t) => t,
    }
}

impl ActivityType {
    /// Decodes a raw `nix_activity_type` value; values that no variant
    /// names are kept in `Other`.
    pub fn from_raw(t: u32) -> (res: Self)
        ensures
            res == activity_type_of_code(t),
    {
        if t == NIX_ACTIVITY_TYPE_UNKNOWN {
            ActivityType::Unknown
        } else if t == NIX_ACTIVITY_TYPE_COPY_PATH {
            ActivityType::CopyPath
        } else if t == NIX_ACTIVITY_TYPE_FILE_TRANSFER {
            ActivityType::FileTransfer
        } else if t == NIX_ACTIVITY_TYPE_REALISE {
            ActivityType::Realise
        } else if t == NIX_ACTIVITY_TYPE_COPY_PATHS {
            ActivityType::CopyPaths
        } else if t == NIX_ACTIVITY_TYPE_BUILDS {
            ActivityType::Builds
        } else if t == NIX_ACTIVITY_TYPE_BUILD {
            ActivityType::Build
        } else if t == NIX_ACTIVITY_TYPE_OPTIMISE_STORE {
            ActivityType::OptimiseStore
        } else if t == NIX_ACTIVITY_TYPE_VERIFY_PATHS {
            ActivityType::VerifyPaths
        } else if t == NIX_ACTIVITY_TYPE_SUBSTITUTE {
            ActivityType::Substitute
        } else if t == NIX_ACTIVITY_TYPE_QUERY_PATH_INFO {
            ActivityType::QueryPathInfo
        } else if t == NIX_ACTIVITY_TYPE_POST_BUILD_HOOK {
            ActivityType::PostBuildHook
        } else if t == NIX_ACTIVITY_TYPE_BUILD_WAITING {
            ActivityType::BuildWaiting
        } else if t == NIX_ACTIVITY_TYPE_FETCH_TREE {
            ActivityType::FetchTree
        } else {
            ActivityType::Other(t)
        }
    }
}

/// Decoding an activity type loses nothing: the raw value can always be
/// read back, so two different raw values never decode to the same type.
pub proof fn lemma_activity_type_round_trip(t: u32, u: u32)
    ensures
        activity_type_code(activity_type_of_code(t)) == t,
        activity_type_of_code(t) == activity_type_of_code(u) ==> t == u,
{
}

/// Type of a result reported by an activity.
///
/// Only string-valued result types are delivered to
/// [`Logger::result_string`]; other variants exist for forward
/// compatibility.
#[derive(Debug, Clone, Copy, PartialEq, Eq, Hash, Structural)]
#[non_exhaustive]
pub enum ResultType {
    FileLinked,
    BuildLogLine,
    UntrustedPath,
    CorruptedPath,
    SetPhase,
    Progress,
    SetExpected,
    PostBuildLogLine,
    FetchStatus,
    HashMismatch,
    BuildResult,
    /// A result type not (yet) modelled by this crate.
    Other(u32),
}

/// The result type that the raw C value `t` stands for.
pub open spec fn result_type_of_code(t: u32) -> ResultType {
    if t == NIX_RESULT_TYPE_FILE_LINKED {
        ResultType::FileLinked
    } else if t == NIX_RESULT_TYPE_BUILD_LOG_LINE {
        ResultType::BuildLogLine
    } else if t == NIX_RESULT_TYPE_UNTRUSTED_PATH {
        ResultType::UntrustedPath
    } else if t == NIX_RESULT_TYPE_CORRUPTED_PATH {
        ResultType::CorruptedPath
    } else if t == NIX_RESULT_TYPE_SET_PHASE {
        ResultType::SetPhase
    } else if t == NIX_RESULT_TYPE_PROGRESS {
        ResultType::Progress
    } else if t == NIX_RESULT_TYPE_SET_EXPECTED {
        ResultType::SetExpected
    } else if t == NIX_RESULT_TYPE_POST_BUILD_LOG_LINE {
        ResultType::PostBuildLogLine
    } else if t == NIX_RESULT_TYPE_FETCH_STATUS {
        ResultType::FetchStatus
    } else if t == NIX_RESULT_TYPE_HASH_MISMATCH {
        ResultType::HashMismatch
    } else if t == NIX_RESULT_TYPE_BUILD_RESULT {
        ResultType::BuildResult
    } else {
        ResultType::Other(t)
    }
}

/// The raw C value of a result type.
pub open spec fn result_type_code(t: ResultType) -> u32 {
    match t {
        ResultType::FileLinked => NIX_RESULT_TYPE_FILE_LINKED,
        ResultType::BuildLogLine => NIX_RESULT_TYPE_BUILD_LOG_LINE,
        ResultType::UntrustedPath => NIX_RESULT_TYPE_UNTRUSTED_PATH,
        ResultType::CorruptedPath => NIX_RESULT_TYPE_CORRUPTED_PATH,
        ResultType::SetPhase => NIX_RESULT_TYPE_SET_PHASE,
        ResultType::Progress => NIX_RESULT_TYPE_PROGRESS,
        ResultType::SetExpected => NIX_RESULT_TYPE_SET_EXPECTED,
        ResultType::PostBuildLogLine => NIX_RESULT_TYPE_POST_BUILD_LOG_LINE,
        ResultType::FetchStatus => NIX_RESULT_TYPE_FETCH_STATUS,
        ResultType::HashMismatch => NIX_RESULT_TYPE_HASH_MISMATCH,
        ResultType::BuildResult => NIX_RESULT_TYPE_BUILD_RESULT,
        ResultType::Other(t) => t,
    }
}

impl ResultType {
    /// Decodes a raw `nix_result_type` value; values that no variant names
    /// are kept in `Other`.
    pub fn from_raw(t: u32) -> (res: Self)
        ensures
            res == result_type_of_code(t),
    {
        if t == NIX_RESULT_TYPE_FILE_LINKED {
            ResultType::FileLinked
        } else if t == NIX_RESULT_TYPE_BUILD_LOG_LINE {
            ResultType::BuildLogLine
        } else if t == NIX_RESULT_TYPE_UNTRUSTED_PATH {
            ResultType::UntrustedPath
        } else if t == NIX_RESULT_TYPE_CORRUPTED_PATH {
            ResultType::CorruptedPath
        } else if t == NIX_RESULT_TYPE_SET_PHASE {
            ResultType::SetPhase
        } else if t == NIX_RESULT_TYPE_PROGRESS {
            ResultType::Progress
        } else if t == NIX_RESULT_TYPE_SET_EXPECTED {
            ResultType::SetExpected
        } else if t == NIX_RESULT_TYPE_POST_BUILD_LOG_LINE {
            ResultType::PostBuildLogLine
        } else if t == NIX_RESULT_TYPE_FETCH_STATUS {
            ResultType::FetchStatus
        } else if t == NIX_RESULT_TYPE_HASH_MISMATCH {
            ResultType::HashMismatch
        } else if t == NIX_RESULT_TYPE_BUILD_RESULT {
            ResultType::BuildResult
        } else {
            ResultType::Other(t)
        }
    }
}

/// Decoding a result type loses nothing: the raw value can always be read
/// back, so two different raw values never decode to the same type.
pub proof fn lemma_result_type_round_trip(t: u32, u: u32)
    ensures
        result_type_code(result_type_of_code(t)) == t,
        result_type_of_code(t) == result_type_of_code(u) ==> t == u,
{
}

/// A logger that receives messages from Nix.
///
/// Implementations must be [`Send`] and [`Sync`] because Nix may
/// invoke the callbacks from arbitrary threads (e.g. during parallel
/// builds).
///
/// All methods have empty default implementations, so an
/// implementation only needs to override the events it cares about.
pub trait Logger: Send + Sync {
    /// An ordinary log message.
    ///
    /// Receives `builtins.trace` output, formatted warnings/errors,
    /// and messages produced through the C++ `printError` /
    /// `printInfo` / `debug` macros.
    fn log(&self, _level: Verbosity, _msg: &str) {
    }

    /// An activity (build, substitution, ...) has started.
    ///
    /// `parent_id` is `0` for top-level activities.
    fn start_activity(
        &self,
        _activity_id: ActivityId,
        _level: Verbosity,
        _type_: ActivityType,
        _description: &str,
        _parent_id: ActivityId,
    ) {
    }

    /// An activity has stopped.
    fn stop_activity(&self, _activity_id: ActivityId) {
    }

    /// An activity reported a string-valued result.
    ///
    /// Result types that carry non-string fields (such as
    /// [`ResultType::Progress`]) are not delivered through this
    /// method.
    fn result_string(&self, _activity_id: ActivityId, _type_: ResultType, _msg: &str) {
    }
}

/// What `String::from_utf8_lossy` makes of `bytes`.
pub uninterp spec fn lossy_utf8(bytes: Seq<u8>) -> Seq<char>;

/// `String::from_utf8_lossy`, taken as an owned `String`. Claimed: the
/// result is a function of the bytes alone, and, as std documents, valid
/// UTF-8 is decoded unchanged. Not claimed: how invalid sequences are
/// replaced.
#[verifier::external_body]
fn string_from_utf8_lossy(bytes: &[u8]) -> (res: String)
    ensures
        res@ == lossy_utf8(bytes@),
        valid_utf8(bytes@) ==> res@ == decode_utf8(bytes@),
{
    String::from_utf8_lossy(bytes).into_owned()
}

/// The text of a message handed over as an optional C string: a missing
/// (null) string is the empty text, any other is decoded lossily.
pub open spec fn message_text_of(msg: Option<Seq<u8>>) -> Seq<char> {
    match msg {
        None => Seq::empty(),
        Some(bytes) => lossy_utf8(bytes),
    }
}

/// The bytes of an optional C string, by value.
pub open spec fn bytes_of(msg: Option<&[u8]>) -> Option<Seq<u8>> {
    match msg {
        None => None,
        Some(b) => Some(b@),
    }
}

/// Decodes the message text of a logger callback. `None` stands for a
/// null C string.
pub fn message_text(msg: Option<&[u8]>) -> (res: String)
    ensures
        res@ == message_text_of(bytes_of(msg)),
        msg matches Some(b) ==> (valid_utf8(b@) ==> res@ == decode_utf8(b@)),
{
    match msg {
        None => String::new(),
        Some(bytes) => string_from_utf8_lossy(bytes),
    }
}

/// One callback of Nix's logger, decoded.
#[derive(Debug, Clone, PartialEq, Eq)]
pub enum LoggerEvent {
    Log { level: Verbosity, msg: String },
    StartActivity {
        activity_id: ActivityId,
        level: Verbosity,
        activity_type: ActivityType,
        description: String,
        parent_id: ActivityId,
    },
    StopActivity { activity_id: ActivityId },
    ResultString { activity_id: ActivityId, result_type: ResultType, msg: String },
}

/// Decodes the arguments of the `log` callback.
pub fn log_event(level: u32, msg: Option<&[u8]>) -> (ev: LoggerEvent)
    ensures
        ev matches LoggerEvent::Log { level: l, msg: m } && l == verbosity_of_code(level)
            && m@ == message_text_of(bytes_of(msg)),
{
    LoggerEvent::Log { level: Verbosity::from_raw(level), msg: message_text(msg) }
}

/// Decodes the arguments of the `start_activity` callback.
pub fn start_activity_event(
    activity_id: ActivityId,
    level: u32,
    type_: u32,
    description: Option<&[u8]>,
    parent_id: ActivityId,
) -> (ev: LoggerEvent)
    ensures
        ev matches LoggerEvent::StartActivity { activity_id: a, level: l, activity_type: t, description: d, parent_id: p }
            && a == activity_id && l == verbosity_of_code(level) && t == activity_type_of_code(type_)
            && d@ == message_text_of(bytes_of(description)) && p == parent_id,
{
    LoggerEvent::StartActivity {
        activity_id,
        level: Verbosity::from_raw(level),
        activity_type: ActivityType::from_raw(type_),
        description: message_text(description),
        parent_id,
    }
}

/// Decodes the arguments of the `stop_activity` callback.
pub fn stop_activity_event(activity_id: ActivityId) -> (ev: LoggerEvent)
    ensures
        ev == (LoggerEvent::StopActivity { activity_id }),
{
    LoggerEvent::StopActivity { activity_id }
}

/// Decodes the arguments of the `result_string` callback.
pub fn result_string_event(activity_id: ActivityId, type_: u32, msg: Option<&[u8]>) -> (ev: LoggerEvent)
    ensures
        ev matches LoggerEvent::ResultString { activity_id: a, result_type: t, msg: m } && a == activity_id
            && t == result_type_of_code(type_) && m@ == message_text_of(bytes_of(msg)),
{
    LoggerEvent::ResultString {
        activity_id,
        result_type: ResultType::from_raw(type_),
        msg: message_text(msg),
    }
}

/// Hands a decoded event to the logger method that receives it: a log
/// message to `log`, the start of an activity to `start_activity`, its end
/// to `stop_activity` and a string result to `result_string`, each with
/// the event's fields as they are.
pub fn deliver<L: Logger + ?Sized>(logger: &L, event: &LoggerEvent)
    ensures
        event matches LoggerEvent::Log { level, msg } ==> exists|s: &str|
            s@ == msg@ && #[trigger] call_ensures(L::log, (logger, *level, s), ()),
        event matches LoggerEvent::StartActivity { activity_id, level, activity_type, description, parent_id }
            ==> exists|s: &str|
            s@ == description@ && #[trigger] call_ensures(
                L::start_activity,
                (logger, *activity_id, *level, *activity_type, s, *parent_id),
                (),
            ),
        event matches LoggerEvent::StopActivity { activity_id } ==> call_ensures(
            L::stop_activity,
            (logger, *activity_id),
            (),
        ),
        event matches LoggerEvent::ResultString { activity_id, result_type, msg } ==> exists|s: &str|
            s@ == msg@ && #[trigger] call_ensures(L::result_string, (logger, *activity_id, *result_type, s), ()),
{
    match event {
        LoggerEvent::Log { level, msg } => logger.log(*level, msg.as_str()),
        LoggerEvent::StartActivity { activity_id, level, activity_type, description, parent_id } => {
            logger.start_activity(*activity_id, *level, *activity_type, description.as_str(), *parent_id)
        },
        LoggerEvent::StopActivity { activity_id } => logger.stop_activity(*activity_id),
        LoggerEvent::ResultString { activity_id, result_type, msg } => {
            logger.result_string(*activity_id, *result_type, msg.as_str())
        },
    }
}

} // verus!
