//! The lifecycle of the engine's process-wide state.
//!
//! The engine must be configured once before it is used and must not be used
//! after it has been closed. An [`Ephemeris`] value records where in that
//! protocol the process stands. The functions here decide, from that record
//! alone, which engine call is due; the caller makes the call while it holds
//! the record exclusively, so that each transition happens once however many
//! callers ask for it.
//!
//! To use the engine outside the protocol is an error of the program, not a
//! result: the operations demand a ready engine of their callers. A caller
//! that cannot know the phase asks first, with [`readiness_violation`] and
//! its like, and stops on the violation that it is given.

use vstd::prelude::*;
use vstd::string::StringExecFns;

verus! {

/// Where the engine stands between configuration and teardown.
#[derive(Clone, Copy, Debug, PartialEq, Eq, Structural)]
pub enum Phase {
    /// No data path has been configured; the engine must not be used.
    Uninitialized,
    /// The data path has been configured; the engine may be used.
    Ready,
    /// The engine has been closed; it must never be used again.
    Closed,
}

/// The ways in which a caller can break the lifecycle protocol or the
/// engine can break its buffer contract. None of them is a computation
/// error: a program that meets one is wrong and is expected to stop.
#[derive(Clone, Copy, Debug, PartialEq, Eq, Structural)]
pub enum MisuseKind {
    /// An operation was asked for before the data path was configured.
    NotConfigured,
    /// An operation was asked for after the engine was closed.
    UsedAfterClose,
    /// The data path given to the configuration is no directory.
    NotADirectory,
    /// The auxiliary file is not to be found under the data path.
    MissingFile,
    /// The engine left text in a buffer that is not UTF-8.
    MalformedText,
}

/// A violation of the protocol, with the operation that met it.
#[derive(Clone, Debug, PartialEq, Eq)]
pub struct Misuse {
    pub kind: MisuseKind,
    pub operation: String,
}

/// What the caller has to tell the engine after a configuration request.
#[derive(Clone, Copy, Debug, PartialEq, Eq, Structural)]
pub enum PathDirective {
    /// The engine is configured already: make no call.
    Keep,
    /// Hand the engine no path, so that it resolves its own default.
    EngineDefault,
    /// Hand the engine the configured path, as [`get_ephe_path`] gives it.
    Explicit,
}

/// The record of the engine's lifecycle, with the data path that the engine
/// was configured with.
pub struct Ephemeris {
    phase: Phase,
    path: String,
}

/// What an [`Ephemeris`] stands for: the phase, and the configured path.
/// The path is empty until a path is handed to the engine, and also where
/// the engine was left to its default.
pub struct EphemerisView {
    pub phase: Phase,
    pub path: Seq<char>,
}

impl EphemerisView {
    /// A path is only ever recorded together with the step to `Ready`.
    pub open spec fn wf(self) -> bool {
        self.phase == Phase::Uninitialized ==> self.path.len() == 0
    }
}

impl View for Ephemeris {
    type V = EphemerisView;

    closed spec fn view(&self) -> EphemerisView {
        EphemerisView { phase: self.phase, path: self.path@ }
    }
}

/// The violation that an operation meets in the given phase, if any. A closed
/// engine is reported as closed whether or not it was ever configured.
pub open spec fn readiness(phase: Phase) -> Option<MisuseKind> {
    match phase {
        Phase::Closed => Some(MisuseKind::UsedAfterClose),
        Phase::Uninitialized => Some(MisuseKind::NotConfigured),
        Phase::Ready => None,
    }
}

/// Whether `r` is the violation of the given kind, met by `operation`.
pub open spec fn is_violation(r: Option<Misuse>, kind: MisuseKind, operation: Seq<char>) -> bool {
    r matches Some(m) && m.kind == kind && m.operation@ == operation
}

/// The view of an optional path.
pub open spec fn path_view(path: Option<&str>) -> Option<Seq<char>> {
    match path {
        Some(p) => Some(p@),
        None => None,
    }
}

/// What a configuration request comes to: the call that is owed to the
/// engine, or the violation that the request would be.
///
/// Only the first request in an unconfigured state decides anything: there
/// an override from the environment wins over the argument, a path that is
/// given must be a directory, and no path leaves the choice to the engine.
/// Once the engine is ready every request is answered by `Keep`, whatever
/// its arguments.
pub open spec fn configure_outcome(
    state: EphemerisView,
    env_override: bool,
    path: Option<Seq<char>>,
    path_is_dir: bool,
) -> Result<PathDirective, MisuseKind> {
    match state.phase {
        Phase::Closed => Err(MisuseKind::UsedAfterClose),
        Phase::Ready => Ok(PathDirective::Keep),
        Phase::Uninitialized => {
            if env_override || path is None {
                Ok(PathDirective::EngineDefault)
            } else if path_is_dir {
                Ok(PathDirective::Explicit)
            } else {
                Err(MisuseKind::NotADirectory)
            }
        },
    }
}

/// The state after a configuration request. A request that is refused, or
/// answered by `Keep`, changes nothing.
pub open spec fn configure_next(
    state: EphemerisView,
    env_override: bool,
    path: Option<Seq<char>>,
    path_is_dir: bool,
) -> EphemerisView {
    match configure_outcome(state, env_override, path, path_is_dir) {
        Ok(PathDirective::EngineDefault) => EphemerisView { phase: Phase::Ready, path: state.path },
        Ok(PathDirective::Explicit) => EphemerisView { phase: Phase::Ready, path: path->0 },
        _ => state,
    }
}

/// The state after a teardown request.
pub open spec fn close_next(state: EphemerisView) -> EphemerisView {
    EphemerisView { phase: Phase::Closed, path: state.path }
}

/// Whether a teardown request in `state` has the engine closed.
pub open spec fn close_invokes_engine(state: EphemerisView) -> bool {
    state.phase != Phase::Closed
}

/// The violation in a request to load an auxiliary file: `None` where the
/// engine may be told to load it.
pub open spec fn jpl_file_outcome(phase: Phase, file_exists: bool) -> Option<MisuseKind> {
    match readiness(phase) {
        Some(kind) => Some(kind),
        None => if file_exists {
            None
        } else {
            Some(MisuseKind::MissingFile)
        },
    }
}

/// The text before the operation's name in the message of a violation.
pub open spec fn message_head(kind: MisuseKind) -> Seq<char> {
    match kind {
        MisuseKind::MalformedText => "The engine answered `"@,
        _ => "Attempted to call `"@,
    }
}

/// The text after the operation's name in the message of a violation.
pub open spec fn message_tail(kind: MisuseKind) -> Seq<char> {
    match kind {
        MisuseKind::NotConfigured => "` before setting the ephemeris path."@,
        MisuseKind::UsedAfterClose => "` after the ephemeris files were closed."@,
        MisuseKind::NotADirectory => "` with an ephemeris path that is not a directory."@,
        MisuseKind::MissingFile => "` with a file that is not in the ephemeris path."@,
        MisuseKind::MalformedText => "` with text that is not UTF-8."@,
    }
}

impl Misuse {
    /// The violation of the given kind, met by `operation`.
    pub fn new(kind: MisuseKind, operation: &str) -> (m: Misuse)
        ensures
            m.kind == kind,
            m.operation@ == operation@,
    {
        Misuse { kind, operation: operation.to_owned() }
    }

    /// The message with which a program stops on this violation.
    pub fn message(&self) -> (text: String)
        ensures
            text@ == message_head(self.kind) + self.operation@ + message_tail(self.kind),
    {
        let head: &str = match self.kind {
            MisuseKind::MalformedText => "The engine answered `",
            _ => "Attempted to call `",
        };
        let tail: &str = match self.kind {
            MisuseKind::NotConfigured => "` before setting the ephemeris path.",
            MisuseKind::UsedAfterClose => "` after the ephemeris files were closed.",
            MisuseKind::NotADirectory => "` with an ephemeris path that is not a directory.",
            MisuseKind::MissingFile => "` with a file that is not in the ephemeris path.",
            MisuseKind::MalformedText => "` with text that is not UTF-8.",
        };
        let mut text = head.to_owned();
        text.append(self.operation.as_str());
        text.append(tail);
        text
    }
}

impl Ephemeris {
    #[verifier::type_invariant]
    spec fn inv(self) -> bool {
        self.phase == Phase::Uninitialized ==> self.path@.len() == 0
    }

    /// The record of an engine that nobody has configured yet.
    pub fn new() -> (engine: Ephemeris)
        ensures
            engine@.phase == Phase::Uninitialized,
            engine@.path.len() == 0,
    {
        Ephemeris { phase: Phase::Uninitialized, path: String::new() }
    }

    /// The phase that the engine is in.
    pub fn phase(&self) -> (phase: Phase)
        ensures
            phase == self@.phase,
            self@.wf(),
    {
        proof {
            use_type_invariant(self);
        }
        self.phase
    }
}

/// The violation that `fn_name` would commit if it were called now: none
/// exactly where the engine is ready, use after close where the engine is
/// closed, and use before configuration where it never was configured.
pub fn readiness_violation(engine: &Ephemeris, fn_name: &str) -> (r: Option<Misuse>)
    ensures
        engine@.wf(),
        match readiness(engine@.phase) {
            Some(kind) => is_violation(r, kind, fn_name@),
            None => r is None,
        },
        r is None <==> engine@.phase == Phase::Ready,
{
    proof {
        use_type_invariant(engine);
    }
    match engine.phase {
        Phase::Closed => Some(Misuse::new(MisuseKind::UsedAfterClose, fn_name)),
        Phase::Uninitialized => Some(Misuse::new(MisuseKind::NotConfigured, fn_name)),
        Phase::Ready => None,
    }
}

/// Passes an operation on a ready engine.
///
/// Every operation on the engine begins here. That the engine is ready is
/// demanded of the caller: in no other phase may `fn_name` be called at
/// all.
pub fn assert_ephe_ready(engine: &Ephemeris, fn_name: &str)
    requires
        engine@.phase == Phase::Ready,
    ensures
        engine@.wf(),
        readiness(engine@.phase) is None,
{
    proof {
        use_type_invariant(engine);
    }
}

/// The violation that a configuration request would commit if it were made
/// now: use after close on a closed engine, and a path that is no directory
/// on the first request, where that path would be used.
pub fn configure_violation(
    engine: &Ephemeris,
    env_override: bool,
    path: Option<&str>,
    path_is_dir: bool,
) -> (r: Option<Misuse>)
    ensures
        match configure_outcome(engine@, env_override, path_view(path), path_is_dir) {
            Ok(_) => r is None,
            Err(kind) => is_violation(r, kind, "set_ephe_path"@),
        },
{
    match engine.phase {
        Phase::Closed => Some(Misuse::new(MisuseKind::UsedAfterClose, "set_ephe_path")),
        Phase::Ready => None,
        Phase::Uninitialized => {
            if env_override || path.is_none() || path_is_dir {
                None
            } else {
                Some(Misuse::new(MisuseKind::NotADirectory, "set_ephe_path"))
            }
        },
    }
}

/// Configures the engine's data path, once.
///
/// `env_override` says whether the environment names a data path of its
/// own, and `path_is_dir` whether `path` is an existing directory; the
/// caller finds out both. The answer is the call that the caller owes the
/// engine. In an unconfigured state the request decides the path and makes
/// the engine ready. In the `Ready` phase the request changes nothing and
/// asks for no call, whatever its arguments.
///
/// A closed engine must not be configured, and a path that the first
/// request would use must be a directory.
pub fn set_ephe_path(
    engine: &mut Ephemeris,
    env_override: bool,
    path: Option<&str>,
    path_is_dir: bool,
) -> (directive: PathDirective)
    requires
        old(engine)@.phase != Phase::Closed,
        (old(engine)@.phase == Phase::Uninitialized && !env_override && path is Some)
            ==> path_is_dir,
    ensures
        final(engine)@ == configure_next(old(engine)@, env_override, path_view(path), path_is_dir),
        final(engine)@.wf(),
        final(engine)@.phase == Phase::Ready,
        configure_outcome(old(engine)@, env_override, path_view(path), path_is_dir) == Ok::<
            PathDirective,
            MisuseKind,
        >(directive),
{
    proof {
        use_type_invariant(&*engine);
    }
    match engine.phase {
        Phase::Uninitialized => {
            engine.phase = Phase::Ready;
            if env_override {
                PathDirective::EngineDefault
            } else {
                match path {
                    Some(p) => {
                        engine.path = p.to_owned();
                        PathDirective::Explicit
                    },
                    None => PathDirective::EngineDefault,
                }
            }
        },
        _ => PathDirective::Keep,
    }
}

/// Closes the engine, once.
///
/// Returns whether the caller has to invoke the engine's close now: it has
/// on the first request and on no later one. After the request the engine
/// is closed for good.
pub fn close(engine: &mut Ephemeris) -> (invoke: bool)
    ensures
        final(engine)@ == close_next(old(engine)@),
        final(engine)@.wf(),
        invoke == close_invokes_engine(old(engine)@),
{
    match engine.phase {
        Phase::Closed => false,
        _ => {
            engine.phase = Phase::Closed;
            true
        },
    }
}

/// The data path that the engine was handed at configuration; empty where
/// it was handed none.
pub fn get_ephe_path(engine: &Ephemeris) -> (path: &str)
    ensures
        path@ == engine@.path,
        engine@.wf(),
{
    proof {
        use_type_invariant(engine);
    }
    engine.path.as_str()
}

/// The violation that a request to load an auxiliary file would commit if
/// it were made now. `file_exists` says whether a file of that name lies
/// under the configured path; the caller finds that out. The phase is
/// looked at first.
pub fn jpl_file_violation(engine: &Ephemeris, file_exists: bool) -> (r: Option<Misuse>)
    ensures
        match jpl_file_outcome(engine@.phase, file_exists) {
            Some(kind) => is_violation(r, kind, "set_jpl_file"@),
            None => r is None,
        },
        r is None <==> engine@.phase == Phase::Ready && file_exists,
{
    match readiness_violation(engine, "set_jpl_file") {
        Some(m) => Some(m),
        None => {
            if file_exists {
                None
            } else {
                Some(Misuse::new(MisuseKind::MissingFile, "set_jpl_file"))
            }
        },
    }
}

/// The name under which the engine is to be told to load the auxiliary
/// file `filename`: an owned copy of it.
///
/// The engine must be ready, and the file must lie under the configured
/// path.
pub fn set_jpl_file(engine: &Ephemeris, filename: &str, file_exists: bool) -> (name: String)
    requires
        engine@.phase == Phase::Ready,
        file_exists,
    ensures
        name@ == filename@,
{
    assert_ephe_ready(engine, "set_jpl_file");
    filename.to_owned()
}

/// One configuration request, as the protocol sees it.
pub struct ConfigureRequest {
    pub env_override: bool,
    pub path: Option<Seq<char>>,
    pub path_is_dir: bool,
}

impl ConfigureRequest {
    /// What the request comes to in `state`.
    pub open spec fn outcome(self, state: EphemerisView) -> Result<PathDirective, MisuseKind> {
        configure_outcome(state, self.env_override, self.path, self.path_is_dir)
    }

    /// The state after the request.
    pub open spec fn next(self, state: EphemerisView) -> EphemerisView {
        configure_next(state, self.env_override, self.path, self.path_is_dir)
    }

    /// Whether the request has the caller hand the engine a path or its
    /// default.
    pub open spec fn calls_engine(self, state: EphemerisView) -> bool {
        self.outcome(state) == Ok::<PathDirective, MisuseKind>(PathDirective::EngineDefault)
            || self.outcome(state) == Ok::<PathDirective, MisuseKind>(PathDirective::Explicit)
    }

    /// Whether the request is one that an unconfigured engine accepts.
    pub open spec fn acceptable(self) -> bool {
        self.env_override || self.path is None || self.path_is_dir
    }
}

/// The state after a run of configuration requests, taken one after the
/// other.
pub open spec fn after_requests(state: EphemerisView, requests: Seq<ConfigureRequest>) -> EphemerisView
    decreases requests.len(),
{
    if requests.len() == 0 {
        state
    } else {
        after_requests(requests[0].next(state), requests.drop_first())
    }
}

/// How many requests of a run have the caller call the engine.
pub open spec fn engine_calls(state: EphemerisView, requests: Seq<ConfigureRequest>) -> nat
    decreases requests.len(),
{
    if requests.len() == 0 {
        0
    } else {
        let rest = engine_calls(requests[0].next(state), requests.drop_first());
        if requests[0].calls_engine(state) {
            1 + rest
        } else {
            rest
        }
    }
}

/// The three phases are told apart for every operation: only a ready engine
/// passes, an unconfigured one is reported as not configured, and a closed
/// one as used after close. A fresh record is unconfigured, a successful
/// configuration makes the engine ready, and a teardown closes it whatever
/// went before.
pub proof fn readiness_follows_lifecycle(
    state: EphemerisView,
    env_override: bool,
    path: Option<Seq<char>>,
    path_is_dir: bool,
)
    ensures
        readiness(state.phase) is None <==> state.phase == Phase::Ready,
        state.phase == Phase::Uninitialized ==> readiness(state.phase) == Some(
            MisuseKind::NotConfigured,
        ),
        readiness(close_next(state).phase) == Some(MisuseKind::UsedAfterClose),
        configure_outcome(state, env_override, path, path_is_dir) is Ok ==> readiness(
            configure_next(state, env_override, path, path_is_dir).phase,
        ) is None,
        configure_outcome(state, env_override, path, path_is_dir) is Err ==> configure_next(
            state,
            env_override,
            path,
            path_is_dir,
        ) == state,
{
}

/// Both transitions keep the record well-formed.
pub proof fn transitions_keep_wf(
    state: EphemerisView,
    env_override: bool,
    path: Option<Seq<char>>,
    path_is_dir: bool,
)
    requires
        state.wf(),
    ensures
        configure_next(state, env_override, path, path_is_dir).wf(),
        close_next(state).wf(),
{
}

/// Configuration is idempotent: after a request that was accepted, any
/// further request asks for no engine call and leaves the state as the
/// first one made it, so that the path of the first request stays.
pub proof fn configure_is_idempotent(
    state: EphemerisView,
    first: ConfigureRequest,
    second: ConfigureRequest,
)
    requires
        first.outcome(state) is Ok,
    ensures
        first.next(state).phase == Phase::Ready,
        second.outcome(first.next(state)) == Ok::<PathDirective, MisuseKind>(PathDirective::Keep),
        second.next(first.next(state)) == first.next(state),
        first.outcome(state) == Ok::<PathDirective, MisuseKind>(PathDirective::Explicit)
            ==> second.next(first.next(state)).path == first.path->0,
{
}

/// Teardown is idempotent: a second request changes nothing and has the
/// engine's close invoked no second time.
pub proof fn close_is_idempotent(state: EphemerisView)
    ensures
        close_next(close_next(state)) == close_next(state),
        !close_invokes_engine(close_next(state)),
        close_invokes_engine(state) <==> state.phase != Phase::Closed,
{
}

/// There is no way back from `Closed`: a closed engine refuses every
/// configuration and stays as it is.
pub proof fn closed_is_final(state: EphemerisView, request: ConfigureRequest)
    requires
        state.phase == Phase::Closed,
    ensures
        request.outcome(state) == Err::<PathDirective, MisuseKind>(MisuseKind::UsedAfterClose),
        request.next(state) == state,
        close_next(state) == state,
{
}

/// On a ready engine no run of configuration requests calls the engine or
/// changes anything.
pub proof fn ready_ignores_requests(state: EphemerisView, requests: Seq<ConfigureRequest>)
    requires
        state.phase == Phase::Ready,
    ensures
        engine_calls(state, requests) == 0,
        after_requests(state, requests) == state,
    decreases requests.len(),
{
    if requests.len() > 0 {
        ready_ignores_requests(state, requests.drop_first());
    }
}

/// However many acceptable requests are made to an unconfigured engine,
/// the engine is called for exactly one of them, the first, and all later
/// callers find the engine ready, as the first request left it.
pub proof fn configured_exactly_once(state: EphemerisView, requests: Seq<ConfigureRequest>)
    requires
        state.phase == Phase::Uninitialized,
        requests.len() > 0,
        forall|i: int| 0 <= i < requests.len() ==> (#[trigger] requests[i]).acceptable(),
    ensures
        engine_calls(state, requests) == 1,
        after_requests(state, requests) == requests[0].next(state),
        after_requests(state, requests).phase == Phase::Ready,
{
    assert(requests[0].acceptable());
    ready_ignores_requests(requests[0].next(state), requests.drop_first());
}

} // verus!
