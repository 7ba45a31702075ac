//! The startup sequence: connect to the database, sign in as root, select
//! the namespace and database, then start listening. Each step runs outside
//! (it awaits the network); this module decides, from the outcome of each
//! step, what to do next. A failed step aborts the start before any socket
//! is bound, and says which step failed.

use vstd::prelude::*;

verus! {

/// Address of the database server.
pub const DB_ENDPOINT: &'static str = "127.0.0.1:8000";

/// Root user name used to sign in.
pub const DB_USERNAME: &'static str = "test";

/// Root password used to sign in.
pub const DB_PASSWORD: &'static str = "test";

/// Namespace selected after signing in.
pub const DB_NAMESPACE: &'static str = "axum_test";

/// Database selected after signing in.
pub const DB_DATABASE: &'static str = "axum_test";

/// TCP port the HTTP server listens on, on every interface.
pub const LISTEN_PORT: u16 = 7878;

/// Context given when opening the connection fails.
pub const CONNECT_FAILED: &'static str = "failed to connect to the database server";

/// Context given when signing in fails.
pub const SIGN_IN_FAILED: &'static str = "failed to sign in to the database as root";

/// Context given when selecting the namespace and database fails.
pub const SELECT_SCOPE_FAILED: &'static str = "failed to select the namespace and database";

/// The fixed parameters of the startup sequence.
#[derive(Clone, Debug)]
pub struct Settings {
    pub endpoint: String,
    pub username: String,
    pub password: String,
    pub namespace: String,
    pub database: String,
    pub port: u16,
}

impl Settings {
    /// The built-in settings: the local database server, root credentials
    /// `test`/`test`, scope `axum_test`/`axum_test`, port 7878.
    pub fn fixed() -> (r: Settings)
        ensures
            r.endpoint@ == DB_ENDPOINT@,
            r.username@ == DB_USERNAME@,
            r.password@ == DB_PASSWORD@,
            r.namespace@ == DB_NAMESPACE@,
            r.database@ == DB_DATABASE@,
            r.port == LISTEN_PORT,
    {
        Settings {
            endpoint: DB_ENDPOINT.to_owned(),
            username: DB_USERNAME.to_owned(),
            password: DB_PASSWORD.to_owned(),
            namespace: DB_NAMESPACE.to_owned(),
            database: DB_DATABASE.to_owned(),
            port: LISTEN_PORT,
        }
    }
}

/// One of the three fallible startup steps.
#[derive(Clone, Copy, Debug, PartialEq, Eq, Structural)]
pub enum Step {
    Connect,
    SignIn,
    SelectScope,
}

/// Where the startup sequence stands.
#[derive(Clone, Copy, Debug, PartialEq, Eq, Structural)]
pub enum Stage {
    /// The given step is the next to run.
    Pending(Step),
    /// All three steps succeeded: the server may listen.
    Ready,
    /// The given step failed: the process stops without listening.
    Failed(Step),
}

/// What the caller must do next.
#[derive(Clone, Debug)]
pub enum Action {
    /// Open a connection to the database server at `endpoint`.
    Connect { endpoint: String },
    /// Sign in on the root scope with these credentials.
    SignIn { username: String, password: String },
    /// Make this namespace and database the session's scope.
    SelectScope { namespace: String, database: String },
    /// Bind every interface on `port` and serve requests.
    Listen { port: u16 },
    /// Stop the process, reporting the failure under `context`.
    Abort { context: String },
}

/// The stage that follows `stage` once its step has run, with `succeeded`
/// telling whether it did. Finished stages stay as they are.
pub open spec fn next_stage(stage: Stage, succeeded: bool) -> Stage {
    match stage {
        Stage::Pending(step) => {
            if !succeeded {
                Stage::Failed(step)
            } else {
                match step {
                    Step::Connect => Stage::Pending(Step::SignIn),
                    Step::SignIn => Stage::Pending(Step::SelectScope),
                    Step::SelectScope => Stage::Ready,
                }
            }
        },
        _ => stage,
    }
}

/// The stage reached from the start after the steps reported `outcomes`, in
/// order.
pub open spec fn stage_after(outcomes: Seq<bool>) -> Stage
    decreases outcomes.len(),
{
    if outcomes.len() == 0 {
        Stage::Pending(Step::Connect)
    } else {
        next_stage(stage_after(outcomes.drop_last()), outcomes.last())
    }
}

/// The context that names a failed step.
pub open spec fn failure_context(step: Step) -> Seq<char> {
    match step {
        Step::Connect => CONNECT_FAILED@,
        Step::SignIn => SIGN_IN_FAILED@,
        Step::SelectScope => SELECT_SCOPE_FAILED@,
    }
}

/// Whether `action` is the one owed in `stage` under `settings`.
pub open spec fn action_for(settings: Settings, stage: Stage, action: Action) -> bool {
    match stage {
        Stage::Pending(Step::Connect) => action matches Action::Connect { endpoint }
            && endpoint@ == settings.endpoint@,
        Stage::Pending(Step::SignIn) => action matches Action::SignIn { username, password }
            && username@ == settings.username@ && password@ == settings.password@,
        Stage::Pending(Step::SelectScope) => action matches Action::SelectScope {
            namespace,
            database,
        } && namespace@ == settings.namespace@ && database@ == settings.database@,
        Stage::Ready => action matches Action::Listen { port } && port == settings.port,
        Stage::Failed(step) => action matches Action::Abort { context } && context@
            == failure_context(step),
    }
}

/// The step run in position `k` (counted from zero) of the sequence.
pub open spec fn step_at(k: nat) -> Step {
    if k == 0 {
        Step::Connect
    } else if k == 1 {
        Step::SignIn
    } else {
        Step::SelectScope
    }
}

/// Whether the steps run in positions `0..k` all succeeded.
pub open spec fn all_succeeded(outcomes: Seq<bool>, k: nat) -> bool {
    forall|j: int| 0 <= j < k && j < outcomes.len() ==> #[trigger] outcomes[j]
}

/// While every step has succeeded, the stage is the next pending step, or
/// ready once all three ran.
proof fn lemma_stage_while_succeeding(outcomes: Seq<bool>)
    requires
        all_succeeded(outcomes, 3),
    ensures
        stage_after(outcomes) == (if outcomes.len() >= 3 {
            Stage::Ready
        } else {
            Stage::Pending(step_at(outcomes.len()))
        }),
    decreases outcomes.len(),
{
    if outcomes.len() > 0 {
        let prefix = outcomes.drop_last();
        assert(all_succeeded(prefix, 3)) by {
            assert forall|j: int| 0 <= j < 3 && j < prefix.len() implies #[trigger] prefix[j] by {
                assert(prefix[j] == outcomes[j]);
            }
        }
        lemma_stage_while_succeeding(prefix);
        if outcomes.len() <= 3 {
            assert(outcomes.last() == outcomes[outcomes.len() - 1]);
        }
    }
}

/// After the step in position `k` failed, all earlier ones having
/// succeeded, the stage is that failure, whatever is reported afterwards.
proof fn lemma_stage_after_failure(outcomes: Seq<bool>, k: nat)
    requires
        k < 3,
        k < outcomes.len(),
        !outcomes[k as int],
        all_succeeded(outcomes, k),
    ensures
        stage_after(outcomes) == Stage::Failed(step_at(k)),
    decreases outcomes.len(),
{
    let prefix = outcomes.drop_last();
    if outcomes.len() == k + 1 {
        assert(all_succeeded(prefix, 3)) by {
            assert forall|j: int| 0 <= j < 3 && j < prefix.len() implies #[trigger] prefix[j] by {
                assert(prefix[j] == outcomes[j]);
            }
        }
        lemma_stage_while_succeeding(prefix);
        assert(outcomes.last() == outcomes[k as int]);
    } else {
        assert(prefix[k as int] == outcomes[k as int]);
        assert(all_succeeded(prefix, k)) by {
            assert forall|j: int| 0 <= j < k && j < prefix.len() implies #[trigger] prefix[j] by {
                assert(prefix[j] == outcomes[j]);
            }
        }
        lemma_stage_after_failure(prefix, k);
    }
}

/// The server listens only after all three steps succeeded: the sequence
/// reaches the stage that asks to listen exactly when connecting, signing in
/// and selecting the scope have each succeeded, in that order.
pub proof fn lemma_ready_iff_every_step_succeeded(outcomes: Seq<bool>)
    ensures
        stage_after(outcomes) == Stage::Ready <==> (outcomes.len() >= 3 && outcomes[0] && outcomes[1]
            && outcomes[2]),
{
    if all_succeeded(outcomes, 3) {
        lemma_stage_while_succeeding(outcomes);
    } else {
        if !outcomes[0] {
            lemma_stage_after_failure(outcomes, 0);
        } else if !outcomes[1] {
            assert(all_succeeded(outcomes, 1));
            lemma_stage_after_failure(outcomes, 1);
        } else {
            assert(all_succeeded(outcomes, 2));
            lemma_stage_after_failure(outcomes, 2);
        }
    }
}

/// A failed step stops the start before any socket is bound: once the step
/// in position `k` has failed, all earlier ones having succeeded, the
/// sequence is failed at that step for good, and the action it owes is to
/// abort, naming that step, never to listen.
pub proof fn lemma_failure_aborts_before_listening(
    settings: Settings,
    outcomes: Seq<bool>,
    k: nat,
    action: Action,
)
    requires
        k < 3,
        k < outcomes.len(),
        !outcomes[k as int],
        all_succeeded(outcomes, k),
        action_for(settings, stage_after(outcomes), action),
    ensures
        stage_after(outcomes) == Stage::Failed(step_at(k)),
        action matches Action::Abort { context } && context@ == failure_context(step_at(k)),
        !(action is Listen),
{
    lemma_stage_after_failure(outcomes, k);
}

/// The startup sequence: its settings and how far it has come.
#[derive(Clone, Debug)]
pub struct Bootstrap {
    settings: Settings,
    stage: Stage,
}

impl Bootstrap {
    /// The settings the sequence runs with.
    pub closed spec fn settings_spec(&self) -> Settings {
        self.settings
    }

    /// How far the sequence has come.
    pub closed spec fn stage_spec(&self) -> Stage {
        self.stage
    }

    /// A sequence that has run no step yet.
    pub fn new(settings: Settings) -> (r: Bootstrap)
        ensures
            r.settings_spec() == settings,
            r.stage_spec() == Stage::Pending(Step::Connect),
    {
        Bootstrap { settings, stage: Stage::Pending(Step::Connect) }
    }

    /// How far the sequence has come.
    pub fn stage(&self) -> (r: Stage)
        ensures
            r == self.stage_spec(),
    {
        self.stage
    }

    /// Whether the sequence is over, either ready to listen or failed.
    pub fn is_finished(&self) -> (r: bool)
        ensures
            r == !(self.stage_spec() is Pending),
    {
        !matches!(self.stage, Stage::Pending(_))
    }

    /// The action owed in the current stage.
    pub fn action(&self) -> (r: Action)
        ensures
            action_for(self.settings_spec(), self.stage_spec(), r),
    {
        match self.stage {
            Stage::Pending(Step::Connect) => Action::Connect {
                endpoint: self.settings.endpoint.clone(),
            },
            Stage::Pending(Step::SignIn) => Action::SignIn {
                username: self.settings.username.clone(),
                password: self.settings.password.clone(),
            },
            Stage::Pending(Step::SelectScope) => Action::SelectScope {
                namespace: self.settings.namespace.clone(),
                database: self.settings.database.clone(),
            },
            Stage::Ready => Action::Listen { port: self.settings.port },
            Stage::Failed(step) => {
                let context = match step {
                    Step::Connect => CONNECT_FAILED,
                    Step::SignIn => SIGN_IN_FAILED,
                    Step::SelectScope => SELECT_SCOPE_FAILED,
                };
                Action::Abort { context: context.to_owned() }
            },
        }
    }

    /// Records the outcome of the step that was last asked for and returns
    /// the next action.
    pub fn advance(&mut self, succeeded: bool) -> (r: Action)
        ensures
            final(self).settings_spec() == old(self).settings_spec(),
            final(self).stage_spec() == next_stage(old(self).stage_spec(), succeeded),
            action_for(final(self).settings_spec(), final(self).stage_spec(), r),
    {
        self.stage = match self.stage {
            Stage::Pending(step) => {
                if !succeeded {
                    Stage::Failed(step)
                } else {
                    match step {
                        Step::Connect => Stage::Pending(Step::SignIn),
                        Step::SignIn => Stage::Pending(Step::SelectScope),
                        Step::SelectScope => Stage::Ready,
                    }
                }
            },
            done => done,
        };
        self.action()
    }
}

} // verus!
