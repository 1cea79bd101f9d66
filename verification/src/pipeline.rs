//! The orchestration pipeline: policy evaluation, the authorization
//! branch, authentication, environment assembly, the hand-off to the
//! executor, and cleanup.
//!
//! The plugins and the executor are capabilities chosen at construction
//! time. Each carries a ghost history of the calls made to it — what each
//! call was given and what it returned — so the pipeline's ordering
//! invariants — never execute before authorization is resolved, never skip
//! required authentication, always clean up once the pre-execution stage
//! has passed, judge the unrefined context and refine only afterwards —
//! are stated and proved over those histories.

use vstd::prelude::*;

use crate::context::{
    Context, ContextView, Environment, SudoOptions, build_view, get_target_environment, opt_view,
};
use crate::error::Error;

verus! {

/// How long a prior authentication remains valid.
#[derive(Clone, Copy, Debug, PartialEq, Eq, Structural)]
pub struct Duration {
    /// The span in seconds.
    pub seconds: u64,
}

/// The authorization decision, produced exactly once per invocation by the
/// policy's judgement.
#[derive(Clone, Copy, Debug, PartialEq, Eq, Structural)]
pub enum Authorization {
    /// Terminal: no further action is taken.
    Forbidden,
    /// The request may proceed.
    Allowed {
        /// Whether the user must authenticate before execution.
        must_authenticate: bool,
        /// How long a prior authentication remains valid.
        prior_validity: Duration,
        /// How many authentication attempts the mechanism may offer.
        allowed_attempts: u16,
    },
}

/// The decision's rule for the working-directory change request.
pub enum DirChange {
    /// The context's request passes through unchanged.
    Any,
    /// The context's request must match the current working directory, or
    /// the whole invocation is refused; otherwise the request is
    /// overwritten with this directory.
    Strict(Option<String>),
}

/// Why the executed command ended.
#[derive(Clone, Copy, Debug, PartialEq, Eq, Structural)]
pub enum ExitReason {
    /// The command exited with this code.
    Code(i32),
    /// The command was terminated by this signal.
    Signal(i32),
}

/// What the embedding program must do once the pipeline returns: exit with
/// the command's own code, or redeliver the fatal signal to the invoking
/// process rather than translate it into a code.
#[derive(Clone, Copy, Debug, PartialEq, Eq, Structural)]
pub enum ExitAction {
    /// Terminate the process with this exit code.
    Exit(i32),
    /// Redeliver the signal that terminated the command.
    DeliverSignal {
        /// The invoking process.
        pid: i32,
        /// The signal to redeliver.
        signal: i32,
    },
}

/// The decision as judged: the authorization and the refinement rules.
pub ghost struct JudgedView {
    pub authorization: Authorization,
    pub chdir_rule: DirChange,
    pub use_pty: bool,
}

/// One recorded call to the policy plugin, carrying what the call was
/// given and what it returned.
pub ghost enum PolicyEvent {
    /// `init` ran: it reported this secure PATH override, or failed with
    /// this error.
    Inited { result: Result<Option<Seq<char>>, Error> },
    /// `judge` ran on this context: it produced this decision, or failed
    /// with this error.
    Judged { context: ContextView, result: Result<JudgedView, Error> },
}

/// One recorded call to the authentication plugin, carrying the context it
/// received and what it returned.
pub ghost enum AuthEvent {
    /// `init` ran, failing with this error if any.
    Init { context: ContextView, failure: Option<Error> },
    /// `authenticate` ran with these parameters of the decision, failing
    /// with this error if any.
    Authenticate {
        context: ContextView,
        prior_validity: Duration,
        attempts: u16,
        failure: Option<Error>,
    },
    /// `pre_exec` ran: it returned these variables to inject, or failed.
    PreExec { context: ContextView, result: Result<Seq<(Seq<char>, Seq<char>)>, Error> },
    /// `cleanup` ran.
    Cleanup,
}

/// One recorded call to the executor, carrying the context and environment
/// it received and what it returned.
pub ghost enum ExecEvent {
    /// `run_command` ran.
    Run {
        context: ContextView,
        environment: Seq<(Seq<char>, Seq<char>)>,
        result: Result<ExitReason, std::io::Error>,
    },
    /// The terminal-state restoration hook ran.
    EmulateDefaultHandler,
}

/// The policy engine's initialization-time view, available before full
/// request context exists.
pub trait PreJudgementPolicy {
    /// The secure PATH override this view reports.
    open spec fn secure_path_spec(&self) -> Option<Seq<char>> {
        arbitrary()
    }

    /// The secure PATH override, if the policy has an opinion.
    fn secure_path(&self) -> (r: Option<String>)
        ensures
            opt_view(r) == self.secure_path_spec(),
    ;
}

/// The immutable decision object produced by judgement. Its accessors are
/// pure reads of that value.
pub trait Policy {
    /// The authorization this policy grants.
    open spec fn authorization_spec(&self) -> Authorization {
        arbitrary()
    }

    /// The working-directory rule of this policy.
    open spec fn chdir_spec(&self) -> DirChange {
        arbitrary()
    }

    /// Whether this policy permits a pseudo terminal.
    open spec fn use_pty_spec(&self) -> bool {
        arbitrary()
    }

    /// The authorization this policy grants.
    fn authorization(&self) -> (r: Authorization)
        ensures
            r == self.authorization_spec(),
    ;

    /// The working-directory rule of this policy.
    fn chdir(&self) -> (r: DirChange)
        ensures
            r == self.chdir_spec(),
    ;

    /// Whether this policy permits a pseudo terminal; `false` forces the
    /// pseudo terminal off, `true` never forces it on.
    fn use_pty(&self) -> (r: bool)
        ensures
            r == self.use_pty_spec(),
    ;
}

/// The two-phase policy capability: load the policy, then judge the full
/// request. Each call is recorded in a ghost history, with its result.
pub trait PolicyPlugin: Sized {
    /// The initialization-time view this plugin produces.
    type PreJudgementPolicy: PreJudgementPolicy;

    /// The decision object this plugin produces.
    type Policy: Policy;

    /// The calls made to this plugin so far.
    open spec fn history(&self) -> Seq<PolicyEvent> {
        arbitrary()
    }

    /// Load the policy and report the pre-judgement view.
    fn init(&mut self) -> (r: Result<Self::PreJudgementPolicy, Error>)
        ensures
            final(self).history() == old(self).history().push(
                PolicyEvent::Inited {
                    result: match r {
                        Ok(pre) => Ok(pre.secure_path_spec()),
                        Err(e) => Err(e),
                    },
                },
            ),
    ;

    /// Judge the request: produce the concrete, immutable decision.
    fn judge(&mut self, pre: Self::PreJudgementPolicy, context: &Context) -> (r: Result<
        Self::Policy,
        Error,
    >)
        ensures
            final(self).history() == old(self).history().push(
                PolicyEvent::Judged {
                    context: context@,
                    result: match r {
                        Ok(policy) => Ok(
                            JudgedView {
                                authorization: policy.authorization_spec(),
                                chdir_rule: policy.chdir_spec(),
                                use_pty: policy.use_pty_spec(),
                            },
                        ),
                        Err(e) => Err(e),
                    },
                },
            ),
    ;
}

/// The authentication capability. Each call is recorded in a ghost
/// history, with the context it received and its result.
pub trait AuthPlugin: Sized {
    /// The calls made to this plugin so far.
    open spec fn history(&self) -> Seq<AuthEvent> {
        arbitrary()
    }

    /// Prepare an authentication session for this request.
    fn init(&mut self, context: &Context) -> (r: Result<(), Error>)
        ensures
            final(self).history() == old(self).history().push(
                AuthEvent::Init {
                    context: context@,
                    failure: match r {
                        Ok(_) => None,
                        Err(e) => Some(e),
                    },
                },
            ),
    ;

    /// Challenge the user through the conversation mechanism. Retry
    /// semantics within `attempts` are this plugin's concern, not the
    /// pipeline's.
    fn authenticate(&mut self, context: &Context, prior_validity: Duration, attempts: u16) -> (r:
        Result<(), Error>)
        ensures
            final(self).history() == old(self).history().push(
                AuthEvent::Authenticate {
                    context: context@,
                    prior_validity,
                    attempts,
                    failure: match r {
                        Ok(_) => None,
                        Err(e) => Some(e),
                    },
                },
            ),
    ;

    /// The additional environment variables to inject into the command's
    /// environment.
    fn pre_exec(&mut self, context: &Context) -> (r: Result<Environment, Error>)
        ensures
            final(self).history() == old(self).history().push(
                AuthEvent::PreExec {
                    context: context@,
                    result: match r {
                        Ok(env) => Ok(env@),
                        Err(e) => Err(e),
                    },
                },
            ),
    ;

    /// Release the authentication-session resources. Best-effort: it has
    /// no failure to report.
    fn cleanup(&mut self)
        ensures
            final(self).history() == old(self).history().push(AuthEvent::Cleanup),
    ;
}

/// The low-level process executor, an external collaborator reached
/// through a narrow interface. Each call is recorded in a ghost history,
/// with what it received and returned.
pub trait Executor: Sized {
    /// The calls made to this executor so far.
    open spec fn history(&self) -> Seq<ExecEvent> {
        arbitrary()
    }

    /// Run the resolved command under the given environment and report why
    /// it ended.
    fn run_command(&mut self, context: &Context, environment: &Environment) -> (r: Result<
        ExitReason,
        std::io::Error,
    >)
        ensures
            final(self).history() == old(self).history().push(
                ExecEvent::Run { context: context@, environment: environment@, result: r },
            ),
    ;

    /// Restore terminal state as the default signal handling would; runs
    /// before any termination path.
    fn emulate_default_handler(&mut self)
        ensures
            final(self).history() == old(self).history().push(ExecEvent::EmulateDefaultHandler),
    ;
}

/// True when a strict rule refuses the request: the context already
/// carries an explicit change request that differs from the current
/// working directory (or that directory is unknown).
pub open spec fn chdir_rejected(requested: Option<Seq<char>>, cwd: Option<Seq<char>>) -> bool {
    requested matches Some(d) && !(cwd matches Some(c) && c == d)
}

/// True when the decision's rule refuses the context's change request.
pub open spec fn chdir_rule_rejects(
    rule: DirChange,
    requested: Option<Seq<char>>,
    cwd: Option<Seq<char>>,
) -> bool {
    match rule {
        DirChange::Any => false,
        DirChange::Strict(_) => chdir_rejected(requested, cwd),
    }
}

/// The context as the decision's rules refine it: the working-directory
/// request per the rule, the pseudo terminal forced off by a `false`
/// opinion and never forced on.
pub open spec fn refined_context(cv: ContextView, rule: DirChange, pty: bool) -> ContextView {
    ContextView {
        chdir: match rule {
            DirChange::Any => cv.chdir,
            DirChange::Strict(od) => opt_view(od),
        },
        use_pty: cv.use_pty && pty,
        ..cv
    }
}

/// The refusal message shown for a forbidden request, identifying the
/// invoking user.
pub open spec fn forbidden_message(name: Seq<char>) -> Seq<char> {
    "I'm sorry "@ + name + ". I'm afraid I can't do that"@
}

/// What the pipeline hands the embedding program for each way execution
/// ended.
pub open spec fn exit_action(reason: ExitReason, pid: i32) -> ExitAction {
    match reason {
        ExitReason::Code(code) => ExitAction::Exit(code),
        ExitReason::Signal(signal) => ExitAction::DeliverSignal { pid, signal },
    }
}

/// What a history grew by during a call.
pub open spec fn seq_delta<T>(h0: Seq<T>, h1: Seq<T>) -> Seq<T> {
    h1.skip(h0.len() as int)
}

/// True of a pre-execution event that succeeded.
pub open spec fn passed_pre_exec(e: AuthEvent) -> bool {
    e matches AuthEvent::PreExec { result: Ok(_), .. }
}

/// The authentication calls of a run that got past the authorization
/// branch: `init` on the refined context, then `authenticate` exactly when
/// the decision demands it, with the decision's own parameters.
pub open spec fn auth_attempt_prefix(ma: bool, pv: Duration, att: u16, rc: ContextView) -> Seq<
    AuthEvent,
> {
    if ma {
        seq![
            AuthEvent::Init { context: rc, failure: None },
            AuthEvent::Authenticate {
                context: rc,
                prior_validity: pv,
                attempts: att,
                failure: None,
            },
        ]
    } else {
        seq![AuthEvent::Init { context: rc, failure: None }]
    }
}

/// The executor's part of a run that passed pre-execution: nothing when
/// the command was never resolved, otherwise one `run_command` on the
/// refined context under the assembled environment, followed on success by
/// the restoration hook and the matching exit action.
pub open spec fn exec_post(
    rc: ContextView,
    env: Seq<(Seq<char>, Seq<char>)>,
    xd: Seq<ExecEvent>,
    options: SudoOptions,
    r: Result<ExitAction, Error>,
) -> bool {
    // the command was never resolved: nothing ran
    ||| (!options.command.resolved && xd =~= seq![] && (r matches Err(Error::CommandNotFound(c))
        && c@ == options.command.command@))
    // execution failed: its own error surfaces, carrying the command path
    ||| (options.command.resolved && xd.len() == 1 && (xd[0] matches ExecEvent::Run {
        context,
        environment,
        result: Err(io),
    } && context == rc && environment == env && (r matches Err(Error::IoError(Some(c), io2))
        && c@ == options.command.command@ && io2 == io)))
    // execution ended: the restoration hook runs, then the exit action
    // matching the command's own end
    ||| (options.command.resolved && xd.len() == 2 && xd[1] is EmulateDefaultHandler && (xd[0]
        matches ExecEvent::Run { context, environment, result: Ok(reason) } && context == rc
        && environment == env && r == Ok::<ExitAction, Error>(exit_action(reason, options.pid))))
}

/// The tail of a run whose decision allowed the request and whose
/// working-directory rule accepted the context; `rc` is the refined
/// context, `cenv` the invocation's environment.
pub open spec fn allowed_post(
    ma: bool,
    pv: Duration,
    att: u16,
    rc: ContextView,
    cenv: Seq<(Seq<char>, Seq<char>)>,
    ad: Seq<AuthEvent>,
    xd: Seq<ExecEvent>,
    options: SudoOptions,
    r: Result<ExitAction, Error>,
) -> bool {
    let prefix = auth_attempt_prefix(ma, pv, att, rc);
    let n = prefix.len() as int;
    // the authentication session could not be prepared: its error surfaces
    ||| (ad.len() == 1 && (ad[0] matches AuthEvent::Init { context, failure: Some(e) } && context
        == rc && r == Err::<ExitAction, Error>(e)) && xd =~= seq![])
    // authentication was required and failed: its error surfaces
    ||| (ma && ad.len() == 2 && ad[0] == (AuthEvent::Init { context: rc, failure: None }) && (
    ad[1] matches AuthEvent::Authenticate { context, prior_validity, attempts, failure: Some(e) }
        && context == rc && prior_validity == pv && attempts == att && r == Err::<
        ExitAction,
        Error,
    >(e)) && xd =~= seq![])
    // the pre-execution step failed: its error surfaces, nothing ran
    ||| (ad.len() == n + 1 && ad.subrange(0, n) =~= prefix && ad[0] == (AuthEvent::Init {
        context: rc,
        failure: None,
    }) && (ma ==> ad[1] == (AuthEvent::Authenticate {
        context: rc,
        prior_validity: pv,
        attempts: att,
        failure: None,
    })) && (ad[n] matches AuthEvent::PreExec {
        context,
        result: Err(e),
    } && context == rc && r == Err::<ExitAction, Error>(e)) && xd =~= seq![])
    // pre-execution passed: cleanup follows execution, exactly once, last
    ||| (ad.len() == n + 2 && ad.subrange(0, n) =~= prefix && ad[0] == (AuthEvent::Init {
        context: rc,
        failure: None,
    }) && (ma ==> ad[1] == (AuthEvent::Authenticate {
        context: rc,
        prior_validity: pv,
        attempts: att,
        failure: None,
    })) && ad[n + 1] is Cleanup && (ad[n]
        matches AuthEvent::PreExec { context, result: Ok(aenv) } && context == rc && exec_post(
        rc,
        cenv + aenv,
        xd,
        options,
        r,
    )))
}

/// The tail of a run whose judgement produced the decision `j` on the
/// context `cv`.
pub open spec fn judged_post(
    j: JudgedView,
    cv: ContextView,
    cenv: Seq<(Seq<char>, Seq<char>)>,
    ad: Seq<AuthEvent>,
    xd: Seq<ExecEvent>,
    options: SudoOptions,
    r: Result<ExitAction, Error>,
) -> bool {
    match j.authorization {
        Authorization::Forbidden => {
            &&& ad =~= seq![]
            &&& xd =~= seq![]
            &&& (r matches Err(Error::AuthError(m)) && m@ == forbidden_message(
                options.current_user.name@,
            ))
        },
        Authorization::Allowed { must_authenticate, prior_validity, allowed_attempts } => {
            if chdir_rule_rejects(j.chdir_rule, cv.chdir, cv.current_dir) {
                &&& ad =~= seq![]
                &&& xd =~= seq![]
                &&& (r matches Err(Error::AuthError(m)) && m@ == "no permission"@)
            } else {
                allowed_post(
                    must_authenticate,
                    prior_validity,
                    allowed_attempts,
                    refined_context(cv, j.chdir_rule, j.use_pty),
                    cenv,
                    ad,
                    xd,
                    options,
                    r,
                )
            }
        },
    }
}

/// Everything one invocation of the pipeline may do, stated over what each
/// capability's history grew by (`pd`: policy, `ad`: authentication, `xd`:
/// executor) and the invocation's environment `cenv`. The policy is always
/// initialized first; judgement always sees the context built from the
/// options under the reported secure PATH, unrefined; every plugin error
/// is returned as-is and stops the run.
pub open spec fn run_post(
    pd: Seq<PolicyEvent>,
    ad: Seq<AuthEvent>,
    xd: Seq<ExecEvent>,
    options: SudoOptions,
    cenv: Seq<(Seq<char>, Seq<char>)>,
    r: Result<ExitAction, Error>,
) -> bool {
    // the policy could not be loaded: its error surfaces, nothing else ran
    ||| (pd.len() == 1 && (pd[0] matches PolicyEvent::Inited { result: Err(e) } && r == Err::<
        ExitAction,
        Error,
    >(e)) && ad =~= seq![] && xd =~= seq![])
    // the policy was loaded and the request judged on the unrefined
    // context built under the reported secure PATH
    ||| (pd.len() == 2 && (pd[0] matches PolicyEvent::Inited { result: Ok(sp) } && (pd[1] matches
        PolicyEvent::Judged { context, result } && context == build_view(options, sp) && (match
        result {
        Err(e) => ad =~= seq![] && xd =~= seq![] && r == Err::<ExitAction, Error>(e),
        Ok(j) => judged_post(j, context, cenv, ad, xd, options, r),
    }))))
}

/// A history extended by `d` has the old one as a prefix, and `d` is the
/// difference.
pub proof fn lemma_append_delta<T>(h: Seq<T>, d: Seq<T>)
    ensures
        h.is_prefix_of(h + d),
        seq_delta(h, h + d) =~= d,
{
    assert((h + d).subrange(0, h.len() as int) =~= h);
}

/// The pipeline pairing a policy plugin with an authentication plugin.
pub struct Pipeline<Policy: PolicyPlugin, Auth: AuthPlugin> {
    /// Decides whether the request is permitted.
    pub policy: Policy,
    /// Obtains proof of identity.
    pub authenticator: Auth,
}

impl<Policy: PolicyPlugin, Auth: AuthPlugin> Pipeline<Policy, Auth> {
    /// Applies the decision's refinement rules to the context: the strict
    /// working-directory rule refuses a differing prior request (even when
    /// the rule carries no directory) and otherwise overwrites the
    /// request; a pseudo-terminal opinion of `false` forces the pseudo
    /// terminal off, `true` never forces it on.
    pub fn apply_policy_to_context(
        &mut self,
        context: &mut Context,
        policy: &<Policy as PolicyPlugin>::Policy,
    ) -> (r: Result<(), Error>)
        ensures
            final(self).policy == old(self).policy,
            final(self).authenticator == old(self).authenticator,
            final(context).current_user == old(context).current_user,
            final(context).target_user == old(context).target_user,
            final(context).command == old(context).command,
            final(context).current_dir == old(context).current_dir,
            final(context).path == old(context).path,
            final(context).process == old(context).process,
            r is Ok ==> final(context)@ == refined_context(
                old(context)@,
                policy.chdir_spec(),
                policy.use_pty_spec(),
            ),
            match policy.chdir_spec() {
                DirChange::Any => {
                    &&& r is Ok
                    &&& final(context).chdir == old(context).chdir
                    &&& final(context).use_pty == (old(context).use_pty && policy.use_pty_spec())
                },
                DirChange::Strict(od) => {
                    if chdir_rejected(
                        opt_view(old(context).chdir),
                        opt_view(old(context).current_dir),
                    ) {
                        &&& (r matches Err(Error::AuthError(m)) && m@ == "no permission"@)
                        &&& final(context).chdir == old(context).chdir
                        &&& final(context).use_pty == old(context).use_pty
                    } else {
                        &&& r is Ok
                        &&& final(context).chdir == od
                        &&& final(context).use_pty == (old(context).use_pty
                            && policy.use_pty_spec())
                    }
                },
            },
    {
        match policy.chdir() {
            DirChange::Any => {},
            DirChange::Strict(optdir) => {
                let rejected = match (&context.chdir, &context.current_dir) {
                    (Some(requested), Some(cwd)) => !requested.eq(cwd),
                    (Some(_), None) => true,
                    (None, _) => false,
                };
                if rejected {
                    return Err(Error::auth("no permission"));
                } else {
                    context.chdir = optdir;
                }
            },
        }
        if !policy.use_pty() {
            context.use_pty = false;
        }
        proof {
            assert(context@ =~= refined_context(
                old(context)@,
                policy.chdir_spec(),
                policy.use_pty_spec(),
            ));
        }
        Ok(())
    }

    /// One invocation, end to end: load the policy, build the context
    /// under the secure PATH, judge, branch on the authorization, refine
    /// the context, authenticate when demanded, assemble the environment,
    /// hand off to the executor, clean up, and report how the embedding
    /// program must exit. The whole behaviour is pinned by [`run_post`]
    /// over what each capability's history grew by.
    #[verifier::rlimit(100)]
    pub fn run<E: Executor>(
        &mut self,
        sudo_options: SudoOptions,
        current_env: Environment,
        executor: &mut E,
    ) -> (r: Result<ExitAction, Error>)
        ensures
            ({
                let pd = seq_delta(old(self).policy.history(), final(self).policy.history());
                let ad = seq_delta(
                    old(self).authenticator.history(),
                    final(self).authenticator.history(),
                );
                let xd = seq_delta(old(executor).history(), final(executor).history());
                &&& old(self).policy.history().is_prefix_of(final(self).policy.history())
                &&& old(self).authenticator.history().is_prefix_of(
                    final(self).authenticator.history(),
                )
                &&& old(executor).history().is_prefix_of(final(executor).history())
                &&& run_post(pd, ad, xd, sudo_options, current_env@, r)
            }),
    {
        let ghost p0 = self.policy.history();
        let ghost a0 = self.authenticator.history();
        let ghost x0 = executor.history();
        let ghost options = sudo_options;
        let ghost cenv = current_env@;

        let pre = match self.policy.init() {
            Ok(pre) => pre,
            Err(e) => {
                proof {
                    assert(self.policy.history() =~= p0 + seq![
                        PolicyEvent::Inited { result: Err(e) },
                    ]);
                    lemma_append_delta(p0, seq![PolicyEvent::Inited { result: Err(e) }]);
                    lemma_append_delta(a0, Seq::<AuthEvent>::empty());
                    lemma_append_delta(x0, Seq::<ExecEvent>::empty());
                    assert(a0 + Seq::<AuthEvent>::empty() =~= a0);
                    assert(x0 + Seq::<ExecEvent>::empty() =~= x0);
                }
                return Err(e);
            },
        };
        let ghost ev_inited = PolicyEvent::Inited { result: Ok(pre.secure_path_spec()) };

        let secure_path = pre.secure_path();
        let mut context = Context::build_from_options(sudo_options, secure_path);
        proof {
            assert(context@ == build_view(options, pre.secure_path_spec()));
        }

        let policy = match self.policy.judge(pre, &context) {
            Ok(policy) => policy,
            Err(e) => {
                proof {
                    assert(self.policy.history() =~= p0 + seq![
                        ev_inited,
                        PolicyEvent::Judged { context: context@, result: Err(e) },
                    ]);
                    lemma_append_delta(
                        p0,
                        seq![
                            ev_inited,
                            PolicyEvent::Judged { context: context@, result: Err(e) },
                        ],
                    );
                    lemma_append_delta(a0, Seq::<AuthEvent>::empty());
                    lemma_append_delta(x0, Seq::<ExecEvent>::empty());
                    assert(a0 + Seq::<AuthEvent>::empty() =~= a0);
                    assert(x0 + Seq::<ExecEvent>::empty() =~= x0);
                }
                return Err(e);
            },
        };
        let ghost ev_judged = PolicyEvent::Judged {
            context: context@,
            result: Ok(
                JudgedView {
                    authorization: policy.authorization_spec(),
                    chdir_rule: policy.chdir_spec(),
                    use_pty: policy.use_pty_spec(),
                },
            ),
        };
        let ghost cv = context@;
        proof {
            assert(self.policy.history() =~= p0 + seq![ev_inited, ev_judged]);
            lemma_append_delta(p0, seq![ev_inited, ev_judged]);
        }

        let authorization = policy.authorization();
        match authorization {
            Authorization::Forbidden => {
                let message = String::from_str("I'm sorry ").concat(
                    context.current_user.name.as_str(),
                ).concat(". I'm afraid I can't do that");
                proof {
                    lemma_append_delta(a0, Seq::<AuthEvent>::empty());
                    lemma_append_delta(x0, Seq::<ExecEvent>::empty());
                    assert(a0 + Seq::<AuthEvent>::empty() =~= a0);
                    assert(x0 + Seq::<ExecEvent>::empty() =~= x0);
                }
                return Err(Error::AuthError(message));
            },
            Authorization::Allowed { must_authenticate, prior_validity, allowed_attempts } => {
                match self.apply_policy_to_context(&mut context, &policy) {
                    Ok(_) => {},
                    Err(e) => {
                        proof {
                            lemma_append_delta(a0, Seq::<AuthEvent>::empty());
                            lemma_append_delta(x0, Seq::<ExecEvent>::empty());
                            assert(a0 + Seq::<AuthEvent>::empty() =~= a0);
                            assert(x0 + Seq::<ExecEvent>::empty() =~= x0);
                        }
                        return Err(e);
                    },
                }
                let ghost rc = context@;
                match self.authenticator.init(&context) {
                    Ok(_) => {},
                    Err(e) => {
                        proof {
                            assert(self.authenticator.history() =~= a0 + seq![
                                AuthEvent::Init { context: rc, failure: Some(e) },
                            ]);
                            lemma_append_delta(
                                a0,
                                seq![AuthEvent::Init { context: rc, failure: Some(e) }],
                            );
                            lemma_append_delta(x0, Seq::<ExecEvent>::empty());
                            assert(x0 + Seq::<ExecEvent>::empty() =~= x0);
                        }
                        return Err(e);
                    },
                }
                if must_authenticate {
                    match self.authenticator.authenticate(
                        &context,
                        prior_validity,
                        allowed_attempts,
                    ) {
                        Ok(_) => {},
                        Err(e) => {
                            proof {
                                assert(self.authenticator.history() =~= a0 + seq![
                                    AuthEvent::Init { context: rc, failure: None },
                                    AuthEvent::Authenticate {
                                        context: rc,
                                        prior_validity,
                                        attempts: allowed_attempts,
                                        failure: Some(e),
                                    },
                                ]);
                                lemma_append_delta(
                                    a0,
                                    seq![
                                        AuthEvent::Init { context: rc, failure: None },
                                        AuthEvent::Authenticate {
                                            context: rc,
                                            prior_validity,
                                            attempts: allowed_attempts,
                                            failure: Some(e),
                                        },
                                    ],
                                );
                                lemma_append_delta(x0, Seq::<ExecEvent>::empty());
                                assert(x0 + Seq::<ExecEvent>::empty() =~= x0);
                            }
                            return Err(e);
                        },
                    }
                }
                let ghost auth_pre = auth_attempt_prefix(
                    must_authenticate,
                    prior_validity,
                    allowed_attempts,
                    rc,
                );
                proof {
                    assert(self.authenticator.history() =~= a0 + auth_pre);
                }

                let additional_env = match self.authenticator.pre_exec(&context) {
                    Ok(env) => env,
                    Err(e) => {
                        proof {
                            let tail = auth_pre + seq![
                                AuthEvent::PreExec { context: rc, result: Err(e) },
                            ];
                            assert(self.authenticator.history() =~= a0 + tail);
                            lemma_append_delta(a0, tail);
                            assert(tail.subrange(0, auth_pre.len() as int) =~= auth_pre);
                            lemma_append_delta(x0, Seq::<ExecEvent>::empty());
                            assert(x0 + Seq::<ExecEvent>::empty() =~= x0);
                        }
                        return Err(e);
                    },
                };
                let ghost aenv = additional_env@;

                let target_env = get_target_environment(current_env, additional_env);
                let pid = context.process.pid;

                let exec_result: Result<ExitReason, Error> = if context.command.resolved {
                    match executor.run_command(&context, &target_env) {
                        Ok(reason) => Ok(reason),
                        Err(io_error) => Err(
                            Error::IoError(Some(context.command.command), io_error),
                        ),
                    }
                } else {
                    Err(Error::CommandNotFound(context.command.command))
                };

                self.authenticator.cleanup();
                proof {
                    let tail = auth_pre + seq![
                        AuthEvent::PreExec { context: rc, result: Ok(aenv) },
                        AuthEvent::Cleanup,
                    ];
                    assert(self.authenticator.history() =~= a0 + tail);
                    lemma_append_delta(a0, tail);
                    assert(tail.subrange(0, auth_pre.len() as int) =~= auth_pre);
                }

                let reason = match exec_result {
                    Ok(reason) => reason,
                    Err(e) => {
                        proof {
                            if options.command.resolved {
                                assert(executor.history()[x0.len() as int] matches ExecEvent::Run {
                                    result: Err(_),
                                    ..
                                });
                                assert(executor.history() =~= x0 + seq![
                                    executor.history()[x0.len() as int],
                                ]);
                                lemma_append_delta(
                                    x0,
                                    seq![executor.history()[x0.len() as int]],
                                );
                            } else {
                                lemma_append_delta(x0, Seq::<ExecEvent>::empty());
                                assert(x0 + Seq::<ExecEvent>::empty() =~= x0);
                            }
                        }
                        return Err(e);
                    },
                };

                executor.emulate_default_handler();
                proof {
                    let run_ev = ExecEvent::Run {
                        context: rc,
                        environment: cenv + aenv,
                        result: Ok(reason),
                    };
                    assert(executor.history() =~= x0 + seq![
                        run_ev,
                        ExecEvent::EmulateDefaultHandler,
                    ]);
                    lemma_append_delta(x0, seq![run_ev, ExecEvent::EmulateDefaultHandler]);
                }

                match reason {
                    ExitReason::Code(code) => Ok(ExitAction::Exit(code)),
                    ExitReason::Signal(signal) => Ok(ExitAction::DeliverSignal { pid, signal }),
                }
            },
        }
    }
}

/// Law: a forbidden decision never reaches the authentication plugin nor
/// the executor — `init`, `authenticate` and `pre_exec` are not invoked
/// and no command is executed — and the invocation fails with the refusal
/// naming the invoking user.
#[verifier::rlimit(100)]
pub proof fn lemma_forbidden_runs_nothing(
    pd: Seq<PolicyEvent>,
    ad: Seq<AuthEvent>,
    xd: Seq<ExecEvent>,
    options: SudoOptions,
    cenv: Seq<(Seq<char>, Seq<char>)>,
    r: Result<ExitAction, Error>,
)
    requires
        run_post(pd, ad, xd, options, cenv, r),
        pd.len() == 2,
        pd[1] matches PolicyEvent::Judged {
            result: Ok(JudgedView { authorization: Authorization::Forbidden, .. }),
            ..
        },
    ensures
        ad =~= Seq::<AuthEvent>::empty(),
        xd =~= Seq::<ExecEvent>::empty(),
        r matches Err(Error::AuthError(m)) && m@ == forbidden_message(options.current_user.name@),
{
    assert(pd[1] matches PolicyEvent::Judged { context, result: Ok(j) } && judged_post(
        j,
        context,
        cenv,
        ad,
        xd,
        options,
        r,
    ));
}

/// Law: a decision that allows the request without demanding
/// authentication skips `authenticate` entirely, and a successful run
/// still calls `init`, `pre_exec` and, last, `cleanup`.
#[verifier::rlimit(100)]
pub proof fn lemma_no_authentication_when_not_demanded(
    pd: Seq<PolicyEvent>,
    ad: Seq<AuthEvent>,
    xd: Seq<ExecEvent>,
    options: SudoOptions,
    cenv: Seq<(Seq<char>, Seq<char>)>,
    r: Result<ExitAction, Error>,
)
    requires
        run_post(pd, ad, xd, options, cenv, r),
        pd.len() == 2,
        pd[1] matches PolicyEvent::Judged {
            result: Ok(
                JudgedView {
                    authorization: Authorization::Allowed { must_authenticate: false, .. },
                    ..
                },
            ),
            ..
        },
    ensures
        forall|i: int| 0 <= i < ad.len() ==> !((#[trigger] ad[i]) is Authenticate),
        r is Ok ==> {
            &&& ad.len() == 3
            &&& (ad[0] matches AuthEvent::Init { failure: None, .. })
            &&& passed_pre_exec(ad[1])
            &&& ad[2] is Cleanup
        },
{
    assert(pd[1] matches PolicyEvent::Judged { context, result: Ok(j) } && judged_post(
        j,
        context,
        cenv,
        ad,
        xd,
        options,
        r,
    ));
}

/// Law: the executor runs only after a judgement that allowed the request
/// and only once the pre-execution step has passed; no failure path before
/// that point executes anything.
#[verifier::rlimit(100)]
pub proof fn lemma_no_execution_before_authorization(
    pd: Seq<PolicyEvent>,
    ad: Seq<AuthEvent>,
    xd: Seq<ExecEvent>,
    options: SudoOptions,
    cenv: Seq<(Seq<char>, Seq<char>)>,
    r: Result<ExitAction, Error>,
)
    requires
        run_post(pd, ad, xd, options, cenv, r),
    ensures
        xd.len() > 0 ==> {
            &&& pd.len() == 2
            &&& pd[1] matches PolicyEvent::Judged {
                result: Ok(
                    JudgedView { authorization: Authorization::Allowed { .. }, .. },
                ),
                ..
            }
            &&& exists|i: int| 0 <= i < ad.len() && passed_pre_exec(#[trigger] ad[i])
        },
{
    if pd.len() == 2 {
        assert(pd[1] matches PolicyEvent::Judged { context, result } && (match result {
            Err(e) => ad =~= seq![] && xd =~= seq![],
            Ok(j) => judged_post(j, context, cenv, ad, xd, options, r),
        }));
    } else {
        assert(ad =~= Seq::<AuthEvent>::empty() && xd =~= Seq::<ExecEvent>::empty());
    }
    if ad.len() >= 2 && passed_pre_exec(ad[ad.len() - 2]) {
        assert(exists|i: int| 0 <= i < ad.len() && passed_pre_exec(#[trigger] ad[i]));
    }
}

/// Law: `cleanup` runs exactly once — as the last authentication-plugin
/// call — whenever the pre-execution step succeeded, regardless of whether
/// execution then succeeded or failed; and it never runs before then.
#[verifier::rlimit(100)]
pub proof fn lemma_cleanup_exactly_once(
    pd: Seq<PolicyEvent>,
    ad: Seq<AuthEvent>,
    xd: Seq<ExecEvent>,
    options: SudoOptions,
    cenv: Seq<(Seq<char>, Seq<char>)>,
    r: Result<ExitAction, Error>,
)
    requires
        run_post(pd, ad, xd, options, cenv, r),
    ensures
        (exists|i: int| 0 <= i < ad.len() && passed_pre_exec(#[trigger] ad[i])) ==> {
            &&& ad.len() >= 2
            &&& ad.last() is Cleanup
            &&& forall|i: int| 0 <= i < ad.len() - 1 ==> !((#[trigger] ad[i]) is Cleanup)
        },
        !(exists|i: int| 0 <= i < ad.len() && passed_pre_exec(#[trigger] ad[i])) ==> forall|
            i: int,
        | 0 <= i < ad.len() ==> !((#[trigger] ad[i]) is Cleanup),
{
    if pd.len() == 2 {
        assert(pd[1] matches PolicyEvent::Judged { context, result } && (match result {
            Err(e) => ad =~= seq![] && xd =~= seq![],
            Ok(j) => judged_post(j, context, cenv, ad, xd, options, r),
        }));
    } else {
        assert(ad =~= Seq::<AuthEvent>::empty() && xd =~= Seq::<ExecEvent>::empty());
    }
    if ad.len() >= 2 && passed_pre_exec(ad[ad.len() - 2]) {
        assert(exists|i: int| 0 <= i < ad.len() && passed_pre_exec(#[trigger] ad[i]));
    }
}

} // verus!
