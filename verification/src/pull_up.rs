//! The course of a pull-up: which upgrades are started, in which order, and
//! how their operations are followed.
//!
//! A [`PullUp`] decides; its caller acts. The caller asks for the
//! [`Command`] to carry out, carries it out against the GKE API, and reports
//! how it went as an [`Event`].

use vstd::prelude::*;
use crate::action::UpgradeAction;
use crate::cluster::{NodePool, pool_names};
use crate::config::strings_view;

verus! {

/// One upgrade of a pull-up.
#[derive(Debug)]
pub enum Step {
    /// Upgrade the cluster master.
    Master,
    /// Upgrade the named node pool.
    NodePool(String),
}

/// The mathematical value of a [`Step`].
pub enum StepView {
    Master,
    NodePool(Seq<char>),
}

impl View for Step {
    type V = StepView;

    open spec fn view(&self) -> StepView {
        match self {
            Step::Master => StepView::Master,
            Step::NodePool(pool) => StepView::NodePool(pool@),
        }
    }
}

/// The values of `steps`.
pub open spec fn steps_view(steps: Seq<Step>) -> Seq<StepView> {
    steps.map_values(|s: Step| s@)
}

/// One node-pool step for each of `names`, in order.
pub open spec fn pool_steps(names: Seq<Seq<char>>) -> Seq<StepView> {
    names.map_values(|n: Seq<char>| StepView::NodePool(n))
}

/// The upgrades that `action` asks for on a cluster with node pools `pools`:
/// the master, then every pool, for the whole cluster; the master alone; every
/// pool; or the named pools in the order given.
pub open spec fn planned_steps(action: UpgradeAction, pools: Seq<NodePool>) -> Seq<StepView> {
    match action {
        UpgradeAction::Cluster => seq![StepView::Master] + pool_steps(pool_names(pools)),
        UpgradeAction::MasterOnly => seq![StepView::Master],
        UpgradeAction::AllNodePools => pool_steps(pool_names(pools)),
        UpgradeAction::NodePools(names) => pool_steps(strings_view(names@)),
    }
}

/// Whether the operation of each step is followed until it is done before
/// the next step starts: so for named node pools, not otherwise.
pub open spec fn tracks_operations(action: UpgradeAction) -> bool {
    action is NodePools
}

/// One node-pool step for each name of `names`.
fn node_pool_steps_from_names(names: &Vec<String>) -> (r: Vec<Step>)
    ensures
        steps_view(r@) == pool_steps(strings_view(names@)),
{
    let n = names.len();
    let mut steps: Vec<Step> = Vec::new();
    let mut i: usize = 0;
    while i < n
        invariant
            n == names@.len(),
            i <= n,
            steps_view(steps@) == pool_steps(strings_view(names@).take(i as int)),
        decreases n - i,
    {
        let ghost prev = steps@;
        let name = names[i].clone();
        steps.push(Step::NodePool(name));
        proof {
            let all = strings_view(names@);
            assert(all[i as int] == name@);
            assert(all.take(i as int + 1) =~= all.take(i as int).push(all[i as int]));
            assert(steps_view(steps@) =~= steps_view(prev).push(StepView::NodePool(name@)));
            assert(pool_steps(all.take(i as int + 1)) =~= pool_steps(all.take(i as int)).push(
                StepView::NodePool(name@),
            ));
            assert(steps_view(steps@) =~= pool_steps(all.take(i as int + 1)));
        }
        i = i + 1;
    }
    proof {
        let all = strings_view(names@);
        assert(all.take(n as int) =~= all);
    }
    steps
}

/// `steps` followed by one node-pool step for each of `pools`.
fn push_pool_steps(steps: &mut Vec<Step>, pools: &Vec<NodePool>)
    ensures
        steps_view(final(steps)@) == steps_view(old(steps)@) + pool_steps(pool_names(pools@)),
{
    let n = pools.len();
    let ghost start = steps_view(steps@);
    let mut i: usize = 0;
    while i < n
        invariant
            n == pools@.len(),
            i <= n,
            steps_view(steps@) == start + pool_steps(pool_names(pools@).take(i as int)),
        decreases n - i,
    {
        let ghost prev = steps@;
        let name = pools[i].name.clone();
        steps.push(Step::NodePool(name));
        proof {
            let all = pool_names(pools@);
            assert(all[i as int] == name@);
            assert(all.take(i as int + 1) =~= all.take(i as int).push(all[i as int]));
            assert(steps_view(steps@) =~= steps_view(prev).push(StepView::NodePool(name@)));
            assert(pool_steps(all.take(i as int + 1)) =~= pool_steps(all.take(i as int)).push(
                StepView::NodePool(name@),
            ));
            assert(steps_view(steps@) =~= start + pool_steps(all.take(i as int + 1)));
        }
        i = i + 1;
    }
    proof {
        assert(pool_names(pools@).take(n as int) =~= pool_names(pools@));
    }
}

/// The upgrades that `action` asks for on a cluster with node pools `pools`.
pub fn plan_steps(action: &UpgradeAction, pools: &Vec<NodePool>) -> (r: Vec<Step>)
    ensures
        steps_view(r@) == planned_steps(*action, pools@),
{
    match action {
        UpgradeAction::Cluster => {
            let mut steps: Vec<Step> = Vec::new();
            steps.push(Step::Master);
            assert(steps_view(steps@) =~= seq![StepView::Master]);
            push_pool_steps(&mut steps, pools);
            steps
        },
        UpgradeAction::MasterOnly => {
            let mut steps: Vec<Step> = Vec::new();
            steps.push(Step::Master);
            assert(steps_view(steps@) =~= seq![StepView::Master]);
            steps
        },
        UpgradeAction::AllNodePools => {
            let mut steps: Vec<Step> = Vec::new();
            assert(steps_view(steps@) =~= Seq::<StepView>::empty());
            push_pool_steps(&mut steps, pools);
            assert(steps_view(steps@) =~= pool_steps(pool_names(pools@)));
            steps
        },
        UpgradeAction::NodePools(names) => node_pool_steps_from_names(names),
    }
}

/// The state of a GKE operation.
#[derive(Debug, Clone, Copy, PartialEq, Eq, Structural)]
pub enum OperationStatus {
    Unspecified,
    Pending,
    Running,
    Done,
    Aborting,
    /// A state that this library does not know.
    Unknown,
}

/// A long-running GKE operation, such as an upgrade.
#[derive(Debug)]
pub struct Operation {
    pub name: String,
    pub status: OperationStatus,
}

/// The mathematical value of an [`Operation`].
pub struct OperationView {
    pub name: Seq<char>,
    pub status: OperationStatus,
}

impl View for Operation {
    type V = OperationView;

    open spec fn view(&self) -> OperationView {
        OperationView { name: self.name@, status: self.status }
    }
}

/// What a pull-up does: the version it upgrades to, its upgrades in order,
/// and whether it follows each upgrade's operation until it is done.
#[derive(Debug)]
pub struct PullUpPlan {
    pub version: String,
    pub steps: Vec<Step>,
    pub track_operations: bool,
}

/// The mathematical value of a [`PullUpPlan`].
pub struct PlanView {
    pub version: Seq<char>,
    pub steps: Seq<StepView>,
    pub track_operations: bool,
}

impl View for PullUpPlan {
    type V = PlanView;

    open spec fn view(&self) -> PlanView {
        PlanView {
            version: self.version@,
            steps: steps_view(self.steps@),
            track_operations: self.track_operations,
        }
    }
}

/// How far a pull-up has come.
#[derive(Debug)]
pub enum Progress {
    /// The steps before this one are done; this one is to be started (all
    /// steps are done where it is the number of steps).
    Upgrading(usize),
    /// This step was started and its operation, last seen under this name,
    /// is not done yet.
    Tracking(usize, String),
    /// A request failed; nothing more is done.
    Failed,
}

/// The mathematical value of a [`Progress`].
pub enum ProgressView {
    Upgrading(nat),
    Tracking(nat, Seq<char>),
    Failed,
}

impl View for Progress {
    type V = ProgressView;

    open spec fn view(&self) -> ProgressView {
        match self {
            Progress::Upgrading(k) => ProgressView::Upgrading(*k as nat),
            Progress::Tracking(k, name) => ProgressView::Tracking(*k as nat, name@),
            Progress::Failed => ProgressView::Failed,
        }
    }
}

/// What the caller is to do next.
#[derive(Debug)]
pub enum Command {
    /// Upgrade the master to `version`.
    UpgradeMaster { version: String },
    /// Upgrade the node pool `pool` to `version`.
    UpgradeNodePool { pool: String, version: String },
    /// Fetch the operation `operation` again, report it, and wait a little.
    PollOperation { operation: String },
    /// The pull-up succeeded.
    Finish,
    /// The pull-up failed.
    Abort,
}

/// The mathematical value of a [`Command`].
pub enum CommandView {
    UpgradeMaster { version: Seq<char> },
    UpgradeNodePool { pool: Seq<char>, version: Seq<char> },
    PollOperation { operation: Seq<char> },
    Finish,
    Abort,
}

impl View for Command {
    type V = CommandView;

    open spec fn view(&self) -> CommandView {
        match self {
            Command::UpgradeMaster { version } => CommandView::UpgradeMaster { version: version@ },
            Command::UpgradeNodePool { pool, version } => CommandView::UpgradeNodePool {
                pool: pool@,
                version: version@,
            },
            Command::PollOperation { operation } => CommandView::PollOperation { operation: operation@ },
            Command::Finish => CommandView::Finish,
            Command::Abort => CommandView::Abort,
        }
    }
}

/// How the last command went.
#[derive(Debug)]
pub enum Event {
    /// The request succeeded and returned this operation.
    Succeeded(Operation),
    /// The request failed.
    Failed,
}

/// The mathematical value of an [`Event`].
pub enum EventView {
    Succeeded(OperationView),
    Failed,
}

impl View for Event {
    type V = EventView;

    open spec fn view(&self) -> EventView {
        match self {
            Event::Succeeded(op) => EventView::Succeeded(op@),
            Event::Failed => EventView::Failed,
        }
    }
}

/// The command that starts `step`, upgrading to `version`.
pub open spec fn upgrade_command(step: StepView, version: Seq<char>) -> CommandView {
    match step {
        StepView::Master => CommandView::UpgradeMaster { version },
        StepView::NodePool(pool) => CommandView::UpgradeNodePool { pool, version },
    }
}

/// The mathematical value of a [`PullUp`].
pub struct PullUpView {
    pub plan: PlanView,
    pub progress: ProgressView,
}

impl PullUpView {
    /// Whether the step counts stay within the plan.
    pub open spec fn well_formed(self) -> bool {
        match self.progress {
            ProgressView::Upgrading(k) => k <= self.plan.steps.len(),
            ProgressView::Tracking(k, _) => k < self.plan.steps.len(),
            ProgressView::Failed => true,
        }
    }

    /// What the caller is to do: start the current step, poll the operation
    /// being followed, or stop.
    pub open spec fn command(self) -> CommandView {
        match self.progress {
            ProgressView::Upgrading(k) => if k < self.plan.steps.len() {
                upgrade_command(self.plan.steps[k as int], self.plan.version)
            } else {
                CommandView::Finish
            },
            ProgressView::Tracking(_, operation) => CommandView::PollOperation { operation },
            ProgressView::Failed => CommandView::Abort,
        }
    }

    /// The pull-up after `event`.
    ///
    /// A failure ends it. A started step whose operation is followed and not
    /// yet done is tracked under the operation's name; otherwise the next step
    /// is due. A finished or failed pull-up stays as it is.
    pub open spec fn next(self, event: EventView) -> PullUpView {
        match self.progress {
            ProgressView::Failed => self,
            ProgressView::Upgrading(k) => if k >= self.plan.steps.len() {
                self
            } else {
                match event {
                    EventView::Failed => PullUpView { progress: ProgressView::Failed, ..self },
                    EventView::Succeeded(op) => if self.plan.track_operations && op.status != OperationStatus::Done {
                        PullUpView { progress: ProgressView::Tracking(k, op.name), ..self }
                    } else {
                        PullUpView { progress: ProgressView::Upgrading(k + 1), ..self }
                    },
                }
            },
            ProgressView::Tracking(k, _) => match event {
                EventView::Failed => PullUpView { progress: ProgressView::Failed, ..self },
                EventView::Succeeded(op) => if op.status == OperationStatus::Done {
                    PullUpView { progress: ProgressView::Upgrading(k + 1), ..self }
                } else {
                    PullUpView { progress: ProgressView::Tracking(k, op.name), ..self }
                },
            },
        }
    }
}

/// A pull-up that has not started any step.
pub open spec fn start(plan: PlanView) -> PullUpView {
    PullUpView { plan, progress: ProgressView::Upgrading(0) }
}

/// The commands that a pull-up in state `s` hands out while `events` come in
/// one after another: one before each event, and one after the last.
pub open spec fn trace(s: PullUpView, events: Seq<EventView>) -> Seq<CommandView>
    decreases events.len(),
{
    if events.len() == 0 {
        seq![s.command()]
    } else {
        seq![s.command()] + trace(s.next(events[0]), events.drop_first())
    }
}

/// A pull-up in progress.
pub struct PullUp {
    plan: PullUpPlan,
    progress: Progress,
}

impl View for PullUp {
    type V = PullUpView;

    closed spec fn view(&self) -> PullUpView {
        PullUpView { plan: self.plan@, progress: self.progress@ }
    }
}

impl PullUp {
    /// The step counts stay within the plan.
    #[verifier::type_invariant]
    spec fn within_plan(self) -> bool {
        match self.progress {
            Progress::Upgrading(k) => k <= self.plan.steps@.len(),
            Progress::Tracking(k, _) => k < self.plan.steps@.len(),
            Progress::Failed => true,
        }
    }

    /// A pull-up of `plan` that has not started any step.
    pub fn new(plan: PullUpPlan) -> (r: PullUp)
        ensures
            r@ == start(plan@),
            r@.well_formed(),
    {
        PullUp { plan, progress: Progress::Upgrading(0) }
    }

    /// The plan being carried out.
    pub fn plan(&self) -> (r: &PullUpPlan)
        ensures
            r@ == self@.plan,
    {
        &self.plan
    }

    /// What the caller is to do next.
    pub fn command(&self) -> (r: Command)
        ensures
            r@ == self@.command(),
    {
        proof {
            use_type_invariant(self);
        }
        match &self.progress {
            Progress::Upgrading(k) => {
                if *k < self.plan.steps.len() {
                    match &self.plan.steps[*k] {
                        Step::Master => Command::UpgradeMaster { version: self.plan.version.clone() },
                        Step::NodePool(pool) => Command::UpgradeNodePool {
                            pool: pool.clone(),
                            version: self.plan.version.clone(),
                        },
                    }
                } else {
                    Command::Finish
                }
            },
            Progress::Tracking(_, operation) => Command::PollOperation { operation: operation.clone() },
            Progress::Failed => Command::Abort,
        }
    }

    /// Takes in how the last command went.
    pub fn on_event(&mut self, event: Event)
        ensures
            final(self)@ == old(self)@.next(event@),
            final(self)@.well_formed(),
    {
        proof {
            use_type_invariant(&*self);
        }
        let n = self.plan.steps.len();
        let progress = match &self.progress {
            Progress::Failed => Progress::Failed,
            Progress::Upgrading(k) => {
                let k = *k;
                if k >= n {
                    Progress::Upgrading(k)
                } else {
                    match event {
                        Event::Failed => Progress::Failed,
                        Event::Succeeded(op) => {
                            if self.plan.track_operations && op.status != OperationStatus::Done {
                                Progress::Tracking(k, op.name)
                            } else {
                                Progress::Upgrading(k + 1)
                            }
                        },
                    }
                }
            },
            Progress::Tracking(k, _) => {
                let k = *k;
                match event {
                    Event::Failed => Progress::Failed,
                    Event::Succeeded(op) => {
                        if op.status == OperationStatus::Done {
                            Progress::Upgrading(k + 1)
                        } else {
                            Progress::Tracking(k, op.name)
                        }
                    },
                }
            },
        };
        self.progress = progress;
    }
}

/// The commands that start the plan's steps, in order.
pub open spec fn step_commands(plan: PlanView) -> Seq<CommandView> {
    plan.steps.map_values(|step: StepView| upgrade_command(step, plan.version))
}

/// Whether `event` reports a request that succeeded and, where the plan
/// follows operations, an operation that is done.
pub open spec fn completes(plan: PlanView, event: EventView) -> bool {
    &&& event is Succeeded
    &&& plan.track_operations ==> event->Succeeded_0.status == OperationStatus::Done
}

/// Whether `c` starts an upgrade.
pub open spec fn is_upgrade(c: CommandView) -> bool {
    c is UpgradeMaster || c is UpgradeNodePool
}

/// The commands of `cmds` that start an upgrade, in order.
pub open spec fn upgrades(cmds: Seq<CommandView>) -> Seq<CommandView>
    decreases cmds.len(),
{
    if cmds.len() == 0 {
        Seq::empty()
    } else if is_upgrade(cmds[0]) {
        seq![cmds[0]] + upgrades(cmds.drop_first())
    } else {
        upgrades(cmds.drop_first())
    }
}

/// Whether `a` is the beginning of `b`.
pub open spec fn is_prefix(a: Seq<CommandView>, b: Seq<CommandView>) -> bool {
    &&& a.len() <= b.len()
    &&& forall|i: int| 0 <= i < a.len() ==> a[i] == b[i]
}

/// The number of steps of the plan that have been started in state `s`.
pub open spec fn started_steps(s: PullUpView) -> nat {
    match s.progress {
        ProgressView::Upgrading(k) => if k <= s.plan.steps.len() { k } else { s.plan.steps.len() },
        ProgressView::Tracking(k, _) => if k < s.plan.steps.len() { k + 1 } else { s.plan.steps.len() },
        ProgressView::Failed => s.plan.steps.len(),
    }
}

proof fn lemma_trace_head(s: PullUpView, events: Seq<EventView>)
    requires
        events.len() > 0,
    ensures
        trace(s, events)[0] == s.command(),
        trace(s, events).drop_first() == trace(s.next(events[0]), events.drop_first()),
{
    let t = trace(s, events);
    assert(t == seq![s.command()] + trace(s.next(events[0]), events.drop_first()));
    assert(t.drop_first() =~= trace(s.next(events[0]), events.drop_first()));
}

proof fn lemma_upgrades_after(s: PullUpView, events: Seq<EventView>)
    ensures
        is_prefix(upgrades(trace(s, events)), step_commands(s.plan).skip(started_steps(s) as int)),
    decreases events.len(),
{
    let rest_cmds = step_commands(s.plan).skip(started_steps(s) as int);
    let t = trace(s, events);
    if events.len() == 0 {
        assert(t == seq![s.command()]);
        assert(t.drop_first() =~= Seq::<CommandView>::empty());
        assert(upgrades(Seq::<CommandView>::empty()) == Seq::<CommandView>::empty());
        match s.progress {
            ProgressView::Upgrading(k) => {
                if k < s.plan.steps.len() {
                    assert(rest_cmds[0] == s.command());
                }
            },
            _ => {},
        }
    } else {
        lemma_trace_head(s, events);
        let s2 = s.next(events[0]);
        lemma_upgrades_after(s2, events.drop_first());
        let later = upgrades(trace(s2, events.drop_first()));
        let rest2 = step_commands(s.plan).skip(started_steps(s2) as int);
        assert(s2.plan == s.plan);
        match s.progress {
            ProgressView::Upgrading(k) => {
                if k < s.plan.steps.len() {
                    assert(is_upgrade(t[0]));
                    assert(upgrades(t) == seq![t[0]] + later);
                    assert(rest_cmds[0] == t[0]);
                    assert forall|i: int| 0 <= i < later.len() implies later[i] == rest_cmds[i + 1] by {
                        assert(rest2[i] == step_commands(s.plan)[started_steps(s2) + i]);
                    }
                } else {
                    assert(!is_upgrade(t[0]));
                    assert(s2 == s);
                }
            },
            ProgressView::Tracking(k, _) => {
                assert(!is_upgrade(t[0]));
                assert forall|i: int| 0 <= i < later.len() implies later[i] == rest_cmds[i] by {
                    assert(rest2[i] == step_commands(s.plan)[started_steps(s2) + i]);
                }
            },
            ProgressView::Failed => {
                assert(!is_upgrade(t[0]));
                assert(s2 == s);
            },
        }
    }
}

/// Whatever the GKE API answers, the upgrades that a pull-up starts are the
/// plan's steps, in the plan's order, each started at most once: they are
/// always a beginning of the plan.
pub proof fn law_upgrades_follow_the_plan(plan: PlanView, events: Seq<EventView>)
    ensures
        is_prefix(upgrades(trace(start(plan), events)), step_commands(plan)),
{
    lemma_upgrades_after(start(plan), events);
    assert(step_commands(plan).skip(0) =~= step_commands(plan));
}

proof fn lemma_run_from(plan: PlanView, k: nat, events: Seq<EventView>)
    requires
        k <= plan.steps.len(),
        events.len() == plan.steps.len() - k,
        forall|i: int| 0 <= i < events.len() ==> completes(plan, #[trigger] events[i]),
    ensures
        trace(PullUpView { plan, progress: ProgressView::Upgrading(k) }, events) == step_commands(
            plan,
        ).skip(k as int) + seq![CommandView::Finish],
    decreases events.len(),
{
    let s = PullUpView { plan, progress: ProgressView::Upgrading(k) };
    if events.len() == 0 {
        assert(step_commands(plan).skip(k as int) =~= Seq::<CommandView>::empty());
        assert(trace(s, events) =~= seq![CommandView::Finish]);
    } else {
        assert(completes(plan, events[0]));
        let s2 = s.next(events[0]);
        assert(s2 == PullUpView { plan, progress: ProgressView::Upgrading(k + 1) });
        let rest = events.drop_first();
        assert forall|i: int| 0 <= i < rest.len() implies completes(plan, #[trigger] rest[i]) by {
            assert(rest[i] == events[i + 1]);
        }
        lemma_run_from(plan, k + 1, rest);
        assert(trace(s, events) =~= step_commands(plan).skip(k as int) + seq![CommandView::Finish]);
    }
}

/// A pull-up whose requests all succeed, and whose followed operations are
/// done as soon as they are started, starts each planned upgrade once, in
/// the planned order, and then finishes.
pub proof fn law_successful_pull_up_runs_the_whole_plan(plan: PlanView, events: Seq<EventView>)
    requires
        events.len() == plan.steps.len(),
        forall|i: int| 0 <= i < events.len() ==> completes(plan, #[trigger] events[i]),
    ensures
        trace(start(plan), events) == step_commands(plan) + seq![CommandView::Finish],
{
    lemma_run_from(plan, 0, events);
    assert(step_commands(plan).skip(0) =~= step_commands(plan));
}

proof fn lemma_failed_stays_failed(s: PullUpView, events: Seq<EventView>)
    requires
        s.progress is Failed,
    ensures
        trace(s, events) == Seq::new((events.len() + 1) as nat, |i: int| CommandView::Abort),
    decreases events.len(),
{
    if events.len() == 0 {
        assert(trace(s, events) =~= Seq::new(1, |i: int| CommandView::Abort));
    } else {
        lemma_failed_stays_failed(s, events.drop_first());
        assert(trace(s, events) =~= Seq::new((events.len() + 1) as nat, |i: int| CommandView::Abort));
    }
}

/// A failed request ends a pull-up that has not finished: from then on every
/// command is [`CommandView::Abort`], whatever comes in.
pub proof fn law_failure_ends_the_pull_up(s: PullUpView, events: Seq<EventView>)
    requires
        s.command() != CommandView::Finish,
    ensures
        trace(s.next(EventView::Failed), events) == Seq::new(
            (events.len() + 1) as nat,
            |i: int| CommandView::Abort,
        ),
{
    lemma_failed_stays_failed(s.next(EventView::Failed), events);
}

/// The step that a running pull-up is at: the one it is about to start, or
/// the one whose operation it follows.
pub open spec fn current_step(s: PullUpView) -> nat {
    match s.progress {
        ProgressView::Upgrading(k) => k,
        ProgressView::Tracking(k, _) => k,
        ProgressView::Failed => 0,
    }
}

/// Where the plan follows operations, the step after a started one is due
/// exactly when the started step's operation is reported done; until then
/// the operation is polled under the name it was last reported with.
pub proof fn law_followed_step_waits_for_its_operation(s: PullUpView, op: OperationView)
    requires
        s.well_formed(),
        s.plan.track_operations,
        s.command() != CommandView::Finish,
        s.command() != CommandView::Abort,
    ensures
        op.status == OperationStatus::Done ==> s.next(EventView::Succeeded(op)).progress
            == ProgressView::Upgrading(current_step(s) + 1),
        op.status != OperationStatus::Done ==> s.next(EventView::Succeeded(op)).progress
            == ProgressView::Tracking(current_step(s), op.name),
        op.status != OperationStatus::Done ==> s.next(EventView::Succeeded(op)).command()
            == (CommandView::PollOperation { operation: op.name }),
{
}

} // verus!
