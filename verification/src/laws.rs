//! Properties of the library that span several of its functions.

use vstd::prelude::*;
use crate::action::action_for_flags;
use crate::cluster::{NodePool, pool_names};
use crate::config::{ServerConfig, lemma_first_index, lemma_first_index_is_first, lemma_no_index, named, of_channel, strings_view};
use crate::channel::ChannelView;
use crate::pull_up::{StepView, planned_steps, pool_steps, tracks_operations};
use crate::target::{Target, TargetError};
use crate::action::UpgradeAction;
use crate::client::{GkeClient, or_every, upgrades_master};
use crate::cluster::Cluster;
use crate::pull_up::{CommandView, PlanView, ProgressView, PullUpView, step_commands};

verus! {

/// The flags decide the upgrades. Neither flag upgrades the master and then
/// every node pool; `--master` upgrades the master alone; `--node-pools`
/// without names upgrades every node pool and not the master; `--node-pools`
/// with names upgrades those pools, in the order given, following each
/// upgrade's operation until it is done; `--master` and `--node-pools`
/// together are refused.
pub proof fn law_flags_select_the_upgrades(master: bool, names: Option<Vec<String>>, pools: Seq<NodePool>)
    ensures
        action_for_flags(master, names) is Err <==> (master && names is Some),
        !master && names is None ==> planned_steps(action_for_flags(master, names)->Ok_0, pools)
            == seq![StepView::Master] + pool_steps(pool_names(pools)),
        master && names is None ==> planned_steps(action_for_flags(master, names)->Ok_0, pools)
            == seq![StepView::Master],
        !master && names is Some && names->0@.len() == 0 ==> planned_steps(
            action_for_flags(master, names)->Ok_0,
            pools,
        ) == pool_steps(pool_names(pools)),
        !master && names is Some && names->0@.len() > 0 ==> planned_steps(
            action_for_flags(master, names)->Ok_0,
            pools,
        ) == pool_steps(strings_view(names->0@)),
        action_for_flags(master, names) is Ok ==> (tracks_operations(
            action_for_flags(master, names)->Ok_0,
        ) <==> (names is Some && names->0@.len() > 0)),
{
}

/// Asking for a release channel by its name pulls a cluster on that channel
/// up to the upgrade target version of the configuration that the name was
/// found in.
pub proof fn law_channel_target_gives_its_upgrade_target(config: ServerConfig, name: Seq<char>, target: Target)
    requires
        config.index_named(name) is Some,
        target is Channel,
        target->Channel_0@ == config.channels@[config.index_named(name)->0].channel@,
    ensures
        target.resolves_to(config, target->Channel_0@) == Ok::<Seq<char>, TargetError>(
            config.channels@[config.index_named(name)->0].upgrade_target_version@,
        ),
{
    let channels = config.channels@;
    let i = config.index_named(name)->0;
    let ch = target->Channel_0@;
    lemma_first_index_is_first(channels, named(name));
    assert forall|j: int| 0 <= j < i implies !of_channel(ch)(#[trigger] channels[j]) by {
        assert(!named(name)(channels[j]));
    }
    lemma_first_index(channels, of_channel(ch), i);
}

/// A pull-up of node pools alone upgrades node pools only, each to the
/// version that the cluster master runs, whatever target was asked for.
pub proof fn law_node_pools_alone_follow_the_master(
    client: GkeClient,
    cluster: Cluster,
    action: UpgradeAction,
    target: Target,
    plan: PlanView,
)
    requires
        !upgrades_master(action),
        client.planned_pull_up(cluster, action, target) == Ok::<PlanView, TargetError>(plan),
    ensures
        forall|i: int|
            0 <= i < step_commands(plan).len() ==> (#[trigger] step_commands(plan)[i] is UpgradeNodePool
                && step_commands(plan)[i]->UpgradeNodePool_version == cluster.current_master_version@),
{
    assert forall|i: int| 0 <= i < step_commands(plan).len() implies (#[trigger] step_commands(plan)[i] is UpgradeNodePool
        && step_commands(plan)[i]->UpgradeNodePool_version == cluster.current_master_version@) by {
        assert(plan.steps[i] is NodePool);
    }
}

/// The default target pulls a cluster up to the upgrade target version of
/// the first configuration of the cluster's channel, and to the default
/// cluster version only where the configuration lists no such channel. A
/// channel target on the cluster's own channel does the same.
pub proof fn law_default_target_is_the_channel_upgrade_target(
    config: ServerConfig,
    ch: ChannelView,
    i: int,
    target: Target,
)
    requires
        target is Default || (target is Channel && target->Channel_0@ == ch),
    ensures
        0 <= i < config.channels@.len() && config.channels@[i].channel@ == ch && (forall|j: int|
            0 <= j < i ==> config.channels@[j].channel@ != ch) ==> target.resolves_to(config, ch)
            == Ok::<Seq<char>, TargetError>(config.channels@[i].upgrade_target_version@),
        (forall|j: int| 0 <= j < config.channels@.len() ==> config.channels@[j].channel@ != ch)
            ==> target.resolves_to(config, ch) == Ok::<Seq<char>, TargetError>(
            config.default_cluster_version@,
        ),
{
    let channels = config.channels@;
    if 0 <= i < channels.len() && channels[i].channel@ == ch && (forall|j: int|
        0 <= j < i ==> channels[j].channel@ != ch) {
        assert forall|j: int| 0 <= j < i implies !of_channel(ch)(#[trigger] channels[j]) by {}
        lemma_first_index(channels, of_channel(ch), i);
    }
    if forall|j: int| 0 <= j < channels.len() ==> channels[j].channel@ != ch {
        assert forall|j: int| 0 <= j < channels.len() implies !of_channel(ch)(#[trigger] channels[j]) by {}
        lemma_no_index(channels, of_channel(ch));
    }
}

/// A version target is kept exactly when the first configuration of the
/// cluster's channel lists it among its valid versions; otherwise, and where
/// the configuration lists no such channel, it is refused.
pub proof fn law_version_target_must_be_valid_on_the_channel(
    config: ServerConfig,
    ch: ChannelView,
    i: int,
    target: Target,
)
    requires
        target is Version,
    ensures
        0 <= i < config.channels@.len() && config.channels@[i].channel@ == ch && (forall|j: int|
            0 <= j < i ==> config.channels@[j].channel@ != ch) ==> (target.resolves_to(config, ch)
            is Ok <==> exists|k: int|
            0 <= k < config.channels@[i].valid_versions@.len()
                && #[trigger] config.channels@[i].valid_versions@[k]@ == target->Version_0@),
        (forall|j: int| 0 <= j < config.channels@.len() ==> config.channels@[j].channel@ != ch)
            ==> target.resolves_to(config, ch) is Err,
        target.resolves_to(config, ch) matches Ok(v) ==> v == target->Version_0@,
{
    let channels = config.channels@;
    if 0 <= i < channels.len() && channels[i].channel@ == ch && (forall|j: int|
        0 <= j < i ==> channels[j].channel@ != ch) {
        assert forall|j: int| 0 <= j < i implies !of_channel(ch)(#[trigger] channels[j]) by {}
        lemma_first_index(channels, of_channel(ch), i);
        let vs = strings_view(channels[i].valid_versions@);
        if exists|k: int|
            0 <= k < channels[i].valid_versions@.len() && #[trigger] channels[i].valid_versions@[k]@
                == target->Version_0@ {
            let k = choose|k: int|
                0 <= k < channels[i].valid_versions@.len() && #[trigger] channels[i].valid_versions@[k]@
                    == target->Version_0@;
            assert(vs[k] == target->Version_0@);
        }
        if vs.contains(target->Version_0@) {
            let k = choose|k: int| 0 <= k < vs.len() && vs[k] == target->Version_0@;
            assert(channels[i].valid_versions@[k]@ == target->Version_0@);
        }
    }
    if forall|j: int| 0 <= j < channels.len() ==> channels[j].channel@ != ch {
        assert forall|j: int| 0 <= j < channels.len() implies !of_channel(ch)(#[trigger] channels[j]) by {}
        lemma_no_index(channels, of_channel(ch));
    }
}

/// A cluster follows its own release channel whenever it has one, whatever
/// that channel is; only a cluster without a release channel follows REGULAR.
/// So a channel target is refused exactly when it is not that channel.
pub proof fn law_cluster_follows_its_own_channel(cluster: Cluster, config: ServerConfig, target: Target)
    ensures
        cluster.release_channel matches Some(rc) ==> cluster.channel_or_regular() == rc.channel@,
        cluster.release_channel is None ==> cluster.channel_or_regular() == ChannelView::Regular,
        cluster.release_channel matches Some(rc) ==> cluster.channel_name() == rc.channel@.name(),
        cluster.release_channel is None ==> cluster.channel_name() is None,
        target is Channel ==> (target.resolves_to(config, cluster.channel_or_regular()) is Err <==> target->Channel_0@
            != (match cluster.release_channel {
            Some(rc) => rc.channel@,
            None => ChannelView::Regular,
        })),
{
}

/// A pull-up is planned exactly when its target can be had for the cluster's
/// channel; its plan follows each upgrade's operation exactly when the action
/// names node pools, however many; and it upgrades what the action asks for.
pub proof fn law_pull_up_plans_follow_named_pools(
    client: GkeClient,
    cluster: Cluster,
    action: UpgradeAction,
    target: Target,
)
    ensures
        client.planned_pull_up(cluster, action, target) is Ok <==> target.resolves_to(
            client.config_of(),
            cluster.channel_or_regular(),
        ) is Ok,
        client.planned_pull_up(cluster, action, target) matches Ok(p) ==> (p.track_operations
            <==> action is NodePools),
        client.planned_pull_up(cluster, action, target) matches Ok(p) ==> p.steps == planned_steps(
            action,
            cluster.node_pools@,
        ),
        client.planned_pull_up(cluster, action, target) matches Ok(p) ==> p.version == (if action is Cluster
            || action is MasterOnly {
            target.resolves_to(client.config_of(), cluster.channel_or_regular())->Ok_0
        } else {
            cluster.current_master_version@
        }),
        client.planned_pull_up(cluster, action, target) matches Err(e) ==> target.resolves_to(
            client.config_of(),
            cluster.channel_or_regular(),
        ) == Err::<Seq<char>, TargetError>(e),
{
}

/// The lookups of a channel configuration find the first configuration that
/// matches: by name, the first whose channel bears the name; by channel, the
/// first of that channel; and none where no configuration matches.
pub proof fn law_lookups_find_the_first_match(config: ServerConfig, name: Seq<char>, ch: ChannelView)
    ensures
        config.index_named(name) matches Some(i) ==> {
            &&& 0 <= i < config.channels@.len()
            &&& config.channels@[i].channel@.name() == Some(name)
            &&& forall|j: int| 0 <= j < i ==> config.channels@[j].channel@.name() != Some(name)
        },
        config.index_named(name) is None ==> forall|j: int|
            0 <= j < config.channels@.len() ==> config.channels@[j].channel@.name() != Some(name),
        config.index_of(ch) matches Some(i) ==> {
            &&& 0 <= i < config.channels@.len()
            &&& config.channels@[i].channel@ == ch
            &&& forall|j: int| 0 <= j < i ==> config.channels@[j].channel@ != ch
        },
        config.index_of(ch) is None ==> forall|j: int|
            0 <= j < config.channels@.len() ==> config.channels@[j].channel@ != ch,
{
    let channels = config.channels@;
    if config.index_named(name) is Some {
        lemma_first_index_is_first(channels, named(name));
        let i = config.index_named(name)->0;
        assert forall|j: int| 0 <= j < i implies channels[j].channel@.name() != Some(name) by {
            assert(!named(name)(channels[j]));
        }
    } else {
        assert forall|j: int| 0 <= j < channels.len() implies channels[j].channel@.name() != Some(name) by {
            if named(name)(channels[j]) {
                assert(exists|k: int| 0 <= k < channels.len() && named(name)(#[trigger] channels[k]));
            }
        }
    }
    if config.index_of(ch) is Some {
        lemma_first_index_is_first(channels, of_channel(ch));
        let i = config.index_of(ch)->0;
        assert forall|j: int| 0 <= j < i implies channels[j].channel@ != ch by {
            assert(!of_channel(ch)(channels[j]));
        }
    } else {
        assert forall|j: int| 0 <= j < channels.len() implies channels[j].channel@ != ch by {
            if of_channel(ch)(channels[j]) {
                assert(exists|k: int| 0 <= k < channels.len() && of_channel(ch)(#[trigger] channels[k]));
            }
        }
    }
}

/// Resource names are built from the project and the location:
/// `projects/{project}/locations/{location}`, then `/clusters/{cluster}`,
/// `/nodePools/{pool}` and `/operations/{operation}` below it; a location or
/// project that was not given is `*`.
pub proof fn law_resource_names(
    client: GkeClient,
    cluster: Seq<char>,
    pool: Seq<char>,
    operation: Seq<char>,
    given: Option<String>,
)
    ensures
        client.location_path_of() == "projects/"@ + client.project_of() + "/locations/"@ + client.location_of(),
        client.cluster_path_of(cluster) == "projects/"@ + client.project_of() + "/locations/"@
            + client.location_of() + "/clusters/"@ + cluster,
        client.node_pool_path_of(cluster, pool) == "projects/"@ + client.project_of() + "/locations/"@
            + client.location_of() + "/clusters/"@ + cluster + "/nodePools/"@ + pool,
        client.operation_path_of(operation) == "projects/"@ + client.project_of() + "/locations/"@
            + client.location_of() + "/operations/"@ + operation,
        given is None ==> or_every(given) == "*"@,
        given matches Some(s) ==> or_every(given) == s@,
{
}

/// The upgrades of each action, item by item: for the whole cluster the
/// master and then the cluster's pools in order; for the master alone just
/// the master; for every pool the cluster's pools in order; for named pools
/// the names in the order given.
pub proof fn law_steps_item_by_item(action: UpgradeAction, pools: Seq<NodePool>)
    ensures
        action is Cluster ==> {
            &&& planned_steps(action, pools).len() == pools.len() + 1
            &&& planned_steps(action, pools)[0] == StepView::Master
            &&& forall|i: int|
                0 <= i < pools.len() ==> planned_steps(action, pools)[i + 1] == StepView::NodePool(
                    #[trigger] pools[i].name@,
                )
        },
        action is MasterOnly ==> planned_steps(action, pools) == seq![StepView::Master],
        action is AllNodePools ==> {
            &&& planned_steps(action, pools).len() == pools.len()
            &&& forall|i: int|
                0 <= i < pools.len() ==> planned_steps(action, pools)[i] == StepView::NodePool(
                    #[trigger] pools[i].name@,
                )
        },
        action matches UpgradeAction::NodePools(names) ==> {
            &&& planned_steps(action, pools).len() == names@.len()
            &&& forall|i: int|
                0 <= i < names@.len() ==> planned_steps(action, pools)[i] == StepView::NodePool(
                    #[trigger] names@[i]@,
                )
        },
{
}

/// A pull-up at step `k` of its plan starts that step: the master or the
/// step's node pool, upgraded to the plan's version; past the last step it
/// finishes.
pub proof fn law_commands_start_the_current_step(plan: PlanView, k: nat)
    ensures
        k < plan.steps.len() && plan.steps[k as int] is Master ==> (PullUpView {
            plan,
            progress: ProgressView::Upgrading(k),
        }).command() == (CommandView::UpgradeMaster { version: plan.version }),
        k < plan.steps.len() && plan.steps[k as int] is NodePool ==> (PullUpView {
            plan,
            progress: ProgressView::Upgrading(k),
        }).command() == (CommandView::UpgradeNodePool {
            pool: plan.steps[k as int]->NodePool_0,
            version: plan.version,
        }),
        k >= plan.steps.len() ==> (PullUpView { plan, progress: ProgressView::Upgrading(k) }).command()
            == CommandView::Finish,
        forall|i: int|
            0 <= i < plan.steps.len() ==> #[trigger] step_commands(plan)[i] == (PullUpView {
                plan,
                progress: ProgressView::Upgrading(i as nat),
            }).command(),
{
}

/// Channel configurations are listed by channel number, those without a
/// number first, and in their given order where the numbers are equal.
pub proof fn law_listing_order(config: ServerConfig, i: int, j: int)
    requires
        0 <= i < config.channels@.len(),
        0 <= j < config.channels@.len(),
    ensures
        config.channels@[i].channel@.value() is None && config.channels@[j].channel@.value() is Some
            ==> config.listed_before(i, j),
        config.channels@[i].channel@.value() is Some && config.channels@[j].channel@.value() is None
            ==> !config.listed_before(i, j),
        config.channels@[i].channel@.value() is Some && config.channels@[j].channel@.value() is Some
            ==> (config.listed_before(i, j) <==> (config.channels@[i].channel@.value()->0
            < config.channels@[j].channel@.value()->0 || (config.channels@[i].channel@.value()
            == config.channels@[j].channel@.value() && i < j))),
        config.channels@[i].channel@.value() is None && config.channels@[j].channel@.value() is None
            ==> (config.listed_before(i, j) <==> i < j),
{
}

} // verus!
