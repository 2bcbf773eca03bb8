//! What holds of every start of the client, whatever the outside answers.

use crate::address::listen_segments;
use crate::config::{RunOptionsView, RuntimeConfigView, CLIENT_ROLE};
use crate::launch::launch_plan;
use crate::params::MAX_DEGREE;
use crate::startup::{
    answered, begun, configured_log, failure_at, open_action, ActionView, ReplyView, Stage,
    StartError, StartupView,
};
use vstd::prelude::*;

verus! {

/// The state that a start is in after the replies, and the actions that it has asked for. There
/// is neither when a reply did not answer the action that was under way.
pub open spec fn trace(
    options: RunOptionsView,
    config: RuntimeConfigView,
    replies: Seq<ReplyView>,
) -> Option<(StartupView, Seq<ActionView>)>
    decreases replies.len(),
{
    if replies.len() == 0 {
        let (m, action) = begun(options, config);
        Some((m, seq![action]))
    } else {
        match trace(options, config, replies.drop_last()) {
            Some((m, actions)) => match answered(m, replies.last()) {
                Some((next, action)) => Some((next, actions.push(action))),
                None => None,
            },
            None => None,
        }
    }
}

/// What a start learns from the outside.
pub struct Facts {
    pub last_node: Option<Seq<char>>,
    pub host: Seq<char>,
    pub genesis_hash: Seq<u8>,
    pub stored_genesis: Option<Seq<u8>>,
    pub latest: u32,
}

pub open spec fn learn(facts: Facts, reply: ReplyView) -> Facts {
    match reply {
        ReplyView::LastNode(last_node) => Facts { last_node, ..facts },
        ReplyView::Connected { host, genesis_hash } => Facts { host, genesis_hash, ..facts },
        ReplyView::StoredGenesis(stored_genesis) => Facts { stored_genesis, ..facts },
        ReplyView::Head(latest) => Facts { latest, ..facts },
        _ => facts,
    }
}

/// What the replies say.
pub open spec fn facts_in(replies: Seq<ReplyView>) -> Facts
    decreases replies.len(),
{
    if replies.len() == 0 {
        Facts {
            last_node: None,
            host: seq![],
            genesis_hash: seq![],
            stored_genesis: None,
            latest: 0,
        }
    } else {
        learn(facts_in(replies.drop_last()), replies.last())
    }
}

/// The actions of every start, up to the look at the chain of the database.
pub open spec fn opening(
    options: RunOptionsView,
    config: RuntimeConfigView,
    facts: Facts,
) -> Seq<ActionView> {
    seq![
        open_action(config),
        ActionView::CreateKeypair,
        ActionView::InitTelemetry {
            endpoint: config.ot_collector_endpoint,
            role: CLIENT_ROLE@,
        },
        ActionView::InitNetwork {
            dht_parallelization_limit: config.dht_parallelization_limit,
            kad_record_ttl: config.kad_record_ttl,
            put_batch_size: config.put_batch_size,
            kad_remove_local_record: config.has_block_matrix_partition,
        },
        ActionView::SpawnNetwork,
        ActionView::Listen(listen_segments(config.port)),
        ActionView::Bootstrap { peers: config.bootstraps },
        ActionView::LoadPublicParams { max_degree: MAX_DEGREE },
        ActionView::ReadLastNode,
        ActionView::Connect {
            full_nodes: config.full_node_ws,
            last_node: facts.last_node,
            network_version: options.network_version,
        },
        ActionView::StoreLastNode(facts.host),
        ActionView::ReadGenesisHash,
    ]
}

/// The actions that set up the log.
pub open spec fn logging_actions(options: RunOptionsView, config: RuntimeConfigView) -> Seq<
    ActionView,
> {
    if options.set_parser {
        seq![ActionView::InstallSubscriber(configured_log(config))]
    } else {
        seq![]
    }
}

/// The actions that bind the database to the chain of the node.
pub open spec fn binding_actions(facts: Facts) -> Seq<ActionView> {
    if facts.stored_genesis is None {
        seq![ActionView::StoreGenesisHash(facts.genesis_hash)]
    } else {
        seq![]
    }
}

pub open spec fn closing(
    options: RunOptionsView,
    config: RuntimeConfigView,
    facts: Facts,
) -> Seq<ActionView> {
    seq![
        ActionView::FetchHead,
        ActionView::Launch(launch_plan(options, config, facts.latest)),
        ActionView::Finish,
    ]
}

/// All actions of a start that meets no failure.
pub open spec fn script(
    options: RunOptionsView,
    config: RuntimeConfigView,
    facts: Facts,
) -> Seq<ActionView> {
    logging_actions(options, config) + opening(options, config, facts) + binding_actions(facts)
        + closing(options, config, facts)
}

/// How many actions a start has asked for when it has come to a stage.
spec fn position(stage: Stage, options: RunOptionsView, facts: Facts) -> int {
    let logged: int = if options.set_parser { 1 } else { 0 };
    let bound: int = if facts.stored_genesis is None { 1 } else { 0 };
    match stage {
        Stage::Subscriber => 1,
        Stage::Database => logged + 1,
        Stage::Keypair => logged + 2,
        Stage::Telemetry => logged + 3,
        Stage::Network => logged + 4,
        Stage::NetworkTask => logged + 5,
        Stage::Listening => logged + 6,
        Stage::Bootstrap => logged + 7,
        Stage::PublicParams => logged + 8,
        Stage::LastNodeRead => logged + 9,
        Stage::Connection => logged + 10,
        Stage::LastNodeStore => logged + 11,
        Stage::GenesisRead => logged + 12,
        Stage::GenesisStore => logged + 13,
        Stage::Head => logged + bound + 13,
        Stage::Launch => logged + bound + 14,
        Stage::Finished => logged + bound + 15,
        Stage::Failed => 0,
    }
}

/// `actions` are the first actions of `script`.
pub open spec fn begins(actions: Seq<ActionView>, script: Seq<ActionView>) -> bool {
    &&& actions.len() <= script.len()
    &&& forall|i: int| 0 <= i < actions.len() ==> #[trigger] actions[i] == script[i]
}

/// The database is new, or it belongs to the chain of the node.
pub open spec fn same_chain(facts: Facts) -> bool {
    facts.stored_genesis is None || facts.stored_genesis == Some(facts.genesis_hash)
}

/// The chain of the database has been looked at, and the start goes on.
pub open spec fn past_the_look(stage: Stage) -> bool {
    stage == Stage::GenesisStore || stage == Stage::Head || stage == Stage::Launch || stage
        == Stage::Finished
}

/// The database belongs to the chain of the node, and everything up to there was done.
pub open spec fn admitted(stage: Stage) -> bool {
    stage == Stage::Head || stage == Stage::Launch || stage == Stage::Finished
}

/// The chain of the node has been learned when a start has come to a stage.
spec fn knows_chain(stage: Stage) -> bool {
    stage == Stage::LastNodeStore || stage == Stage::GenesisRead || stage == Stage::GenesisStore
        || stage == Stage::Head || stage == Stage::Launch || stage == Stage::Finished
}

spec fn on_script(
    options: RunOptionsView,
    config: RuntimeConfigView,
    facts: Facts,
    m: StartupView,
    actions: Seq<ActionView>,
) -> bool {
    &&& m.options == options
    &&& m.config == config
    &&& m.stage != Stage::Failed
    &&& m.stage == Stage::Subscriber ==> options.set_parser
    &&& m.stage == Stage::GenesisStore ==> facts.stored_genesis is None
    &&& past_the_look(m.stage) ==> same_chain(facts)
    &&& knows_chain(m.stage) ==> m.genesis_hash == Some(facts.genesis_hash)
    &&& actions.len() == position(m.stage, options, facts)
    &&& begins(actions, script(options, config, facts))
}

proof fn step_stays_on_script(
    options: RunOptionsView,
    config: RuntimeConfigView,
    facts: Facts,
    m: StartupView,
    actions: Seq<ActionView>,
    reply: ReplyView,
)
    requires
        on_script(options, config, facts, m, actions),
        answered(m, reply) is Some,
        (answered(m, reply)->0).0.stage != Stage::Failed,
    ensures
        on_script(
            options,
            config,
            learn(facts, reply),
            (answered(m, reply)->0).0,
            actions.push((answered(m, reply)->0).1),
        ),
{
}

/// A start that has not failed has asked for the first actions of its script, one for each reply
/// and one to begin with. A start that has failed did so too, and then gave up.
pub proof fn actions_follow_the_script(
    options: RunOptionsView,
    config: RuntimeConfigView,
    replies: Seq<ReplyView>,
)
    requires
        trace(options, config, replies) is Some,
    ensures
        ({
            let (m, actions) = trace(options, config, replies)->0;
            &&& actions.len() == replies.len() + 1
            &&& m.options == options && m.config == config
            &&& m.stage != Stage::Failed ==> begins(
                actions,
                script(options, config, facts_in(replies)),
            )
            &&& m.stage == Stage::Failed ==> actions.last() is Fail && begins(
                actions.drop_last(),
                script(options, config, facts_in(replies)),
            )
        }),
{
    start_is_on_script(options, config, replies);
}

proof fn start_is_on_script(
    options: RunOptionsView,
    config: RuntimeConfigView,
    replies: Seq<ReplyView>,
)
    requires
        trace(options, config, replies) is Some,
    ensures
        ({
            let (m, actions) = trace(options, config, replies)->0;
            let facts = facts_in(replies);
            &&& actions.len() == replies.len() + 1
            &&& m.options == options && m.config == config
            &&& m.stage != Stage::Failed ==> on_script(options, config, facts, m, actions)
            &&& m.stage == Stage::Failed ==> {
                &&& replies.len() > 0
                &&& actions.last() is Fail
                &&& begins(actions.drop_last(), script(options, config, facts))
            }
        }),
    decreases replies.len(),
{
    if replies.len() > 0 {
        let before = replies.drop_last();
        let reply = replies.last();
        start_is_on_script(options, config, before);
        let (m, actions) = trace(options, config, before)->0;
        let (next, action) = answered(m, reply)->0;
        assert(actions.push(action).drop_last() =~= actions);
        if next.stage != Stage::Failed {
            step_stays_on_script(options, config, facts_in(before), m, actions, reply);
        } else {
            failure_keeps_the_script(options, config, facts_in(before), m, actions, reply);
        }
    }
}

proof fn failure_keeps_the_script(
    options: RunOptionsView,
    config: RuntimeConfigView,
    facts: Facts,
    m: StartupView,
    actions: Seq<ActionView>,
    reply: ReplyView,
)
    requires
        on_script(options, config, facts, m, actions),
        answered(m, reply) is Some,
        (answered(m, reply)->0).0.stage == Stage::Failed,
    ensures
        begins(actions, script(options, config, learn(facts, reply))),
{
}

/// A start takes at most sixteen replies.
pub proof fn every_start_ends(
    options: RunOptionsView,
    config: RuntimeConfigView,
    replies: Seq<ReplyView>,
)
    requires
        trace(options, config, replies) is Some,
    ensures
        replies.len() <= 16,
{
    start_is_on_script(options, config, replies);
    if replies.len() > 0 {
        start_is_on_script(options, config, replies.drop_last());
    }
}

/// Nothing answers a start that has finished or failed.
pub proof fn the_end_is_final(m: StartupView, reply: ReplyView)
    requires
        m.stage == Stage::Finished || m.stage == Stage::Failed,
    ensures
        answered(m, reply) is None,
{
}

/// The replies of an outside where everything works.
pub open spec fn good_replies(options: RunOptionsView, facts: Facts) -> Seq<ReplyView> {
    let done = ReplyView::Done;
    (if options.set_parser {
        seq![done]
    } else {
        seq![]
    }) + seq![
        done,
        done,
        done,
        done,
        done,
        done,
        done,
        done,
        ReplyView::LastNode(facts.last_node),
        ReplyView::Connected { host: facts.host, genesis_hash: facts.genesis_hash },
        done,
        ReplyView::StoredGenesis(facts.stored_genesis),
    ] + (if facts.stored_genesis is None {
        seq![done]
    } else {
        seq![]
    }) + seq![ReplyView::Head(facts.latest), done]
}

/// Where everything works and the chain is the same, the start asks for its whole script and
/// finishes.
pub proof fn a_good_start_finishes(options: RunOptionsView, config: RuntimeConfigView, facts: Facts)
    requires
        same_chain(facts),
    ensures
        trace(options, config, good_replies(options, facts)) is Some,
        (trace(options, config, good_replies(options, facts))->0).0.stage == Stage::Finished,
        (trace(options, config, good_replies(options, facts))->0).1 == script(
            options,
            config,
            facts,
        ),
{
    let replies = good_replies(options, facts);
    good_replies_are_taken(options, config, facts, replies.len() as int);
    assert(replies.take(replies.len() as int) =~= replies);
    actions_follow_the_script(options, config, replies);
    assert(facts_in(replies) == facts);
    assert((trace(options, config, replies)->0).1 =~= script(options, config, facts));
}

proof fn good_replies_are_taken(
    options: RunOptionsView,
    config: RuntimeConfigView,
    facts: Facts,
    k: int,
)
    requires
        same_chain(facts),
        0 <= k <= good_replies(options, facts).len(),
    ensures
        ({
            let taken = good_replies(options, facts).take(k);
            let m = (trace(options, config, taken)->0).0;
            let learned = facts_in(taken);
            &&& trace(options, config, taken) is Some
            &&& m.stage != Stage::Failed
            &&& m.stage == Stage::Subscriber ==> options.set_parser
            &&& m.stage == Stage::GenesisStore ==> facts.stored_genesis is None
            &&& position(m.stage, options, facts) == k + 1
            &&& knows_chain(m.stage) ==> {
                &&& m.genesis_hash == Some(facts.genesis_hash)
                &&& learned.host == facts.host
                &&& learned.genesis_hash == facts.genesis_hash
            }
            &&& (knows_chain(m.stage) || m.stage == Stage::Connection) ==> learned.last_node
                == facts.last_node
            &&& past_the_look(m.stage) ==> learned.stored_genesis == facts.stored_genesis
            &&& (m.stage == Stage::Launch || m.stage == Stage::Finished) ==> learned.latest
                == facts.latest
        }),
    decreases k,
{
    if k > 0 {
        let replies = good_replies(options, facts);
        good_replies_are_taken(options, config, facts, k - 1);
        assert(replies.take(k).drop_last() =~= replies.take(k - 1));
        assert(replies.take(k).last() == replies[k - 1]);
    }
}

/// A start fails because the action under way failed, or because the node is on another chain
/// than the database, and it says which.
pub proof fn why_a_start_fails(
    options: RunOptionsView,
    config: RuntimeConfigView,
    replies: Seq<ReplyView>,
)
    requires
        trace(options, config, replies) is Some,
        (trace(options, config, replies)->0).0.stage == Stage::Failed,
    ensures
        replies.len() > 0,
        trace(options, config, replies.drop_last()) is Some,
        ({
            let before = (trace(options, config, replies.drop_last())->0).0;
            let facts = facts_in(replies);
            let action = (trace(options, config, replies)->0).1.last();
            ||| replies.last() is Failed && failure_at(before.stage) is Some && action
                == ActionView::Fail(failure_at(before.stage)->0)
            ||| {
                &&& before.stage == Stage::GenesisRead
                &&& replies.last() == ReplyView::StoredGenesis(facts.stored_genesis)
                &&& !same_chain(facts)
                &&& action == ActionView::Fail(StartError::GenesisMismatch)
            }
        }),
{
    start_is_on_script(options, config, replies.drop_last());
}

/// A start that has failed has launched nothing and has not finished.
pub proof fn a_failed_start_launches_nothing(
    options: RunOptionsView,
    config: RuntimeConfigView,
    replies: Seq<ReplyView>,
    i: int,
)
    requires
        trace(options, config, replies) is Some,
        (trace(options, config, replies)->0).0.stage == Stage::Failed,
        0 <= i <= replies.len(),
    ensures
        !((trace(options, config, replies)->0).1[i] is Launch),
        !((trace(options, config, replies)->0).1[i] is Finish),
{
    start_is_on_script(options, config, replies);
    start_is_on_script(options, config, replies.drop_last());
}

/// A node on another chain than the database is refused: nothing was launched, and the database
/// still belongs to its chain.
pub proof fn another_chain_is_refused(
    options: RunOptionsView,
    config: RuntimeConfigView,
    replies: Seq<ReplyView>,
    stored: Seq<u8>,
)
    requires
        trace(options, config, replies) is Some,
        (trace(options, config, replies)->0).0.stage == Stage::GenesisRead,
        stored != facts_in(replies).genesis_hash,
    ensures
        ({
            let refused = trace(
                options,
                config,
                replies.push(ReplyView::StoredGenesis(Some(stored))),
            );
            &&& refused is Some
            &&& (refused->0).0.stage == Stage::Failed
            &&& (refused->0).1.last() == ActionView::Fail(StartError::GenesisMismatch)
            &&& genesis_after(Some(stored), (refused->0).1) == Some(stored)
        }),
{
    let all = replies.push(ReplyView::StoredGenesis(Some(stored)));
    assert(all.drop_last() =~= replies);
    start_is_on_script(options, config, replies);
    start_is_on_script(options, config, all);
    let actions = (trace(options, config, all)->0).1;
    assert forall|i: int| 0 <= i < actions.len() implies !(#[trigger] actions[i] is StoreGenesisHash)
    by {
        assert(i < actions.len() - 1 ==> actions[i] == actions.drop_last()[i]);
    }
    nothing_stored(Some(stored), actions);
}

/// The chain that the database belongs to once the actions were done, if it belonged to `stored`
/// before.
pub open spec fn genesis_after(stored: Option<Seq<u8>>, actions: Seq<ActionView>) -> Option<Seq<u8>>
    decreases actions.len(),
{
    if actions.len() == 0 {
        stored
    } else {
        match actions.last() {
            ActionView::StoreGenesisHash(hash) => Some(hash),
            _ => genesis_after(stored, actions.drop_last()),
        }
    }
}

proof fn nothing_stored(stored: Option<Seq<u8>>, actions: Seq<ActionView>)
    requires
        forall|i: int| 0 <= i < actions.len() ==> !(#[trigger] actions[i] is StoreGenesisHash),
    ensures
        genesis_after(stored, actions) == stored,
    decreases actions.len(),
{
    if actions.len() > 0 {
        assert(actions.last() == actions[actions.len() - 1]);
        nothing_stored(stored, actions.drop_last());
    }
}

proof fn last_stored(stored: Option<Seq<u8>>, actions: Seq<ActionView>, at: int)
    requires
        0 <= at < actions.len(),
        actions[at] is StoreGenesisHash,
        forall|i: int| at < i < actions.len() ==> !(#[trigger] actions[i] is StoreGenesisHash),
    ensures
        genesis_after(stored, actions) == Some(actions[at]->StoreGenesisHash_0),
    decreases actions.len(),
{
    if at < actions.len() - 1 {
        assert(actions.last() == actions[actions.len() - 1]);
        assert(actions.drop_last()[at] == actions[at]);
        last_stored(stored, actions.drop_last(), at);
    }
}

/// A start that is admitted is on the chain of the database, and it leaves the database belonging
/// to that chain.
pub proof fn a_start_binds_the_database(
    options: RunOptionsView,
    config: RuntimeConfigView,
    replies: Seq<ReplyView>,
)
    requires
        trace(options, config, replies) is Some,
        admitted((trace(options, config, replies)->0).0.stage),
    ensures
        same_chain(facts_in(replies)),
        genesis_after(facts_in(replies).stored_genesis, (trace(options, config, replies)->0).1)
            == Some(facts_in(replies).genesis_hash),
{
    start_is_on_script(options, config, replies);
    let facts = facts_in(replies);
    let actions = (trace(options, config, replies)->0).1;
    if facts.stored_genesis is None {
        let at: int = if options.set_parser { 13 } else { 12 };
        last_stored(facts.stored_genesis, actions, at);
    } else {
        nothing_stored(facts.stored_genesis, actions);
    }
}

/// Once a start was admitted, a later start on the same database goes past the look at its chain
/// only with a node on the same chain.
pub proof fn a_database_stays_on_its_chain(
    options: RunOptionsView,
    config: RuntimeConfigView,
    replies: Seq<ReplyView>,
    later_options: RunOptionsView,
    later_config: RuntimeConfigView,
    later_replies: Seq<ReplyView>,
)
    requires
        trace(options, config, replies) is Some,
        admitted((trace(options, config, replies)->0).0.stage),
        trace(later_options, later_config, later_replies) is Some,
        past_the_look((trace(later_options, later_config, later_replies)->0).0.stage),
        facts_in(later_replies).stored_genesis == genesis_after(
            facts_in(replies).stored_genesis,
            (trace(options, config, replies)->0).1,
        ),
    ensures
        facts_in(later_replies).genesis_hash == facts_in(replies).genesis_hash,
{
    a_start_binds_the_database(options, config, replies);
    start_is_on_script(later_options, later_config, later_replies);
}

/// By the time the chain of the database is looked at, the node that the client is connected to
/// has been noted as the last one, whatever comes of the look.
pub proof fn the_node_is_noted_before_the_look(
    options: RunOptionsView,
    config: RuntimeConfigView,
    replies: Seq<ReplyView>,
    i: int,
)
    requires
        trace(options, config, replies) is Some,
        0 < i <= replies.len(),
        (trace(options, config, replies)->0).1[i] is ReadGenesisHash,
    ensures
        (trace(options, config, replies)->0).1[i - 1] == ActionView::StoreLastNode(
            facts_in(replies).host,
        ),
{
    start_is_on_script(options, config, replies);
    let (m, actions) = trace(options, config, replies)->0;
    if m.stage == Stage::Failed {
        assert(i < actions.len() - 1 ==> actions[i] == actions.drop_last()[i]);
        assert(actions[i - 1] == actions.drop_last()[i - 1]);
    }
}

/// The full node that the database holds as the last one once the actions were done, if it held
/// `stored` before.
pub open spec fn last_node_after(
    stored: Option<Seq<char>>,
    actions: Seq<ActionView>,
) -> Option<Seq<char>>
    decreases actions.len(),
{
    if actions.len() == 0 {
        stored
    } else {
        match actions.last() {
            ActionView::StoreLastNode(host) => Some(host),
            _ => last_node_after(stored, actions.drop_last()),
        }
    }
}

proof fn no_node_noted(stored: Option<Seq<char>>, actions: Seq<ActionView>)
    requires
        forall|i: int| 0 <= i < actions.len() ==> !(#[trigger] actions[i] is StoreLastNode),
    ensures
        last_node_after(stored, actions) == stored,
    decreases actions.len(),
{
    if actions.len() > 0 {
        assert(actions.last() == actions[actions.len() - 1]);
        no_node_noted(stored, actions.drop_last());
    }
}

proof fn last_noted(stored: Option<Seq<char>>, actions: Seq<ActionView>, at: int)
    requires
        0 <= at < actions.len(),
        actions[at] is StoreLastNode,
        forall|i: int| at < i < actions.len() ==> !(#[trigger] actions[i] is StoreLastNode),
    ensures
        last_node_after(stored, actions) == Some(actions[at]->StoreLastNode_0),
    decreases actions.len(),
{
    if at < actions.len() - 1 {
        assert(actions.last() == actions[actions.len() - 1]);
        assert(actions.drop_last()[at] == actions[at]);
        last_noted(stored, actions.drop_last(), at);
    }
}

/// A start that is admitted leaves the node that it is connected to as the last one.
pub proof fn an_admitted_start_notes_its_node(
    options: RunOptionsView,
    config: RuntimeConfigView,
    replies: Seq<ReplyView>,
)
    requires
        trace(options, config, replies) is Some,
        admitted((trace(options, config, replies)->0).0.stage),
    ensures
        last_node_after(facts_in(replies).last_node, (trace(options, config, replies)->0).1)
            == Some(facts_in(replies).host),
{
    start_is_on_script(options, config, replies);
    let at: int = if options.set_parser {
        11
    } else {
        10
    };
    last_noted(facts_in(replies).last_node, (trace(options, config, replies)->0).1, at);
}

/// A start connects with regard to the node that the database holds as the last one, to the
/// configured full nodes, and for the network version that the client is built for.
pub proof fn a_start_is_told_of_the_last_node(
    options: RunOptionsView,
    config: RuntimeConfigView,
    replies: Seq<ReplyView>,
    i: int,
)
    requires
        trace(options, config, replies) is Some,
        0 <= i <= replies.len(),
        (trace(options, config, replies)->0).1[i] is Connect,
    ensures
        (trace(options, config, replies)->0).1[i] == (ActionView::Connect {
            full_nodes: config.full_node_ws,
            last_node: facts_in(replies).last_node,
            network_version: options.network_version,
        }),
{
    start_is_on_script(options, config, replies);
    let (m, actions) = trace(options, config, replies)->0;
    if m.stage == Stage::Failed {
        assert(i < actions.len() - 1 ==> actions[i] == actions.drop_last()[i]);
    }
}

/// Once a start was admitted, a later start on the same database connects with regard to the node
/// of the earlier one.
pub proof fn the_last_node_is_remembered(
    options: RunOptionsView,
    config: RuntimeConfigView,
    replies: Seq<ReplyView>,
    later_options: RunOptionsView,
    later_config: RuntimeConfigView,
    later_replies: Seq<ReplyView>,
    i: int,
)
    requires
        trace(options, config, replies) is Some,
        admitted((trace(options, config, replies)->0).0.stage),
        trace(later_options, later_config, later_replies) is Some,
        facts_in(later_replies).last_node == last_node_after(
            facts_in(replies).last_node,
            (trace(options, config, replies)->0).1,
        ),
        0 <= i <= later_replies.len(),
        (trace(later_options, later_config, later_replies)->0).1[i] is Connect,
    ensures
        (trace(later_options, later_config, later_replies)->0).1[i]->last_node == Some(
            facts_in(replies).host,
        ),
{
    an_admitted_start_notes_its_node(options, config, replies);
    a_start_is_told_of_the_last_node(later_options, later_config, later_replies, i);
}

/// Before a full node is contacted, the client listens on its port and has joined the network
/// through the configured peers.
pub proof fn the_network_is_joined_before_a_node_is_contacted(
    options: RunOptionsView,
    config: RuntimeConfigView,
    replies: Seq<ReplyView>,
    i: int,
)
    requires
        trace(options, config, replies) is Some,
        0 <= i <= replies.len(),
        (trace(options, config, replies)->0).1[i] is Connect,
    ensures
        ({
            let actions = (trace(options, config, replies)->0).1;
            &&& i >= 4
            &&& actions[i - 4] == ActionView::Listen(listen_segments(config.port))
            &&& actions[i - 3] == (ActionView::Bootstrap { peers: config.bootstraps })
            &&& replies[i - 4] is Done && replies[i - 3] is Done
        }),
{
    actions_before_contact(options, config, replies, i);
    what_was_done(options, config, replies, i - 4);
    what_was_done(options, config, replies, i - 3);
}

proof fn actions_before_contact(
    options: RunOptionsView,
    config: RuntimeConfigView,
    replies: Seq<ReplyView>,
    i: int,
)
    requires
        trace(options, config, replies) is Some,
        0 <= i <= replies.len(),
        (trace(options, config, replies)->0).1[i] is Connect,
    ensures
        ({
            let actions = (trace(options, config, replies)->0).1;
            &&& i >= 4
            &&& actions[i - 4] == ActionView::Listen(listen_segments(config.port))
            &&& actions[i - 3] == (ActionView::Bootstrap { peers: config.bootstraps })
            &&& actions[i - 2] is LoadPublicParams
        }),
{
    start_is_on_script(options, config, replies);
    let (m, actions) = trace(options, config, replies)->0;
    let at: int = if options.set_parser {
        10
    } else {
        9
    };
    let whole = script(options, config, facts_in(replies));
    if m.stage == Stage::Failed {
        assert forall|j: int| 0 <= j < actions.len() - 1 implies #[trigger] actions[j]
            == whole[j] by {
            assert(actions.drop_last()[j] == whole[j]);
        }
    }
    assert(actions[i] == whole[i]);
    assert(i == at);
    assert(actions[i - 4] == whole[at - 4]);
    assert(actions[i - 3] == whole[at - 3]);
    assert(actions[i - 2] == whole[at - 2]);
}

proof fn what_was_done(
    options: RunOptionsView,
    config: RuntimeConfigView,
    replies: Seq<ReplyView>,
    k: int,
)
    requires
        trace(options, config, replies) is Some,
        0 <= k < replies.len(),
        ({
            let next = (trace(options, config, replies)->0).1[k + 1];
            next is Bootstrap || next is LoadPublicParams
        }),
    ensures
        replies[k] is Done,
{
    start_is_on_script(options, config, replies);
    earlier_replies_were_taken(options, config, replies, k);
    earlier_replies_were_taken(options, config, replies, k + 1);
    assert(replies.take(k + 1).drop_last() =~= replies.take(k));
    assert(replies.take(k + 1).last() == replies[k]);
    let m = (trace(options, config, replies.take(k))->0).0;
    let longer = (trace(options, config, replies.take(k + 1))->0).1;
    assert(longer.last() == (trace(options, config, replies)->0).1[k + 1]);
    assert(longer == (trace(options, config, replies.take(k))->0).1.push(
        (answered(m, replies[k])->0).1,
    ));
    done_leads_there(m, replies[k]);
}

proof fn done_leads_there(m: StartupView, reply: ReplyView)
    requires
        answered(m, reply) is Some,
        (answered(m, reply)->0).1 is Bootstrap || (answered(m, reply)->0).1 is LoadPublicParams,
    ensures
        reply is Done,
{
}

/// What a start asked for up to some reply does not depend on the replies that came later.
pub proof fn earlier_replies_were_taken(
    options: RunOptionsView,
    config: RuntimeConfigView,
    replies: Seq<ReplyView>,
    k: int,
)
    requires
        trace(options, config, replies) is Some,
        0 <= k <= replies.len(),
    ensures
        trace(options, config, replies.take(k)) is Some,
        (trace(options, config, replies.take(k))->0).1 == (trace(
            options,
            config,
            replies,
        )->0).1.take(k + 1),
    decreases replies.len(),
{
    start_is_on_script(options, config, replies);
    let actions = (trace(options, config, replies)->0).1;
    if k == replies.len() {
        assert(replies.take(k) =~= replies);
        assert(actions.take(k + 1) =~= actions);
    } else {
        let before = replies.drop_last();
        start_is_on_script(options, config, before);
        earlier_replies_were_taken(options, config, before, k);
        assert(before.take(k) =~= replies.take(k));
        assert((trace(options, config, before)->0).1.take(k + 1) =~= actions.take(k + 1));
    }
}

/// A start that has not contacted a full node has written neither a node nor a chain to the
/// database.
pub proof fn nothing_is_written_before_a_node_is_contacted(
    options: RunOptionsView,
    config: RuntimeConfigView,
    replies: Seq<ReplyView>,
    last_node: Option<Seq<char>>,
    genesis: Option<Seq<u8>>,
)
    requires
        trace(options, config, replies) is Some,
        forall|i: int|
            0 <= i <= replies.len() ==> !(#[trigger] (trace(options, config, replies)->0).1[i] is
                Connect),
    ensures
        last_node_after(last_node, (trace(options, config, replies)->0).1) == last_node,
        genesis_after(genesis, (trace(options, config, replies)->0).1) == genesis,
{
    start_is_on_script(options, config, replies);
    let (m, actions) = trace(options, config, replies)->0;
    let at: int = if options.set_parser {
        10
    } else {
        9
    };
    let whole = script(options, config, facts_in(replies));
    assert(whole[at] is Connect);
    if m.stage == Stage::Failed {
        assert forall|j: int| 0 <= j < actions.len() - 1 implies #[trigger] actions[j]
            == whole[j] by {
            assert(actions.drop_last()[j] == whole[j]);
        }
        if actions.len() - 1 > at {
            assert(actions[at] is Connect);
        }
    } else if actions.len() > at {
        assert(actions[at] is Connect);
    }
    no_node_noted(last_node, actions);
    nothing_stored(genesis, actions);
}

/// What is launched is the plan for the options, the configuration and the newest block that the
/// node reported, and the chain is that of the database.
pub proof fn a_launch_is_planned(
    options: RunOptionsView,
    config: RuntimeConfigView,
    replies: Seq<ReplyView>,
    i: int,
)
    requires
        trace(options, config, replies) is Some,
        0 <= i <= replies.len(),
        (trace(options, config, replies)->0).1[i] is Launch,
    ensures
        (trace(options, config, replies)->0).1[i] == ActionView::Launch(
            launch_plan(options, config, facts_in(replies).latest),
        ),
        same_chain(facts_in(replies)),
{
    start_is_on_script(options, config, replies);
    let (m, actions) = trace(options, config, replies)->0;
    if m.stage == Stage::Failed {
        a_failed_start_launches_nothing(options, config, replies, i);
    }
}

} // verus!
