//! What each action of a start carries, when its turn comes, and what each reply leads to.

use crate::address::{segments, Segment};
use crate::config::{RunOptions, RunOptionsView, RuntimeConfig, RuntimeConfigView};
use crate::database::{Access, ColumnFamily};
use crate::launch::launch_plan;
use crate::laws::{earlier_replies_were_taken, trace};
use crate::logging::{level_named, uppercase, EventFormat, Level};
use crate::startup::{
    answered, begun, context_of, run, Action, ActionView, Reply, ReplyView, Stage, StartError,
    Startup, StartupView,
};
use vstd::prelude::*;

verus! {

/// Entry `i` of what the start asked for after the replies.
pub open spec fn asked(
    options: RunOptionsView,
    config: RuntimeConfigView,
    replies: Seq<ReplyView>,
    i: int,
) -> ActionView {
    (trace(options, config, replies)->0).1[i]
}

/// The replies were all taken, and the start has asked for action `i`.
pub open spec fn reached(
    options: RunOptionsView,
    config: RuntimeConfigView,
    replies: Seq<ReplyView>,
    i: int,
) -> bool {
    trace(options, config, replies) is Some && 0 <= i <= replies.len()
}

/// The action that is under way at a stage.
spec fn under_way(stage: Stage, action: ActionView) -> bool {
    match stage {
        Stage::Subscriber => action is InstallSubscriber,
        Stage::Database => action is OpenDatabase,
        Stage::Keypair => action is CreateKeypair,
        Stage::Telemetry => action is InitTelemetry,
        Stage::Network => action is InitNetwork,
        Stage::NetworkTask => action is SpawnNetwork,
        Stage::Listening => action is Listen,
        Stage::Bootstrap => action is Bootstrap,
        Stage::PublicParams => action is LoadPublicParams,
        Stage::LastNodeRead => action is ReadLastNode,
        Stage::Connection => action is Connect,
        Stage::LastNodeStore => action is StoreLastNode,
        Stage::GenesisRead => action is ReadGenesisHash,
        Stage::GenesisStore => action is StoreGenesisHash,
        Stage::Head => action is FetchHead,
        Stage::Launch => action is Launch,
        Stage::Finished => action is Finish,
        Stage::Failed => action is Fail,
    }
}

proof fn state_of(options: RunOptionsView, config: RuntimeConfigView, replies: Seq<ReplyView>)
    requires
        trace(options, config, replies) is Some,
    ensures
        ({
            let (m, actions) = trace(options, config, replies)->0;
            let n = replies.len();
            &&& actions.len() == n + 1
            &&& m.options == options
            &&& m.config == config
            &&& under_way(m.stage, actions.last())
            &&& m.stage == Stage::LastNodeStore ==> {
                &&& n >= 1
                &&& replies[n - 1] is Connected
                &&& m.genesis_hash == Some(replies[n - 1]->genesis_hash)
            }
            &&& m.stage == Stage::GenesisRead ==> {
                &&& n >= 2
                &&& replies[n - 2] is Connected
                &&& m.genesis_hash == Some(replies[n - 2]->genesis_hash)
            }
        }),
    decreases replies.len(),
{
    if replies.len() > 0 {
        let before = replies.drop_last();
        state_of(options, config, before);
        if before.len() > 0 {
            assert(before[before.len() - 1] == replies[replies.len() - 2]);
        }
    }
}

/// Where action `i` came from: the state before it, and the reply that led to it.
proof fn step_to(
    options: RunOptionsView,
    config: RuntimeConfigView,
    replies: Seq<ReplyView>,
    i: int,
) -> (m: StartupView)
    requires
        reached(options, config, replies, i),
        i > 0,
    ensures
        m.options == options,
        m.config == config,
        under_way(m.stage, asked(options, config, replies, i - 1)),
        answered(m, replies[i - 1]) is Some,
        (answered(m, replies[i - 1])->0).1 == asked(options, config, replies, i),
        under_way((answered(m, replies[i - 1])->0).0.stage, asked(options, config, replies, i)),
        m.stage == Stage::LastNodeStore ==> i >= 2 && replies[i - 2] is Connected
            && m.genesis_hash == Some(replies[i - 2]->genesis_hash),
        m.stage == Stage::GenesisRead ==> i >= 3 && replies[i - 3] is Connected && m.genesis_hash
            == Some(replies[i - 3]->genesis_hash),
{
    state_of(options, config, replies);
    let before = replies.take(i - 1);
    let upto = replies.take(i);
    earlier_replies_were_taken(options, config, replies, i - 1);
    earlier_replies_were_taken(options, config, replies, i);
    state_of(options, config, before);
    state_of(options, config, upto);
    assert(upto.drop_last() =~= before);
    assert(upto.last() == replies[i - 1]);
    let (m, actions) = trace(options, config, before)->0;
    let longer = (trace(options, config, upto)->0).1;
    assert(longer == actions.push((answered(m, replies[i - 1])->0).1));
    assert(longer.last() == asked(options, config, replies, i));
    assert(actions.last() == asked(options, config, replies, i - 1));
    m
}

/// The first action asked for is not an effect of any reply.
proof fn step_zero(options: RunOptionsView, config: RuntimeConfigView, replies: Seq<ReplyView>)
    requires
        trace(options, config, replies) is Some,
    ensures
        asked(options, config, replies, 0) == begun(options, config).1,
{
    state_of(options, config, replies);
    earlier_replies_were_taken(options, config, replies, 0);
    assert(replies.take(0).len() == 0);
    let actions = (trace(options, config, replies)->0).1;
    assert(actions.take(1)[0] == actions[0]);
}

/// Every start begins, and its first action depends on nothing but whether the log is to be set
/// up.
pub proof fn a_start_begins(options: RunOptionsView, config: RuntimeConfigView)
    ensures
        trace(options, config, seq![]) is Some,
        (trace(options, config, seq![])->0).1.len() == 1,
        options.set_parser ==> asked(options, config, seq![], 0) is InstallSubscriber,
        !options.set_parser ==> asked(options, config, seq![], 0) is OpenDatabase,
{
}

/// The log is set up only where it is asked for, and first. The level is the one that the
/// configured text names in upper case, whatever the format; where it names none, the level is
/// `Info` and there is a warning. The format is the configured one, and only plain text shows
/// that a span closes.
pub proof fn the_log_is_set_up_as_configured(
    options: RunOptionsView,
    config: RuntimeConfigView,
    replies: Seq<ReplyView>,
    i: int,
)
    requires
        reached(options, config, replies, i),
        asked(options, config, replies, i) is InstallSubscriber,
    ensures
        ({
            let setup = asked(options, config, replies, i)->InstallSubscriber_0;
            let named = level_named(uppercase(config.log_level));
            &&& i == 0 && options.set_parser
            &&& named is Some ==> setup.subscriber.max_level == named->0 && setup.warning is None
            &&& named is None ==> setup.subscriber.max_level == Level::Info && setup.warning
                == Some(
                "error parsing level: expected one of \"error\", \"warn\", \"info\", \"debug\", \"trace\", or a number 1-5"@,
            )
            &&& setup.subscriber.format == EventFormat::Json <==> config.log_format_json
            &&& setup.subscriber.span_close_events <==> !config.log_format_json
        }),
{
    if i > 0 {
        let m = step_to(options, config, replies, i);
    } else {
        step_zero(options, config, replies);
    }
}

/// The database of a start is opened at the configured path, for writing, with whatever is missing
/// created, and with every column family.
pub proof fn the_database_is_opened_for_writing(
    options: RunOptionsView,
    config: RuntimeConfigView,
    replies: Seq<ReplyView>,
    i: int,
    family: ColumnFamily,
)
    requires
        reached(options, config, replies, i),
        asked(options, config, replies, i) is OpenDatabase,
    ensures
        ({
            let plan = asked(options, config, replies, i)->OpenDatabase_0;
            &&& plan.path == config.avail_path
            &&& plan.access == Access::ReadWrite
            &&& plan.create_if_missing
            &&& plan.create_missing_column_families
            &&& exists|k: int|
                0 <= k < plan.families.len() && (#[trigger] plan.families[k]).family == family
                    && plan.families[k].max_write_buffer_number == 16
        }),
{
    if i > 0 {
        let m = step_to(options, config, replies, i);
    } else {
        step_zero(options, config, replies);
    }
    crate::database::a_plan_opens_what_is_asked(config.avail_path, false);
    crate::database::every_family_has_its_place(config.avail_path, false);
    let plan = asked(options, config, replies, i)->OpenDatabase_0;
    assert(plan == crate::database::database_plan(config.avail_path, false));
    let at: int = match family {
        ColumnFamily::ConfidenceFactor => 0,
        ColumnFamily::BlockHeader => 1,
        ColumnFamily::AppData => 2,
        ColumnFamily::State => 3,
        ColumnFamily::LatestBlock => 4,
        ColumnFamily::ConfidenceAchievedBlocks => 5,
        ColumnFamily::BlocksList => 6,
        ColumnFamily::BlocksListLength => 7,
        ColumnFamily::ConfidenceAchievedMessage => 8,
        ColumnFamily::HeaderVerifiedMessage => 9,
        ColumnFamily::DataVerifiedMessage => 10,
    };
    assert(plan.families[at].family == family);
}

/// The metrics go to the configured collector, under the role of a light node.
pub proof fn metrics_go_to_the_configured_collector(
    options: RunOptionsView,
    config: RuntimeConfigView,
    replies: Seq<ReplyView>,
    i: int,
)
    requires
        reached(options, config, replies, i),
        asked(options, config, replies, i) is InitTelemetry,
    ensures
        asked(options, config, replies, i)->endpoint == config.ot_collector_endpoint,
        asked(options, config, replies, i)->role == "lightnode"@,
{
    if i > 0 {
        let m = step_to(options, config, replies, i);
    } else {
        step_zero(options, config, replies);
    }
}

/// The network is set up with the configured limits. Local records are removed exactly where the
/// client takes a part of the block matrix.
pub proof fn only_a_fat_client_removes_local_records(
    options: RunOptionsView,
    config: RuntimeConfigView,
    replies: Seq<ReplyView>,
    i: int,
)
    requires
        reached(options, config, replies, i),
        asked(options, config, replies, i) is InitNetwork,
    ensures
        asked(options, config, replies, i)->kad_remove_local_record
            <==> config.has_block_matrix_partition,
        asked(options, config, replies, i)->dht_parallelization_limit
            == config.dht_parallelization_limit,
        asked(options, config, replies, i)->kad_record_ttl == config.kad_record_ttl,
        asked(options, config, replies, i)->put_batch_size == config.put_batch_size,
{
    if i > 0 {
        let m = step_to(options, config, replies, i);
    } else {
        step_zero(options, config, replies);
    }
}

/// The client listens on every interface, on the configured UDP port, with QUIC and nothing more.
pub proof fn the_client_listens_on_the_configured_port(
    options: RunOptionsView,
    config: RuntimeConfigView,
    replies: Seq<ReplyView>,
    i: int,
)
    requires
        reached(options, config, replies, i),
        asked(options, config, replies, i) is Listen,
    ensures
        ({
            let address = asked(options, config, replies, i)->Listen_0;
            &&& address.len() == 3
            &&& address[0] == Segment::Ip4([0u8, 0u8, 0u8, 0u8])
            &&& address[1] == Segment::Udp(config.port)
            &&& address[2] == Segment::QuicV1
        }),
{
    if i > 0 {
        let m = step_to(options, config, replies, i);
    } else {
        step_zero(options, config, replies);
    }
}

/// The network is joined through all the configured peers, and the public parameters are those for
/// the one degree.
pub proof fn the_configured_peers_are_used(
    options: RunOptionsView,
    config: RuntimeConfigView,
    replies: Seq<ReplyView>,
    i: int,
)
    requires
        reached(options, config, replies, i),
    ensures
        asked(options, config, replies, i) is Bootstrap ==> asked(
            options,
            config,
            replies,
            i,
        )->peers == config.bootstraps,
        asked(options, config, replies, i) is LoadPublicParams ==> asked(
            options,
            config,
            replies,
            i,
        )->max_degree == 1024,
{
    if i > 0 {
        let m = step_to(options, config, replies, i);
    } else {
        step_zero(options, config, replies);
    }
}

/// The client connects to the configured full nodes, for the network version that it is built for,
/// with regard to the very node that the database was just read to hold.
pub proof fn the_node_just_read_is_regarded(
    options: RunOptionsView,
    config: RuntimeConfigView,
    replies: Seq<ReplyView>,
    i: int,
)
    requires
        reached(options, config, replies, i),
        asked(options, config, replies, i) is Connect,
    ensures
        i > 0,
        asked(options, config, replies, i - 1) is ReadLastNode,
        replies[i - 1] == ReplyView::LastNode(asked(options, config, replies, i)->last_node),
        asked(options, config, replies, i)->full_nodes == config.full_node_ws,
        asked(options, config, replies, i)->network_version == options.network_version,
{
    if i > 0 {
        let m = step_to(options, config, replies, i);
    } else {
        step_zero(options, config, replies);
    }
}

/// The node that is noted is the one that the client has just connected to.
pub proof fn the_connected_node_is_noted(
    options: RunOptionsView,
    config: RuntimeConfigView,
    replies: Seq<ReplyView>,
    i: int,
)
    requires
        reached(options, config, replies, i),
        asked(options, config, replies, i) is StoreLastNode,
    ensures
        i > 0,
        asked(options, config, replies, i - 1) is Connect,
        replies[i - 1] is Connected,
        asked(options, config, replies, i)->StoreLastNode_0 == replies[i - 1]->host,
{
    if i > 0 {
        let m = step_to(options, config, replies, i);
    } else {
        step_zero(options, config, replies);
    }
}

/// A chain is written only to a database that was just read to hold none, and it is the chain of
/// the node that the client connected to.
pub proof fn only_a_new_database_is_given_a_chain(
    options: RunOptionsView,
    config: RuntimeConfigView,
    replies: Seq<ReplyView>,
    i: int,
)
    requires
        reached(options, config, replies, i),
        asked(options, config, replies, i) is StoreGenesisHash,
    ensures
        i >= 3,
        asked(options, config, replies, i - 1) is ReadGenesisHash,
        replies[i - 1] == ReplyView::StoredGenesis(None),
        replies[i - 3] is Connected,
        asked(options, config, replies, i)->StoreGenesisHash_0 == replies[i - 3]->genesis_hash,
{
    if i > 0 {
        let m = step_to(options, config, replies, i);
    } else {
        step_zero(options, config, replies);
    }
}

/// The newest block is asked for only where the database was read to hold the chain of the node,
/// or was read to hold none and the chain of the node was then written.
pub proof fn the_head_is_fetched_on_the_same_chain(
    options: RunOptionsView,
    config: RuntimeConfigView,
    replies: Seq<ReplyView>,
    i: int,
)
    requires
        reached(options, config, replies, i),
        asked(options, config, replies, i) is FetchHead,
    ensures
        ({
            ||| {
                &&& i >= 3
                &&& asked(options, config, replies, i - 1) is ReadGenesisHash
                &&& replies[i - 3] is Connected
                &&& replies[i - 1] == ReplyView::StoredGenesis(
                    Some(replies[i - 3]->genesis_hash),
                )
            }
            ||| {
                &&& i >= 4
                &&& asked(options, config, replies, i - 1) == ActionView::StoreGenesisHash(
                    replies[i - 4]->genesis_hash,
                )
                &&& replies[i - 1] is Done
                &&& replies[i - 2] == ReplyView::StoredGenesis(None)
                &&& replies[i - 4] is Connected
            }
        }),
{
    if i > 0 {
        let m = step_to(options, config, replies, i);
        if m.stage == Stage::GenesisStore {
            only_a_new_database_is_given_a_chain(options, config, replies, i - 1);
        }
    } else {
        step_zero(options, config, replies);
    }
}

/// What is launched is the plan for the block that the node has just reported as the newest, and
/// that block is noted as the latest.
pub proof fn the_launch_is_for_the_reported_head(
    options: RunOptionsView,
    config: RuntimeConfigView,
    replies: Seq<ReplyView>,
    i: int,
)
    requires
        reached(options, config, replies, i),
        asked(options, config, replies, i) is Launch,
    ensures
        i > 0,
        asked(options, config, replies, i - 1) is FetchHead,
        replies[i - 1] is Head,
        asked(options, config, replies, i)->Launch_0 == launch_plan(
            options,
            config,
            replies[i - 1]->Head_0,
        ),
        asked(options, config, replies, i)->Launch_0.latest == replies[i - 1]->Head_0,
{
    if i > 0 {
        let m = step_to(options, config, replies, i);
    } else {
        step_zero(options, config, replies);
    }
}

/// Every action comes right after the one that it needs, once that was done. Nothing is skipped,
/// and nothing is asked for twice.
pub proof fn every_action_has_its_turn(
    options: RunOptionsView,
    config: RuntimeConfigView,
    replies: Seq<ReplyView>,
    i: int,
)
    requires
        reached(options, config, replies, i),
        i > 0,
    ensures
        ({
            let action = asked(options, config, replies, i);
            let before = asked(options, config, replies, i - 1);
            let done = replies[i - 1] is Done;
            &&& !(action is InstallSubscriber)
            &&& action is OpenDatabase ==> before is InstallSubscriber && done
            &&& action is CreateKeypair ==> before is OpenDatabase && done
            &&& action is InitTelemetry ==> before is CreateKeypair && done
            &&& action is InitNetwork ==> before is InitTelemetry && done
            &&& action is SpawnNetwork ==> before is InitNetwork && done
            &&& action is Listen ==> before is SpawnNetwork && done
            &&& action is Bootstrap ==> before is Listen && done
            &&& action is LoadPublicParams ==> before is Bootstrap && done
            &&& action is ReadLastNode ==> before is LoadPublicParams && done
            &&& action is Connect ==> before is ReadLastNode && replies[i - 1] is LastNode
            &&& action is StoreLastNode ==> before is Connect && replies[i - 1] is Connected
            &&& action is ReadGenesisHash ==> before is StoreLastNode && done
            &&& action is StoreGenesisHash ==> before is ReadGenesisHash && replies[i - 1] is
                StoredGenesis
            &&& action is FetchHead ==> (before is ReadGenesisHash && replies[i - 1] is
                StoredGenesis) || (before is StoreGenesisHash && done)
            &&& action is Launch ==> before is FetchHead && replies[i - 1] is Head
            &&& action is Finish ==> before is Launch && done
            &&& !(before is Finish) && !(before is Fail)
        }),
{
    let m = step_to(options, config, replies, i);
}

/// A start gives up only where the action under way failed, with the error of that action, or
/// where the database was read to hold another chain than the node is on.
pub proof fn every_failure_is_told_by_its_action(
    options: RunOptionsView,
    config: RuntimeConfigView,
    replies: Seq<ReplyView>,
    i: int,
)
    requires
        reached(options, config, replies, i),
        asked(options, config, replies, i) is Fail,
    ensures
        i > 0,
        ({
            let before = asked(options, config, replies, i - 1);
            let error = asked(options, config, replies, i)->Fail_0;
            &&& replies[i - 1] is Failed || error == StartError::GenesisMismatch
            &&& error == StartError::Database ==> before is OpenDatabase
            &&& error == StartError::Keypair ==> before is CreateKeypair
            &&& error == StartError::Telemetry ==> before is InitTelemetry
            &&& error == StartError::Network ==> before is InitNetwork
            &&& error == StartError::Listening ==> before is Listen
            &&& error == StartError::Bootstrap ==> before is Bootstrap
            &&& error == StartError::LastNodeRead ==> before is ReadLastNode
            &&& error == StartError::Connection ==> before is Connect
            &&& error == StartError::LastNodeStore ==> before is StoreLastNode
            &&& error == StartError::GenesisRead ==> before is ReadGenesisHash
            &&& error == StartError::GenesisStore ==> before is StoreGenesisHash
            &&& error == StartError::Head ==> before is FetchHead
            &&& error == StartError::GenesisMismatch ==> {
                &&& i >= 3
                &&& before is ReadGenesisHash
                &&& replies[i - 3] is Connected
                &&& replies[i - 1] is StoredGenesis
                &&& replies[i - 1]->StoredGenesis_0 is Some
                &&& replies[i - 1]->StoredGenesis_0 != Some(replies[i - 3]->genesis_hash)
            }
        }),
{
    if i > 0 {
        let m = step_to(options, config, replies, i);
    } else {
        step_zero(options, config, replies);
    }
}

/// The action under way after the replies, and the one after one more reply.
spec fn moves(
    options: RunOptionsView,
    config: RuntimeConfigView,
    replies: Seq<ReplyView>,
    reply: ReplyView,
) -> bool {
    let (m, actions) = trace(options, config, replies)->0;
    let next = trace(options, config, replies.push(reply));
    match answered(m, reply) {
        Some((state, action)) => next == Some((state, actions.push(action))),
        None => next is None,
    }
}

proof fn one_more_reply(
    options: RunOptionsView,
    config: RuntimeConfigView,
    replies: Seq<ReplyView>,
    reply: ReplyView,
)
    requires
        trace(options, config, replies) is Some,
    ensures
        moves(options, config, replies, reply),
{
    assert(replies.push(reply).drop_last() =~= replies);
}

/// The action that a start asks for when it is given one more reply, if it takes the reply.
pub open spec fn next_asked(
    options: RunOptionsView,
    config: RuntimeConfigView,
    replies: Seq<ReplyView>,
    reply: ReplyView,
) -> Option<ActionView> {
    match trace(options, config, replies.push(reply)) {
        Some((_, actions)) => Some(actions.last()),
        None => None,
    }
}

/// An action that was done is followed by the next one, whatever is configured.
pub proof fn what_was_done_is_followed_up(
    options: RunOptionsView,
    config: RuntimeConfigView,
    replies: Seq<ReplyView>,
)
    requires
        trace(options, config, replies) is Some,
    ensures
        ({
            let now = (trace(options, config, replies)->0).1.last();
            let next = next_asked(options, config, replies, ReplyView::Done);
            &&& now is InstallSubscriber ==> next is Some && next->0 is OpenDatabase
            &&& now is OpenDatabase ==> next is Some && next->0 is CreateKeypair
            &&& now is CreateKeypair ==> next is Some && next->0 is InitTelemetry
            &&& now is InitTelemetry ==> next is Some && next->0 is InitNetwork
            &&& now is InitNetwork ==> next is Some && next->0 is SpawnNetwork
            &&& now is SpawnNetwork ==> next is Some && next->0 is Listen
            &&& now is Listen ==> next is Some && next->0 is Bootstrap
            &&& now is Bootstrap ==> next is Some && next->0 is LoadPublicParams
            &&& now is LoadPublicParams ==> next is Some && next->0 is ReadLastNode
            &&& now is StoreLastNode ==> next is Some && next->0 is ReadGenesisHash
            &&& now is StoreGenesisHash ==> next is Some && next->0 is FetchHead
            &&& now is Launch ==> next is Some && next->0 is Finish
            &&& (now is ReadLastNode || now is Connect || now is ReadGenesisHash || now is FetchHead
                || now is Finish || now is Fail) ==> next is None
        }),
{
    state_of(options, config, replies);
    one_more_reply(options, config, replies, ReplyView::Done);
}

/// What the outside tells is taken where it was asked for, and nowhere else.
pub proof fn what_was_told_is_followed_up(
    options: RunOptionsView,
    config: RuntimeConfigView,
    replies: Seq<ReplyView>,
    reply: ReplyView,
)
    requires
        trace(options, config, replies) is Some,
    ensures
        ({
            let now = (trace(options, config, replies)->0).1.last();
            let next = next_asked(options, config, replies, reply);
            &&& reply is LastNode ==> if now is ReadLastNode {
                next is Some && next->0 is Connect && next->0->last_node == reply->LastNode_0
            } else {
                next is None
            }
            &&& reply is Connected ==> if now is Connect {
                next == Some(ActionView::StoreLastNode(reply->host))
            } else {
                next is None
            }
            &&& reply is Head ==> if now is FetchHead {
                next is Some && next->0 is Launch && next->0->Launch_0.latest == reply->Head_0
            } else {
                next is None
            }
        }),
{
    state_of(options, config, replies);
    one_more_reply(options, config, replies, reply);
}

/// When the chain of the database is read, a database that holds none is given that of the node,
/// one that holds that of the node is gone on with, and any other is refused.
pub proof fn the_chain_decides(
    options: RunOptionsView,
    config: RuntimeConfigView,
    replies: Seq<ReplyView>,
    stored: Option<Seq<u8>>,
)
    requires
        trace(options, config, replies) is Some,
    ensures
        ({
            let now = (trace(options, config, replies)->0).1.last();
            let next = next_asked(options, config, replies, ReplyView::StoredGenesis(stored));
            &&& !(now is ReadGenesisHash) ==> next is None
            &&& now is ReadGenesisHash ==> {
                let told = replies[replies.len() - 2];
                &&& replies.len() >= 2 && told is Connected
                &&& stored is None ==> next == Some(
                    ActionView::StoreGenesisHash(told->genesis_hash),
                )
                &&& stored == Some(told->genesis_hash) ==> next == Some(ActionView::FetchHead)
                &&& stored is Some && stored->0 != told->genesis_hash ==> next == Some(
                    ActionView::Fail(StartError::GenesisMismatch),
                )
            }
        }),
{
    state_of(options, config, replies);
    one_more_reply(options, config, replies, ReplyView::StoredGenesis(stored));
}

/// An action that fails ends the start with its own error. The four that cannot fail take no
/// failure.
pub proof fn what_failed_ends_the_start(
    options: RunOptionsView,
    config: RuntimeConfigView,
    replies: Seq<ReplyView>,
)
    requires
        trace(options, config, replies) is Some,
    ensures
        ({
            let now = (trace(options, config, replies)->0).1.last();
            let next = next_asked(options, config, replies, ReplyView::Failed);
            &&& now is OpenDatabase ==> next == Some(ActionView::Fail(StartError::Database))
            &&& now is CreateKeypair ==> next == Some(ActionView::Fail(StartError::Keypair))
            &&& now is InitTelemetry ==> next == Some(ActionView::Fail(StartError::Telemetry))
            &&& now is InitNetwork ==> next == Some(ActionView::Fail(StartError::Network))
            &&& now is Listen ==> next == Some(ActionView::Fail(StartError::Listening))
            &&& now is Bootstrap ==> next == Some(ActionView::Fail(StartError::Bootstrap))
            &&& now is ReadLastNode ==> next == Some(ActionView::Fail(StartError::LastNodeRead))
            &&& now is Connect ==> next == Some(ActionView::Fail(StartError::Connection))
            &&& now is StoreLastNode ==> next == Some(ActionView::Fail(StartError::LastNodeStore))
            &&& now is ReadGenesisHash ==> next == Some(ActionView::Fail(StartError::GenesisRead))
            &&& now is StoreGenesisHash ==> next == Some(
                ActionView::Fail(StartError::GenesisStore),
            )
            &&& now is FetchHead ==> next == Some(ActionView::Fail(StartError::Head))
            &&& (now is InstallSubscriber || now is SpawnNetwork || now is LoadPublicParams || now is
                Launch || now is Finish || now is Fail) ==> next is None
        }),
{
    state_of(options, config, replies);
    one_more_reply(options, config, replies, ReplyView::Failed);
}

/// Two starts with the same path open the database alike, with the same port they listen alike, with
/// the same collector they report alike, and with the same level text and format they log alike,
/// whatever else they were given and whatever they were told.
pub proof fn settings_do_not_mix(
    options: RunOptionsView,
    config: RuntimeConfigView,
    replies: Seq<ReplyView>,
    i: int,
    other_options: RunOptionsView,
    other_config: RuntimeConfigView,
    other_replies: Seq<ReplyView>,
    j: int,
)
    requires
        reached(options, config, replies, i),
        reached(other_options, other_config, other_replies, j),
    ensures
        ({
            let a = asked(options, config, replies, i);
            let b = asked(other_options, other_config, other_replies, j);
            &&& (a is OpenDatabase && b is OpenDatabase && config.avail_path
                == other_config.avail_path) ==> a == b
            &&& (a is Listen && b is Listen && config.port == other_config.port) ==> a == b
            &&& (a is InitTelemetry && b is InitTelemetry && config.ot_collector_endpoint
                == other_config.ot_collector_endpoint) ==> a == b
            &&& (a is InstallSubscriber && b is InstallSubscriber && config.log_level
                == other_config.log_level && config.log_format_json
                == other_config.log_format_json) ==> a == b
        }),
{
    if i > 0 {
        let m = step_to(options, config, replies, i);
    } else {
        step_zero(options, config, replies);
    }
    if j > 0 {
        let m = step_to(other_options, other_config, other_replies, j);
    } else {
        step_zero(other_options, other_config, other_replies);
    }
}

/// What is said of each failure.
pub proof fn every_error_has_its_text(error: StartError)
    ensures
        error == StartError::Database ==> context_of(error) == Some(
            "Cannot initialize database at run"@,
        ),
        error == StartError::Telemetry ==> context_of(error) == Some(
            "Unable to initialize OpenTelemetry service"@,
        ),
        error == StartError::Network ==> context_of(error) == Some(
            "Failed to init Network Service"@,
        ),
        error == StartError::Listening ==> context_of(error) == Some(
            "Listening on UDP not to fail."@,
        ),
        error == StartError::Head ==> context_of(error) == Some("Failed to get chain header"@),
        error == StartError::GenesisMismatch ==> context_of(error) == Some(
            "Genesis hash doesn't match the stored one! Clear the db or change nodes."@,
        ),
        (error == StartError::Keypair || error == StartError::Bootstrap || error
            == StartError::LastNodeRead || error == StartError::Connection || error
            == StartError::LastNodeStore || error == StartError::GenesisRead || error
            == StartError::GenesisStore) ==> context_of(error) is None,
{
}

/// What a failure is announced with is the text of its error.
pub proof fn a_context_is_the_text_of_its_error(error: &StartError, context: Option<&'static str>)
    requires
        call_ensures(StartError::context, (error,), context),
    ensures
        context is Some <==> context_of(*error) is Some,
        context is Some ==> context->0@ == context_of(*error)->0,
{
}

/// What the library asks for first is what the trace of the start begins with.
pub proof fn a_run_begins_its_trace(
    options: RunOptions,
    config: RuntimeConfig,
    begin: (Startup, Action),
)
    requires
        call_ensures(run, (options, config), begin),
    ensures
        trace(options@, config@, seq![]) == Some((begin.0@, seq![begin.1@])),
{
}

/// An action is seen with all that it holds.
pub proof fn an_action_is_seen_whole(action: Action)
    ensures
        action is InstallSubscriber ==> action@ is InstallSubscriber
            && action@->InstallSubscriber_0.subscriber == action->InstallSubscriber_0.subscriber,
        action is OpenDatabase ==> action@ is OpenDatabase && action@->OpenDatabase_0.path
            == action->OpenDatabase_0.path@ && action@->OpenDatabase_0.access
            == action->OpenDatabase_0.access && action@->OpenDatabase_0.families
            == action->OpenDatabase_0.families@,
        action is InitTelemetry ==> action@ is InitTelemetry && action@->endpoint
            == action->endpoint@ && action@->role == action->role@,
        action is InitNetwork ==> action@ is InitNetwork && (action@->kad_remove_local_record
            <==> action->kad_remove_local_record) && action@->dht_parallelization_limit
            == action->dht_parallelization_limit && action@->kad_record_ttl
            == action->kad_record_ttl && action@->put_batch_size == action->put_batch_size,
        action is Listen ==> action@ == ActionView::Listen(segments(action->Listen_0)),
        action is Bootstrap ==> action@ is Bootstrap && action@->peers
            == action->peers.deep_view(),
        action is LoadPublicParams ==> action@ is LoadPublicParams && action@->max_degree
            == action->max_degree,
        action is Connect ==> action@ is Connect && action@->full_nodes
            == action->full_nodes.deep_view() && action@->last_node == action->last_node.deep_view()
            && action@->network_version == action->network_version@,
        action is StoreLastNode ==> action@ == ActionView::StoreLastNode(action->StoreLastNode_0@),
        action is StoreGenesisHash ==> action@ == ActionView::StoreGenesisHash(
            action->StoreGenesisHash_0@,
        ),
        action is Launch ==> action@ is Launch && action@->Launch_0.latest
            == action->Launch_0.latest && action@->Launch_0.sync_end_block
            == action->Launch_0.sync_end_block && action@->Launch_0.steps
            == action->Launch_0.steps@,
        action is Fail ==> action@ == ActionView::Fail(action->Fail_0),
        action is CreateKeypair <==> action@ is CreateKeypair,
        action is SpawnNetwork <==> action@ is SpawnNetwork,
        action is ReadLastNode <==> action@ is ReadLastNode,
        action is ReadGenesisHash <==> action@ is ReadGenesisHash,
        action is FetchHead <==> action@ is FetchHead,
        action is Finish <==> action@ is Finish,
{
}

/// A reply is seen with all that it says.
pub proof fn a_reply_is_seen_whole(reply: Reply)
    ensures
        reply is Done <==> reply@ is Done,
        reply is Failed <==> reply@ is Failed,
        reply is LastNode ==> reply@ == ReplyView::LastNode(reply->LastNode_0.deep_view()),
        reply is Connected ==> reply@ is Connected && reply@->host == reply->host@
            && reply@->genesis_hash == reply->genesis_hash@,
        reply is StoredGenesis ==> reply@ is StoredGenesis && (reply@->StoredGenesis_0 is Some
            <==> reply->StoredGenesis_0 is Some),
        reply is StoredGenesis && reply->StoredGenesis_0 is Some ==> reply@->StoredGenesis_0->0
            == reply->StoredGenesis_0->0@,
        reply is Head ==> reply@ == ReplyView::Head(reply->Head_0),
{
}

} // verus!
