//! What runs once the client is connected: the channels between its tasks and the order in which
//! the tasks are started.

use crate::config::{Mode, RunOptions, RunOptionsView, RuntimeConfig, RuntimeConfigView};
use vstd::prelude::*;

verus! {

/// How many messages a channel between tasks holds.
pub const CHANNEL_CAPACITY: usize = 128;

/// What a message to the outside is about.
#[derive(Clone, Copy, Debug, PartialEq, Eq, Structural)]
pub enum Topic {
    /// A finalized header was received.
    HeaderVerified,
    /// A block was verified with enough confidence.
    ConfidenceAchieved,
    /// The data of the application in a block was verified.
    DataVerified,
}

/// One step of the launch. All but [`Launch::MarkUnsynced`] start a task.
#[derive(Clone, Copy, Debug, PartialEq, Eq, Structural)]
pub enum Launch {
    /// Follow the data of an application: reads verified blocks, writes application data.
    AppClient { app_id: u32, sync_end_block: u32 },
    /// Serve the HTTP interface, with what the plan holds for the server.
    Server,
    /// Hand the messages of a topic to the subscribers of the HTTP interface.
    Publish(Topic),
    /// Read the application data and drop it.
    DiscardAppData,
    /// Hand the messages of a topic to the caller's function.
    Callback(Topic),
    /// Crawl each block after its header, with what the plan holds for the crawler.
    Crawl,
    /// Note in the shared state that the client has blocks to catch up on.
    MarkUnsynced,
    /// Catch up on the blocks from `start` to `end`.
    Sync { start: u32, end: u32 },
    /// Follow the finality of the chain.
    SyncFinality,
    /// Receive the finalized headers and send them to the other tasks.
    FinalizedHeaders,
    /// Sample each block. When it is awaited, the run ends with it.
    LightClient { awaited: bool },
}

/// What the server of the HTTP interface reports of the client.
#[derive(Debug)]
pub struct ServerInfo {
    pub version: String,
    pub network_version: String,
}

/// What a [`ServerInfo`] says.
pub struct ServerInfoView {
    pub version: Seq<char>,
    pub network_version: Seq<char>,
}

impl View for ServerInfo {
    type V = ServerInfoView;

    open spec fn view(&self) -> ServerInfoView {
        ServerInfoView { version: self.version@, network_version: self.network_version@ }
    }
}

/// How the crawler works.
#[derive(Debug)]
pub struct CrawlSettings {
    pub delay: u64,
    pub mode: String,
}

/// What [`CrawlSettings`] say.
pub struct CrawlSettingsView {
    pub delay: u64,
    pub mode: Seq<char>,
}

impl View for CrawlSettings {
    type V = CrawlSettingsView;

    open spec fn view(&self) -> CrawlSettingsView {
        CrawlSettingsView { delay: self.delay, mode: self.mode@ }
    }
}

/// Everything that the launch needs.
#[derive(Debug)]
pub struct LaunchPlan {
    /// The number of the newest block, noted in the shared state before anything is started.
    pub latest: u32,
    /// The last block that there is to catch up on.
    pub sync_end_block: u32,
    /// The capacity of the channel for headers.
    pub header_channel: usize,
    /// The capacity of the channel for verified blocks and of that for application data: they
    /// are there when the client follows an application.
    pub app_channels: Option<usize>,
    /// What the server is given, where there is one.
    pub server: Option<ServerInfo>,
    /// What the crawler is given, where there is one.
    pub crawl: Option<CrawlSettings>,
    pub steps: Vec<Launch>,
}

/// What a [`LaunchPlan`] says.
pub struct LaunchPlanView {
    pub latest: u32,
    pub sync_end_block: u32,
    pub header_channel: usize,
    pub app_channels: Option<usize>,
    pub server: Option<ServerInfoView>,
    pub crawl: Option<CrawlSettingsView>,
    pub steps: Seq<Launch>,
}

impl View for LaunchPlan {
    type V = LaunchPlanView;

    open spec fn view(&self) -> LaunchPlanView {
        LaunchPlanView {
            latest: self.latest,
            sync_end_block: self.sync_end_block,
            header_channel: self.header_channel,
            app_channels: self.app_channels,
            server: match self.server {
                Some(server) => Some(server@),
                None => None,
            },
            crawl: match self.crawl {
                Some(crawl) => Some(crawl@),
                None => None,
            },
            steps: self.steps@,
        }
    }
}

/// The block before `latest`, or block 0 where there is none before it.
pub open spec fn last_block_to_sync(latest: u32) -> u32 {
    if latest == 0 {
        0
    } else {
        (latest - 1) as u32
    }
}

pub open spec fn app_steps(mode: Mode, latest: u32) -> Seq<Launch> {
    match mode {
        Mode::AppClient(app_id) => seq![
            Launch::AppClient { app_id, sync_end_block: last_block_to_sync(latest) },
        ],
        Mode::LightClient => seq![],
    }
}

/// The topics that there are messages for.
pub open spec fn topics(mode: Mode) -> Seq<Topic> {
    if mode is AppClient {
        seq![Topic::HeaderVerified, Topic::ConfidenceAchieved, Topic::DataVerified]
    } else {
        seq![Topic::HeaderVerified]
    }
}

/// The server, if one is needed, with what it publishes, or else the caller's function, if there
/// is one. A server that publishes nothing drops the application data.
pub open spec fn interface_steps(options: RunOptionsView, mode: Mode) -> Seq<Launch> {
    if options.server_needed {
        seq![Launch::Server] + if options.api_v2 {
            topics(mode).map_values(|topic: Topic| Launch::Publish(topic))
        } else if mode is AppClient {
            seq![Launch::DiscardAppData]
        } else {
            seq![]
        }
    } else if options.has_callback {
        topics(mode).map_values(|topic: Topic| Launch::Callback(topic))
    } else {
        seq![]
    }
}

pub open spec fn crawl_steps(options: RunOptionsView, config: RuntimeConfigView) -> Seq<Launch> {
    if options.crawl && config.crawl_block {
        seq![Launch::Crawl]
    } else {
        seq![]
    }
}

pub open spec fn sync_steps(sync_start_block: Option<u32>, latest: u32) -> Seq<Launch> {
    match sync_start_block {
        Some(start) => seq![
            Launch::MarkUnsynced,
            Launch::Sync { start, end: last_block_to_sync(latest) },
        ],
        None => seq![],
    }
}

pub open spec fn core_steps(options: RunOptionsView) -> Seq<Launch> {
    seq![
        Launch::SyncFinality,
        Launch::FinalizedHeaders,
        Launch::LightClient { awaited: options.await_run },
    ]
}

/// The server reports the version of the client behind a letter, and the network version.
pub open spec fn server_info(options: RunOptionsView) -> Option<ServerInfoView> {
    if options.server_needed {
        Some(
            ServerInfoView {
                version: "v"@ + options.version,
                network_version: options.network_version,
            },
        )
    } else {
        None
    }
}

/// The crawler runs where it is built in and wanted, as it is configured.
pub open spec fn crawl_settings(
    options: RunOptionsView,
    config: RuntimeConfigView,
) -> Option<CrawlSettingsView> {
    if options.crawl && config.crawl_block {
        Some(
            CrawlSettingsView { delay: config.crawl_block_delay, mode: config.crawl_block_mode },
        )
    } else {
        None
    }
}

/// The launch of a client that found `latest` to be the newest block.
pub open spec fn launch_plan(
    options: RunOptionsView,
    config: RuntimeConfigView,
    latest: u32,
) -> LaunchPlanView {
    LaunchPlanView {
        latest,
        sync_end_block: last_block_to_sync(latest),
        header_channel: CHANNEL_CAPACITY,
        app_channels: if config.mode is AppClient {
            Some(CHANNEL_CAPACITY)
        } else {
            None
        },
        server: server_info(options),
        crawl: crawl_settings(options, config),
        steps: app_steps(config.mode, latest) + interface_steps(options, config.mode)
            + crawl_steps(options, config) + sync_steps(config.sync_start_block, latest)
            + core_steps(options),
    }
}

/// Adds the server or the caller's function, and what hands the messages on.
fn push_interface(steps: &mut Vec<Launch>, options: &RunOptions, mode: Mode)
    ensures
        final(steps)@ == old(steps)@ + interface_steps(options@, mode),
{
    let app = matches!(mode, Mode::AppClient(_));
    if options.server_needed {
        steps.push(Launch::Server);
        if options.api_v2 {
            steps.push(Launch::Publish(Topic::HeaderVerified));
            if app {
                steps.push(Launch::Publish(Topic::ConfidenceAchieved));
                steps.push(Launch::Publish(Topic::DataVerified));
            }
        } else if app {
            steps.push(Launch::DiscardAppData);
        }
    } else if options.has_callback {
        steps.push(Launch::Callback(Topic::HeaderVerified));
        if app {
            steps.push(Launch::Callback(Topic::ConfidenceAchieved));
            steps.push(Launch::Callback(Topic::DataVerified));
        }
    }
    assert(steps@ =~= old(steps)@ + interface_steps(options@, mode));
}

/// Adds the client of an application, if the client follows one.
fn push_app(steps: &mut Vec<Launch>, mode: Mode, latest: u32)
    ensures
        final(steps)@ == old(steps)@ + app_steps(mode, latest),
{
    if let Mode::AppClient(app_id) = mode {
        steps.push(Launch::AppClient { app_id, sync_end_block: latest.saturating_sub(1) });
    }
    assert(steps@ =~= old(steps)@ + app_steps(mode, latest));
}

/// Adds the crawler, if it is built in and wanted.
fn push_crawl(steps: &mut Vec<Launch>, options: &RunOptions, config: &RuntimeConfig)
    ensures
        final(steps)@ == old(steps)@ + crawl_steps(options@, config@),
{
    if options.crawl && config.crawl_block {
        steps.push(Launch::Crawl);
    }
    assert(steps@ =~= old(steps)@ + crawl_steps(options@, config@));
}

/// Adds the task that catches up, if there is a block to start from.
fn push_sync(steps: &mut Vec<Launch>, sync_start_block: Option<u32>, latest: u32)
    ensures
        final(steps)@ == old(steps)@ + sync_steps(sync_start_block, latest),
{
    if let Some(start) = sync_start_block {
        steps.push(Launch::MarkUnsynced);
        steps.push(Launch::Sync { start, end: latest.saturating_sub(1) });
    }
    assert(steps@ =~= old(steps)@ + sync_steps(sync_start_block, latest));
}

/// Adds the tasks that every client has.
fn push_core(steps: &mut Vec<Launch>, options: &RunOptions)
    ensures
        final(steps)@ == old(steps)@ + core_steps(options@),
{
    steps.push(Launch::SyncFinality);
    steps.push(Launch::FinalizedHeaders);
    steps.push(Launch::LightClient { awaited: options.await_run });
    assert(steps@ =~= old(steps)@ + core_steps(options@));
}

/// What to launch, in which order, when `latest` is the newest block.
pub fn plan_launch(options: &RunOptions, config: &RuntimeConfig, latest: u32) -> (plan: LaunchPlan)
    ensures
        plan@ == launch_plan(options@, config@, latest),
        plan.latest == latest,
        plan.sync_end_block == if latest > 0 {
            latest - 1
        } else {
            0
        },
        plan.header_channel == 128,
        plan.app_channels == if config.mode is AppClient {
            Some(128usize)
        } else {
            None
        },
        plan.server is Some <==> options.server_needed,
        plan.server matches Some(server) ==> server.version@ == "v"@ + options.version@
            && server.network_version@ == options.network_version@,
        plan.crawl is Some <==> options.crawl && config.crawl_block,
        plan.crawl matches Some(crawl) ==> crawl.delay == config.crawl_block_delay && crawl.mode@
            == config.crawl_block_mode@,
{
    let mut steps: Vec<Launch> = Vec::new();
    push_app(&mut steps, config.mode, latest);
    assert(steps@ =~= app_steps(config.mode, latest));
    push_interface(&mut steps, options, config.mode);
    push_crawl(&mut steps, options, config);
    push_sync(&mut steps, config.sync_start_block, latest);
    push_core(&mut steps, options);
    LaunchPlan {
        latest,
        sync_end_block: latest.saturating_sub(1),
        header_channel: CHANNEL_CAPACITY,
        app_channels: if matches!(config.mode, Mode::AppClient(_)) {
            Some(CHANNEL_CAPACITY)
        } else {
            None
        },
        server: if options.server_needed {
            Some(
                ServerInfo {
                    version: server_version(options.version.as_str()),
                    network_version: options.network_version.clone(),
                },
            )
        } else {
            None
        },
        crawl: if options.crawl && config.crawl_block {
            Some(
                CrawlSettings {
                    delay: config.crawl_block_delay,
                    mode: config.crawl_block_mode.clone(),
                },
            )
        } else {
            None
        },
        steps,
    }
}

/// The version that the HTTP interface reports.
pub fn server_version(version: &str) -> (reported: String)
    ensures
        reported@ == "v"@ + version@,
{
    "v".to_owned().concat(version)
}

/// The step subscribes to the headers when it is taken. (The light client reads them from the
/// start: its end of the channel is as old as the channel.)
pub open spec fn subscribes_to_headers(step: Launch) -> bool {
    step == Launch::Publish(Topic::HeaderVerified) || step == Launch::Callback(
        Topic::HeaderVerified,
    ) || step is Crawl
}

/// The step reads the verified blocks.
pub open spec fn reads_blocks(step: Launch) -> bool {
    step is AppClient || step == Launch::Publish(Topic::ConfidenceAchieved) || step
        == Launch::Callback(Topic::ConfidenceAchieved)
}

/// The step sends the blocks that it verifies, where there is a channel for them.
pub open spec fn sends_blocks(step: Launch) -> bool {
    step is Sync || step is LightClient
}

/// The step takes the one end from which the application data is read.
pub open spec fn reads_app_data(step: Launch) -> bool {
    step == Launch::Publish(Topic::DataVerified) || step == Launch::Callback(Topic::DataVerified)
        || step == Launch::DiscardAppData
}

/// Whoever subscribes to the headers has done so before the first header is sent.
pub proof fn no_header_is_missed(
    options: RunOptionsView,
    config: RuntimeConfigView,
    latest: u32,
    i: int,
    j: int,
)
    requires
        0 <= i < launch_plan(options, config, latest).steps.len(),
        0 <= j < launch_plan(options, config, latest).steps.len(),
        subscribes_to_headers(launch_plan(options, config, latest).steps[i]),
        launch_plan(options, config, latest).steps[j] == Launch::FinalizedHeaders,
    ensures
        i < j,
{
}

/// Whoever reads the verified blocks was started before anyone who sends them, and there is a
/// channel for them.
pub proof fn no_verified_block_is_missed(
    options: RunOptionsView,
    config: RuntimeConfigView,
    latest: u32,
    i: int,
    j: int,
)
    requires
        0 <= i < launch_plan(options, config, latest).steps.len(),
        0 <= j < launch_plan(options, config, latest).steps.len(),
        reads_blocks(launch_plan(options, config, latest).steps[i]),
        sends_blocks(launch_plan(options, config, latest).steps[j]),
    ensures
        i < j,
        launch_plan(options, config, latest).app_channels is Some,
{
}

/// At most one step takes the application data, and only where the client follows an application.
pub proof fn app_data_has_one_reader(
    options: RunOptionsView,
    config: RuntimeConfigView,
    latest: u32,
    i: int,
    j: int,
)
    requires
        0 <= i < launch_plan(options, config, latest).steps.len(),
        0 <= j < launch_plan(options, config, latest).steps.len(),
        reads_app_data(launch_plan(options, config, latest).steps[i]),
        reads_app_data(launch_plan(options, config, latest).steps[j]),
    ensures
        i == j,
        config.mode is AppClient,
{
}

/// With a server or a caller's function, the data of a followed application is read.
pub proof fn app_data_is_read(options: RunOptionsView, config: RuntimeConfigView, latest: u32)
    requires
        config.mode is AppClient,
        options.server_needed || options.has_callback,
    ensures
        exists|i: int|
            0 <= i < launch_plan(options, config, latest).steps.len() && reads_app_data(
                #[trigger] launch_plan(options, config, latest).steps[i],
            ),
{
    let steps = launch_plan(options, config, latest).steps;
    let at: int = if !options.server_needed {
        3
    } else if options.api_v2 {
        4
    } else {
        2
    };
    assert(reads_app_data(steps[at]));
}

/// The channels for blocks and application data are there exactly where the client of an
/// application is started.
pub proof fn app_channels_come_with_the_app_client(
    options: RunOptionsView,
    config: RuntimeConfigView,
    latest: u32,
)
    ensures
        launch_plan(options, config, latest).app_channels is Some <==> exists|i: int|
            0 <= i < launch_plan(options, config, latest).steps.len() && #[trigger] launch_plan(
                options,
                config,
                latest,
            ).steps[i] is AppClient,
{
    let steps = launch_plan(options, config, latest).steps;
    if config.mode is AppClient {
        assert(steps[0] is AppClient);
    }
}

/// The light client comes last, and once, after the task that sends it the headers.
pub proof fn the_light_client_comes_last(
    options: RunOptionsView,
    config: RuntimeConfigView,
    latest: u32,
    i: int,
)
    requires
        0 <= i < launch_plan(options, config, latest).steps.len(),
    ensures
        ({
            let steps = launch_plan(options, config, latest).steps;
            &&& steps[i] is LightClient <==> i == steps.len() - 1
            &&& steps[i] == Launch::FinalizedHeaders <==> i == steps.len() - 2
            &&& steps[i] == Launch::SyncFinality <==> i == steps.len() - 3
            &&& steps.last() == Launch::LightClient { awaited: options.await_run }
        }),
{
}

/// Step `i` of the plan is `step`.
pub open spec fn takes(plan: LaunchPlanView, i: int, step: Launch) -> bool {
    0 <= i < plan.steps.len() && plan.steps[i] == step
}

/// A server is started exactly where one is needed, and one only. It is given the version of the
/// client behind a `v`, and the network version that the client is built for.
pub proof fn one_server_where_it_is_needed(
    options: RunOptionsView,
    config: RuntimeConfigView,
    latest: u32,
)
    ensures
        ({
            let plan = launch_plan(options, config, latest);
            &&& options.server_needed <==> exists|i: int| takes(plan, i, Launch::Server)
            &&& forall|i: int, j: int|
                takes(plan, i, Launch::Server) && takes(plan, j, Launch::Server) ==> i == j
            &&& options.server_needed <==> plan.server is Some
            &&& options.server_needed ==> plan.server->0.version == "v"@ + options.version
                && plan.server->0.network_version == options.network_version
        }),
{
    let plan = launch_plan(options, config, latest);
    if options.server_needed {
        let at: int = if config.mode is AppClient {
            1
        } else {
            0
        };
        assert(takes(plan, at, Launch::Server));
    }
}

/// The caller's function is called exactly where there is one and no server is needed: it is told
/// of every topic that there are messages for, and of no other.
pub proof fn a_callback_only_without_a_server(
    options: RunOptionsView,
    config: RuntimeConfigView,
    latest: u32,
    topic: Topic,
)
    ensures
        (!options.server_needed && options.has_callback && (topic == Topic::HeaderVerified
            || config.mode is AppClient)) <==> exists|i: int|
            takes(launch_plan(options, config, latest), i, Launch::Callback(topic)),
{
    let plan = launch_plan(options, config, latest);
    if !options.server_needed && options.has_callback && (topic == Topic::HeaderVerified
        || config.mode is AppClient) {
        let first: int = if config.mode is AppClient {
            1
        } else {
            0
        };
        let at: int = match topic {
            Topic::HeaderVerified => first,
            Topic::ConfidenceAchieved => first + 1,
            Topic::DataVerified => first + 2,
        };
        assert(takes(plan, at, Launch::Callback(topic)));
    }
}

/// The crawler is started exactly where it is built in and wanted, as it is configured.
pub proof fn the_crawler_is_given_its_settings(
    options: RunOptionsView,
    config: RuntimeConfigView,
    latest: u32,
)
    ensures
        ({
            let plan = launch_plan(options, config, latest);
            &&& (options.crawl && config.crawl_block) <==> exists|i: int|
                takes(plan, i, Launch::Crawl)
            &&& (options.crawl && config.crawl_block) <==> plan.crawl is Some
            &&& plan.crawl is Some ==> plan.crawl->0.delay == config.crawl_block_delay
                && plan.crawl->0.mode == config.crawl_block_mode
        }),
{
    let plan = launch_plan(options, config, latest);
    if options.crawl && config.crawl_block {
        let at: int = (app_steps(config.mode, latest) + interface_steps(
            options,
            config.mode,
        )).len() as int;
        assert(takes(plan, at, Launch::Crawl));
    }
}

/// With neither a server nor a caller's function, nothing is handed to the outside.
pub proof fn nothing_is_handed_out_unasked(
    options: RunOptionsView,
    config: RuntimeConfigView,
    latest: u32,
    i: int,
)
    requires
        !options.server_needed,
        !options.has_callback,
        0 <= i < launch_plan(options, config, latest).steps.len(),
    ensures
        !(launch_plan(options, config, latest).steps[i] is Server),
        !(launch_plan(options, config, latest).steps[i] is Publish),
        !(launch_plan(options, config, latest).steps[i] is Callback),
{
}

/// A server takes the place of the caller's function: with one, it makes no difference whether
/// there is the other.
pub proof fn a_server_takes_the_place_of_a_callback(
    options: RunOptionsView,
    config: RuntimeConfigView,
    latest: u32,
)
    requires
        options.server_needed,
    ensures
        launch_plan(options, config, latest) == launch_plan(
            RunOptionsView { has_callback: !options.has_callback, ..options },
            config,
            latest,
        ),
{
}

/// The client catches up where it was given a block to start from.
pub proof fn catching_up_is_launched(options: RunOptionsView, config: RuntimeConfigView, latest: u32)
    requires
        config.sync_start_block is Some,
    ensures
        exists|i: int|
            0 <= i < launch_plan(options, config, latest).steps.len() && #[trigger] launch_plan(
                options,
                config,
                latest,
            ).steps[i] is Sync,
{
    let steps = launch_plan(options, config, latest).steps;
    assert(steps[steps.len() - 4] is Sync);
}

/// The client catches up only where it was given a block to start from, up to the block before
/// the newest, and it is marked as not in sync just before.
pub proof fn catching_up_is_marked(
    options: RunOptionsView,
    config: RuntimeConfigView,
    latest: u32,
    i: int,
)
    requires
        0 <= i < launch_plan(options, config, latest).steps.len(),
        launch_plan(options, config, latest).steps[i] is Sync,
    ensures
        ({
            let steps = launch_plan(options, config, latest).steps;
            let end = launch_plan(options, config, latest).sync_end_block;
            &&& i > 0 && steps[i - 1] == Launch::MarkUnsynced
            &&& config.sync_start_block is Some
            &&& steps[i] == Launch::Sync { start: config.sync_start_block->0, end }
            &&& end <= latest && (latest > 0 ==> end == latest - 1)
        }),
{
}

/// The plan notes the block that was found to be the newest, whether or not the client catches up,
/// and ends the catching up just before it. The channels have room for 128 messages each.
pub proof fn the_newest_block_is_noted(
    options: RunOptionsView,
    config: RuntimeConfigView,
    latest: u32,
)
    ensures
        ({
            let plan = launch_plan(options, config, latest);
            &&& plan.latest == latest
            &&& latest > 0 ==> plan.sync_end_block + 1 == latest
            &&& latest == 0 ==> plan.sync_end_block == 0
            &&& plan.header_channel == 128
            &&& config.mode is AppClient ==> plan.app_channels == Some(128usize)
            &&& config.mode is LightClient ==> plan.app_channels is None
        }),
{
}

/// Plans for different newest blocks differ.
pub proof fn a_plan_is_for_one_head(
    options: RunOptionsView,
    config: RuntimeConfigView,
    latest: u32,
    other_options: RunOptionsView,
    other_config: RuntimeConfigView,
    other: u32,
)
    requires
        launch_plan(options, config, latest) == launch_plan(other_options, other_config, other),
    ensures
        latest == other,
{
}

/// A topic is published exactly where a server is needed, the second version of the interface is
/// built in, and the topic is the headers or the client follows an application.
pub proof fn a_server_publishes_every_topic(
    options: RunOptionsView,
    config: RuntimeConfigView,
    latest: u32,
    topic: Topic,
)
    ensures
        (options.server_needed && options.api_v2 && (topic == Topic::HeaderVerified
            || config.mode is AppClient)) <==> exists|i: int|
            takes(launch_plan(options, config, latest), i, Launch::Publish(topic)),
{
    let plan = launch_plan(options, config, latest);
    if options.server_needed && options.api_v2 && (topic == Topic::HeaderVerified || config.mode is
        AppClient) {
        let server: int = if config.mode is AppClient {
            1
        } else {
            0
        };
        let at: int = match topic {
            Topic::HeaderVerified => server + 1,
            Topic::ConfidenceAchieved => server + 2,
            Topic::DataVerified => server + 3,
        };
        assert(takes(plan, at, Launch::Publish(topic)));
    }
}

/// The data of an application is dropped exactly where the client follows one and its server does
/// not publish.
pub proof fn app_data_is_dropped_by_a_silent_server(
    options: RunOptionsView,
    config: RuntimeConfigView,
    latest: u32,
)
    ensures
        (options.server_needed && !options.api_v2 && config.mode is AppClient) <==> exists|i: int|
            takes(launch_plan(options, config, latest), i, Launch::DiscardAppData),
{
    let plan = launch_plan(options, config, latest);
    if options.server_needed && !options.api_v2 && config.mode is AppClient {
        assert(takes(plan, 2, Launch::DiscardAppData));
    }
}

/// The client of an application is started exactly where one is followed, for that application,
/// and first. It is told of the block before the newest.
pub proof fn the_configured_application_is_followed(
    options: RunOptionsView,
    config: RuntimeConfigView,
    latest: u32,
    app_id: u32,
    sync_end_block: u32,
)
    ensures
        ({
            let plan = launch_plan(options, config, latest);
            let step = Launch::AppClient { app_id, sync_end_block };
            &&& (config.mode == Mode::AppClient(app_id) && (if latest > 0 {
                sync_end_block + 1 == latest
            } else {
                sync_end_block == 0
            })) <==> exists|i: int| takes(plan, i, step)
            &&& forall|i: int| takes(plan, i, step) ==> i == 0
        }),
{
    let plan = launch_plan(options, config, latest);
    let step = Launch::AppClient { app_id, sync_end_block };
    if config.mode == Mode::AppClient(app_id) && sync_end_block == last_block_to_sync(latest) {
        assert(takes(plan, 0, step));
    }
}

/// The client catches up exactly where it was given a block to start from: from that block to the
/// one before the newest. Where it does, and nowhere else, it is marked as not in sync.
pub proof fn the_configured_blocks_are_caught_up_on(
    options: RunOptionsView,
    config: RuntimeConfigView,
    latest: u32,
    start: u32,
    end: u32,
)
    ensures
        ({
            let plan = launch_plan(options, config, latest);
            &&& (config.sync_start_block == Some(start) && (if latest > 0 {
                end + 1 == latest
            } else {
                end == 0
            })) <==> exists|i: int| takes(plan, i, Launch::Sync { start, end })
            &&& config.sync_start_block is Some <==> exists|i: int|
                takes(plan, i, Launch::MarkUnsynced)
        }),
{
    let plan = launch_plan(options, config, latest);
    let n = plan.steps.len() as int;
    if config.sync_start_block is Some {
        assert(takes(plan, n - 5, Launch::MarkUnsynced));
        if config.sync_start_block == Some(start) && end == last_block_to_sync(latest) {
            assert(takes(plan, n - 4, Launch::Sync { start, end }));
        }
    }
}

/// Every client follows the finality, receives the headers and samples the blocks. The run ends
/// with the sampling exactly where it is to be awaited.
pub proof fn every_client_samples(
    options: RunOptionsView,
    config: RuntimeConfigView,
    latest: u32,
    awaited: bool,
)
    ensures
        ({
            let plan = launch_plan(options, config, latest);
            &&& exists|i: int| takes(plan, i, Launch::SyncFinality)
            &&& exists|i: int| takes(plan, i, Launch::FinalizedHeaders)
            &&& awaited == options.await_run <==> exists|i: int|
                takes(plan, i, Launch::LightClient { awaited })
        }),
{
    let plan = launch_plan(options, config, latest);
    let n = plan.steps.len() as int;
    assert(takes(plan, n - 3, Launch::SyncFinality));
    assert(takes(plan, n - 2, Launch::FinalizedHeaders));
    if awaited == options.await_run {
        assert(takes(plan, n - 1, Launch::LightClient { awaited }));
    }
}

/// How late a step comes.
spec fn rank(step: Launch) -> int {
    match step {
        Launch::AppClient { .. } => 0,
        Launch::Server => 1,
        Launch::Publish(topic) | Launch::Callback(topic) => match topic {
            Topic::HeaderVerified => 2,
            Topic::ConfidenceAchieved => 3,
            Topic::DataVerified => 4,
        },
        Launch::DiscardAppData => 4,
        Launch::Crawl => 5,
        Launch::MarkUnsynced => 6,
        Launch::Sync { .. } => 7,
        Launch::SyncFinality => 8,
        Launch::FinalizedHeaders => 9,
        Launch::LightClient { .. } => 10,
    }
}

/// The ranks grow along the steps, and lie from `low` up to but without `high`.
spec fn ranked(steps: Seq<Launch>, low: int, high: int) -> bool {
    &&& forall|i: int| 0 <= i < steps.len() ==> low <= rank(#[trigger] steps[i]) < high
    &&& forall|i: int, j: int|
        0 <= i < j < steps.len() ==> rank(#[trigger] steps[i]) < rank(#[trigger] steps[j])
}

proof fn ranked_in_turn(first: Seq<Launch>, second: Seq<Launch>, low: int, middle: int, high: int)
    requires
        ranked(first, low, middle),
        ranked(second, middle, high),
        low <= middle <= high,
    ensures
        ranked(first + second, low, high),
{
}

proof fn steps_are_ranked(options: RunOptionsView, config: RuntimeConfigView, latest: u32)
    ensures
        ranked(launch_plan(options, config, latest).steps, 0, 11),
{
    let app = app_steps(config.mode, latest);
    let interface = interface_steps(options, config.mode);
    let crawl = crawl_steps(options, config);
    let sync = sync_steps(config.sync_start_block, latest);
    assert(ranked(interface, 1, 5));
    ranked_in_turn(app, interface, 0, 1, 5);
    ranked_in_turn(app + interface, crawl, 0, 5, 6);
    ranked_in_turn(app + interface + crawl, sync, 0, 6, 8);
    ranked_in_turn(app + interface + crawl + sync, core_steps(options), 0, 8, 11);
}

/// No step is taken twice.
pub proof fn every_step_is_taken_once(
    options: RunOptionsView,
    config: RuntimeConfigView,
    latest: u32,
    i: int,
    j: int,
)
    requires
        0 <= i < launch_plan(options, config, latest).steps.len(),
        0 <= j < launch_plan(options, config, latest).steps.len(),
        launch_plan(options, config, latest).steps[i] == launch_plan(
            options,
            config,
            latest,
        ).steps[j],
    ensures
        i == j,
{
    steps_are_ranked(options, config, latest);
    let steps = launch_plan(options, config, latest).steps;
    assert(i < j ==> rank(steps[i]) < rank(steps[j]));
    assert(j < i ==> rank(steps[j]) < rank(steps[i]));
}

/// The step hands messages on or drops them.
pub open spec fn serves_messages(step: Launch) -> bool {
    step is Publish || step is Callback || step is DiscardAppData
}

/// The step is one of those that every client ends with.
pub open spec fn is_closing(step: Launch) -> bool {
    step is SyncFinality || step is FinalizedHeaders || step is LightClient
}

/// The order of the steps: the client of an application, the server, what handles the messages in
/// the order of the topics, the crawler, the mark, the catching up, and what every client ends
/// with.
pub proof fn the_steps_are_in_order(
    options: RunOptionsView,
    config: RuntimeConfigView,
    latest: u32,
    i: int,
    j: int,
)
    requires
        0 <= i < launch_plan(options, config, latest).steps.len(),
        0 <= j < launch_plan(options, config, latest).steps.len(),
    ensures
        ({
            let a = launch_plan(options, config, latest).steps[i];
            let b = launch_plan(options, config, latest).steps[j];
            &&& (a is AppClient && !(b is AppClient)) ==> i < j
            &&& (a is Server && (serves_messages(b) || b is Crawl || b is MarkUnsynced || b is Sync
                || is_closing(b))) ==> i < j
            &&& (serves_messages(a) && (b is Crawl || b is MarkUnsynced || b is Sync || is_closing(
                b,
            ))) ==> i < j
            &&& (a is Crawl && (b is MarkUnsynced || b is Sync || is_closing(b))) ==> i < j
            &&& (a is MarkUnsynced && (b is Sync || is_closing(b))) ==> i < j
            &&& (a is Sync && is_closing(b)) ==> i < j
            &&& (a is SyncFinality && (b is FinalizedHeaders || b is LightClient)) ==> i < j
            &&& (a is FinalizedHeaders && b is LightClient) ==> i < j
            &&& (a == Launch::Publish(Topic::HeaderVerified) && b == Launch::Publish(
                Topic::ConfidenceAchieved,
            )) ==> i < j
            &&& (a == Launch::Publish(Topic::ConfidenceAchieved) && b == Launch::Publish(
                Topic::DataVerified,
            )) ==> i < j
            &&& (a == Launch::Callback(Topic::HeaderVerified) && b == Launch::Callback(
                Topic::ConfidenceAchieved,
            )) ==> i < j
            &&& (a == Launch::Callback(Topic::ConfidenceAchieved) && b == Launch::Callback(
                Topic::DataVerified,
            )) ==> i < j
        }),
{
    steps_are_ranked(options, config, latest);
    let steps = launch_plan(options, config, latest).steps;
    assert(i < j ==> rank(steps[i]) < rank(steps[j]));
    assert(j < i ==> rank(steps[j]) < rank(steps[i]));
}

/// Whether the run awaits the light client has no influence on anything else that is launched.
pub proof fn awaiting_changes_nothing_else(
    options: RunOptionsView,
    config: RuntimeConfigView,
    latest: u32,
    i: int,
)
    ensures
        ({
            let plan = launch_plan(options, config, latest);
            let other = launch_plan(
                RunOptionsView { await_run: !options.await_run, ..options },
                config,
                latest,
            );
            &&& plan.steps.len() == other.steps.len()
            &&& 0 <= i < plan.steps.len() - 1 ==> plan.steps[i] == other.steps[i]
            &&& plan.latest == other.latest && plan.sync_end_block == other.sync_end_block
            &&& plan.header_channel == other.header_channel && plan.app_channels
                == other.app_channels
            &&& plan.server == other.server && plan.crawl == other.crawl
        }),
{
}

/// The reported version is the version behind one letter: nothing of it is lost.
pub proof fn the_version_can_be_read_off(version: &str, reported: String)
    requires
        call_ensures(server_version, (version,), reported),
    ensures
        reported@.len() == version@.len() + 1,
        reported@[0] == 'v',
        reported@.skip(1) == version@,
{
    reveal_strlit("v");
    assert(reported@.skip(1) =~= version@);
}

} // verus!
