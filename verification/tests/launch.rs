use light_client_commons::config::{Mode, RunOptions, RuntimeConfig};
use light_client_commons::launch::{plan_launch, server_version, Launch, LaunchPlan, Topic};

fn config(mode: Mode) -> RuntimeConfig {
    RuntimeConfig {
        log_level: "INFO".to_string(),
        log_format_json: false,
        avail_path: "avail_path".to_string(),
        has_block_matrix_partition: false,
        ot_collector_endpoint: "http://127.0.0.1:4317".to_string(),
        dht_parallelization_limit: 20,
        kad_record_ttl: 86400,
        put_batch_size: 1000,
        port: 37000,
        bootstraps: vec![],
        full_node_ws: vec!["ws://127.0.0.1:9944".to_string()],
        mode,
        sync_start_block: None,
        crawl_block: false,
        crawl_block_delay: 20,
        crawl_block_mode: "cells".to_string(),
    }
}

fn options() -> RunOptions {
    RunOptions {
        server_needed: false,
        await_run: false,
        set_parser: false,
        has_callback: false,
        api_v2: false,
        crawl: false,
        version: "1.7.3".to_string(),
        network_version: "1.6/data-avail".to_string(),
    }
}

fn client_tasks(awaited: bool) -> Vec<Launch> {
    vec![Launch::SyncFinality, Launch::FinalizedHeaders, Launch::LightClient { awaited }]
}

fn with_client_tasks(mut steps: Vec<Launch>, awaited: bool) -> Vec<Launch> {
    steps.extend(client_tasks(awaited));
    steps
}

fn place(plan: &LaunchPlan, step: Launch) -> usize {
    plan.steps.iter().position(|s| *s == step).unwrap()
}

#[test]
fn a_bare_client() {
    let plan = plan_launch(&options(), &config(Mode::LightClient), 100);
    assert_eq!(plan.latest, 100);
    assert_eq!(plan.sync_end_block, 99);
    assert_eq!(plan.header_channel, 128);
    assert_eq!(plan.app_channels, None);
    assert!(plan.server.is_none());
    assert!(plan.crawl.is_none());
    assert_eq!(plan.steps, client_tasks(false));
}

#[test]
fn the_server_is_given_both_versions() {
    for (api_v2, has_callback) in [(false, false), (false, true), (true, false)] {
        let o = RunOptions { server_needed: true, api_v2, has_callback, ..options() };
        let plan = plan_launch(&o, &config(Mode::LightClient), 1);
        assert_eq!(plan.steps.iter().filter(|s| **s == Launch::Server).count(), 1);
        let server = plan.server.unwrap();
        assert_eq!(server.version, "v1.7.3");
        assert_eq!(server.network_version, "1.6/data-avail");
    }
}

#[test]
fn the_first_block_has_none_before_it() {
    let plan = plan_launch(&options(), &config(Mode::AppClient(1)), 0);
    assert_eq!(plan.sync_end_block, 0);
    assert_eq!(plan.steps[0], Launch::AppClient { app_id: 1, sync_end_block: 0 });
    assert_eq!(plan_launch(&options(), &config(Mode::LightClient), 1).sync_end_block, 0);
    assert_eq!(
        plan_launch(&options(), &config(Mode::LightClient), u32::MAX).sync_end_block,
        u32::MAX - 1
    );
}

#[test]
fn a_server_that_publishes() {
    let o = RunOptions { server_needed: true, api_v2: true, ..options() };
    let plan = plan_launch(&o, &config(Mode::AppClient(7)), 10);
    assert_eq!(plan.app_channels, Some(128));
    assert_eq!(
        plan.steps,
        with_client_tasks(
            vec![
                Launch::AppClient { app_id: 7, sync_end_block: 9 },
                Launch::Server,
                Launch::Publish(Topic::HeaderVerified),
                Launch::Publish(Topic::ConfidenceAchieved),
                Launch::Publish(Topic::DataVerified),
            ],
            false
        )
    );
    let plan = plan_launch(&o, &config(Mode::LightClient), 10);
    assert_eq!(
        plan.steps,
        with_client_tasks(vec![Launch::Server, Launch::Publish(Topic::HeaderVerified)], false)
    );
}

#[test]
fn a_server_that_publishes_nothing_drops_the_app_data() {
    let o = RunOptions { server_needed: true, ..options() };
    let plan = plan_launch(&o, &config(Mode::AppClient(7)), 10);
    assert_eq!(
        plan.steps,
        with_client_tasks(
            vec![
                Launch::AppClient { app_id: 7, sync_end_block: 9 },
                Launch::Server,
                Launch::DiscardAppData,
            ],
            false
        )
    );
    let plan = plan_launch(&o, &config(Mode::LightClient), 10);
    assert_eq!(plan.steps, with_client_tasks(vec![Launch::Server], false));
}

#[test]
fn a_callback_gets_what_there_is() {
    let o = RunOptions { has_callback: true, await_run: true, ..options() };
    let plan = plan_launch(&o, &config(Mode::AppClient(0)), 10);
    assert_eq!(
        plan.steps,
        with_client_tasks(
            vec![
                Launch::AppClient { app_id: 0, sync_end_block: 9 },
                Launch::Callback(Topic::HeaderVerified),
                Launch::Callback(Topic::ConfidenceAchieved),
                Launch::Callback(Topic::DataVerified),
            ],
            true
        )
    );
    let plan = plan_launch(&o, &config(Mode::LightClient), 10);
    assert_eq!(plan.steps, with_client_tasks(vec![Launch::Callback(Topic::HeaderVerified)], true));
}

#[test]
fn a_server_wins_over_a_callback() {
    for api_v2 in [false, true] {
        let with = RunOptions { server_needed: true, has_callback: true, api_v2, ..options() };
        let without = RunOptions { server_needed: true, api_v2, ..options() };
        let config = config(Mode::AppClient(3));
        assert_eq!(plan_launch(&with, &config, 5).steps, plan_launch(&without, &config, 5).steps);
    }
}

#[test]
fn the_crawler_has_to_be_built_in_and_wanted() {
    let mut config = config(Mode::LightClient);
    config.crawl_block = true;
    assert_eq!(plan_launch(&options(), &config, 5).steps, client_tasks(false));
    assert!(plan_launch(&options(), &config, 5).crawl.is_none());
    let o = RunOptions { crawl: true, ..options() };
    let crawl = plan_launch(&o, &config, 5).crawl.unwrap();
    assert_eq!(crawl.delay, 20);
    assert_eq!(crawl.mode, "cells");
    assert_eq!(
        plan_launch(&o, &config, 5).steps,
        with_client_tasks(vec![Launch::Crawl], false)
    );
    config.crawl_block = false;
    assert_eq!(plan_launch(&o, &config, 5).steps, client_tasks(false));
}

#[test]
fn catching_up_starts_where_it_is_told() {
    let mut config = config(Mode::LightClient);
    config.sync_start_block = Some(3);
    assert_eq!(
        plan_launch(&options(), &config, 11).steps,
        with_client_tasks(vec![Launch::MarkUnsynced, Launch::Sync { start: 3, end: 10 }], false)
    );
}

#[test]
fn readers_come_before_what_they_read() {
    let mut config = config(Mode::AppClient(9));
    config.sync_start_block = Some(0);
    config.crawl_block = true;
    let o = RunOptions { server_needed: true, api_v2: true, crawl: true, ..options() };
    let plan = plan_launch(&o, &config, 50);
    let headers = place(&plan, Launch::FinalizedHeaders);
    assert!(place(&plan, Launch::Publish(Topic::HeaderVerified)) < headers);
    assert!(place(&plan, Launch::Crawl) < headers);
    let sync = place(&plan, Launch::Sync { start: 0, end: 49 });
    assert!(place(&plan, Launch::AppClient { app_id: 9, sync_end_block: 49 }) < sync);
    assert!(place(&plan, Launch::Publish(Topic::ConfidenceAchieved)) < sync);
    assert_eq!(place(&plan, Launch::LightClient { awaited: false }), plan.steps.len() - 1);
}

#[test]
fn app_data_goes_to_one_reader() {
    for (server_needed, has_callback, api_v2) in
        [(true, false, false), (true, true, true), (false, true, false), (false, true, true)]
    {
        let o = RunOptions { server_needed, has_callback, api_v2, ..options() };
        let readers = plan_launch(&o, &config(Mode::AppClient(2)), 8)
            .steps
            .iter()
            .filter(|s| {
                matches!(
                    s,
                    Launch::DiscardAppData
                        | Launch::Publish(Topic::DataVerified)
                        | Launch::Callback(Topic::DataVerified)
                )
            })
            .count();
        assert_eq!(readers, 1);
    }
}

#[test]
fn the_server_reports_its_version() {
    assert_eq!(server_version("1.7.3"), "v1.7.3");
    assert_eq!(server_version(""), "v");
}
