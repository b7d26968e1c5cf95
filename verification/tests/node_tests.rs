use stargate_node::args::{Args, RunMode};
use stargate_node::channel_setup::{ChannelSetup, SetupAction, SetupEvent};
use stargate_node::idle_wait::{IdleWait, PendingReport, Side, WaitAction, POLL_INTERVAL_MILLIS};
use stargate_node::peer::{local_tcp_listen_address, peer_seed};
use stargate_node::swarm::{node_config_path, Swarm};

#[test]
fn args_default_values() {
    let args = Args::default();
    assert!(!args.enable_logging);
    assert!(!args.start_client);
    assert_eq!(args.config_dir, "wallet");
    assert_eq!(args.faucet_key_path, "wallet/key");
    assert_eq!(args.child_num, 1);
}

#[test]
fn run_mode_follows_start_client() {
    let mut args = Args::default();
    assert_eq!(args.run_mode(), RunMode::WaitForInterrupt);
    args.start_client = true;
    assert_eq!(args.run_mode(), RunMode::InteractiveClient);
}

#[test]
fn config_path_of_default_dir() {
    let args = Args::default();
    assert_eq!(args.node_config_path(), "wallet/node.toml");
}

#[test]
fn config_path_appends_file_name() {
    assert_eq!(node_config_path("/etc/stargate"), "/etc/stargate/node.toml");
    assert_eq!(node_config_path(""), "/node.toml");
}

#[test]
fn swarm_from_loaded_config() {
    let loaded: Result<u32, String> = Ok(7);
    let swarm = Swarm::from_loaded_config(loaded).unwrap();
    assert_eq!(swarm.config, 7);
    assert!(swarm.tee_logs);
    let failed: Result<u32, String> = Err("no such file".to_string());
    match Swarm::from_loaded_config(failed) {
        Err(e) => assert_eq!(e, "no such file"),
        Ok(_) => panic!("a load error must be passed on"),
    }
}

#[test]
fn swarm_new_tees_logs() {
    let swarm = Swarm::new("config");
    assert_eq!(swarm.config, "config");
    assert!(swarm.tee_logs);
}

#[test]
fn seed_of_peer_in_lowercase_hex() {
    let seed = peer_seed("/ip4/127.0.0.1/tcp/5000", &[0xab, 0x01, 0xff, 0x10]);
    assert_eq!(seed, "/ip4/127.0.0.1/tcp/5000/p2p/ab01ff10");
}

#[test]
fn seed_of_empty_peer_id() {
    assert_eq!(peer_seed("/ip4/1.2.3.4/tcp/1", &[]), "/ip4/1.2.3.4/tcp/1/p2p/");
}

#[test]
fn seed_hex_is_twice_as_long_and_tells_peers_apart() {
    let a = peer_seed("x", &[0, 1, 2]);
    let b = peer_seed("x", &[0, 1, 3]);
    assert_eq!(a.len(), "x/p2p/".len() + 6);
    assert_ne!(a, b);
}

#[test]
fn local_listen_address_in_decimal() {
    assert_eq!(local_tcp_listen_address(5000), "/ip4/127.0.0.1/tcp/5000");
    assert_eq!(local_tcp_listen_address(0), "/ip4/127.0.0.1/tcp/0");
    assert_eq!(local_tcp_listen_address(65535), "/ip4/127.0.0.1/tcp/65535");
}

#[test]
fn idle_wait_polls_each_side_until_clear() {
    let (state, action) = IdleWait::start();
    assert_eq!(action, WaitAction::Query(Side::First));
    let (state, action) = state.step(PendingReport::Pending);
    assert_eq!(action, WaitAction::SleepThenQuery(Side::First, 500));
    assert_eq!(POLL_INTERVAL_MILLIS, 500);
    let (state, action) = state.step(PendingReport::NoPending);
    assert_eq!(action, WaitAction::Query(Side::Second));
    assert_eq!(state, IdleWait::Checking(Side::Second));
    let (state, action) = state.step(PendingReport::Pending);
    assert_eq!(action, WaitAction::SleepThenQuery(Side::Second, 500));
    assert!(!state.is_finished());
    let (state, action) = state.step(PendingReport::NoPending);
    assert_eq!(action, WaitAction::Finished);
    assert_eq!(state, IdleWait::Idle);
    assert!(state.is_finished());
}

#[test]
fn idle_wait_aborts_on_query_error() {
    let (state, _) = IdleWait::start();
    let (state, _) = state.step(PendingReport::NoPending);
    let (state, action) = state.step(PendingReport::QueryFailed);
    assert_eq!(action, WaitAction::Abort);
    assert_eq!(state, IdleWait::Failed);
    let (state, action) = state.step(PendingReport::NoPending);
    assert_eq!(state, IdleWait::Failed);
    assert_eq!(action, WaitAction::Abort);
}

#[test]
fn idle_wait_needs_both_sides() {
    let (state, _) = IdleWait::start();
    let (state, action) = state.step(PendingReport::NoPending);
    assert_ne!(state, IdleWait::Idle);
    assert_ne!(action, WaitAction::Finished);
}

#[test]
fn channel_setup_enabled_feature_builds_node() {
    let (state, action) = ChannelSetup::start();
    assert_eq!(action, SetupAction::QueryFeature);
    let (state, action) = state.step(SetupEvent::FeatureStatus(true));
    assert_eq!(action, SetupAction::BuildNode);
    assert_eq!(state, ChannelSetup::Ready);
}

#[test]
fn channel_setup_disabled_feature_is_enabled_first() {
    let (state, _) = ChannelSetup::start();
    let (state, action) = state.step(SetupEvent::FeatureStatus(false));
    assert_eq!(action, SetupAction::EnableChannel);
    assert_eq!(state, ChannelSetup::EnablingChannel);
    let (state, action) = state.step(SetupEvent::ChannelEnabled);
    assert_eq!(action, SetupAction::BuildNode);
    assert_eq!(state, ChannelSetup::Ready);
}

#[test]
fn channel_setup_failed_call_aborts() {
    let (state, _) = ChannelSetup::start();
    let (failed, action) = state.step(SetupEvent::CallFailed);
    assert_eq!(action, SetupAction::Abort);
    assert_eq!(failed, ChannelSetup::Failed);
    let (state, _) = state.step(SetupEvent::FeatureStatus(false));
    let (state, action) = state.step(SetupEvent::CallFailed);
    assert_eq!(action, SetupAction::Abort);
    assert_eq!(state, ChannelSetup::Failed);
}

#[test]
fn channel_setup_ignores_unrelated_answer() {
    let (state, _) = ChannelSetup::start();
    let (state, action) = state.step(SetupEvent::ChannelEnabled);
    assert_eq!(action, SetupAction::Nothing);
    assert_eq!(state, ChannelSetup::QueryingFeature);
    let (ready, _) = state.step(SetupEvent::FeatureStatus(true));
    let (ready, action) = ready.step(SetupEvent::CallFailed);
    assert_eq!(action, SetupAction::Nothing);
    assert_eq!(ready, ChannelSetup::Ready);
}
