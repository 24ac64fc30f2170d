use sunwatcher::config::{Actions, Configuration, ManualConfig, ManualTimeStamp};
use sunwatcher::context::Context;
use sunwatcher::error::Error;
use sunwatcher::info::EventInfo;
use sunwatcher::scheduler::ActionTrigger;
use sunwatcher::state::AppState;
use sunwatcher::{Args, Commands};

fn manual_config() -> Configuration {
    Configuration {
        enabled: true,
        manual: Some(ManualConfig {
            time_stamps: vec![ManualTimeStamp {
                trigger_time: 12 * 3600,
                action: ActionTrigger::Sunrise,
            }],
        }),
        automatic: None,
        actions: Actions::new(Some("echo up".to_owned()), None, None, None),
        hot_reload: false,
    }
}

fn args(command: Option<Commands>) -> Args {
    Args { command, config: "config.toml".to_owned() }
}

#[test]
fn start_command_selects_the_daemon() {
    let context = Context::create_from_config(manual_config(), "config.toml".to_owned());
    let state = context
        .create_execution_state(&args(Some(Commands::Start)), 1752364800)
        .unwrap();
    assert_eq!(state, AppState::Daemon);
}

#[test]
fn print_default_config_command_selects_the_default_config() {
    let context = Context::create_from_config(manual_config(), "config.toml".to_owned());
    let state = context
        .create_execution_state(&args(Some(Commands::PrintDefaultConfig)), 1752364800)
        .unwrap();
    assert_eq!(state, AppState::DefaultConfig);
}

#[test]
fn no_command_reports_the_next_pending_event() {
    let context = Context::create_from_config(manual_config(), "config.toml".to_owned());
    let now: i64 = 1752364800 + 11 * 3600;
    let state = context.create_execution_state(&args(None), now).unwrap();
    match state {
        AppState::Info(info) => {
            assert_eq!(
                info.next_event_at,
                Some(EventInfo {
                    at: 1752364800 + 12 * 3600,
                    trigger: ActionTrigger::Sunrise,
                    action: Some("echo up".to_owned()),
                })
            );
        }
        other => panic!("expected an info state, got {:?}", other),
    }
}

#[test]
fn no_command_with_no_schedule_fails_like_scheduler_construction() {
    let config = Configuration {
        enabled: true,
        manual: None,
        automatic: None,
        actions: Actions::new(None, None, None, None),
        hot_reload: false,
    };
    let context = Context::create_from_config(config, "config.toml".to_owned());
    let err = context.create_execution_state(&args(None), 1752364800).unwrap_err();
    assert_eq!(err, Error::InvalidConfiguration);
}

#[test]
fn default_configuration_is_enabled_with_an_empty_manual_schedule() {
    let config = Configuration::default();
    assert!(config.enabled);
    assert!(!config.hot_reload);
    assert!(config.automatic.is_none());
    assert_eq!(config.manual.unwrap().time_stamps, vec![]);
    assert_eq!(config.actions, Actions::new(None, None, None, None));
}

#[test]
fn actions_map_each_kind_to_its_command() {
    let actions = Actions::new(
        Some("a".to_owned()),
        Some("b".to_owned()),
        Some("c".to_owned()),
        Some("d".to_owned()),
    );
    assert_eq!(actions.get(ActionTrigger::Sunrise), Some("a".to_owned()));
    assert_eq!(actions.get(ActionTrigger::Sunset), Some("b".to_owned()));
    assert_eq!(actions.get(ActionTrigger::Dawn), Some("c".to_owned()));
    assert_eq!(actions.get(ActionTrigger::Dusk), Some("d".to_owned()));
    assert_eq!(Actions::default().get(ActionTrigger::Sunrise), None);
}

#[test]
fn day_arithmetic_handles_instants_before_the_epoch() {
    // 1969-12-31 18:00:00 UTC lies in the day that starts at -86400.
    assert_eq!(sunwatcher::solar::day_start_at(-21600), -86400);
    assert_eq!(sunwatcher::solar::time_of_day_at(-21600), 64800);
    assert_eq!(sunwatcher::solar::day_start_at(1752414761), 1752364800);
    assert_eq!(sunwatcher::solar::time_of_day_at(1752414761), 49961);
}
