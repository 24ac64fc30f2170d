use sunwatcher::actions::Action;
use sunwatcher::config::{Actions, AutomaticConfig, Configuration, ManualConfig, ManualTimeStamp};
use sunwatcher::daemon::{apply_reload, handle_command, poll_delay, Effect, WatchDirective};

fn base_config(enabled: bool) -> Configuration {
    Configuration {
        enabled,
        manual: Some(ManualConfig { time_stamps: vec![] }),
        automatic: None,
        actions: Actions::new(None, None, None, None),
        hot_reload: false,
    }
}

#[test]
fn enable_disable_toggle_set_the_flag() {
    let mut config = base_config(false);
    assert_eq!(handle_command(Action::Enable, &mut config), Effect::Nothing);
    assert!(config.enabled);
    assert_eq!(handle_command(Action::Disable, &mut config), Effect::Nothing);
    assert!(!config.enabled);
    assert_eq!(handle_command(Action::Toggle, &mut config), Effect::Nothing);
    assert!(config.enabled);
    assert_eq!(handle_command(Action::Toggle, &mut config), Effect::Nothing);
    assert!(!config.enabled);
}

#[test]
fn trigger_runs_only_while_enabled() {
    let mut config = base_config(true);
    assert_eq!(
        handle_command(Action::Trigger { action: "echo hi".to_owned() }, &mut config),
        Effect::Run { command: "echo hi".to_owned() }
    );

    config.enabled = false;
    assert_eq!(
        handle_command(Action::Trigger { action: "echo hi".to_owned() }, &mut config),
        Effect::Nothing
    );
}

#[test]
fn reload_and_nothing_leave_the_configuration_alone() {
    let mut config = base_config(true);
    assert_eq!(handle_command(Action::ReloadConfig, &mut config), Effect::Reload);
    assert!(config.enabled);
    assert_eq!(handle_command(Action::Nothing, &mut config), Effect::Nothing);
    assert!(config.enabled);
}

#[test]
fn apply_reload_replaces_the_whole_configuration() {
    let mut config = base_config(true);
    let new_config = Configuration {
        enabled: false,
        manual: None,
        automatic: Some(AutomaticConfig {
            latitude_micro: 49_598_121,
            longitude_micro: 11_003_653,
            coords: sunrise::Coordinates::new(49.598121, 11.003653),
        }),
        actions: Actions::new(None, Some("echo down".to_owned()), None, None),
        hot_reload: true,
    };
    let directive = apply_reload(&mut config, new_config, false);
    assert_eq!(directive, WatchDirective::Start);
    assert!(!config.enabled);
    assert!(config.manual.is_none());
    assert!(config.hot_reload);
    let auto = config.automatic.as_ref().unwrap();
    assert_eq!(auto.latitude_micro, 49_598_121);
    assert_eq!(auto.longitude_micro, 11_003_653);
    assert_eq!(
        config.actions,
        Actions::new(None, Some("echo down".to_owned()), None, None)
    );
}

#[test]
fn apply_reload_reconciles_the_watch_handle() {
    let mut config = base_config(true);
    let mut hot = base_config(true);
    hot.hot_reload = true;

    assert_eq!(apply_reload(&mut config, hot.clone(), false), WatchDirective::Start);
    assert_eq!(apply_reload(&mut config, hot.clone(), true), WatchDirective::Keep);
    assert_eq!(apply_reload(&mut config, base_config(true), true), WatchDirective::Drop);
    assert_eq!(apply_reload(&mut config, base_config(true), false), WatchDirective::Keep);
}

#[test]
fn poll_delay_follows_the_polling_policy() {
    let now: i64 = 1752364800;
    assert_eq!(poll_delay(now, None), 25);
    assert_eq!(poll_delay(now, Some(now + 120)), 10);
    assert_eq!(poll_delay(now, Some(now - 120)), 10);
    assert_eq!(poll_delay(now, Some(now + 9)), 0);
    assert_eq!(poll_delay(now, Some(now)), 0);
    assert_eq!(poll_delay(now, Some(now + 20)), 25);
    assert_eq!(poll_delay(now, Some(now + 30)), 25);
    assert_eq!(poll_delay(now, Some(now + 31)), 10);
}

#[test]
fn manual_stamps_survive_a_configuration_clone() {
    let mut config = base_config(true);
    config.manual = Some(ManualConfig {
        time_stamps: vec![ManualTimeStamp {
            trigger_time: 3600,
            action: sunwatcher::scheduler::ActionTrigger::Dawn,
        }],
    });
    let copy = config.clone();
    assert_eq!(copy.manual.unwrap().time_stamps, config.manual.unwrap().time_stamps);
}
