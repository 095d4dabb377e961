use modem_watch::counts::ErrorCount;
use modem_watch::fanout::{assign_tokens, plan_notifications, NotifyError};
use modem_watch::options::{Args, ConfigError, Opts, REBOOT_PATH};
use modem_watch::pipeline::{step, Action, Event, Stage, GRACE_PERIOD_SECS};

fn args() -> Args<'static> {
    Args {
        modem: None,
        uthreshold: None,
        cthreshold: None,
        homeserver: None,
        dry_run: false,
        dry_run_notify: false,
        reset: false,
    }
}

fn opts_with(dry_run: bool, dry_run_notify: bool, reset: bool) -> Opts {
    Opts::try_from(&Args { dry_run, dry_run_notify, reset, ..args() }).unwrap()
}

fn gather(opts: &Opts, correctable: u64, uncorrectable: u64) -> (Stage, Action) {
    let (stage, action) = step(opts, Stage::Init, Event::Started).unwrap();
    assert_eq!(stage, Stage::Gathering);
    assert!(matches!(action, Action::Gather));
    step(opts, stage, Event::Gathered(ErrorCount { correctable, uncorrectable })).unwrap()
}

#[test]
fn defaults() {
    let o = Opts::default();
    assert_eq!(o.addr, "http://192.168.100.1/");
    assert_eq!(o.notification.homeserver, "https://synapse.hdonnay.net/");
    assert_eq!(o.correctable_threshold, 100000);
    assert_eq!(o.uncorrectable_threshold, 1000);
    assert!(o.notify && !o.dry_run && !o.reset);
}

#[test]
fn options_from_arguments() {
    let o = Opts::try_from(&Args {
        modem: Some("http://10.0.0.1/"),
        uthreshold: Some("20"),
        cthreshold: Some("+300"),
        homeserver: Some("https://matrix.example.org/"),
        ..args()
    })
    .unwrap();
    assert_eq!(o.addr, "http://10.0.0.1/");
    assert_eq!(o.uncorrectable_threshold, 20);
    assert_eq!(o.correctable_threshold, 300);
    assert_eq!(o.notification.homeserver, "https://matrix.example.org/");
}

#[test]
fn options_refuse_bad_values() {
    let e = |a: Args| Opts::try_from(&a).err();
    assert_eq!(e(Args { modem: Some("not a url"), ..args() }), Some(ConfigError::BadModemAddress));
    assert_eq!(e(Args { uthreshold: Some("ten"), ..args() }), Some(ConfigError::BadUncorrectableThreshold));
    assert_eq!(e(Args { cthreshold: Some("-5"), ..args() }), Some(ConfigError::BadCorrectableThreshold));
    assert_eq!(e(Args { homeserver: Some("nowhere"), ..args() }), Some(ConfigError::BadHomeserver));
}

#[test]
fn dry_run_flags() {
    let n = opts_with(true, false, false);
    assert!(n.dry_run && !n.notify);
    let big_n = opts_with(false, true, false);
    assert!(big_n.dry_run && big_n.notify);
    let both = opts_with(true, true, false);
    assert!(both.dry_run && both.notify);
}

#[test]
fn messages() {
    let ct = ErrorCount { correctable: 12, uncorrectable: 3 };
    assert_eq!(
        opts_with(false, false, true).notification_message(&ct),
        "Rebooting and resetting modem shortly: found 12 correctable, 3 uncorrectable errors."
    );
    assert_eq!(
        opts_with(true, false, false).notification_message(&ct),
        "Rebooting modem shortly: found 12 correctable, 3 uncorrectable errors (jk this is a dry run)."
    );
    assert_eq!(opts_with(false, false, false).message(), "issuing modem reboot");
    assert_eq!(opts_with(false, false, true).message(), "issuing modem reboot and reset");
    assert_eq!(opts_with(true, false, true).message(), "would issue modem reboot");
}

#[test]
fn reset_flag_sets_form() {
    let reset = opts_with(false, false, true);
    let keep = opts_with(false, false, false);
    assert_eq!(reset.reset_arg(), ("RestoreFactoryDefault", "1"));
    assert_eq!(keep.reset_arg(), ("RestoreFactoryDefault", "0"));
    assert_eq!(reset.form_body(), "Rebooting=1&RestoreFactoryDefault=1");
    assert_eq!(keep.form_body(), "Rebooting=1&RestoreFactoryDefault=0");
    assert_eq!(
        keep.reboot_form(),
        vec![("Rebooting", "1"), ("RestoreFactoryDefault", "0")]
    );
}

#[test]
fn scenario_below_limits_does_nothing() {
    let opts = Opts::default();
    let (stage, action) = gather(&opts, 1500, 50);
    assert_eq!(stage, Stage::Done);
    assert!(matches!(action, Action::Finish { note: None }));
}

#[test]
fn scenario_over_limit_reboots() {
    let opts = Opts::default();
    let (stage, action) = gather(&opts, 250000, 50);
    assert_eq!(stage, Stage::Waiting);
    match action {
        Action::NotifyAndWait { message, notify, grace_secs } => {
            assert!(message.contains("250000 correctable, 50 uncorrectable"));
            assert!(notify);
            assert_eq!(grace_secs, GRACE_PERIOD_SECS);
            assert_eq!(grace_secs, 5);
        }
        other => panic!("unexpected action {:?}", other),
    }
    let (stage, action) = step(&opts, stage, Event::Waited).unwrap();
    assert_eq!(stage, Stage::Acting);
    match action {
        Action::Reboot { announcement, path, form } => {
            assert_eq!(announcement, "issuing modem reboot");
            assert_eq!(path, REBOOT_PATH);
            assert_eq!(path, "goform/RgConfiguration.pl");
            assert!(form.contains("RestoreFactoryDefault=0"));
            assert!(form.contains("Rebooting=1"));
        }
        other => panic!("unexpected action {:?}", other),
    }
    let (stage, action) = step(&opts, stage, Event::Remediated).unwrap();
    assert_eq!(stage, Stage::Done);
    assert!(matches!(action, Action::Finish { note: None }));
}

#[test]
fn scenario_dry_run_without_notifications() {
    let opts = opts_with(true, false, false);
    let (stage, action) = gather(&opts, 250000, 50);
    match action {
        Action::NotifyAndWait { message, notify, .. } => {
            assert!(message.ends_with("(jk this is a dry run)."));
            assert!(!notify);
        }
        other => panic!("unexpected action {:?}", other),
    }
    let rooms = vec!["!a:example.org".to_string()];
    assert!(plan_notifications(&rooms, &vec![1], opts.notify).unwrap().is_empty());
    let (stage, action) = step(&opts, stage, Event::Waited).unwrap();
    assert_eq!(stage, Stage::Done);
    match action {
        Action::Finish { note } => {
            assert_eq!(note.as_deref(), Some("would issue modem reboot"))
        }
        other => panic!("unexpected action {:?}", other),
    }
}

#[test]
fn scenario_dry_run_still_notifies() {
    let opts = opts_with(false, true, false);
    let (stage, action) = gather(&opts, 0, 5000);
    match action {
        Action::NotifyAndWait { notify, .. } => assert!(notify),
        other => panic!("unexpected action {:?}", other),
    }
    let rooms = vec!["!a:example.org".to_string(), "!b:example.org".to_string()];
    let plan = plan_notifications(&rooms, &vec![1, 2], opts.notify).unwrap();
    assert_eq!(plan.len(), 2);
    assert_eq!(plan[0].room, rooms[0]);
    assert_eq!(plan[1].room, rooms[1]);
    let (stage, action) = step(&opts, stage, Event::Waited).unwrap();
    assert_eq!(stage, Stage::Done);
    assert!(!matches!(action, Action::Reboot { .. }));
}

#[test]
fn each_send_gets_its_own_token() {
    let rooms: Vec<String> = (0..20).map(|i| format!("!room{}:example.org", i)).collect();
    let tokens: Vec<u128> = rooms.iter().map(|_| uuid::Uuid::new_v4().as_u128()).collect();
    let plan = plan_notifications(&rooms, &tokens, true).unwrap();
    assert_eq!(plan.len(), rooms.len());
    for i in 0..plan.len() {
        for j in (i + 1)..plan.len() {
            assert_ne!(plan[i].txn, plan[j].txn);
        }
    }
}

#[test]
fn assign_tokens_refuses_repeats() {
    let rooms = vec!["!a:x".to_string(), "!b:x".to_string()];
    assert!(assign_tokens(&rooms, &vec![7, 7]).is_none());
    assert!(assign_tokens(&rooms, &vec![7]).is_none());
    let plan = assign_tokens(&rooms, &vec![7, 8]).unwrap();
    assert_eq!((plan[0].room.as_str(), plan[0].txn), ("!a:x", 7));
    assert_eq!((plan[1].room.as_str(), plan[1].txn), ("!b:x", 8));
}

#[test]
fn events_out_of_order_are_refused() {
    let opts = Opts::default();
    assert!(step(&opts, Stage::Init, Event::Waited).is_none());
    assert!(step(&opts, Stage::Gathering, Event::Remediated).is_none());
    assert!(step(&opts, Stage::Done, Event::Started).is_none());
}

#[test]
fn cancelling_the_grace_period_skips_the_reboot() {
    let opts = Opts::default();
    let (stage, _) = gather(&opts, 250000, 50);
    let (stage, action) = step(&opts, stage, Event::Cancelled).unwrap();
    assert_eq!(stage, Stage::Done);
    assert!(matches!(action, Action::Finish { note: None }));
    assert!(step(&opts, Stage::Gathering, Event::Cancelled).is_none());
}

#[test]
fn planning_checks_the_tokens() {
    let rooms = vec!["!a:x".to_string(), "!b:x".to_string()];
    assert_eq!(plan_notifications(&rooms, &vec![5, 5], true).err(), Some(NotifyError::TokenCollision));
    assert_eq!(plan_notifications(&rooms, &vec![5], true).err(), Some(NotifyError::TokenCountMismatch));
    let one = vec!["!a:x".to_string()];
    let plan = plan_notifications(&one, &vec![9], true).unwrap();
    assert_eq!((plan[0].room.as_str(), plan[0].txn), ("!a:x", 9));
    assert!(plan_notifications(&Vec::new(), &Vec::new(), true).unwrap().is_empty());
}
