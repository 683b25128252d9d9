use supervisor::actor::{AssociateOutcome, LinkState, RobotActor, Routing};
use supervisor::types::{Descriptor, Error, FernbedienungAction, LinkKind, TerminalAction, Update, XbeeAction};

fn descriptor() -> Descriptor {
    Descriptor {
        id: String::from("drone1"),
        radio_macaddr: Some(0x0013A200FFFFFFFF),
        companion_macaddr: Some(0x0000C0FFEE00),
        tracking_id: Some(7),
    }
}

#[test]
fn associate_records_link_and_announces() {
    let mut actor = RobotActor::new(descriptor());
    let out = actor.associate(LinkKind::Radio, 0xC0A80105);
    assert_eq!(out.cancelled, None);
    assert_eq!(out.announce, Update::XbeeConnected(0xC0A80105));
    assert_eq!(
        actor.radio,
        LinkState::Associated { addr: 0xC0A80105, channel: out.spawned }
    );
    assert_eq!(actor.companion, LinkState::Unassociated);
}

#[test]
fn reassociate_cancels_previous_supervisor() {
    // Associating a new device for a kind that already has an active
    // association leaves exactly one live supervisor for that kind: the
    // old one is ordered dropped and only the new one is recorded.
    let mut actor = RobotActor::new(descriptor());
    let first = actor.associate(LinkKind::Radio, 0xC0A80105);
    let second = actor.associate(LinkKind::Radio, 0xC0A80106);
    assert_eq!(second.cancelled, Some(first.spawned));
    assert_ne!(second.spawned, first.spawned);
    assert_eq!(
        actor.radio,
        LinkState::Associated { addr: 0xC0A80106, channel: second.spawned }
    );
}

#[test]
fn associate_leaves_other_kind_untouched() {
    let mut actor = RobotActor::new(descriptor());
    let radio = actor.associate(LinkKind::Radio, 1);
    let _companion = actor.associate(LinkKind::Companion, 2);
    assert_eq!(
        actor.radio,
        LinkState::Associated { addr: 1, channel: radio.spawned }
    );
}

#[test]
fn execute_unassociated_refuses_immediately() {
    // A command against an unassociated link kind is answered with a
    // routing error at once; nothing is forwarded anywhere.
    let actor = RobotActor::new(descriptor());
    let action = XbeeAction::SetUpCorePower(true);
    assert_eq!(actor.execute_xbee(&action), Routing::Refuse(Error::NotAssociated));
    let action = FernbedienungAction::Halt;
    assert_eq!(
        actor.execute_fernbedienung(&action),
        Routing::Refuse(Error::NotAssociated)
    );
    assert_eq!(actor.upload_experiment(), Routing::Refuse(Error::NotAssociated));
}

#[test]
fn execute_associated_forwards_to_supervisor() {
    let mut actor = RobotActor::new(descriptor());
    let out = actor.associate(LinkKind::Radio, 5);
    let action = XbeeAction::Mavlink(TerminalAction::Stop);
    assert_eq!(actor.execute_xbee(&action), Routing::Forward { channel: out.spawned });
}

#[test]
fn subscribe_replays_connectivity_of_associated_links() {
    // A new subscriber receives the current connectivity state for every
    // associated link kind, even though no probe has fired yet.
    let mut actor = RobotActor::new(descriptor());
    actor.associate(LinkKind::Radio, 10);
    actor.associate(LinkKind::Companion, 20);
    let replay = actor.subscribe_replay(true);
    assert_eq!(
        replay,
        vec![Update::XbeeConnected(10), Update::FernbedienungConnected(20)]
    );
}

#[test]
fn subscribe_replays_nothing_when_unassociated() {
    let actor = RobotActor::new(descriptor());
    assert_eq!(actor.subscribe_replay(true), Vec::<Update>::new());
}

#[test]
fn subscribe_replays_nothing_when_handle_was_not_delivered() {
    let mut actor = RobotActor::new(descriptor());
    actor.associate(LinkKind::Radio, 10);
    assert_eq!(actor.subscribe_replay(false), Vec::<Update>::new());
}

#[test]
fn descriptor_query_copies_the_descriptor() {
    let actor = RobotActor::new(descriptor());
    let d = actor.get_descriptor();
    assert_eq!(d, descriptor());
}

#[test]
fn supervisor_exit_clears_link_and_announces_down() {
    let mut actor = RobotActor::new(descriptor());
    actor.associate(LinkKind::Radio, 10);
    actor.associate(LinkKind::Companion, 20);
    let down = actor.supervisor_exited(LinkKind::Radio);
    assert_eq!(down, Update::XbeeDisconnected);
    assert_eq!(actor.radio, LinkState::Unassociated);
    assert!(matches!(actor.companion, LinkState::Associated { addr: 20, .. }));
    let down = actor.supervisor_exited(LinkKind::Companion);
    assert_eq!(down, Update::FernbedienungDisconnected);
    assert_eq!(actor.companion, LinkState::Unassociated);
}

#[test]
fn experiment_start_and_stop_are_explicit_extension_points() {
    let actor = RobotActor::new(descriptor());
    assert_eq!(actor.start_experiment(), Err(Error::NotSupported));
    assert_eq!(actor.stop_experiment(), Err(Error::NotSupported));
}

#[test]
fn channel_generations_are_never_reused() {
    let mut actor = RobotActor::new(descriptor());
    let mut seen: Vec<u64> = Vec::new();
    for i in 0..4 {
        let out: AssociateOutcome = actor.associate(LinkKind::Radio, i);
        assert!(!seen.contains(&out.spawned));
        seen.push(out.spawned);
    }
}
