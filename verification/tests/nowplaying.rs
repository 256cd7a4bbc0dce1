use pinepods_api::error::{AppError, Failure};
use pinepods_api::handlers::nowplaying::{
    bridge_received, command_ack, devices_message, notify_devices_changed, now_playing_devices,
    now_playing_websocket, owner_verdict, publish_bridge, BridgeEffect, ClientMsg, DevicesEffect,
    DevicesReply, Frame, Handshake, NowPlayingDevicesQuery, NowPlayingManager, NowPlayingSocket,
    NowPlayingWsQuery, NpBridgeMsg, PendingCommand, ServerMsg, SocketEffect,
};
use pinepods_api::models::{NowPlayingDevicesResponse, NowPlayingSnapshot};
use pinepods_api::redis_client::RedisCommand;
use serde_json::Value;
use std::sync::mpsc;

fn deliver(
    manager: &NowPlayingManager<mpsc::Sender<String>>,
    user_id: i32,
    device_id: &str,
    text: &str,
) -> bool {
    match manager.send_to_device(user_id, device_id) {
        Some(tx) => tx.send(text.to_string()).is_ok(),
        None => false,
    }
}

fn broadcast(
    manager: &NowPlayingManager<mpsc::Sender<String>>,
    user_id: i32,
    except: &str,
    text: &str,
) {
    for tx in manager.broadcast_user_except(user_id, except) {
        let _ = tx.send(text.to_string());
    }
}

#[test]
fn registry_targets_and_excludes_devices() {
    let mut mgr = NowPlayingManager::new();
    let (tx_a, rx_a) = mpsc::channel::<String>();
    let (tx_b, rx_b) = mpsc::channel::<String>();
    mgr.add(1, "A".to_string(), tx_a);
    mgr.add(1, "B".to_string(), tx_b);

    // Command aimed at B reaches only B.
    assert!(deliver(&mgr, 1, "B", "cmd"));
    assert!(rx_b.try_recv().is_ok());
    assert!(rx_a.try_recv().is_err());

    // Unknown target is reported as undelivered.
    assert!(!deliver(&mgr, 1, "ghost", "cmd"));

    // Broadcast excludes the origin device.
    broadcast(&mgr, 1, "A", "devices");
    assert!(rx_b.try_recv().is_ok());
    assert!(rx_a.try_recv().is_err());

    // A different user's device never receives another user's traffic.
    let (tx_c, rx_c) = mpsc::channel::<String>();
    mgr.add(2, "C".to_string(), tx_c);
    broadcast(&mgr, 1, "A", "devices");
    assert!(rx_c.try_recv().is_err());

    // After removal the device is no longer addressable.
    mgr.remove(1, "B");
    assert!(!deliver(&mgr, 1, "B", "cmd"));
}

#[test]
fn a_device_that_connects_again_replaces_its_connection() {
    let mut manager = NowPlayingManager::default();
    manager.add(1, "A".to_string(), 10);
    manager.add(1, "B".to_string(), 20);
    manager.add(1, "A".to_string(), 11);
    manager.add(2, "A".to_string(), 30);
    assert_eq!(manager.send_to_device(1, "A"), Some(&11));
    assert_eq!(manager.send_to_device(2, "A"), Some(&30));
    let mut all: Vec<i32> = manager
        .broadcast_user_except(1, "nobody")
        .into_iter()
        .copied()
        .collect();
    all.sort();
    assert_eq!(all, vec![11, 20]);
    manager.remove(1, "A");
    manager.remove(1, "A");
    manager.remove(3, "A");
    assert_eq!(manager.send_to_device(1, "A"), None);
    assert_eq!(manager.send_to_device(1, "B"), Some(&20));
    manager.remove(1, "B");
    assert!(manager.broadcast_user_except(1, "").is_empty());
    assert_eq!(manager.send_to_device(2, "A"), Some(&30));
}

fn snapshot(device_id: &str) -> NowPlayingSnapshot<f64> {
    NowPlayingSnapshot {
        device_id: device_id.to_string(),
        device_name: "Pixel".to_string(),
        device_type: "phone".to_string(),
        episode_id: 5,
        is_youtube: true,
        title: "T".to_string(),
        artwork_url: "U".to_string(),
        position_sec: 1.5,
        duration_sec: 60.0,
        playing: true,
        speed: 1.25,
        updated_at: 0,
    }
}

type Step = DevicesEffect<f64, &'static str>;

#[test]
fn devices_are_listed_after_both_checks() {
    let query = NowPlayingDevicesQuery { user_id: 7 };
    let (request, effect): (_, Step) = now_playing_devices(&query, "key".to_string());
    assert_eq!(
        effect,
        DevicesEffect::VerifyKey {
            api_key: "key".to_string()
        }
    );
    let (request, effect): (_, Step) = request.step(DevicesReply::KeyVerified(Ok(true)));
    assert_eq!(
        effect,
        DevicesEffect::CheckAccess {
            api_key: "key".to_string(),
            user_id: 7
        }
    );
    let (request, effect): (_, Step) = request.step(DevicesReply::AccessChecked(Ok(true)));
    assert_eq!(effect, DevicesEffect::List { user_id: 7 });
    let (_, effect): (_, Step) = request.step(DevicesReply::Listed(Ok(vec![snapshot("A")])));
    assert_eq!(
        effect,
        DevicesEffect::Finish(Ok(NowPlayingDevicesResponse {
            devices: vec![snapshot("A")]
        }))
    );
}

#[test]
fn devices_are_refused_without_access() {
    let begin = || {
        let query = NowPlayingDevicesQuery { user_id: 7 };
        now_playing_devices::<f64, &str>(&query, "key".to_string()).0
    };
    let invalid = || {
        DevicesEffect::Finish(Err(Failure::App(AppError::Unauthorized(
            "Invalid API key".to_string(),
        ))))
    };
    let (_, effect): (_, Step) = begin().step(DevicesReply::KeyVerified(Ok(false)));
    assert_eq!(effect, invalid());
    let (_, effect): (_, Step) = begin().step(DevicesReply::KeyVerified(Err("down")));
    assert_eq!(effect, DevicesEffect::Finish(Err(Failure::Outside("down"))));
    let (_, effect): (_, Step) = begin().step(DevicesReply::Listed(Ok(vec![snapshot("A")])));
    assert_eq!(effect, invalid());
    let (request, _): (_, Step) = begin().step(DevicesReply::KeyVerified(Ok(true)));
    let (_, effect): (_, Step) = request.step(DevicesReply::AccessChecked(Ok(false)));
    assert_eq!(
        effect,
        DevicesEffect::Finish(Err(Failure::App(AppError::Forbidden(
            "You can only view your own devices!".to_string()
        ))))
    );
}

#[test]
fn sockets_are_for_the_owner_and_the_system_user() {
    assert_eq!(now_playing_websocket::<()>(&Ok(true)), Handshake::AskOwner);
    assert_eq!(
        now_playing_websocket::<()>(&Ok(false)),
        Handshake::Refuse("Invalid API key")
    );
    assert_eq!(
        now_playing_websocket(&Err("down")),
        Handshake::Refuse("Invalid API key")
    );
    assert_eq!(owner_verdict::<()>(7, &Ok(7)), Handshake::Upgrade);
    assert_eq!(owner_verdict::<()>(7, &Ok(1)), Handshake::Upgrade);
    assert_eq!(
        owner_verdict::<()>(7, &Ok(8)),
        Handshake::Refuse("API key does not belong to requested user")
    );
    assert_eq!(
        owner_verdict::<()>(1, &Ok(7)),
        Handshake::Refuse("API key does not belong to requested user")
    );
    assert_eq!(
        owner_verdict(7, &Err("down")),
        Handshake::Refuse("Invalid API key")
    );
}

fn socket() -> NowPlayingSocket {
    let query = NowPlayingWsQuery {
        api_key: "key".to_string(),
        device_id: "A".to_string(),
        device_name: "Pixel".to_string(),
        device_type: "phone".to_string(),
    };
    NowPlayingSocket::new(7, query, "one".to_string())
}

fn changed() -> Vec<SocketEffect<f64>> {
    vec![
        SocketEffect::BroadcastDevices {
            user_id: 7,
            origin_device: "A".to_string(),
        },
        SocketEffect::Publish(NpBridgeMsg::DevicesChanged {
            user_id: 7,
            origin_device: "A".to_string(),
            instance_id: "one".to_string(),
        }),
    ]
}

#[test]
fn changes_are_told_here_and_elsewhere() {
    assert_eq!(notify_devices_changed::<f64>(7, "A", "one"), changed());
}

#[test]
fn sockets_open_and_close() {
    assert_eq!(
        socket().opened::<f64>(),
        vec![
            SocketEffect::Register {
                user_id: 7,
                device_id: "A".to_string()
            },
            SocketEffect::SendDevices { user_id: 7 },
        ]
    );
    let mut expected = vec![
        SocketEffect::Unregister {
            user_id: 7,
            device_id: "A".to_string(),
        },
        SocketEffect::Forget {
            user_id: 7,
            device_id: "A".to_string(),
        },
    ];
    expected.extend(changed());
    assert_eq!(socket().closed::<f64>(), expected);
}

fn playing_report(playing: bool) -> Frame<f64> {
    Frame::Message(ClientMsg::Report {
        episode_id: 5,
        is_youtube: true,
        title: "T".to_string(),
        artwork_url: "U".to_string(),
        position_sec: 1.5,
        duration_sec: 60.0,
        playing,
        speed: 1.25,
    })
}

#[test]
fn reports_are_stored_told_and_announced() {
    let mut expected = vec![SocketEffect::Upsert {
        user_id: 7,
        snapshot: snapshot("A"),
    }];
    expected.extend(changed());
    expected.push(SocketEffect::NotifyStart {
        user_id: 7,
        episode_id: 5,
        is_youtube: true,
        device_name: "Pixel".to_string(),
        position_sec: 1.5,
    });
    assert_eq!(socket().received(playing_report(true)), expected);

    let paused = socket().received(playing_report(false));
    assert_eq!(paused.len(), 3);
    match &paused[0] {
        SocketEffect::Upsert { snapshot, .. } => assert!(!snapshot.playing),
        other => panic!("unexpected effect: {other:?}"),
    }
}

#[test]
fn other_frames() {
    assert_eq!(
        socket().received::<f64>(Frame::Message(ClientMsg::Heartbeat)),
        vec![SocketEffect::Touch {
            user_id: 7,
            device_id: "A".to_string()
        }]
    );
    assert_eq!(socket().received::<f64>(Frame::Malformed), vec![]);
    assert_eq!(socket().received::<f64>(Frame::Other), vec![]);
    assert_eq!(
        socket().received::<f64>(Frame::Close),
        vec![SocketEffect::Stop]
    );
}

fn seek_args() -> Value {
    let mut members = serde_json::Map::new();
    members.insert("position".to_string(), Value::from(12.5));
    members.insert("path".to_string(), Value::from(vec![1, 2]));
    Value::Object(members)
}

fn pending() -> PendingCommand {
    PendingCommand {
        target_device_id: "B".to_string(),
        action: "seek".to_string(),
        args: seek_args(),
    }
}

fn relayed_message() -> ServerMsg<f64> {
    ServerMsg::Command {
        from_device_id: "A".to_string(),
        action: "seek".to_string(),
        args: seek_args(),
    }
}

fn bridged(instance_id: &str) -> NpBridgeMsg {
    NpBridgeMsg::Command {
        user_id: 7,
        target_device_id: "B".to_string(),
        from_device_id: "A".to_string(),
        action: "seek".to_string(),
        args: seek_args(),
        instance_id: instance_id.to_string(),
    }
}

#[test]
fn commands_are_relayed_and_answered() {
    let frame = Frame::Message(ClientMsg::Command {
        target_device_id: "B".to_string(),
        action: "seek".to_string(),
        args: seek_args(),
    });
    assert_eq!(
        socket().received(frame),
        vec![SocketEffect::Relay {
            user_id: 7,
            target_device_id: "B".to_string(),
            message: relayed_message(),
            pending: pending(),
        }]
    );
    assert_eq!(
        socket().relayed::<f64>(pending(), true),
        SocketEffect::Reply(ServerMsg::Ack {
            ok: true,
            detail: "relayed".to_string()
        })
    );
    assert_eq!(
        socket().relayed::<f64>(pending(), false),
        SocketEffect::PublishCommand(bridged("one"))
    );
}

#[test]
fn answers_count_the_other_instances() {
    let offline = || ServerMsg::Ack::<f64> {
        ok: false,
        detail: "device offline".to_string(),
    };
    assert_eq!(command_ack::<f64, ()>(Ok(0)), offline());
    assert_eq!(command_ack::<f64, ()>(Ok(1)), offline());
    assert_eq!(command_ack::<f64, &str>(Err("down")), offline());
    assert_eq!(
        command_ack::<f64, ()>(Ok(2)),
        ServerMsg::Ack {
            ok: true,
            detail: "relayed to another instance".to_string()
        }
    );
}

#[test]
fn instances_ignore_their_own_messages() {
    assert_eq!(bridged("one").instance_id(), "one");
    assert_eq!(bridge_received::<f64>("one", bridged("one")), None);
    assert_eq!(
        bridge_received("two", bridged("one")),
        Some(BridgeEffect::Deliver {
            user_id: 7,
            target_device_id: "B".to_string(),
            message: relayed_message(),
        })
    );
    let change = |instance: &str| NpBridgeMsg::DevicesChanged {
        user_id: 7,
        origin_device: "A".to_string(),
        instance_id: instance.to_string(),
    };
    assert_eq!(bridge_received::<f64>("two", change("two")), None);
    assert_eq!(
        bridge_received::<f64>("two", change("one")),
        Some(BridgeEffect::BroadcastDevices {
            user_id: 7,
            origin_device: "A".to_string()
        })
    );
}

#[test]
fn lists_and_publications() {
    assert_eq!(
        devices_message::<f64, ()>(Ok(vec![snapshot("A")])),
        ServerMsg::Devices {
            devices: vec![snapshot("A")]
        }
    );
    assert_eq!(
        devices_message::<f64, &str>(Err("down")),
        ServerMsg::Devices { devices: vec![] }
    );
    assert_eq!(
        publish_bridge("{}"),
        RedisCommand::Publish {
            channel: "nowplaying:events".to_string(),
            payload: "{}".to_string()
        }
    );
}
