use mqtt_connection::dispatcher::{dispatch, DispatchAction, DispatchEvent};
use mqtt_connection::error::Error;
use mqtt_connection::packet::{
    Connack, Connect, ConnectReturnCode, Packet, Protocol, Publish, QoS, Request, Suback, Subscribe,
    SubscribeReturnCode, SubscribeTopic, Unsubscribe,
};
use mqtt_connection::ping::{on_tick, ping_period};
use mqtt_connection::receiver::{
    after_enqueue, after_publish, check_handshake_reply, receive, Effect, Inbound, Reaction, Verdict,
};

fn publish(id: u16) -> Publish {
    Publish {
        dup: false,
        qos: QoS::AtLeastOnce,
        retain: false,
        topic_name: String::from("sensors/door"),
        pid: Some(id),
        payload: vec![0xCA, 0xFE],
    }
}

#[test]
fn connack_goes_to_the_session_state() {
    let connack = Connack { session_present: true, code: ConnectReturnCode::NotAuthorized };
    assert_eq!(
        receive(Inbound::Packet(Packet::Connack(connack))),
        Reaction { effects: vec![Effect::SessionConnack(connack)], verdict: Verdict::Continue }
    );
}

#[test]
fn puback_is_notified_then_retired() {
    assert_eq!(
        receive(Inbound::Packet(Packet::Puback(42))),
        Reaction {
            effects: vec![Effect::Notify(Packet::Puback(42)), Effect::SessionPuback(42)],
            verdict: Verdict::Continue,
        }
    );
}

#[test]
fn repeated_puback_keeps_the_receiver_running() {
    for _ in 0..3 {
        let reaction = receive(Inbound::Packet(Packet::Puback(9)));
        assert_eq!(reaction.verdict, Verdict::Continue);
        assert_eq!(
            reaction.effects,
            vec![Effect::Notify(Packet::Puback(9)), Effect::SessionPuback(9)]
        );
    }
}

#[test]
fn pingresp_goes_to_the_session_state() {
    assert_eq!(
        receive(Inbound::Packet(Packet::Pingresp)),
        Reaction { effects: vec![Effect::SessionPingresp], verdict: Verdict::Continue }
    );
}

#[test]
fn publish_is_handed_to_the_session_state() {
    assert_eq!(
        receive(Inbound::Packet(Packet::Publish(publish(5)))),
        Reaction { effects: vec![Effect::SessionPublish(publish(5))], verdict: Verdict::Continue }
    );
}

#[test]
fn suback_is_notified() {
    let suback = Suback {
        pid: 3,
        return_codes: vec![SubscribeReturnCode::Success(QoS::AtLeastOnce), SubscribeReturnCode::Failure],
    };
    assert_eq!(
        receive(Inbound::Packet(Packet::Suback(suback.clone()))),
        Reaction { effects: vec![Effect::Notify(Packet::Suback(suback))], verdict: Verdict::Continue }
    );
}

#[test]
fn broker_disconnect_ends_the_receiver() {
    assert_eq!(
        receive(Inbound::Packet(Packet::Disconnect)),
        Reaction { effects: vec![Effect::Enqueue(Request::Disconnect)], verdict: Verdict::Finished }
    );
}

#[test]
fn other_packets_are_protocol_violations() {
    let connect = Connect {
        protocol: Protocol::MQTT(4),
        keep_alive: 10,
        client_id: String::from("c"),
        clean_session: true,
        last_will: None,
        username: None,
        password: None,
    };
    let subscribe = Subscribe {
        pid: 1,
        topics: vec![SubscribeTopic { topic_path: String::from("a"), qos: QoS::AtMostOnce }],
    };
    let unsubscribe = Unsubscribe { pid: 2, topics: vec![String::from("a")] };
    let strangers = vec![
        Packet::Connect(connect),
        Packet::Pubrec(1),
        Packet::Pubrel(1),
        Packet::Pubcomp(1),
        Packet::Subscribe(subscribe),
        Packet::Unsubscribe(unsubscribe),
        Packet::Unsuback(1),
        Packet::Pingreq,
    ];
    for packet in strangers {
        assert_eq!(
            receive(Inbound::Packet(packet)),
            Reaction { effects: vec![], verdict: Verdict::Failed(Error::UnrecognizedPacket) }
        );
    }
}

#[test]
fn read_failure_injects_a_disconnect() {
    assert_eq!(
        receive(Inbound::Failed(Error::Io(String::from("reset by peer")))),
        Reaction {
            effects: vec![Effect::Enqueue(Request::Disconnect)],
            verdict: Verdict::Failed(Error::Io(String::from("reset by peer"))),
        }
    );
    assert_eq!(
        receive(Inbound::Failed(Error::MqttPacket)).verdict,
        Verdict::Failed(Error::MqttPacket)
    );
}

#[test]
fn end_of_stream_ends_the_receiver_quietly() {
    assert_eq!(
        receive(Inbound::Closed),
        Reaction { effects: vec![], verdict: Verdict::Finished }
    );
}

#[test]
fn after_publish_notifies_before_it_acknowledges() {
    assert_eq!(
        after_publish(Some(publish(5)), Some(Packet::Puback(5))),
        Reaction {
            effects: vec![
                Effect::Notify(Packet::Publish(publish(5))),
                Effect::Enqueue(Request::Puback(5)),
            ],
            verdict: Verdict::Continue,
        }
    );
}

#[test]
fn after_publish_with_a_filtered_duplicate_only_acknowledges() {
    assert_eq!(
        after_publish(None, Some(Packet::Puback(8))),
        Reaction { effects: vec![Effect::Enqueue(Request::Puback(8))], verdict: Verdict::Continue }
    );
}

#[test]
fn after_publish_without_acknowledgement() {
    assert_eq!(
        after_publish(Some(publish(1)), None),
        Reaction {
            effects: vec![Effect::Notify(Packet::Publish(publish(1)))],
            verdict: Verdict::Continue,
        }
    );
    assert_eq!(after_publish(None, None), Reaction { effects: vec![], verdict: Verdict::Continue });
}

#[test]
fn after_publish_with_an_acknowledgement_that_cannot_be_queued() {
    assert_eq!(
        after_publish(Some(publish(1)), Some(Packet::Pubrec(1))),
        Reaction {
            effects: vec![Effect::Notify(Packet::Publish(publish(1)))],
            verdict: Verdict::Failed(Error::UnrecognizedPacket),
        }
    );
}

#[test]
fn handshake_wants_a_connack() {
    let connack = Connack { session_present: false, code: ConnectReturnCode::Accepted };
    assert_eq!(check_handshake_reply(Some(Packet::Connack(connack))), Ok(connack));
    assert_eq!(check_handshake_reply(Some(Packet::Pingresp)), Err(Error::HandshakeFailed));
    assert_eq!(check_handshake_reply(Some(Packet::Puback(1))), Err(Error::HandshakeFailed));
    assert_eq!(check_handshake_reply(None), Err(Error::ConnectionAbort));
}

#[test]
fn dispatcher_translates_requests_and_stops_at_disconnect() {
    assert_eq!(dispatch(DispatchEvent::Request(Request::Ping)), DispatchAction::Translate(Request::Ping));
    assert_eq!(
        dispatch(DispatchEvent::Request(Request::Puback(4))),
        DispatchAction::Translate(Request::Puback(4))
    );
    assert_eq!(
        dispatch(DispatchEvent::Request(Request::Publish(publish(2)))),
        DispatchAction::Translate(Request::Publish(publish(2)))
    );
    let topics = vec![SubscribeTopic { topic_path: String::from("a/#"), qos: QoS::ExactlyOnce }];
    assert_eq!(
        dispatch(DispatchEvent::Request(Request::Subscribe(topics.clone()))),
        DispatchAction::Translate(Request::Subscribe(topics))
    );
    assert_eq!(
        dispatch(DispatchEvent::Request(Request::Unsubscribe(vec![String::from("a/#")]))),
        DispatchAction::Translate(Request::Unsubscribe(vec![String::from("a/#")]))
    );
    assert_eq!(dispatch(DispatchEvent::Request(Request::Disconnect)), DispatchAction::Finish);
    assert_eq!(dispatch(DispatchEvent::QueueClosed), DispatchAction::Finish);
}

#[test]
fn dispatcher_writes_what_was_translated_and_goes_on() {
    assert_eq!(dispatch(DispatchEvent::Translated(Packet::Pingreq)), DispatchAction::Write(Packet::Pingreq));
    assert_eq!(dispatch(DispatchEvent::Written), DispatchAction::Next);
}

#[test]
fn dispatcher_ends_on_failures() {
    assert_eq!(
        dispatch(DispatchEvent::TranslationFailed(Error::TopicName)),
        DispatchAction::Fail(Error::TopicName)
    );
    assert_eq!(
        dispatch(DispatchEvent::WriteFailed(Error::Io(String::from("broken pipe")))),
        DispatchAction::Fail(Error::Io(String::from("broken pipe")))
    );
}

#[test]
fn incoming_publish_is_notified_then_acknowledged_on_the_wire() {
    let reaction = receive(Inbound::Packet(Packet::Publish(publish(5))));
    assert_eq!(reaction.verdict, Verdict::Continue);
    assert_eq!(reaction.effects, vec![Effect::SessionPublish(publish(5))]);
    let reaction = after_publish(Some(publish(5)), Some(Packet::Puback(5)));
    assert_eq!(
        reaction.effects,
        vec![Effect::Notify(Packet::Publish(publish(5))), Effect::Enqueue(Request::Puback(5))]
    );
    let queued = match &reaction.effects[1] {
        Effect::Enqueue(request) => request.clone(),
        other => panic!("unexpected effect {:?}", other),
    };
    assert_eq!(dispatch(DispatchEvent::Request(queued)), DispatchAction::Translate(Request::Puback(5)));
    assert_eq!(
        dispatch(DispatchEvent::Translated(Packet::Puback(5))),
        DispatchAction::Write(Packet::Puback(5))
    );
    assert_eq!(dispatch(DispatchEvent::Written), DispatchAction::Next);
}

#[test]
fn ping_period_is_the_keepalive() {
    assert_eq!(ping_period(Some(30)), Some(30u64));
    assert_eq!(ping_period(Some(0)), Some(0u64));
    assert_eq!(ping_period(Some(65535)), Some(65535u64));
    assert_eq!(ping_period(None), None);
}

#[test]
fn tick_enqueues_a_ping_only_when_one_is_due() {
    assert_eq!(on_tick(true), Some(Request::Ping));
    assert_eq!(on_tick(false), None);
}

#[test]
fn notifiable_packets() {
    assert!(Packet::Puback(1).is_notifiable());
    assert!(Packet::Publish(publish(1)).is_notifiable());
    assert!(Packet::Suback(Suback { pid: 1, return_codes: vec![] }).is_notifiable());
    assert!(!Packet::Pingresp.is_notifiable());
    assert!(!Packet::Disconnect.is_notifiable());
    assert!(!Packet::Pubrec(1).is_notifiable());
}

#[test]
fn command_queue_that_refuses_ends_the_task() {
    assert_eq!(after_enqueue(true), Ok(()));
    assert_eq!(after_enqueue(false), Err(Error::SendError));
}
