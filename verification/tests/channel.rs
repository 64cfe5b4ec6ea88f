use morphz_web::event::{Event, Timestamp};
use morphz_web::follow::{FollowInput, FollowTask, Following};
use morphz_web::headers::HeaderMap;
use morphz_web::json::{Field, Json};
use morphz_web::session_io::{
    accepted_reply, cursor, cursor_position, event_record, event_wire, events_page, history_error,
    input_limit_error, io_error, page_position, resource_headers, sequence, stream_start,
    AcceptedInput, CausalIds, EventReading, EventRecord, IoMessage, ReadQuery, ReceiveFormat, Subscription,
    WireContent, WireKind,
};
use morphz_web::stream::{can_inspect_chat, IoStream, SnapshotStep, UpdateStep};
use morphz_web::text::Text;

fn text(value: &str) -> Json {
    Json::Text(value.to_string())
}

fn field(name: &str, value: Json) -> Field {
    Field {
        name: name.to_string(),
        value,
    }
}

fn message(id: &str) -> IoMessage {
    IoMessage {
        format_id: id.to_string(),
        format_version: "1".to_string(),
        encoding: "json".to_string(),
        wire: Json::Null,
    }
}

fn causal() -> CausalIds {
    CausalIds {
        session_id: Some("s".to_string()),
        principal_id: None,
        root_turn_id: None,
        thread_id: None,
        activation_id: None,
        model_attempt_id: None,
        output_id: None,
    }
}

fn record(topic: &str, sequence: u64) -> EventRecord {
    EventRecord {
        event: Event {
            id: "event-1".to_string(),
            actor: "a".to_string(),
            event_type: "t".to_string(),
            topic: topic.to_string(),
            timestamp: Timestamp {
                seconds: 0,
                nanos: 500_000_000,
            },
            sequence: Some(sequence),
            payload: vec![field("root_turn_id", text("root"))],
        },
        input: None,
        output: None,
        is_input: false,
        chat: None,
        causal: causal(),
        resources: vec![],
    }
}

fn wants(formats: Option<Vec<(&str, &str, &str)>>, unknown: &'static str) -> Subscription {
    Subscription {
        io_version: Text::Fixed("1"),
        stream_version: Text::Fixed("1"),
        receive_formats: formats.map(|list| {
            list.into_iter()
                .map(|(id, version, encoding)| ReceiveFormat {
                    id: id.to_string(),
                    version: version.to_string(),
                    encoding: encoding.to_string(),
                })
                .collect()
        }),
        receive_unknown: Text::Fixed(unknown),
    }
}

#[test]
fn cursors_are_read_back_where_they_were_made() {
    let made = cursor("session-1", 42);
    assert_eq!(made, "WyJzZXNzaW9uLTEiLDQyXQ");
    assert_eq!(sequence("session-1", Some(&made)).ok().unwrap(), 42);
    let foreign = sequence("session-2", Some(&made)).err().unwrap();
    assert_eq!(foreign.code.as_str(), "invalid_content_syntax");
    assert_eq!(
        foreign.message.as_str(),
        "Cursor is invalid for this Session"
    );
    assert_eq!(sequence("session-1", None).ok().unwrap(), 0);
    assert!(sequence("session-1", Some("%%%")).is_err());
    assert!(sequence("session-1", Some("e30")).is_err());
    let long = "x".repeat(4000);
    assert!(sequence(&long, Some(&cursor(&long, 1))).is_err());
    assert_eq!(
        cursor_position("s", Some(("s".to_string(), 9))).ok().unwrap(),
        9
    );
    assert!(cursor_position("s", None).is_err());
}

#[test]
fn streams_resume_from_the_query_or_the_reconnect_header() {
    let mut headers = HeaderMap::new();
    assert_eq!(stream_start("s", &None, &headers).ok().unwrap(), 0);
    headers.append("last-event-id".to_string(), Some(cursor("s", 5)));
    assert_eq!(stream_start("s", &None, &headers).ok().unwrap(), 5);
    assert_eq!(
        stream_start("s", &Some(cursor("s", 6)), &headers).ok().unwrap(),
        6
    );
}

#[test]
fn preferences_have_defaults() {
    let query = ReadQuery {
        after: None,
        io_version: None,
        stream_version: Some("2".to_string()),
        receive_formats: None,
        receive_unknown: None,
    };
    let found = query.preferences(None).ok().unwrap();
    assert_eq!(found.io_version.as_str(), "1");
    assert_eq!(found.stream_version.as_str(), "2");
    assert_eq!(found.receive_unknown.as_str(), "inspect");
    assert!(found.receive_formats.is_none());
    let fault = query.preferences(Some(None)).err().unwrap();
    assert_eq!(fault.code.as_str(), "invalid_content_syntax");
    assert_eq!(fault.message.as_str(), "Invalid receive_formats list");
}

#[test]
fn failures_of_the_channel_have_a_status() {
    assert_eq!(io_error(input_limit_error(), 413).status, 413);
    assert_eq!(io_error(history_error(), 0).status, 500);
    assert_eq!(
        input_limit_error().code.as_str(),
        "message_limit_exceeded"
    );
    assert_eq!(
        history_error().message.as_str(),
        "Cannot read durable IO history"
    );
}

#[test]
fn resources_are_handed_out_as_opaque_downloads() {
    let headers = resource_headers();
    assert!(headers.contains(&("content-type", "application/octet-stream")));
    assert!(headers.contains(&("x-content-type-options", "nosniff")));
    assert_eq!(headers.len(), 4);
}

#[test]
fn messages_come_from_their_members() {
    let event = |members: Vec<Field>| {
        let mut event = record("session/input", 3).event;
        event.payload = members;
        event
    };
    let reading = || EventReading {
        input: Some(AcceptedInput {
            message: message("acme.form"),
            binding: text("bound"),
        }),
        output: Some(message("acme.reply")),
        is_input: false,
        chat: None,
        causal: causal(),
        resources: vec![],
    };
    let both = event(vec![field("io_message", text("o")), field("session_io", text("i"))]);
    let members = both.channel_members();
    assert!(matches!(members.input, Some(Json::Text(found)) if found == "i"));
    assert!(matches!(members.output, Some(Json::Text(found)) if found == "o"));
    let any = wants(None, "inspect");
    assert_eq!(
        event_wire(&event_record(both, reading()), &any).unwrap().kind,
        WireKind::InputAccepted
    );
    let output = event(vec![field("io_message", text("o"))]);
    assert!(output.channel_members().input.is_none());
    let record = event_record(output, reading());
    assert!(record.input.is_none());
    assert_eq!(event_wire(&record, &any).unwrap().kind, WireKind::OutputCommitted);
    let neither = event_record(event(vec![]), reading());
    assert!(neither.output.is_none());
    assert!(event_wire(&neither, &any).is_none());
}

#[test]
fn inputs_and_outputs_are_shown_by_format() {
    let mut input = record("session/input", 3);
    input.input = Some(AcceptedInput {
        message: message("acme.form"),
        binding: text("bound"),
    });
    let native = wants(Some(vec![("acme.form", "1", "json")]), "drop");
    let shown = event_wire(&input, &native).unwrap();
    assert_eq!(shown.kind, WireKind::InputAccepted);
    assert_eq!(shown.kind.as_str(), "input.accepted");
    assert_eq!(shown.kind.source(), "client");
    assert_eq!(shown.sequence, 3);
    assert_eq!(
        shown.timestamp.as_deref(),
        Some("1970-01-01T00:00:00.500+00:00")
    );
    assert_eq!(shown.message_id.map(String::as_str), Some("event-1"));
    assert!(matches!(shown.content, WireContent::Native(_)));
    assert!(shown.binding.is_some());
    assert!(shown.resources.is_none());

    let inspected = event_wire(&input, &wants(None, "inspect")).unwrap();
    assert!(matches!(inspected.content, WireContent::Inspect(_)));
    let hidden = event_wire(&input, &wants(None, "drop")).unwrap();
    assert!(matches!(
        &hidden.content,
        WireContent::Unsupported { format } if format == "acme.form@1"
    ));
    assert!(hidden.binding.is_none());

    let mut output = record("chat/reply", 4);
    output.chat = Some(message("morphz.chat"));
    output.resources = vec![text("r")];
    let shown = event_wire(&output, &wants(None, "inspect")).unwrap();
    assert_eq!(shown.kind, WireKind::OutputCommitted);
    assert_eq!(shown.kind.source(), "agent");
    assert!(shown.resources.is_some());
    assert!(event_wire(&record("chat/reply", 4), &wants(None, "inspect")).is_none());
}

#[test]
fn states_and_executions_are_shown_as_they_are() {
    let any = wants(None, "drop");
    let run = record("runtime/thread_started", 1);
    let run = event_wire(&run, &any).unwrap();
    assert_eq!(run.kind, WireKind::RunState);
    assert!(run.message_id.is_none());
    assert!(matches!(run.content, WireContent::Event));
    let tool = record("chat/tool_output", 1);
    assert_eq!(
        event_wire(&tool, &any).unwrap().kind,
        WireKind::ExecutionEvent
    );
    let other = record("runtime/internal_signal", 1);
    assert!(event_wire(&other, &any).is_none());
}

#[test]
fn pages_end_where_reading_goes_on() {
    let records = vec![
        record("runtime/internal_signal", 4),
        record("chat/cancelled", 6),
        record("runtime/internal_signal", 9),
    ];
    assert_eq!(page_position(&records, 2), 9);
    assert_eq!(page_position(&vec![], 2), 2);
    let page = events_page("s", 2, &records, &wants(None, "inspect"));
    assert_eq!(page.events.len(), 1);
    assert_eq!(page.events[0].sequence, 6);
    assert_eq!(page.cursor, cursor("s", 9));
}

#[test]
fn accepted_inputs_are_acknowledged_with_a_cursor() {
    let mut accepted = record("session/input", 8).event;
    accepted.payload = vec![];
    let reply = accepted_reply("s", &accepted);
    assert_eq!(reply.event_id.as_str(), "event-1");
    assert_eq!(reply.cursor, cursor("s", 8));
    assert_eq!(reply.session_id, "s");
    assert!(reply.binding.is_none());
}

fn draft(output: &str, root: &str, seq: u64) -> Json {
    Json::Object(vec![
        field("output_id", text(output)),
        field("root_turn_id", text(root)),
        field("delta_seq", Json::Unsigned(seq)),
    ])
}

fn delta(output: &str, root: &str, seq: u64) -> Json {
    Json::Object(vec![
        field("type", text("output.delta")),
        field("output_id", text(output)),
        field("root_turn_id", text(root)),
        field("delta_seq", Json::Unsigned(seq)),
    ])
}

#[test]
fn drafts_go_out_without_gaps_and_end_with_their_turn() {
    let mut stream = IoStream::open("s".to_string(), 2);
    assert!(stream.wants_snapshots(false));
    assert_eq!(
        stream.on_snapshot(&draft("o", "root", 3)),
        SnapshotStep::Send { reset: false }
    );
    stream.snapshots_done();
    assert!(!stream.wants_snapshots(false));
    assert!(stream.wants_snapshots(true));
    assert_eq!(stream.on_snapshot(&draft("o", "root", 3)), SnapshotStep::Skip);
    assert_eq!(
        stream.on_snapshot(&draft("o", "root", 5)),
        SnapshotStep::Send { reset: true }
    );
    assert_eq!(stream.on_update(&delta("o", "root", 5)), UpdateStep::Skip);
    assert_eq!(stream.on_update(&delta("o", "root", 6)), UpdateStep::Forward);
    assert_eq!(stream.on_update(&delta("o", "root", 8)), UpdateStep::Resync);
    assert!(stream.on_resync(&delta("o", "root", 8), &vec![]).is_none());
    assert_eq!(
        stream.on_resync(
            &delta("o", "root", 8),
            &vec![draft("p", "root", 1), draft("o", "root", 9)]
        ),
        Some(1)
    );
    assert_eq!(stream.on_update(&delta("o", "root", 9)), UpdateStep::Skip);
    assert_eq!(stream.on_update(&delta("o", "root", 10)), UpdateStep::Forward);

    let end = record("chat/reply", 7);
    assert!(stream.on_record(&end, &wants(None, "inspect")).is_none());
    assert_eq!(stream.after, 7);
    assert_eq!(stream.cursor(), cursor("s", 7));
    assert_eq!(stream.on_update(&delta("o", "root", 11)), UpdateStep::Skip);
    assert_eq!(stream.on_snapshot(&draft("q", "root", 1)), SnapshotStep::Skip);
    assert!(!stream.history_is_full());
    assert!(IoStream::is_drained(255));
    assert!(!IoStream::is_drained(256));
}

#[test]
fn drafts_are_for_clients_that_can_show_them() {
    assert!(can_inspect_chat(&wants(None, "inspect")));
    assert!(!can_inspect_chat(&wants(None, "drop")));
    assert!(can_inspect_chat(&wants(
        Some(vec![("morphz.chat", "1", "text")]),
        "drop"
    )));
    assert!(!can_inspect_chat(&wants(
        Some(vec![("morphz.chat", "2", "text")]),
        "drop"
    )));
}

#[test]
fn a_client_is_checked_before_it_is_sent_anything() {
    let mut following = Following::open("session".to_string(), 7, &wants(None, "inspect"));
    assert!(following.drafts);
    assert_eq!(following.task, FollowTask::Wait);
    following.advance(FollowInput::Tick);
    assert_eq!(following.task, FollowTask::Authorize { batch: false });
    following.advance(FollowInput::Access(true));
    assert_eq!(following.task, FollowTask::Authorize { batch: true });
    following.advance(FollowInput::Access(true));
    assert_eq!(following.task, FollowTask::ReadBatch);
    following.advance(FollowInput::Batch(256));
    assert_eq!(following.task, FollowTask::Authorize { batch: true });
    following.advance(FollowInput::Access(true));
    following.advance(FollowInput::Batch(255));
    assert_eq!(following.task, FollowTask::SendSnapshots);
    following.advance(FollowInput::SnapshotsSent);
    assert!(!following.stream.first);
    assert_eq!(following.task, FollowTask::Wait);

    following.advance(FollowInput::Event(Some(Json::Null)));
    following.advance(FollowInput::Access(true));
    following.advance(FollowInput::Access(true));
    following.advance(FollowInput::Batch(0));
    assert_eq!(following.task, FollowTask::SendUpdate);
    following.advance(FollowInput::UpdateSent);
    assert_eq!(following.task, FollowTask::Wait);

    following.advance(FollowInput::Tick);
    following.advance(FollowInput::Access(false));
    assert_eq!(following.task, FollowTask::End);
    following.advance(FollowInput::Tick);
    assert_eq!(following.task, FollowTask::End);
}

#[test]
fn a_client_that_sees_no_drafts_is_sent_none() {
    let mut following = Following::open("session".to_string(), 0, &wants(None, "drop"));
    following.advance(FollowInput::Event(Some(Json::Null)));
    following.advance(FollowInput::Access(true));
    following.advance(FollowInput::Access(true));
    following.advance(FollowInput::Batch(3));
    assert_eq!(following.task, FollowTask::Wait);
    following.advance(FollowInput::Gone);
    assert_eq!(following.task, FollowTask::End);
}

#[test]
fn a_connection_that_remembers_too_much_is_reset() {
    let mut following = Following::open("session".to_string(), 0, &wants(None, "inspect"));
    following.advance(FollowInput::Tick);
    following.advance(FollowInput::Access(true));
    following.advance(FollowInput::Access(true));
    for index in 0..4097 {
        let mut ended = record("chat/reply", index);
        ended.event.payload = vec![field("root_turn_id", text(&format!("root-{index}")))];
        following.stream.on_record(&ended, &wants(None, "inspect"));
    }
    following.advance(FollowInput::Batch(0));
    assert_eq!(following.task, FollowTask::SendSnapshots);
    following.advance(FollowInput::SnapshotsSent);
    assert_eq!(following.task, FollowTask::Reset);
}

#[test]
fn cursors_of_the_longest_identifiers_are_read_back() {
    for length in 1..=251 {
        let name = "\u{1}".repeat(length);
        let made = cursor(&name, u64::MAX);
        assert!(made.len() <= 2048);
        assert_eq!(sequence(&name, Some(&made)).ok().unwrap(), u64::MAX);
    }
    let longest = "\u{1}".repeat(252);
    assert!(sequence(&longest, Some(&cursor(&longest, u64::MAX))).is_err());
}
