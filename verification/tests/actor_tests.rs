use export_preview::actor::{
    handle_error, ActorCommand, ActorNotification, ActorOutcome, ChangeCursorPositionRequest,
    CharPosition, DocumentPosition, MemoryFiles, MemoryFilesShort, ResolveError, SourceLocation,
    SourceSpanOffset, SpanQuery, SrcToDocJumpRequest, TypstActor, TypstActorRequest,
};
use export_preview::jump::DocToSrcJumpInfo;

fn failure(message: &str) -> ResolveError {
    ResolveError { message: String::from(message) }
}

fn files(names: &[&str]) -> MemoryFiles {
    MemoryFiles {
        files: names.iter().map(|n| (String::from(*n), format!("content of {}", n))).collect(),
    }
}

fn names(names: &[&str]) -> MemoryFilesShort {
    MemoryFilesShort { files: names.iter().map(|n| String::from(*n)).collect() }
}

fn at(file: &str, line: usize, column: usize) -> DocToSrcJumpInfo {
    DocToSrcJumpInfo {
        filepath: String::from(file),
        start: Some((line, column)),
        end: Some((line, column)),
    }
}

#[test]
fn handle_error_drops_the_failure() {
    assert_eq!(handle_error("SyncMemoryFiles", Ok(7)), Some(7));
    assert_eq!(handle_error::<u8>("SyncMemoryFiles", Err(failure("x"))), None);
    assert_eq!(handle_error("RemoveMemoryFiles", Ok(())), Some(()));
}

#[test]
fn resolve_span_counts_a_failure_as_nothing() {
    assert_eq!(TypstActor::resolve_span(Ok(Some(at("a", 1, 2)))), Some(at("a", 1, 2)));
    assert_eq!(TypstActor::resolve_span(Ok(None)), None);
    assert_eq!(TypstActor::resolve_span(Err(failure("gone"))), None);
}

#[test]
fn resolve_span_offset_keeps_span_and_offset() {
    assert_eq!(
        TypstActor::resolve_span_offset(SourceSpanOffset { span: 77, offset: 3 }),
        SpanQuery { span: 77, offset: Some(3) }
    );
}

#[test]
fn a_jump_from_the_document_resolves_start_end_and_element() {
    let actor = TypstActor::new();
    let command = actor.process_mail(TypstActorRequest::DocToSrcJumpResolve((
        SourceSpanOffset { span: 11, offset: 4 },
        SourceSpanOffset { span: 12, offset: 9 },
    )));
    assert_eq!(
        command,
        ActorCommand::ResolveSpanRange {
            start: SpanQuery { span: 11, offset: Some(4) },
            end: SpanQuery { span: 12, offset: Some(9) },
            element: SpanQuery { span: 12, offset: None },
        }
    );
}

#[test]
fn a_cursor_change_resolves_a_source_span() {
    let actor = TypstActor::new();
    let command = actor.process_mail(TypstActorRequest::ChangeCursorPosition(
        ChangeCursorPositionRequest { filepath: String::from("/p/main.typ"), line: 3, character: 8 },
    ));
    assert_eq!(
        command,
        ActorCommand::ResolveSourceSpan(SourceLocation {
            filepath: String::from("/p/main.typ"),
            pos: CharPosition { line: 3, column: 8 },
        })
    );
}

#[test]
fn a_jump_from_the_source_resolves_document_positions() {
    let actor = TypstActor::new();
    let command = actor.process_mail(TypstActorRequest::SrcToDocJumpResolve(SrcToDocJumpRequest {
        filepath: String::from("/p/main.typ"),
        line: 0,
        character: 1,
    }));
    assert_eq!(
        command,
        ActorCommand::ResolveDocumentPosition(SourceLocation {
            filepath: String::from("/p/main.typ"),
            pos: CharPosition { line: 0, column: 1 },
        })
    );
}

#[test]
fn memory_file_requests_are_forwarded_as_they_are() {
    let actor = TypstActor::new();
    assert_eq!(
        actor.process_mail(TypstActorRequest::SyncMemoryFiles(files(&["a", "b"]))),
        ActorCommand::UpdateMemoryFiles { files: files(&["a", "b"]), reset_shadow: true }
    );
    assert_eq!(
        actor.process_mail(TypstActorRequest::UpdateMemoryFiles(files(&["c"]))),
        ActorCommand::UpdateMemoryFiles { files: files(&["c"]), reset_shadow: false }
    );
    assert_eq!(
        actor.process_mail(TypstActorRequest::RemoveMemoryFiles(names(&["a", "c"]))),
        ActorCommand::RemoveShadowFiles(names(&["a", "c"]))
    );
}

#[test]
fn a_resolved_jump_is_sent_to_the_editor() {
    let actor = TypstActor::new();
    let sent = actor.complete(ActorOutcome::SpanRange {
        start: Ok(Some(at("fileA", 10, 12))),
        end: Ok(Some(at("fileA", 8, 9))),
        element: Ok(None),
    });
    assert_eq!(
        sent,
        Some(ActorNotification::DocToSrcJump(DocToSrcJumpInfo {
            filepath: String::from("fileA"),
            start: Some((8, 9)),
            end: Some((10, 12)),
        }))
    );
}

#[test]
fn a_jump_is_clipped_to_its_element() {
    let actor = TypstActor::new();
    let sent = actor.complete(ActorOutcome::SpanRange {
        start: Ok(Some(at("fileA", 1, 0))),
        end: Ok(Some(at("fileA", 30, 0))),
        element: Ok(Some(DocToSrcJumpInfo {
            filepath: String::from("fileA"),
            start: Some((5, 0)),
            end: Some((20, 0)),
        })),
    });
    assert_eq!(
        sent,
        Some(ActorNotification::DocToSrcJump(DocToSrcJumpInfo {
            filepath: String::from("fileA"),
            start: Some((5, 0)),
            end: Some((20, 0)),
        }))
    );
}

#[test]
fn a_jump_that_resolves_nowhere_sends_nothing() {
    let actor = TypstActor::new();
    assert_eq!(
        actor.complete(ActorOutcome::SpanRange { start: Ok(None), end: Ok(None), element: Ok(None) }),
        None
    );
    assert_eq!(
        actor.complete(ActorOutcome::SpanRange {
            start: Err(failure("a")),
            end: Err(failure("b")),
            element: Err(failure("c")),
        }),
        None
    );
    assert_eq!(
        actor.complete(ActorOutcome::SpanRange {
            start: Err(failure("a")),
            end: Ok(Some(at("fileB", 2, 2))),
            element: Err(failure("c")),
        }),
        Some(ActorNotification::DocToSrcJump(at("fileB", 2, 2)))
    );
}

#[test]
fn a_resolved_cursor_is_sent_to_the_renderers() {
    let actor = TypstActor::new();
    assert_eq!(
        actor.complete(ActorOutcome::SourceSpan(Ok(Some(SourceSpanOffset { span: 5, offset: 1 })))),
        Some(ActorNotification::ChangeCursorPosition(SourceSpanOffset { span: 5, offset: 1 }))
    );
    assert_eq!(actor.complete(ActorOutcome::SourceSpan(Ok(None))), None);
    assert_eq!(actor.complete(ActorOutcome::SourceSpan(Err(failure("x")))), None);
}

#[test]
fn resolved_positions_are_sent_to_the_viewers() {
    let actor = TypstActor::new();
    let places = vec![
        DocumentPosition { page_no: 1, x: 12.5f32.to_bits(), y: 700.0f32.to_bits() },
        DocumentPosition { page_no: 3, x: 0.0f32.to_bits(), y: 1.25f32.to_bits() },
    ];
    let sent = actor.complete(ActorOutcome::DocumentPosition(Ok(places)));
    match sent {
        Some(ActorNotification::SrcToDocJump(list)) => {
            assert_eq!(list.len(), 2);
            assert_eq!(list[0].page_no, 1);
            assert_eq!(f32::from_bits(list[0].x), 12.5);
            assert_eq!(f32::from_bits(list[0].y), 700.0);
            assert_eq!(list[1].page_no, 3);
            assert_eq!(f32::from_bits(list[1].y), 1.25);
        }
        other => panic!("unexpected notification: {:?}", other),
    }
    assert_eq!(
        actor.complete(ActorOutcome::DocumentPosition(Ok(Vec::new()))),
        Some(ActorNotification::SrcToDocJump(Vec::new()))
    );
    assert_eq!(actor.complete(ActorOutcome::DocumentPosition(Err(failure("x")))), None);
}

#[test]
fn memory_file_outcomes_send_nothing() {
    let actor = TypstActor::new();
    assert_eq!(actor.complete(ActorOutcome::MemoryFiles(Ok(()))), None);
    assert_eq!(actor.complete(ActorOutcome::MemoryFiles(Err(failure("disk")))), None);
}

#[test]
fn the_actor_runs_until_the_mailbox_is_closed() {
    let mut actor = TypstActor::new();
    assert!(actor.is_running());
    let command = actor.step(Some(TypstActorRequest::RemoveMemoryFiles(names(&["a"]))));
    assert_eq!(command, Some(ActorCommand::RemoveShadowFiles(names(&["a"]))));
    assert!(actor.is_running());
    assert_eq!(actor.step(None), None);
    assert!(!actor.is_running());
    assert_eq!(actor.step(Some(TypstActorRequest::RemoveMemoryFiles(names(&["a"])))), None);
    assert!(!actor.is_running());
    assert_eq!(actor.step(None), None);
    assert!(!actor.is_running());
}

#[test]
fn a_failure_does_not_stop_the_actor() {
    let mut actor = TypstActor::new();
    assert_eq!(actor.complete(ActorOutcome::SourceSpan(Err(failure("x")))), None);
    assert!(actor.is_running());
    let command = actor.step(Some(TypstActorRequest::SyncMemoryFiles(files(&["a"]))));
    assert_eq!(
        command,
        Some(ActorCommand::UpdateMemoryFiles { files: files(&["a"]), reset_shadow: true })
    );
}

#[test]
fn run_on_an_empty_mailbox_terminates() {
    let mut actor = TypstActor::new();
    assert_eq!(actor.run(Vec::new()), Vec::new());
    assert!(!actor.is_running());
}

#[test]
fn a_terminated_actor_takes_no_request() {
    let mut actor = TypstActor::new();
    actor.run(Vec::new());
    let commands = actor.run(vec![TypstActorRequest::SyncMemoryFiles(files(&["a"]))]);
    assert_eq!(commands, Vec::new());
    assert!(!actor.is_running());
}

#[test]
fn a_thousand_memory_file_requests_keep_their_order() {
    let mut mailbox = Vec::new();
    let mut expected = Vec::new();
    for i in 0..1000usize {
        let name = format!("file{}", i);
        match i % 3 {
            0 => {
                mailbox.push(TypstActorRequest::SyncMemoryFiles(files(&[name.as_str()])));
                expected.push(ActorCommand::UpdateMemoryFiles {
                    files: files(&[name.as_str()]),
                    reset_shadow: true,
                });
            }
            1 => {
                mailbox.push(TypstActorRequest::UpdateMemoryFiles(files(&[name.as_str()])));
                expected.push(ActorCommand::UpdateMemoryFiles {
                    files: files(&[name.as_str()]),
                    reset_shadow: false,
                });
            }
            _ => {
                mailbox.push(TypstActorRequest::RemoveMemoryFiles(names(&[name.as_str()])));
                expected.push(ActorCommand::RemoveShadowFiles(names(&[name.as_str()])));
            }
        }
    }
    let mut actor = TypstActor::new();
    let commands = actor.run(mailbox);
    assert_eq!(commands.len(), 1000);
    assert_eq!(commands, expected);
    assert!(!actor.is_running());
}

#[test]
fn mixed_requests_keep_their_order() {
    let mailbox = vec![
        TypstActorRequest::ChangeCursorPosition(ChangeCursorPositionRequest {
            filepath: String::from("a"),
            line: 1,
            character: 2,
        }),
        TypstActorRequest::DocToSrcJumpResolve((
            SourceSpanOffset { span: 1, offset: 0 },
            SourceSpanOffset { span: 2, offset: 0 },
        )),
        TypstActorRequest::RemoveMemoryFiles(names(&["z"])),
    ];
    let mut actor = TypstActor::new();
    let commands = actor.run(mailbox);
    assert_eq!(commands.len(), 3);
    assert!(matches!(commands[0], ActorCommand::ResolveSourceSpan(_)));
    assert!(matches!(commands[1], ActorCommand::ResolveSpanRange { .. }));
    assert!(matches!(commands[2], ActorCommand::RemoveShadowFiles(_)));
}
