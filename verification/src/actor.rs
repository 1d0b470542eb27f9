//! The actor of a preview session: it takes the requests of editor and
//! viewer from one mailbox, one at a time and in the order in which they
//! came, says what is to be resolved for each, and turns what the resolver
//! gave into the notification that goes out.

use vstd::prelude::*;
use crate::jump::{reconcile, resolve_span_range, DocToSrcJumpInfo};

verus! {

/// A place in the compiled document: a span of the source and an offset
/// into it.
#[derive(Clone, Copy, Debug, PartialEq, Eq, Structural)]
pub struct SourceSpanOffset {
    pub span: u64,
    pub offset: usize,
}

/// A position in a text: line and column.
#[derive(Clone, Copy, Debug, PartialEq, Eq, Structural)]
pub struct CharPosition {
    pub line: usize,
    pub column: usize,
}

/// A position in a source file.
#[derive(Debug, PartialEq, Eq)]
pub struct SourceLocation {
    pub filepath: String,
    pub pos: CharPosition,
}

/// A position on a page. The coordinates are in points, each given as the
/// bits of a single-precision number.
#[derive(Clone, Copy, Debug, PartialEq, Eq, Structural)]
pub struct DocumentPosition {
    pub page_no: usize,
    pub x: u32,
    pub y: u32,
}

/// The editor moved its cursor.
#[derive(Debug, PartialEq, Eq)]
pub struct ChangeCursorPositionRequest {
    pub filepath: String,
    pub line: usize,
    pub character: usize,
}

/// The editor asks where a position of the source is in the document.
#[derive(Debug, PartialEq, Eq)]
pub struct SrcToDocJumpRequest {
    pub filepath: String,
    pub line: usize,
    pub character: usize,
}

/// Files as the editor holds them, unsaved: path and content.
#[derive(Debug, PartialEq, Eq)]
pub struct MemoryFiles {
    pub files: Vec<(String, String)>,
}

/// Files by their paths only.
#[derive(Debug, PartialEq, Eq)]
pub struct MemoryFilesShort {
    pub files: Vec<String>,
}

/// A failure of the resolver or of the file system it works on.
#[derive(Debug, PartialEq, Eq)]
pub struct ResolveError {
    pub message: String,
}

/// A request to the actor.
#[derive(Debug, PartialEq, Eq)]
pub enum TypstActorRequest {
    /// Where in the source does this span of the document come from?
    DocToSrcJumpResolve((SourceSpanOffset, SourceSpanOffset)),
    /// The cursor of the editor moved.
    ChangeCursorPosition(ChangeCursorPositionRequest),
    /// Where in the document is this position of the source?
    SrcToDocJumpResolve(SrcToDocJumpRequest),
    /// Replace all files held in memory.
    SyncMemoryFiles(MemoryFiles),
    /// Add files to those held in memory, or change them.
    UpdateMemoryFiles(MemoryFiles),
    /// Drop files held in memory.
    RemoveMemoryFiles(MemoryFilesShort),
}

/// A span to be resolved to a range of the source: at an offset, or as a
/// whole.
#[derive(Clone, Copy, Debug, PartialEq, Eq, Structural)]
pub struct SpanQuery {
    pub span: u64,
    pub offset: Option<usize>,
}

/// What is to be done outside the actor for one request.
#[derive(Debug, PartialEq, Eq)]
pub enum ActorCommand {
    /// Resolve the start of a span, its end, and the element that owns the
    /// end.
    ResolveSpanRange { start: SpanQuery, end: SpanQuery, element: SpanQuery },
    /// Resolve a position of the source to a span, for the cursor.
    ResolveSourceSpan(SourceLocation),
    /// Resolve a position of the source to the places where it is drawn.
    ResolveDocumentPosition(SourceLocation),
    /// Hand the files to the file system held in memory, replacing all that
    /// it holds where `reset_shadow` is set.
    UpdateMemoryFiles { files: MemoryFiles, reset_shadow: bool },
    /// Drop the files from the file system held in memory.
    RemoveShadowFiles(MemoryFilesShort),
}

/// What came back for one command.
#[derive(Debug, PartialEq, Eq)]
pub enum ActorOutcome {
    /// The three ranges of a jump from the document.
    SpanRange {
        start: Result<Option<DocToSrcJumpInfo>, ResolveError>,
        end: Result<Option<DocToSrcJumpInfo>, ResolveError>,
        element: Result<Option<DocToSrcJumpInfo>, ResolveError>,
    },
    /// The span under the cursor.
    SourceSpan(Result<Option<SourceSpanOffset>, ResolveError>),
    /// The places where a position of the source is drawn.
    DocumentPosition(Result<Vec<DocumentPosition>, ResolveError>),
    /// The file system held in memory took the files, or did not.
    MemoryFiles(Result<(), ResolveError>),
}

/// What the actor sends after a request was handled.
#[derive(Debug, PartialEq, Eq)]
pub enum ActorNotification {
    /// To the editor: jump to this range of the source.
    DocToSrcJump(DocToSrcJumpInfo),
    /// To every renderer: the cursor is at this span.
    ChangeCursorPosition(SourceSpanOffset),
    /// To every viewer: the position is drawn at these places.
    SrcToDocJump(Vec<DocumentPosition>),
}

/// Whether the actor takes requests.
#[derive(Clone, Copy, Debug, PartialEq, Eq, Structural)]
pub enum ActorState {
    /// The mailbox is open.
    Running,
    /// The mailbox was closed: every sender is gone.
    Terminated,
}

/// The span of a place in the document, at its offset.
pub open spec fn span_at(place: SourceSpanOffset) -> SpanQuery {
    SpanQuery { span: place.span, offset: Some(place.offset) }
}

/// The whole span of a place in the document.
pub open spec fn span_of(place: SourceSpanOffset) -> SpanQuery {
    SpanQuery { span: place.span, offset: None }
}

/// What is to be done for a request.
pub open spec fn command_for(mail: TypstActorRequest) -> ActorCommand {
    match mail {
        TypstActorRequest::DocToSrcJumpResolve(range) => ActorCommand::ResolveSpanRange {
            start: span_at(range.0),
            end: span_at(range.1),
            element: span_of(range.1),
        },
        TypstActorRequest::ChangeCursorPosition(req) => ActorCommand::ResolveSourceSpan(
            SourceLocation {
                filepath: req.filepath,
                pos: CharPosition { line: req.line, column: req.character },
            },
        ),
        TypstActorRequest::SrcToDocJumpResolve(req) => ActorCommand::ResolveDocumentPosition(
            SourceLocation {
                filepath: req.filepath,
                pos: CharPosition { line: req.line, column: req.character },
            },
        ),
        TypstActorRequest::SyncMemoryFiles(files) => ActorCommand::UpdateMemoryFiles {
            files,
            reset_shadow: true,
        },
        TypstActorRequest::UpdateMemoryFiles(files) => ActorCommand::UpdateMemoryFiles {
            files,
            reset_shadow: false,
        },
        TypstActorRequest::RemoveMemoryFiles(files) => ActorCommand::RemoveShadowFiles(files),
    }
}

/// What a call gave, with its failure dropped.
pub open spec fn succeeded<T>(m: Result<T, ResolveError>) -> Option<T> {
    match m {
        Ok(value) => Some(value),
        Err(_) => None,
    }
}

/// What the resolver found: nothing where it failed or found nothing.
pub open spec fn resolved<T>(m: Result<Option<T>, ResolveError>) -> Option<T> {
    match m {
        Ok(Some(value)) => Some(value),
        _ => None,
    }
}

/// What is sent for an outcome: the reconciled range of a jump, if
/// anything resolved; the span under the cursor, if it resolved; the places
/// of a position, where the resolver did not fail, even if there is none;
/// nothing for the files.
pub open spec fn notification_for(outcome: ActorOutcome) -> Option<ActorNotification> {
    match outcome {
        ActorOutcome::SpanRange { start, end, element } => match reconcile(
            resolved(start),
            resolved(end),
            resolved(element),
        ) {
            Some(info) => Some(ActorNotification::DocToSrcJump(info)),
            None => None,
        },
        ActorOutcome::SourceSpan(span) => match resolved(span) {
            Some(place) => Some(ActorNotification::ChangeCursorPosition(place)),
            None => None,
        },
        ActorOutcome::DocumentPosition(places) => match places {
            Ok(list) => Some(ActorNotification::SrcToDocJump(list)),
            Err(_) => None,
        },
        ActorOutcome::MemoryFiles(_) => None,
    }
}

/// Drops the failure of a call made for `loc`: what the call gave, or
/// nothing.
pub fn handle_error<T>(loc: &'static str, m: Result<T, ResolveError>) -> (r: Option<T>)
    ensures
        r == succeeded(m),
{
    match m {
        Ok(value) => Some(value),
        Err(_) => None,
    }
}

/// The session actor.
#[derive(Debug)]
pub struct TypstActor {
    state: ActorState,
}

impl TypstActor {
    /// The state of the actor.
    pub closed spec fn state(&self) -> ActorState {
        self.state
    }

    /// An actor whose mailbox is open.
    pub fn new() -> (actor: Self)
        ensures
            actor.state() == ActorState::Running,
    {
        TypstActor { state: ActorState::Running }
    }

    /// Whether the actor takes requests.
    pub fn is_running(&self) -> (r: bool)
        ensures
            r == (self.state() == ActorState::Running),
    {
        match self.state {
            ActorState::Running => true,
            ActorState::Terminated => false,
        }
    }

    /// The query for a place in the document, at its offset.
    pub fn resolve_span_offset(place: SourceSpanOffset) -> (r: SpanQuery)
        ensures
            r == span_at(place),
    {
        SpanQuery { span: place.span, offset: Some(place.offset) }
    }

    /// What the resolver found for a span; a failure counts as nothing.
    pub fn resolve_span(found: Result<Option<DocToSrcJumpInfo>, ResolveError>) -> (r: Option<
        DocToSrcJumpInfo,
    >)
        ensures
            r == resolved(found),
    {
        match handle_error("resolve doc to src jump", found) {
            Some(info) => info,
            None => None,
        }
    }

    /// Says what is to be done for a request.
    pub fn process_mail(&self, mail: TypstActorRequest) -> (command: ActorCommand)
        ensures
            command == command_for(mail),
    {
        match mail {
            TypstActorRequest::DocToSrcJumpResolve(span_range) => ActorCommand::ResolveSpanRange {
                start: Self::resolve_span_offset(span_range.0),
                end: Self::resolve_span_offset(span_range.1),
                element: SpanQuery { span: span_range.1.span, offset: None },
            },
            TypstActorRequest::ChangeCursorPosition(req) => ActorCommand::ResolveSourceSpan(
                SourceLocation {
                    filepath: req.filepath,
                    pos: CharPosition { line: req.line, column: req.character },
                },
            ),
            TypstActorRequest::SrcToDocJumpResolve(req) => ActorCommand::ResolveDocumentPosition(
                SourceLocation {
                    filepath: req.filepath,
                    pos: CharPosition { line: req.line, column: req.character },
                },
            ),
            TypstActorRequest::SyncMemoryFiles(m) => ActorCommand::UpdateMemoryFiles {
                files: m,
                reset_shadow: true,
            },
            TypstActorRequest::UpdateMemoryFiles(m) => ActorCommand::UpdateMemoryFiles {
                files: m,
                reset_shadow: false,
            },
            TypstActorRequest::RemoveMemoryFiles(m) => ActorCommand::RemoveShadowFiles(m),
        }
    }

    /// Turns what came back for a command into what is sent, if anything
    /// is. A failure is dropped: nothing is sent for it, and the actor goes
    /// on.
    pub fn complete(&self, outcome: ActorOutcome) -> (r: Option<ActorNotification>)
        ensures
            r == notification_for(outcome),
    {
        match outcome {
            ActorOutcome::SpanRange { start, end, element } => {
                let st_res = Self::resolve_span(start);
                let ed_res = Self::resolve_span(end);
                let elem_res = Self::resolve_span(element);
                match resolve_span_range(st_res, ed_res, elem_res) {
                    Some(info) => Some(ActorNotification::DocToSrcJump(info)),
                    None => None,
                }
            },
            ActorOutcome::SourceSpan(span) => {
                match handle_error("resolve cursor position", span) {
                    Some(Some(place)) => Some(ActorNotification::ChangeCursorPosition(place)),
                    _ => None,
                }
            },
            ActorOutcome::DocumentPosition(places) => {
                match handle_error("resolve src to doc jump", places) {
                    Some(list) => Some(ActorNotification::SrcToDocJump(list)),
                    None => None,
                }
            },
            ActorOutcome::MemoryFiles(done) => {
                let _ = handle_error("update memory files", done);
                None
            },
        }
    }

    /// Takes the next event of the mailbox: a request, or `None` where the
    /// mailbox was closed. A running actor answers a request with its
    /// command and goes on running; it terminates when the mailbox is
    /// closed. A terminated actor takes nothing.
    pub fn step(&mut self, mail: Option<TypstActorRequest>) -> (command: Option<ActorCommand>)
        ensures
            old(self).state() == ActorState::Terminated ==> {
                &&& command.is_none()
                &&& final(self).state() == ActorState::Terminated
            },
            old(self).state() == ActorState::Running ==> match mail {
                Some(request) => command == Some(command_for(request)) && final(self).state()
                    == ActorState::Running,
                None => command.is_none() && final(self).state() == ActorState::Terminated,
            },
    {
        if !self.is_running() {
            return None;
        }
        match mail {
            Some(request) => Some(self.process_mail(request)),
            None => {
                self.state = ActorState::Terminated;
                None
            },
        }
    }

    /// Runs the actor on the requests of a mailbox that is closed after
    /// them: one command for each request, in the order of the requests.
    /// The actor is terminated afterwards. A terminated actor takes no
    /// request.
    pub fn run(&mut self, mailbox: Vec<TypstActorRequest>) -> (commands: Vec<ActorCommand>)
        ensures
            final(self).state() == ActorState::Terminated,
            old(self).state() == ActorState::Terminated ==> commands@.len() == 0,
            old(self).state() == ActorState::Running ==> commands@ == commands_for(mailbox@),
    {
        let mut commands: Vec<ActorCommand> = Vec::new();
        let mut pending = reversed(mailbox);
        let ghost all = mailbox@;
        while pending.len() > 0
            invariant
                pending@.len() <= all.len(),
                self.state() == old(self).state(),
                forall|i: int|
                    0 <= i < pending@.len() ==> pending@[i] == all[all.len() - 1 - i],
                old(self).state() == ActorState::Terminated ==> commands@.len() == 0,
                old(self).state() == ActorState::Running ==> commands@ == commands_for(
                    all.take(all.len() - pending@.len()),
                ),
            decreases pending@.len(),
        {
            let ghost done = all.len() - pending@.len();
            let mail = pending.pop();
            match self.step(mail) {
                Some(command) => {
                    commands.push(command);
                },
                None => {},
            }
            proof {
                if old(self).state() == ActorState::Running {
                    let next = all.take(done + 1);
                    assert(next.len() == done + 1);
                    assert(next.drop_last() == all.take(done));
                    assert(next.last() == all[done]);
                    assert(commands@ == commands_for(next));
                }
            }
        }
        let _ = self.step(None);
        proof {
            assert(all.take(all.len() as int) == all);
        }
        commands
    }
}

/// The commands for a sequence of requests: one for each, in the same
/// order.
pub open spec fn commands_for(mails: Seq<TypstActorRequest>) -> Seq<ActorCommand>
    decreases mails.len(),
{
    if mails.len() == 0 {
        Seq::empty()
    } else {
        commands_for(mails.drop_last()).push(command_for(mails.last()))
    }
}

/// The items of a list in the opposite order.
fn reversed<T>(items: Vec<T>) -> (r: Vec<T>)
    ensures
        r@.len() == items@.len(),
        forall|i: int| 0 <= i < r@.len() ==> r@[i] == items@[items@.len() - 1 - i],
{
    let mut items = items;
    let ghost all = items@;
    let mut r: Vec<T> = Vec::new();
    while items.len() > 0
        invariant
            items@.len() + r@.len() == all.len(),
            forall|i: int| 0 <= i < items@.len() ==> items@[i] == all[i],
            forall|i: int| 0 <= i < r@.len() ==> r@[i] == all[all.len() - 1 - i],
        decreases items@.len(),
    {
        let item = items.pop();
        match item {
            Some(value) => {
                r.push(value);
            },
            None => {},
        }
    }
    r
}

/// The commands come one for each request and in the order of the
/// requests, whatever the requests are.
pub proof fn lemma_commands_keep_order(mails: Seq<TypstActorRequest>)
    ensures
        commands_for(mails).len() == mails.len(),
        forall|i: int|
            0 <= i < mails.len() ==> (#[trigger] commands_for(mails)[i]) == command_for(mails[i]),
    decreases mails.len(),
{
    if mails.len() > 0 {
        lemma_commands_keep_order(mails.drop_last());
        assert forall|i: int| 0 <= i < mails.len() implies (#[trigger] commands_for(mails)[i])
            == command_for(mails[i]) by {
            if i < mails.len() - 1 {
                assert(mails.drop_last()[i] == mails[i]);
            }
        }
    }
}

/// A failure of the resolver is never a failure of the actor: nothing is
/// sent for it.
pub proof fn lemma_failures_are_dropped(error: ResolveError)
    ensures
        notification_for(
            ActorOutcome::SpanRange { start: Err(error), end: Err(error), element: Err(error) },
        ).is_none(),
        notification_for(ActorOutcome::SourceSpan(Err(error))).is_none(),
        notification_for(ActorOutcome::DocumentPosition(Err(error))).is_none(),
        notification_for(ActorOutcome::MemoryFiles(Err(error))).is_none(),
{
}

} // verus!
