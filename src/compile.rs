//! Shader compilation as a conversation with the driver.
//!
//! A compile starts with [`CompileState::start`], which names the first driver
//! call. The embedding code makes each call it is handed and passes the
//! driver's answer to [`CompileState::step`], which names the next call or ends
//! the compile. The spec function [`next`] is the whole protocol; [`run`]
//! replays it over a sequence of answers.
use vstd::prelude::*;

verus! {

/// The error text of a failed compile whose driver reported an empty log.
pub const NO_LOG_MESSAGE: &'static str = "Compilation failed with no log. The OpenGL context might have been created on another thread, or not have been created.";

/// A driver call that a compile asks for.
#[derive(Clone, Copy, Debug, PartialEq, Eq, Structural)]
pub enum Call {
    /// Create a shader object of this kind. Answered by [`Reply::Handle`].
    CreateShader { kind: u32 },
    /// Upload the source text to the shader, compile it and read whether the
    /// compile succeeded. Answered by [`Reply::Status`].
    Compile { shader: u32 },
    /// Read the length of the shader's info log, terminator included.
    /// Answered by [`Reply::LogLength`].
    GetInfoLogLength { shader: u32 },
    /// Read the shader's info log into a zeroed buffer of `len` bytes.
    /// Answered by [`Reply::Log`] with that buffer.
    GetInfoLog { shader: u32, len: i32 },
    /// Delete the shader object. Answered by [`Reply::Done`].
    DeleteShader { shader: u32 },
}

/// The driver's answer to a [`Call`].
pub enum Reply {
    Handle(u32),
    Status(bool),
    LogLength(i32),
    Log(Vec<u8>),
    Done,
}

/// The mathematical view of a [`Reply`].
pub enum ReplyView {
    Handle(u32),
    Status(bool),
    LogLength(i32),
    Log(Seq<u8>),
    Done,
}

impl View for Reply {
    type V = ReplyView;

    open spec fn view(&self) -> ReplyView {
        match self {
            Reply::Handle(h) => ReplyView::Handle(*h),
            Reply::Status(ok) => ReplyView::Status(*ok),
            Reply::LogLength(len) => ReplyView::LogLength(*len),
            Reply::Log(b) => ReplyView::Log(b@),
            Reply::Done => ReplyView::Done,
        }
    }
}

/// Why a compile failed.
pub enum CompileError {
    /// The driver reported a failed compile and an empty log.
    NoLog,
    /// The driver reported a failed compile; this is its log.
    Log(String),
}

impl CompileError {
    /// The error's text.
    pub open spec fn text(&self) -> Seq<char> {
        match self {
            CompileError::NoLog => NO_LOG_MESSAGE@,
            CompileError::Log(s) => s@,
        }
    }

    /// The error's text: the fixed message for an empty log, else the log.
    pub fn message(&self) -> (r: String)
        ensures
            r@ == self.text(),
    {
        match self {
            CompileError::NoLog => String::from_str(NO_LOG_MESSAGE),
            CompileError::Log(s) => s.clone(),
        }
    }
}

/// What a step of a compile yields.
pub enum Step {
    /// The driver call to make next.
    Issue(Call),
    /// The compile is over: the compiled shader, or why it failed.
    Finish(Result<u32, CompileError>),
    /// The driver's log is not valid UTF-8. The shader has been deleted; the
    /// driver broke its contract and the compile cannot go on.
    InvalidLog,
    /// The answer does not answer the pending call, or no call was pending.
    Unexpected,
}

/// The mathematical view of a [`Step`].
pub enum StepView {
    Issue(Call),
    Compiled(u32),
    NoLog,
    Log(Seq<char>),
    InvalidLog,
    Unexpected,
}

impl View for Step {
    type V = StepView;

    open spec fn view(&self) -> StepView {
        match self {
            Step::Issue(c) => StepView::Issue(*c),
            Step::Finish(Ok(h)) => StepView::Compiled(*h),
            Step::Finish(Err(CompileError::NoLog)) => StepView::NoLog,
            Step::Finish(Err(CompileError::Log(s))) => StepView::Log(s@),
            Step::InvalidLog => StepView::InvalidLog,
            Step::Unexpected => StepView::Unexpected,
        }
    }
}

/// Where a compile stands: which answer it waits for.
pub enum CompileState {
    AwaitHandle,
    AwaitStatus { shader: u32 },
    AwaitLogLength { shader: u32 },
    AwaitLog { shader: u32, len: i32 },
    AwaitDelete { shader: u32, text: Option<String> },
    Finished,
}

/// The mathematical view of a [`CompileState`].
pub enum StateView {
    AwaitHandle,
    AwaitStatus { shader: u32 },
    AwaitLogLength { shader: u32 },
    AwaitLog { shader: u32, len: i32 },
    AwaitDelete { shader: u32, text: Option<Seq<char>> },
    Finished,
}

impl View for CompileState {
    type V = StateView;

    open spec fn view(&self) -> StateView {
        match self {
            CompileState::AwaitHandle => StateView::AwaitHandle,
            CompileState::AwaitStatus { shader } => StateView::AwaitStatus { shader: *shader },
            CompileState::AwaitLogLength { shader } => StateView::AwaitLogLength {
                shader: *shader,
            },
            CompileState::AwaitLog { shader, len } => StateView::AwaitLog {
                shader: *shader,
                len: *len,
            },
            CompileState::AwaitDelete { shader, text } => StateView::AwaitDelete {
                shader: *shader,
                text: match text {
                    Some(t) => Some(t@),
                    None => None,
                },
            },
            CompileState::Finished => StateView::Finished,
        }
    }
}

/// The text that the bytes encode as UTF-8, or `None` where they are not
/// valid UTF-8.
pub uninterp spec fn utf8_decoded(bytes: Seq<u8>) -> Option<Seq<char>>;

/// Relies on `String::from_utf8`: it yields the text that the bytes encode,
/// and fails exactly where they are not valid UTF-8.
#[verifier::external_body]
fn decode_utf8(bytes: Vec<u8>) -> (r: Option<String>)
    ensures
        match r {
            Some(t) => utf8_decoded(bytes@) == Some(t@),
            None => utf8_decoded(bytes@) is None,
        },
{
    String::from_utf8(bytes).ok()
}

/// The log's bytes in a buffer that the driver filled for a reported length
/// of `len`: its first `len - 1` bytes, which drops the terminator, or the
/// whole buffer where it is shorter.
pub open spec fn log_content(buffer: Seq<u8>, len: i32) -> Seq<u8> {
    let keep: int = if len <= 1 { 0 } else { len - 1 };
    if keep <= buffer.len() {
        buffer.subrange(0, keep)
    } else {
        buffer
    }
}

/// One step of the protocol: from where a compile stands and the driver's
/// answer, where it stands next and what it yields.
///
/// A zero (or negative) log length ends the compile with no delete; a
/// positive one has the log read, then the shader deleted, then the log
/// returned.
pub open spec fn next(s: StateView, r: ReplyView) -> (StateView, StepView) {
    match s {
        StateView::AwaitHandle => match r {
            ReplyView::Handle(h) => (
                StateView::AwaitStatus { shader: h },
                StepView::Issue(Call::Compile { shader: h }),
            ),
            _ => (StateView::Finished, StepView::Unexpected),
        },
        StateView::AwaitStatus { shader } => match r {
            ReplyView::Status(true) => (StateView::Finished, StepView::Compiled(shader)),
            ReplyView::Status(false) => (
                StateView::AwaitLogLength { shader },
                StepView::Issue(Call::GetInfoLogLength { shader }),
            ),
            _ => (StateView::Finished, StepView::Unexpected),
        },
        StateView::AwaitLogLength { shader } => match r {
            ReplyView::LogLength(len) => if len <= 0 {
                (StateView::Finished, StepView::NoLog)
            } else {
                (
                    StateView::AwaitLog { shader, len },
                    StepView::Issue(Call::GetInfoLog { shader, len }),
                )
            },
            _ => (StateView::Finished, StepView::Unexpected),
        },
        StateView::AwaitLog { shader, len } => match r {
            ReplyView::Log(b) => (
                StateView::AwaitDelete { shader, text: utf8_decoded(log_content(b, len)) },
                StepView::Issue(Call::DeleteShader { shader }),
            ),
            _ => (StateView::Finished, StepView::Unexpected),
        },
        StateView::AwaitDelete { shader, text } => match r {
            ReplyView::Done => (
                StateView::Finished,
                match text {
                    Some(t) => StepView::Log(t),
                    None => StepView::InvalidLog,
                },
            ),
            _ => (StateView::Finished, StepView::Unexpected),
        },
        StateView::Finished => (StateView::Finished, StepView::Unexpected),
    }
}

impl CompileState {
    /// Starts compiling a shader of the given kind: the first call creates
    /// the shader object.
    pub fn start(kind: u32) -> (r: (CompileState, Call))
        ensures
            r.0@ == StateView::AwaitHandle,
            r.1 == (Call::CreateShader { kind }),
    {
        (CompileState::AwaitHandle, Call::CreateShader { kind })
    }

    /// Takes the driver's answer to the pending call and yields the next call
    /// or the end of the compile.
    pub fn step(&mut self, reply: Reply) -> (r: Step)
        ensures
            (final(self)@, r@) == next(old(self)@, reply@),
    {
        let mut state = CompileState::Finished;
        core::mem::swap(self, &mut state);
        match state {
            CompileState::AwaitHandle => match reply {
                Reply::Handle(h) => {
                    *self = CompileState::AwaitStatus { shader: h };
                    Step::Issue(Call::Compile { shader: h })
                },
                _ => Step::Unexpected,
            },
            CompileState::AwaitStatus { shader } => match reply {
                Reply::Status(ok) => if ok {
                    Step::Finish(Ok(shader))
                } else {
                    *self = CompileState::AwaitLogLength { shader };
                    Step::Issue(Call::GetInfoLogLength { shader })
                },
                _ => Step::Unexpected,
            },
            CompileState::AwaitLogLength { shader } => match reply {
                Reply::LogLength(len) => if len <= 0 {
                    Step::Finish(Err(CompileError::NoLog))
                } else {
                    *self = CompileState::AwaitLog { shader, len };
                    Step::Issue(Call::GetInfoLog { shader, len })
                },
                _ => Step::Unexpected,
            },
            CompileState::AwaitLog { shader, len } => match reply {
                Reply::Log(b) => {
                    let mut content = b;
                    let keep: usize = if len <= 1 { 0 } else { (len - 1) as usize };
                    content.truncate(keep);
                    let text = decode_utf8(content);
                    *self = CompileState::AwaitDelete { shader, text };
                    Step::Issue(Call::DeleteShader { shader })
                },
                _ => Step::Unexpected,
            },
            CompileState::AwaitDelete { shader, text } => match reply {
                Reply::Done => match text {
                    Some(t) => Step::Finish(Err(CompileError::Log(t))),
                    None => Step::InvalidLog,
                },
                _ => Step::Unexpected,
            },
            CompileState::Finished => Step::Unexpected,
        }
    }
}

/// Replays the protocol from `s` over the driver's answers, in order: where
/// the compile ends up and what each answer yielded.
pub open spec fn run(s: StateView, replies: Seq<ReplyView>) -> (StateView, Seq<StepView>)
    decreases replies.len(),
{
    if replies.len() == 0 {
        (s, Seq::empty())
    } else {
        let (s1, first) = next(s, replies[0]);
        let (last, rest) = run(s1, replies.drop_first());
        (last, seq![first] + rest)
    }
}

/// Everything that a compile of a shader of the given kind yields, the first
/// call included, when the driver gives these answers.
pub open spec fn transcript(kind: u32, replies: Seq<ReplyView>) -> Seq<StepView> {
    seq![StepView::Issue(Call::CreateShader { kind })] + run(StateView::AwaitHandle, replies).1
}

/// The shaders that a sequence of steps asks to delete, in order.
pub open spec fn deleted_shaders(steps: Seq<StepView>) -> Seq<u32>
    decreases steps.len(),
{
    if steps.len() == 0 {
        Seq::empty()
    } else {
        let rest = deleted_shaders(steps.drop_first());
        match steps[0] {
            StepView::Issue(Call::DeleteShader { shader }) => seq![shader] + rest,
            _ => rest,
        }
    }
}

/// A compile that the driver reports as successful returns the handle that
/// the driver created, and deletes nothing.
pub proof fn lemma_success_returns_handle(kind: u32, shader: u32)
    ensures
        transcript(kind, seq![ReplyView::Handle(shader), ReplyView::Status(true)]) == seq![
            StepView::Issue(Call::CreateShader { kind }),
            StepView::Issue(Call::Compile { shader }),
            StepView::Compiled(shader),
        ],
        deleted_shaders(
            transcript(kind, seq![ReplyView::Handle(shader), ReplyView::Status(true)]),
        ) == Seq::<u32>::empty(),
{
    reveal_with_fuel(run, 3);
    reveal_with_fuel(deleted_shaders, 4);
    assert(transcript(kind, seq![ReplyView::Handle(shader), ReplyView::Status(true)]) =~= seq![
        StepView::Issue(Call::CreateShader { kind }),
        StepView::Issue(Call::Compile { shader }),
        StepView::Compiled(shader),
    ]);
}

/// The driver's answers to a compile that fails with a log: the handle, a
/// failed status, the log length, the filled buffer, and the delete.
pub open spec fn failed_with_log(shader: u32, len: i32, buffer: Seq<u8>) -> Seq<ReplyView> {
    seq![
        ReplyView::Handle(shader),
        ReplyView::Status(false),
        ReplyView::LogLength(len),
        ReplyView::Log(buffer),
        ReplyView::Done,
    ]
}

/// The driver's answers to a compile that fails with an empty log.
pub open spec fn failed_without_log(shader: u32) -> Seq<ReplyView> {
    seq![ReplyView::Handle(shader), ReplyView::Status(false), ReplyView::LogLength(0)]
}

/// A compile that fails with a log reads the log, deletes the shader and
/// returns the log's text: the driver's buffer decoded, without the
/// terminator. Where the driver filled the whole buffer, the terminator is
/// its last byte.
pub proof fn lemma_failure_returns_log(kind: u32, shader: u32, len: i32, buffer: Seq<u8>)
    requires
        len > 0,
    ensures
        transcript(kind, failed_with_log(shader, len, buffer)) == seq![
            StepView::Issue(Call::CreateShader { kind }),
            StepView::Issue(Call::Compile { shader }),
            StepView::Issue(Call::GetInfoLogLength { shader }),
            StepView::Issue(Call::GetInfoLog { shader, len }),
            StepView::Issue(Call::DeleteShader { shader }),
            match utf8_decoded(log_content(buffer, len)) {
                Some(t) => StepView::Log(t),
                None => StepView::InvalidLog,
            },
        ],
        buffer.len() == len ==> log_content(buffer, len) == buffer.drop_last(),
{
    reveal_with_fuel(run, 6);
    let rs = failed_with_log(shader, len, buffer);
    assert(rs.drop_first().drop_first().drop_first().drop_first().drop_first() =~= Seq::<
        ReplyView,
    >::empty());
    assert(transcript(kind, rs) =~= seq![
        StepView::Issue(Call::CreateShader { kind }),
        StepView::Issue(Call::Compile { shader }),
        StepView::Issue(Call::GetInfoLogLength { shader }),
        StepView::Issue(Call::GetInfoLog { shader, len }),
        StepView::Issue(Call::DeleteShader { shader }),
        match utf8_decoded(log_content(buffer, len)) {
            Some(t) => StepView::Log(t),
            None => StepView::InvalidLog,
        },
    ]);
    if buffer.len() == len {
        assert(log_content(buffer, len) =~= buffer.drop_last());
    }
}

/// A compile that fails with an empty log returns the fixed no-log error and
/// asks for no delete.
pub proof fn lemma_empty_log_deletes_nothing(kind: u32, shader: u32)
    ensures
        transcript(kind, failed_without_log(shader)) == seq![
            StepView::Issue(Call::CreateShader { kind }),
            StepView::Issue(Call::Compile { shader }),
            StepView::Issue(Call::GetInfoLogLength { shader }),
            StepView::NoLog,
        ],
        deleted_shaders(transcript(kind, failed_without_log(shader))) == Seq::<u32>::empty(),
        CompileError::NoLog.text() == NO_LOG_MESSAGE@,
{
    reveal_with_fuel(run, 4);
    reveal_with_fuel(deleted_shaders, 5);
    let rs = failed_without_log(shader);
    assert(rs.drop_first().drop_first().drop_first() =~= Seq::<ReplyView>::empty());
    assert(transcript(kind, rs) =~= seq![
        StepView::Issue(Call::CreateShader { kind }),
        StepView::Issue(Call::Compile { shader }),
        StepView::Issue(Call::GetInfoLogLength { shader }),
        StepView::NoLog,
    ]);
}

/// A compile that fails with a log asks for exactly one delete, of the
/// shader that the driver created.
pub proof fn lemma_log_failure_deletes_once(kind: u32, shader: u32, len: i32, buffer: Seq<u8>)
    requires
        len > 0,
    ensures
        deleted_shaders(transcript(kind, failed_with_log(shader, len, buffer))) == seq![shader],
{
    lemma_failure_returns_log(kind, shader, len, buffer);
    reveal_with_fuel(deleted_shaders, 7);
    let steps = transcript(kind, failed_with_log(shader, len, buffer));
    assert(steps.drop_first().drop_first().drop_first().drop_first().drop_first().drop_first()
        =~= Seq::<StepView>::empty());
    assert(deleted_shaders(steps) =~= seq![shader]);
}

} // verus!
