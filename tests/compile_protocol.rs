use shader_utils::compile::{Call, CompileError, CompileState, Reply, Step, NO_LOG_MESSAGE};

/// A driver that answers from a script and records every call.
struct MockDriver {
    handle: u32,
    compiles: bool,
    log_len: i32,
    log: Vec<u8>,
    calls: Vec<Call>,
}

impl MockDriver {
    fn new(handle: u32, compiles: bool, log_len: i32, log: &[u8]) -> MockDriver {
        MockDriver { handle, compiles, log_len, log: log.to_vec(), calls: Vec::new() }
    }

    fn answer(&mut self, call: Call) -> Reply {
        self.calls.push(call);
        match call {
            Call::CreateShader { .. } => Reply::Handle(self.handle),
            Call::Compile { .. } => Reply::Status(self.compiles),
            Call::GetInfoLogLength { .. } => Reply::LogLength(self.log_len),
            Call::GetInfoLog { len, .. } => {
                let mut buf = vec![0u8; len as usize];
                let n = std::cmp::min(buf.len(), self.log.len());
                buf[..n].copy_from_slice(&self.log[..n]);
                Reply::Log(buf)
            }
            Call::DeleteShader { .. } => Reply::Done,
        }
    }

    fn deleted(&self) -> Vec<u32> {
        self.calls
            .iter()
            .filter_map(|c| match c {
                Call::DeleteShader { shader } => Some(*shader),
                _ => None,
            })
            .collect()
    }
}

enum End {
    Done(Result<u32, String>),
    InvalidLog,
    Unexpected,
}

fn compile(driver: &mut MockDriver, kind: u32) -> End {
    let (mut state, mut call) = CompileState::start(kind);
    loop {
        let reply = driver.answer(call);
        match state.step(reply) {
            Step::Issue(c) => call = c,
            Step::Finish(r) => return End::Done(r.map_err(|e| e.message())),
            Step::InvalidLog => return End::InvalidLog,
            Step::Unexpected => return End::Unexpected,
        }
    }
}

const VERTEX: u32 = 0x8B31;
const FRAGMENT: u32 = 0x8B30;

#[test]
fn successful_compile_returns_created_handle() {
    let mut driver = MockDriver::new(7, true, 0, b"");
    match compile(&mut driver, VERTEX) {
        End::Done(Ok(h)) => assert_eq!(h, 7),
        _ => panic!("expected the shader handle"),
    }
    assert_eq!(
        driver.calls,
        vec![Call::CreateShader { kind: VERTEX }, Call::Compile { shader: 7 }]
    );
    assert!(driver.deleted().is_empty());
}

#[test]
fn failed_compile_returns_log_without_terminator() {
    let log = b"0:1(10): error: syntax error, unexpected '}'\0";
    let mut driver = MockDriver::new(4, false, log.len() as i32, log);
    match compile(&mut driver, FRAGMENT) {
        End::Done(Err(text)) => {
            assert_eq!(text, "0:1(10): error: syntax error, unexpected '}'");
            assert!(!text.is_empty());
        }
        _ => panic!("expected the driver's log"),
    }
}

#[test]
fn empty_log_gives_fixed_message_and_no_delete() {
    let mut driver = MockDriver::new(5, false, 0, b"");
    match compile(&mut driver, VERTEX) {
        End::Done(Err(text)) => assert_eq!(text, NO_LOG_MESSAGE),
        _ => panic!("expected the no-log message"),
    }
    assert_eq!(
        NO_LOG_MESSAGE,
        "Compilation failed with no log. The OpenGL context might have been created on another thread, or not have been created."
    );
    assert!(driver.deleted().is_empty());
    assert_eq!(driver.calls.len(), 3);
}

#[test]
fn negative_log_length_is_treated_as_empty() {
    let mut driver = MockDriver::new(5, false, -3, b"");
    assert!(matches!(compile(&mut driver, VERTEX), End::Done(Err(ref t)) if t == NO_LOG_MESSAGE));
    assert!(driver.deleted().is_empty());
}

#[test]
fn log_failure_deletes_the_shader_once() {
    let log = b"error\0";
    let mut driver = MockDriver::new(11, false, 6, log);
    assert!(matches!(compile(&mut driver, VERTEX), End::Done(Err(ref t)) if t == "error"));
    assert_eq!(driver.deleted(), vec![11]);
    assert_eq!(
        driver.calls,
        vec![
            Call::CreateShader { kind: VERTEX },
            Call::Compile { shader: 11 },
            Call::GetInfoLogLength { shader: 11 },
            Call::GetInfoLog { shader: 11, len: 6 },
            Call::DeleteShader { shader: 11 },
        ]
    );
}

#[test]
fn log_length_one_gives_empty_text() {
    let mut driver = MockDriver::new(2, false, 1, b"\0");
    assert!(matches!(compile(&mut driver, VERTEX), End::Done(Err(ref t)) if t.is_empty()));
    assert_eq!(driver.deleted(), vec![2]);
}

#[test]
fn short_buffer_is_kept_whole() {
    let mut state = CompileState::AwaitLog { shader: 3, len: 10 };
    match state.step(Reply::Log(b"abc".to_vec())) {
        Step::Issue(Call::DeleteShader { shader }) => assert_eq!(shader, 3),
        _ => panic!("expected the delete"),
    }
    match state.step(Reply::Done) {
        Step::Finish(Err(CompileError::Log(t))) => assert_eq!(t, "abc"),
        _ => panic!("expected the log"),
    }
}

#[test]
fn non_utf8_log_deletes_then_fails() {
    let log = [0xffu8, 0xfe, b'x', 0];
    let mut driver = MockDriver::new(8, false, 4, &log);
    assert!(matches!(compile(&mut driver, VERTEX), End::InvalidLog));
    assert_eq!(driver.deleted(), vec![8]);
}

#[test]
fn answer_that_does_not_fit_is_unexpected() {
    let (mut state, _) = CompileState::start(VERTEX);
    assert!(matches!(state.step(Reply::Done), Step::Unexpected));
    assert!(matches!(state.step(Reply::Handle(1)), Step::Unexpected));
}

#[test]
fn error_messages() {
    assert_eq!(CompileError::NoLog.message(), NO_LOG_MESSAGE);
    assert_eq!(CompileError::Log("bad token".to_string()).message(), "bad token");
}
