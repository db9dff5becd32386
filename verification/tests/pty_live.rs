//! The session manager on a real pseudo-terminal, with `sh` for a shell. The
//! reader loop runs in the thread of the test, between the steps of the
//! operations. Where the system has no pseudo-terminals the tests have
//! nothing to say.

use funhou::pty::manager::{Progress, SessionManager};
use funhou::pty::reader::{on_read, ReaderStep, READ_CHUNK_SIZE};
use funhou::pty::reap::ReapLatch;
use funhou::pty::types::{Action, ManagerStatus, Outcome, PtyError};
use portable_pty::{
    native_pty_system, Child, ChildKiller, CommandBuilder, MasterPty, PtySize, SlavePty,
};
use std::io::{Read, Write};
use std::path::Path;

#[derive(Default)]
struct Host {
    manager: Option<SessionManager>,
    master: Option<Box<dyn MasterPty + Send>>,
    slave: Option<Box<dyn SlavePty + Send>>,
    writer: Option<Box<dyn Write + Send>>,
    reader: Option<Box<dyn Read + Send>>,
    child: Option<Box<dyn Child + Send + Sync>>,
    killer: Option<Box<dyn ChildKiller + Send + Sync>>,
    latch: Option<ReapLatch>,
    reading: bool,
    waits: usize,
    output: String,
    shells: Vec<u32>,
    actions: Vec<String>,
}

fn size(rows: u16, cols: u16) -> PtySize {
    PtySize { rows, cols, pixel_width: 0, pixel_height: 0 }
}

fn report<T, E: std::fmt::Display>(result: Result<T, E>) -> (Option<T>, Outcome) {
    match result {
        Ok(value) => (Some(value), Outcome::Completed),
        Err(e) => (None, Outcome::Failed(e.to_string())),
    }
}

fn alive(pid: u32) -> bool {
    Path::new(&format!("/proc/{}", pid)).exists()
}

impl Host {
    fn new() -> Option<Host> {
        if native_pty_system().openpty(size(24, 80)).is_err() {
            println!("no pseudo-terminal to be had");
            return None;
        }
        Some(Host { manager: Some(SessionManager::new()), ..Host::default() })
    }

    /// One turn of the reader loop. Returns whether the loop goes on.
    fn read_once(&mut self) -> bool {
        let mut buffer = [0u8; READ_CHUNK_SIZE];
        let read = match self.reader.as_mut() {
            Some(reader) => reader.read(&mut buffer).map_err(|e| e.to_string()),
            None => Err("the reader is not there".to_string()),
        };
        match on_read(&buffer, read) {
            ReaderStep::Emit(text) => {
                self.output.push_str(&text);
                true
            }
            ReaderStep::Stop => false,
        }
    }

    /// Lets the reader loop run until the output shows what is waited for.
    fn read_until(&mut self, shows: impl Fn(&str) -> bool) {
        while !shows(&self.output) {
            assert!(self.read_once(), "the stream ended with only {:?}", self.output);
        }
    }

    fn collect_exit(&mut self) -> Outcome {
        match self.latch.as_mut().and_then(|latch| latch.claim()) {
            Some(ticket) => {
                self.waits += 1;
                let waited = self.child.as_mut().unwrap().wait();
                self.latch.as_mut().unwrap().complete(ticket);
                report(waited).1
            }
            None => {
                assert!(self.latch.as_ref().unwrap().is_done());
                Outcome::Completed
            }
        }
    }

    fn perform(&mut self, action: Action) -> Outcome {
        self.actions.push(format!("{:?}", action));
        match action {
            Action::OpenPty { rows, cols } => {
                let opened = native_pty_system().openpty(size(rows, cols)).and_then(|pair| {
                    let reader = pair.master.try_clone_reader()?;
                    let writer = pair.master.take_writer()?;
                    Ok((pair, reader, writer))
                });
                let (opened, outcome) = report(opened);
                if let Some((pair, reader, writer)) = opened {
                    self.master = Some(pair.master);
                    self.slave = Some(pair.slave);
                    self.reader = Some(reader);
                    self.writer = Some(writer);
                }
                outcome
            }
            Action::SpawnShell { shell_path } => {
                let slave = self.slave.take().unwrap();
                let (child, outcome) = report(slave.spawn_command(CommandBuilder::new(shell_path)));
                if let Some(child) = child {
                    self.shells.push(child.process_id().unwrap());
                    self.killer = Some(child.clone_killer());
                    self.child = Some(child);
                    self.latch = Some(ReapLatch::new());
                    self.waits = 0;
                }
                outcome
            }
            Action::Write(text) => report(self.writer.as_mut().unwrap().write_all(text.as_bytes())).1,
            Action::StartReader => {
                assert!(!self.reading, "a second reader loop beside the first");
                self.reading = true;
                Outcome::Completed
            }
            Action::ApplySize { rows, cols } => {
                report(self.master.as_ref().unwrap().resize(size(rows, cols))).1
            }
            Action::SignalKill => report(self.killer.as_mut().unwrap().kill()).1,
            Action::CollectExit => self.collect_exit(),
            Action::RetireReader => {
                // the reader loop runs to its end and sees to the exit status
                while self.read_once() {}
                self.collect_exit();
                self.reading = false;
                Outcome::Completed
            }
            Action::ReleaseHandles => {
                assert_eq!(self.waits, 1, "the shell was waited for {} times", self.waits);
                self.master = None;
                self.slave = None;
                self.writer = None;
                self.reader = None;
                self.child = None;
                self.killer = None;
                self.latch = None;
                Outcome::Completed
            }
        }
    }

    fn run(&mut self, mut progress: Progress) -> Result<(), PtyError> {
        loop {
            match progress {
                Progress::Done(manager, result) => {
                    self.manager = Some(manager);
                    return result;
                }
                Progress::Pending(operation) => {
                    let outcome = self.perform(operation.action());
                    progress = operation.advance(outcome);
                }
            }
        }
    }

    fn spawn(&mut self, rows: u16, cols: u16, command: Option<&str>) -> Result<(), PtyError> {
        let manager = self.manager.take().unwrap();
        self.run(manager.spawn(rows, cols, command.map(str::to_string), "sh".to_string()))
    }

    fn write(&mut self, data: &str) -> Result<(), PtyError> {
        let manager = self.manager.take().unwrap();
        self.run(manager.write(data.to_string()))
    }

    fn resize(&mut self, rows: u16, cols: u16) -> Result<(), PtyError> {
        let manager = self.manager.take().unwrap();
        self.run(manager.resize(rows, cols))
    }

    fn kill(&mut self) -> Result<(), PtyError> {
        let manager = self.manager.take().unwrap();
        self.run(manager.kill())
    }

    fn child_exited(&mut self) -> Result<(), PtyError> {
        let manager = self.manager.take().unwrap();
        self.run(manager.child_exited())
    }

    fn status(&self) -> ManagerStatus {
        self.manager.as_ref().unwrap().status()
    }
}

fn count(text: &str, word: &str) -> usize {
    text.matches(word).count()
}

#[test]
fn live_spawn_says_hello_and_kill_ends_it() {
    let Some(mut host) = Host::new() else { return };
    host.spawn(24, 80, Some("echo hello")).unwrap();
    assert_eq!(host.status(), ManagerStatus::Running);
    // once for the command as the terminal echoes it, once for what it prints
    host.read_until(|output| count(output, "hello") >= 2);
    assert!(host.output.contains("hello"));
    let shell = host.shells[0];
    assert!(alive(shell));
    host.kill().unwrap();
    assert_eq!(host.status(), ManagerStatus::Idle);
    assert!(!alive(shell), "the shell was left behind");
    assert!(matches!(host.write("echo x"), Err(PtyError::NoActiveSession)));
    assert!(matches!(host.resize(10, 10), Err(PtyError::NoActiveSession)));
    host.kill().unwrap();
    assert_eq!(host.status(), ManagerStatus::Idle);
}

#[test]
fn live_echoes_come_back_in_order() {
    let Some(mut host) = Host::new() else { return };
    host.spawn(24, 80, None).unwrap();
    host.write("echo A\n").unwrap();
    host.write("echo B\n").unwrap();
    host.read_until(|output| count(output, "A") >= 2 && count(output, "B") >= 2);
    let a = host.output.find('A').unwrap();
    let b = host.output.find('B').unwrap();
    assert!(a < b, "B came before A in {:?}", host.output);
    let printed_a = host.output.rfind("A").unwrap();
    let printed_b = host.output.rfind("B").unwrap();
    assert!(printed_a < printed_b);
    host.kill().unwrap();
}

#[test]
fn live_respawn_leaves_one_shell() {
    let Some(mut host) = Host::new() else { return };
    host.spawn(24, 80, None).unwrap();
    host.spawn(30, 100, Some("echo again")).unwrap();
    assert_eq!(host.shells.len(), 2);
    let (first, second) = (host.shells[0], host.shells[1]);
    assert_ne!(first, second);
    assert!(!alive(first), "the first shell is still there");
    assert!(alive(second));
    assert_eq!(host.status(), ManagerStatus::Running);
    let started: Vec<usize> = host
        .actions
        .iter()
        .enumerate()
        .filter(|(_, a)| a.as_str() == "StartReader")
        .map(|(i, _)| i)
        .collect();
    let retired = host.actions.iter().position(|a| a == "RetireReader").unwrap();
    assert_eq!(started.len(), 2);
    assert!(started[0] < retired && retired < started[1]);
    host.output.clear();
    host.read_until(|output| count(output, "again") >= 2);
    host.kill().unwrap();
    assert!(!alive(second));
}

#[test]
fn live_resize_does_not_stop_the_output() {
    let Some(mut host) = Host::new() else { return };
    host.spawn(24, 80, None).unwrap();
    host.write("echo one\n").unwrap();
    host.resize(40, 120).unwrap();
    host.write("stty size\n").unwrap();
    host.read_until(|output| count(output, "one") >= 2 && output.contains("40 120"));
    assert_eq!(host.status(), ManagerStatus::Running);
    assert!(alive(host.shells[0]));
    host.resize(10, 20).unwrap();
    host.write("echo two\n").unwrap();
    host.read_until(|output| count(output, "two") >= 2);
    assert_eq!(host.manager.as_ref().unwrap().session().unwrap().dimensions.rows, 10);
    host.kill().unwrap();
}

#[test]
fn live_shell_that_leaves_is_given_up() {
    let Some(mut host) = Host::new() else { return };
    host.spawn(24, 80, None).unwrap();
    host.write("exit\n").unwrap();
    // the reader loop sees the stream end and reaps the shell
    while host.read_once() {}
    assert!(matches!(host.collect_exit(), Outcome::Completed));
    assert!(host.latch.as_ref().unwrap().is_done());
    assert!(!alive(host.shells[0]));
    host.child_exited().unwrap();
    assert_eq!(host.status(), ManagerStatus::Idle);
    assert!(matches!(host.write("echo x"), Err(PtyError::NoActiveSession)));
}
