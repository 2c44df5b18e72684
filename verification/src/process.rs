//! Starting, feeding and stopping the managed programs: the decisions between the steps that the
//! operating system performs.
use vstd::prelude::*;

use crate::service::ServiceKind;
use crate::text::{decimal, decimal_digits, texts};

verus! {

/// What identifies a running service. Another path makes another service.
#[derive(Debug, Hash)]
pub struct ServiceRecipe {
    pub kind: ServiceKind,
    pub path: String,
}

/// What a [`ServiceRecipe`] holds.
pub struct RecipeView {
    pub kind: ServiceKind,
    pub path: Seq<char>,
}

impl View for ServiceRecipe {
    type V = RecipeView;

    open spec fn view(&self) -> RecipeView {
        RecipeView { kind: self.kind, path: self.path@ }
    }
}

impl Clone for ServiceRecipe {
    fn clone(&self) -> (result: ServiceRecipe)
        ensures
            result@ == self@,
    {
        ServiceRecipe { kind: self.kind, path: self.path.clone() }
    }
}

/// What a page asks of the program in a terminal.
#[derive(Debug)]
pub enum TermCmd {
    /// Bytes to write to the program.
    Input(Vec<u8>),
    /// Rows and columns to give the terminal.
    Resize(u16, u16),
}

/// How long a service rests before it is started again, in milliseconds.
pub const RESTART_PAUSE_MS: u64 = 800;

/// How long the window must keep its size before the terminals are told, in milliseconds.
pub const RESIZE_PAUSE_MS: u64 = 200;

/// How many commands may wait for the program in a terminal.
pub const TERM_CMD_CHANNEL_CAP: usize = 512;

pub const MIN_ROWS: u16 = 10;

pub const MAX_ROWS: u16 = 60;

pub const MIN_COLS: u16 = 40;

pub const MAX_COLS: u16 = 240;

/// The value of the range that is closest to `n`.
pub open spec fn clamped(n: int, low: int, high: int) -> int {
    if n < low {
        low
    } else if n > high {
        high
    } else {
        n
    }
}

/// The size of a terminal in rows and columns, given how many of them fit into the window.
pub open spec fn grid_size(fit_rows: int, fit_cols: int) -> (u16, u16) {
    (
        clamped(fit_rows, MIN_ROWS as int, MAX_ROWS as int) as u16,
        clamped(fit_cols, MIN_COLS as int, MAX_COLS as int) as u16,
    )
}

fn clamp(n: i64, low: u16, high: u16) -> (result: u16)
    requires
        low <= high,
    ensures
        result == clamped(n as int, low as int, high as int),
{
    if n < low as i64 {
        low
    } else if n > high as i64 {
        high
    } else {
        n as u16
    }
}

/// The size of a terminal in rows and columns, given how many of them fit into the window.
pub fn grid_size_for_window(fit_rows: i64, fit_cols: i64) -> (result: (u16, u16))
    ensures
        result == grid_size(fit_rows as int, fit_cols as int),
{
    (clamp(fit_rows, MIN_ROWS, MAX_ROWS), clamp(fit_cols, MIN_COLS, MAX_COLS))
}

/// A path of one component on every platform: no separator and no drive.
pub open spec fn single_component(path: Seq<char>) -> bool {
    &&& path.len() > 0
    &&& !path.contains('/')
    &&& !path.contains('\\')
    &&& !path.contains(':')
}

/// What separates the components of a path on some platform.
pub open spec fn is_separator(c: char) -> bool {
    c == '/' || c == '\\'
}

/// A directory that every platform reads alike: at most one separator in front, and no separator,
/// dot or drive at the end.
pub open spec fn ordinary_dir(dir: Seq<char>) -> bool {
    &&& dir.len() > 0
    &&& !is_separator(dir.last())
    &&& dir.last() != '.'
    &&& dir.last() != ':'
    &&& dir.len() >= 2 ==> !(is_separator(dir[0]) && is_separator(dir[1]))
}

/// A path to a program in a directory, with a separator before the name that every platform knows.
pub open spec fn lies_in(path: Seq<char>, dir: Seq<char>, name: Seq<char>) -> bool {
    &&& path == dir.push('/') + name
    &&& single_component(name)
    &&& name != "."@
    &&& ordinary_dir(dir)
}

/// A path to a program in a directory for a platform whose separator is the backslash. Elsewhere
/// it is the name of a file.
pub open spec fn lies_in_behind_backslash(
    path: Seq<char>,
    dir: Seq<char>,
    name: Seq<char>,
) -> bool {
    &&& path == dir.push('\\') + name
    &&& !path.contains('/')
    &&& single_component(name)
    &&& name != "."@
    &&& ordinary_dir(dir)
}

/// A path to a program in the root directory of a drive, with the given separator and no other.
/// Where there are no drives, the drive is the name of a directory.
pub open spec fn lies_on_drive(
    path: Seq<char>,
    letter: char,
    separator: char,
    name: Seq<char>,
) -> bool {
    &&& path == seq![letter, ':', separator] + name
    &&& 'a' <= letter <= 'z' || 'A' <= letter <= 'Z'
    &&& is_separator(separator)
    &&& single_component(name)
    &&& name != "."@
}

/// A path to a program in the root directory.
pub open spec fn lies_in_root(path: Seq<char>, name: Seq<char>) -> bool {
    &&& path == seq!['/'] + name
    &&& single_component(name)
    &&& name != "."@
}

/// Calls `std::path::Path::parent`. Trusted: the empty path has no parent, a path of one
/// component has an empty one, a path to a program in a directory has the directory, and every
/// parent is the path cut short. Where the backslash is no separator, a path with no other
/// separator is one component. The root directory of a drive keeps its separator where there are
/// drives. What the parent is for a path without a separator behind the drive, for doubled
/// separators in front or at the end of the directory and for dots is not stated.
#[verifier::external_body]
fn path_parent(path: &str) -> (result: Option<String>)
    ensures
        path@.len() == 0 ==> result is None,
        single_component(path@) ==> result is Some && result->0@.len() == 0,
        forall|dir: Seq<char>, name: Seq<char>| #[trigger]
            lies_in(path@, dir, name) ==> result is Some && result->0@ == dir,
        forall|dir: Seq<char>, name: Seq<char>| #[trigger]
            lies_in_behind_backslash(path@, dir, name) ==> result is Some && (result->0@ == dir
                || result->0@.len() == 0),
        forall|letter: char, separator: char, name: Seq<char>| #[trigger]
            lies_on_drive(path@, letter, separator, name) ==> result is Some && (result->0@ == seq![
                letter,
                ':',
                separator,
            ] || result->0@ == if separator == '/' {
                seq![letter, ':']
            } else {
                Seq::empty()
            }),
        forall|name: Seq<char>| #[trigger]
            lies_in_root(path@, name) ==> result is Some && result->0@ == seq!['/'],
        result matches Some(parent) ==> parent@.len() < path@.len() && parent@ == path@.take(
            parent@.len() as int,
        ),
{
    let parent = std::path::Path::new(path).parent()?;
    Some(parent.to_string_lossy().into_owned())
}

/// The parent as a working directory: none if there is none or it is empty.
pub fn working_dir(parent: Option<String>) -> (result: Option<String>)
    ensures
        match parent {
            Some(dir) => if dir@.len() == 0 {
                result is None
            } else {
                result == Some(dir)
            },
            None => result is None,
        },
{
    match parent {
        Some(dir) => if dir.as_str().is_empty() {
            None
        } else {
            Some(dir)
        },
        None => None,
    }
}

/// The directory to start a program in, so that its relative paths are found: the one that holds
/// it, unless the path names no directory.
pub fn parent_dir(path: &str) -> (result: Option<String>)
    ensures
        path@.len() == 0 ==> result is None,
        single_component(path@) ==> result is None,
        forall|dir: Seq<char>, name: Seq<char>| #[trigger]
            lies_in(path@, dir, name) ==> result is Some && result->0@ == dir,
        forall|dir: Seq<char>, name: Seq<char>| #[trigger]
            lies_in_behind_backslash(path@, dir, name) ==> result is None || result->0@ == dir,
        forall|letter: char, separator: char, name: Seq<char>| #[trigger]
            lies_on_drive(path@, letter, separator, name) ==> if separator == '/' {
                result is Some && (result->0@ == seq![letter, ':', separator] || result->0@ == seq![
                    letter,
                    ':',
                ])
            } else {
                result is None || result->0@ == seq![letter, ':', separator]
            },
        forall|name: Seq<char>| #[trigger]
            lies_in_root(path@, name) ==> result is Some && result->0@ == seq!['/'],
        result matches Some(dir) ==> 0 < dir@.len() < path@.len() && dir@ == path@.take(
            dir@.len() as int,
        ),
{
    working_dir(path_parent(path))
}

/// The arguments that make `taskkill` end a process and all that it has started.
pub fn taskkill_args(pid: u32) -> (result: Vec<String>)
    ensures
        texts(result@) == seq!["/PID"@, decimal_digits(pid as nat), "/T"@, "/F"@],
{
    let mut args: Vec<String> = Vec::new();
    args.push("/PID".to_string());
    args.push(decimal(pid as u64));
    args.push("/T".to_string());
    args.push("/F".to_string());
    assert(texts(args@) =~= seq!["/PID"@, decimal_digits(pid as nat), "/T"@, "/F"@]);
    args
}

/// The steps of starting a service, in order.
#[derive(Debug, Clone, Copy, PartialEq, Eq, Structural)]
pub enum LaunchStep {
    OpenTerminal,
    Spawn,
    OpenReader,
    OpenWriter,
}

/// What to do after a step of starting a service.
#[derive(Debug)]
pub enum LaunchAction {
    /// Tie the process to the life of the launcher.
    BindToLauncher(u32),
    /// Tell the launcher that the service runs, with its process number.
    ReportStarted(u32),
    /// End the process.
    KillChild,
    /// Tell the launcher that the start failed, and why.
    ReportFailed(String),
    /// Perform the next step.
    Continue(LaunchStep),
    /// Connect the terminal to the page and serve it.
    Serve,
}

/// What a [`LaunchAction`] holds.
pub enum LaunchActionView {
    BindToLauncher(u32),
    ReportStarted(u32),
    KillChild,
    ReportFailed(Seq<char>),
    Continue(LaunchStep),
    Serve,
}

impl View for LaunchAction {
    type V = LaunchActionView;

    open spec fn view(&self) -> LaunchActionView {
        match self {
            LaunchAction::BindToLauncher(pid) => LaunchActionView::BindToLauncher(*pid),
            LaunchAction::ReportStarted(pid) => LaunchActionView::ReportStarted(*pid),
            LaunchAction::KillChild => LaunchActionView::KillChild,
            LaunchAction::ReportFailed(reason) => LaunchActionView::ReportFailed(reason@),
            LaunchAction::Continue(step) => LaunchActionView::Continue(*step),
            LaunchAction::Serve => LaunchActionView::Serve,
        }
    }
}

/// The actions of a list.
pub open spec fn launch_views(actions: Seq<LaunchAction>) -> Seq<LaunchActionView> {
    actions.map_values(|action: LaunchAction| action@)
}

/// What to do after a step that succeeded. Spawning may yield a process number; none counts as
/// zero, which stands for no process and is not bound.
pub open spec fn launch_progress(step: LaunchStep, pid: Option<u32>) -> Seq<LaunchActionView> {
    match step {
        LaunchStep::OpenTerminal => seq![LaunchActionView::Continue(LaunchStep::Spawn)],
        LaunchStep::Spawn => {
            let number = match pid {
                Some(number) => number,
                None => 0,
            };
            (if number != 0 {
                seq![LaunchActionView::BindToLauncher(number)]
            } else {
                Seq::empty()
            }) + seq![
                LaunchActionView::ReportStarted(number),
                LaunchActionView::Continue(LaunchStep::OpenReader),
            ]
        },
        LaunchStep::OpenReader => seq![LaunchActionView::Continue(LaunchStep::OpenWriter)],
        LaunchStep::OpenWriter => seq![LaunchActionView::Serve],
    }
}

/// What to do after a step that failed: report it, once the process is ended if there is one.
pub open spec fn launch_failure(step: LaunchStep, reason: Seq<char>) -> Seq<LaunchActionView> {
    match step {
        LaunchStep::OpenTerminal => seq![
            LaunchActionView::ReportFailed("创建伪终端失败: "@ + reason),
        ],
        LaunchStep::Spawn => seq![LaunchActionView::ReportFailed(reason)],
        LaunchStep::OpenReader => seq![
            LaunchActionView::KillChild,
            LaunchActionView::ReportFailed("读取伪终端失败: "@ + reason),
        ],
        LaunchStep::OpenWriter => seq![
            LaunchActionView::KillChild,
            LaunchActionView::ReportFailed("写入伪终端失败: "@ + reason),
        ],
    }
}

fn prefixed(prefix: &str, reason: &str) -> (result: String)
    ensures
        result@ == prefix@ + reason@,
{
    let mut message = prefix.to_string();
    message.append(reason);
    message
}

/// What to do after a step of starting a service, given how the step went.
pub fn launch_next(step: LaunchStep, outcome: Result<Option<u32>, String>) -> (result: Vec<
    LaunchAction,
>)
    ensures
        launch_views(result@) == (match outcome {
            Ok(pid) => launch_progress(step, pid),
            Err(reason) => launch_failure(step, reason@),
        }),
{
    let mut actions: Vec<LaunchAction> = Vec::new();
    match outcome {
        Ok(pid) => {
            match step {
                LaunchStep::OpenTerminal => {
                    actions.push(LaunchAction::Continue(LaunchStep::Spawn));
                },
                LaunchStep::Spawn => {
                    let number: u32 = match pid {
                        Some(number) => number,
                        None => 0,
                    };
                    if number != 0 {
                        actions.push(LaunchAction::BindToLauncher(number));
                    }
                    actions.push(LaunchAction::ReportStarted(number));
                    actions.push(LaunchAction::Continue(LaunchStep::OpenReader));
                },
                LaunchStep::OpenReader => {
                    actions.push(LaunchAction::Continue(LaunchStep::OpenWriter));
                },
                LaunchStep::OpenWriter => {
                    actions.push(LaunchAction::Serve);
                },
            }
            assert(launch_views(actions@) =~= launch_progress(step, pid));
        },
        Err(reason) => {
            match step {
                LaunchStep::OpenTerminal => {
                    actions.push(
                        LaunchAction::ReportFailed(
                            prefixed("创建伪终端失败: ", reason.as_str()),
                        ),
                    );
                },
                LaunchStep::Spawn => {
                    actions.push(LaunchAction::ReportFailed(reason));
                },
                LaunchStep::OpenReader => {
                    actions.push(LaunchAction::KillChild);
                    actions.push(
                        LaunchAction::ReportFailed(
                            prefixed("读取伪终端失败: ", reason.as_str()),
                        ),
                    );
                },
                LaunchStep::OpenWriter => {
                    actions.push(LaunchAction::KillChild);
                    actions.push(
                        LaunchAction::ReportFailed(
                            prefixed("写入伪终端失败: ", reason.as_str()),
                        ),
                    );
                },
            }
            assert(launch_views(actions@) =~= launch_failure(step, reason@));
        },
    }
    actions
}

/// What to do after a read of a program's output.
#[derive(Debug, Clone, Copy, PartialEq, Eq, Structural)]
pub enum ReaderAction {
    /// Feed that many bytes to the terminal and tell the page.
    Feed(usize),
    /// The output has ended: tell the launcher that the service has stopped.
    Finish,
}

/// What to do after a read of a program's output, given how many bytes it gave. A read of nothing
/// and a read that failed both end the output.
pub fn reader_next(read: Option<usize>) -> (result: ReaderAction)
    ensures
        match read {
            Some(n) => result == if n == 0 {
                ReaderAction::Finish
            } else {
                ReaderAction::Feed(n)
            },
            None => result == ReaderAction::Finish,
        },
{
    match read {
        Some(n) => if n == 0 {
            ReaderAction::Finish
        } else {
            ReaderAction::Feed(n)
        },
        None => ReaderAction::Finish,
    }
}

/// What the writing side of a terminal has just seen.
#[derive(Debug)]
pub enum WriterEvent {
    /// A command has come in.
    Received(TermCmd),
    /// No further command can come in.
    Closed,
    /// The bytes were written and flushed, or not.
    Written(bool),
    /// The page was told of a new size, or is gone.
    Notified(bool),
}

/// What the writing side of a terminal does next.
#[derive(Debug)]
pub enum WriterAction {
    /// Wait for a command.
    Receive,
    /// Write the bytes to the program.
    Write(Vec<u8>),
    /// Give the terminal that many rows and columns, and tell the page.
    Resize(u16, u16),
    /// End.
    Stop,
}

/// What the writing side of a terminal does next: it serves one command after the other until
/// none can come in or one cannot be served.
pub fn writer_next(event: WriterEvent) -> (result: WriterAction)
    ensures
        match event {
            WriterEvent::Received(TermCmd::Input(bytes)) => result == WriterAction::Write(bytes),
            WriterEvent::Received(TermCmd::Resize(rows, cols)) => result == WriterAction::Resize(
                rows,
                cols,
            ),
            WriterEvent::Closed => result == WriterAction::Stop,
            WriterEvent::Written(ok) => result == if ok {
                WriterAction::Receive
            } else {
                WriterAction::Stop
            },
            WriterEvent::Notified(ok) => result == if ok {
                WriterAction::Receive
            } else {
                WriterAction::Stop
            },
        },
{
    match event {
        WriterEvent::Received(TermCmd::Input(bytes)) => WriterAction::Write(bytes),
        WriterEvent::Received(TermCmd::Resize(rows, cols)) => WriterAction::Resize(rows, cols),
        WriterEvent::Closed => WriterAction::Stop,
        WriterEvent::Written(ok) | WriterEvent::Notified(ok) => if ok {
            WriterAction::Receive
        } else {
            WriterAction::Stop
        },
    }
}

/// How long to wait between two looks at a terminal whose program has ended, in milliseconds.
pub const DRAIN_POLL_MS: u64 = 100;

/// How many looks in a row must find the terminal unchanged.
pub const DRAIN_STABLE: u8 = 2;

/// How many looks there are at most.
pub const DRAIN_POLLS: u8 = 10;

/// Watches a terminal whose program has ended, until the last output has come through.
#[derive(Debug, Clone, Copy, PartialEq, Eq, Structural)]
pub struct Drain {
    pub last: u64,
    pub stable: u8,
    pub polls: u8,
}

impl Drain {
    /// The watch after a look that found the terminal at `version`.
    pub open spec fn looked(self, version: u64) -> Drain {
        Drain {
            last: version,
            stable: if version == self.last {
                (self.stable + 1) as u8
            } else {
                0
            },
            polls: (self.polls + 1) as u8,
        }
    }

    /// Whether the terminal can be closed.
    pub open spec fn over(self) -> bool {
        self.stable >= DRAIN_STABLE || self.polls >= DRAIN_POLLS
    }

    /// The watch after each of the looks.
    pub open spec fn after(self, versions: Seq<u64>) -> Drain
        decreases versions.len(),
    {
        if versions.len() == 0 {
            self
        } else {
            self.after(versions.drop_last()).looked(versions.last())
        }
    }

    /// Starts to watch a terminal that is at `version`.
    pub fn new(version: u64) -> (result: Drain)
        ensures
            result == (Drain { last: version, stable: 0, polls: 0 }),
    {
        Drain { last: version, stable: 0, polls: 0 }
    }

    /// Takes in another look, and tells whether the terminal can be closed.
    pub fn look(&mut self, version: u64) -> (result: bool)
        requires
            !old(self).over(),
        ensures
            *final(self) == old(self).looked(version),
            result == final(self).over(),
    {
        if version == self.last {
            self.stable = self.stable + 1;
        } else {
            self.stable = 0;
            self.last = version;
        }
        self.polls = self.polls + 1;
        self.stable >= DRAIN_STABLE || self.polls >= DRAIN_POLLS
    }
}

/// How an attempt to hand a message to the launcher went.
#[derive(Debug, Clone, Copy, PartialEq, Eq, Structural)]
pub enum Delivery {
    Sent,
    /// Too many messages are waiting.
    Full,
    /// The launcher no longer listens.
    Closed,
}

/// What to do after an attempt to hand a message to the launcher.
#[derive(Debug, Clone, Copy, PartialEq, Eq, Structural)]
pub enum DeliveryAction {
    Done,
    /// Wait that many milliseconds and try again.
    RetryAfter(u64),
    /// End the process, for nobody manages it any more.
    KillChild,
}

pub const FIRST_BACKOFF_MS: u64 = 10;

pub const MAX_BACKOFF_MS: u64 = 50;

/// The wait before the next attempt to hand over a message.
#[derive(Debug, Clone, Copy, PartialEq, Eq, Structural)]
pub struct Backoff {
    pub wait_ms: u64,
}

impl Backoff {
    /// Each wait is twice as long as the one before, up to the longest.
    pub open spec fn next_wait(self) -> int {
        clamped(2 * self.wait_ms, 0, MAX_BACKOFF_MS as int)
    }

    /// The wait lies between the first and the longest.
    pub open spec fn in_range(self) -> bool {
        FIRST_BACKOFF_MS <= self.wait_ms <= MAX_BACKOFF_MS
    }

    pub fn new() -> (result: Backoff)
        ensures
            result.wait_ms == FIRST_BACKOFF_MS,
            result.in_range(),
    {
        Backoff { wait_ms: FIRST_BACKOFF_MS }
    }

    /// What to do after an attempt to hand over a message.
    pub fn next(&mut self, delivery: Delivery) -> (result: DeliveryAction)
        requires
            old(self).in_range(),
        ensures
            final(self).in_range(),
            match delivery {
                Delivery::Sent => result == DeliveryAction::Done && *final(self) == *old(self),
                Delivery::Full => result == DeliveryAction::RetryAfter(old(self).wait_ms)
                    && final(self).wait_ms == old(self).next_wait(),
                Delivery::Closed => result == DeliveryAction::KillChild && *final(self) == *old(
                    self,
                ),
            },
    {
        match delivery {
            Delivery::Sent => DeliveryAction::Done,
            Delivery::Full => {
                let wait: u64 = self.wait_ms;
                self.wait_ms = if wait * 2 < MAX_BACKOFF_MS {
                    wait * 2
                } else {
                    MAX_BACKOFF_MS
                };
                DeliveryAction::RetryAfter(wait)
            },
            Delivery::Closed => DeliveryAction::KillChild,
        }
    }
}

/// Where MySQL listens.
pub const MYSQL_ADDRESS: &'static str = "127.0.0.1:3306";

/// How long one attempt to reach MySQL may take, in milliseconds.
pub const MYSQL_TIMEOUT_MS: u64 = 400;

/// How long to wait after a failed attempt, in milliseconds.
pub const MYSQL_PAUSE_MS: u64 = 250;

/// How many attempts to reach MySQL are made.
pub const MYSQL_ATTEMPTS: u32 = 120;

/// What the wait for MySQL has just seen.
#[derive(Debug, Clone, Copy, PartialEq, Eq, Structural)]
pub enum ProbeEvent {
    Begun,
    Connected,
    Failed,
    Paused,
}

/// What the wait for MySQL does next.
#[derive(Debug)]
pub enum ProbeAction {
    Connect,
    Pause,
    Ready,
    /// Give up, with the words to show.
    GiveUp(String),
}

/// The wait for MySQL, with the attempts made so far.
#[derive(Debug, Clone, Copy, PartialEq, Eq, Structural)]
pub struct MysqlProbe {
    pub attempts: u32,
}

impl MysqlProbe {
    pub fn new() -> (result: MysqlProbe)
        ensures
            result.attempts == 0,
    {
        MysqlProbe { attempts: 0 }
    }

    /// What the wait for MySQL does next: attempts with pauses between them, until one succeeds
    /// or all have been made.
    pub fn next(&mut self, event: ProbeEvent) -> (result: ProbeAction)
        requires
            old(self).attempts <= MYSQL_ATTEMPTS,
        ensures
            final(self).attempts <= MYSQL_ATTEMPTS,
            match event {
                ProbeEvent::Begun => result == ProbeAction::Connect && final(self).attempts == 1,
                ProbeEvent::Connected => result == ProbeAction::Ready && *final(self) == *old(self),
                ProbeEvent::Failed => result == ProbeAction::Pause && *final(self) == *old(self),
                ProbeEvent::Paused => if old(self).attempts < MYSQL_ATTEMPTS {
                    result == ProbeAction::Connect && final(self).attempts == old(self).attempts + 1
                } else {
                    *final(self) == *old(self) && (result matches ProbeAction::GiveUp(words)
                        && words@ == "MySQL 在 30 秒内未能监听 3306 端口，已放弃等待。"@)
                },
            },
    {
        match event {
            ProbeEvent::Begun => {
                self.attempts = 1;
                ProbeAction::Connect
            },
            ProbeEvent::Connected => ProbeAction::Ready,
            ProbeEvent::Failed => ProbeAction::Pause,
            ProbeEvent::Paused => if self.attempts < MYSQL_ATTEMPTS {
                self.attempts = self.attempts + 1;
                ProbeAction::Connect
            } else {
                ProbeAction::GiveUp(
                    "MySQL 在 30 秒内未能监听 3306 端口，已放弃等待。".to_string(),
                )
            },
        }
    }
}

/// A terminal is never smaller or larger than its limits, and keeps the size that fits within
/// them.
pub proof fn grid_size_is_within_limits(fit_rows: int, fit_cols: int)
    ensures
        MIN_ROWS <= grid_size(fit_rows, fit_cols).0 <= MAX_ROWS,
        MIN_COLS <= grid_size(fit_rows, fit_cols).1 <= MAX_COLS,
        MIN_ROWS <= fit_rows <= MAX_ROWS ==> grid_size(fit_rows, fit_cols).0 == fit_rows,
        MIN_COLS <= fit_cols <= MAX_COLS ==> grid_size(fit_rows, fit_cols).1 == fit_cols,
{
}

/// A failed start ends with one report, and ends the process exactly if it had been spawned.
pub proof fn failed_launch_reports_once(step: LaunchStep, reason: Seq<char>)
    ensures
        launch_failure(step, reason).len() > 0,
        launch_failure(step, reason).last() is ReportFailed,
        forall|i: int|
            0 <= i < launch_failure(step, reason).len() - 1 ==> #[trigger] launch_failure(
                step,
                reason,
            )[i] == LaunchActionView::KillChild,
        launch_failure(step, reason).contains(LaunchActionView::KillChild) <==> (step
            == LaunchStep::OpenReader || step == LaunchStep::OpenWriter),
{
    let actions = launch_failure(step, reason);
    if step == LaunchStep::OpenReader || step == LaunchStep::OpenWriter {
        assert(actions[0] == LaunchActionView::KillChild);
    }
}

/// The watch on an ended program's terminal is over after its last look at the latest.
pub proof fn drain_is_bounded(start: Drain, versions: Seq<u64>)
    requires
        start.stable == 0,
        start.polls == 0,
        versions.len() == DRAIN_POLLS,
    ensures
        start.after(versions).over(),
{
    lemma_drain_polls(start, versions);
}

proof fn lemma_drain_polls(start: Drain, versions: Seq<u64>)
    requires
        start.polls == 0,
        versions.len() <= DRAIN_POLLS,
    ensures
        start.after(versions).polls == versions.len(),
    decreases versions.len(),
{
    if versions.len() > 0 {
        lemma_drain_polls(start, versions.drop_last());
    }
}

/// Two looks in a row that find the terminal as it was end the watch.
pub proof fn drain_ends_when_quiet(watch: Drain, version: u64)
    requires
        !watch.over(),
    ensures
        watch.looked(version).looked(version).looked(version).over(),
        version == watch.last ==> watch.looked(version).looked(version).over(),
{
}

/// A launch whose steps all succeed goes through them in order, and reports the start once, right
/// after the process is spawned.
pub proof fn launch_goes_through_its_steps(pid: Option<u32>)
    ensures
        launch_progress(LaunchStep::OpenTerminal, None) == seq![
            LaunchActionView::Continue(LaunchStep::Spawn),
        ],
        launch_progress(LaunchStep::Spawn, pid).last() == LaunchActionView::Continue(
            LaunchStep::OpenReader,
        ),
        launch_progress(LaunchStep::OpenReader, None) == seq![
            LaunchActionView::Continue(LaunchStep::OpenWriter),
        ],
        launch_progress(LaunchStep::OpenWriter, None) == seq![LaunchActionView::Serve],
        exists|i: int|
            0 <= i < launch_progress(LaunchStep::Spawn, pid).len() && launch_progress(
                LaunchStep::Spawn,
                pid,
            )[i] is ReportStarted,
        forall|i: int, j: int|
            0 <= i < j < launch_progress(LaunchStep::Spawn, pid).len() && #[trigger] launch_progress(
                LaunchStep::Spawn,
                pid,
            )[i] is ReportStarted ==> !(#[trigger] launch_progress(LaunchStep::Spawn, pid)[j]
                is ReportStarted),
{
    let actions = launch_progress(LaunchStep::Spawn, pid);
    assert(actions[actions.len() - 2] is ReportStarted);
}

/// A terminal above its least size fits into the window, one below its greatest size could not be
/// larger and still fit, rows and columns grow with what fits, and neither depends on the other.
pub proof fn grid_size_is_the_largest_that_fits(
    fit_rows: int,
    fit_cols: int,
    more_rows: int,
    more_cols: int,
)
    requires
        fit_rows <= more_rows,
        fit_cols <= more_cols,
    ensures
        grid_size(fit_rows, fit_cols).0 > MIN_ROWS ==> grid_size(fit_rows, fit_cols).0 <= fit_rows,
        grid_size(fit_rows, fit_cols).1 > MIN_COLS ==> grid_size(fit_rows, fit_cols).1 <= fit_cols,
        grid_size(fit_rows, fit_cols).0 < MAX_ROWS ==> grid_size(fit_rows, fit_cols).0 + 1
            > fit_rows,
        grid_size(fit_rows, fit_cols).1 < MAX_COLS ==> grid_size(fit_rows, fit_cols).1 + 1
            > fit_cols,
        grid_size(fit_rows, fit_cols).0 <= grid_size(more_rows, more_cols).0,
        grid_size(fit_rows, fit_cols).1 <= grid_size(more_rows, more_cols).1,
        grid_size(fit_rows, fit_cols).0 == grid_size(fit_rows, more_cols).0,
        grid_size(fit_rows, fit_cols).1 == grid_size(more_rows, fit_cols).1,
{
}

/// A started process is reported with its number, and bound to the launcher before that. Without a
/// number, or with zero, it is reported as zero and not bound.
pub proof fn started_processes_are_reported_by_number(pid: Option<u32>)
    ensures
        ({
            let actions = launch_progress(LaunchStep::Spawn, pid);
            let next = LaunchActionView::Continue(LaunchStep::OpenReader);
            match pid {
                Some(number) if number != 0 => actions == seq![
                    LaunchActionView::BindToLauncher(number),
                    LaunchActionView::ReportStarted(number),
                    next,
                ],
                _ => actions == seq![LaunchActionView::ReportStarted(0), next],
            }
        }),
{
    let actions = launch_progress(LaunchStep::Spawn, pid);
    let next = LaunchActionView::Continue(LaunchStep::OpenReader);
    if pid is Some && pid->0 != 0 {
        assert(actions =~= seq![
            LaunchActionView::BindToLauncher(pid->0),
            LaunchActionView::ReportStarted(pid->0),
            next,
        ]);
    } else {
        assert(actions =~= seq![LaunchActionView::ReportStarted(0), next]);
    }
}

/// What is reported of a failed start ends in the reason that was given, after words that say at
/// which step it failed. The reason that the program could not be started stands by itself.
pub proof fn failed_launches_give_their_reason(step: LaunchStep, reason: Seq<char>)
    ensures
        launch_failure(step, reason).last() == LaunchActionView::ReportFailed(
            match step {
                LaunchStep::OpenTerminal => "创建伪终端失败: "@,
                LaunchStep::Spawn => Seq::empty(),
                LaunchStep::OpenReader => "读取伪终端失败: "@,
                LaunchStep::OpenWriter => "写入伪终端失败: "@,
            } + reason,
        ),
        launch_failure(step, reason).len() == if step == LaunchStep::OpenReader || step
            == LaunchStep::OpenWriter {
            2nat
        } else {
            1
        },
{
    assert(Seq::<char>::empty() + reason =~= reason);
}

/// A look that finds the terminal changed starts the count of quiet looks anew, and one that finds
/// it as it was adds to it. The watch goes on until two looks in a row were quiet or ten were made.
pub proof fn drains_wait_for_quiet(watch: Drain, version: u64)
    requires
        !watch.over(),
    ensures
        watch.stable < 2 && watch.polls < 10,
        ({
            let looked = watch.looked(version);
            &&& looked.last == version
            &&& looked.polls == watch.polls + 1
            &&& looked.stable == if version == watch.last {
                watch.stable + 1
            } else {
                0
            }
            &&& looked.over() <==> looked.stable >= 2 || looked.polls >= 10
        }),
{
}

/// The wait between two attempts doubles until it is as long as it gets.
pub proof fn waits_double(backoff: Backoff)
    requires
        backoff.in_range(),
    ensures
        10 <= backoff.wait_ms <= 50,
        2 * backoff.wait_ms <= 50 ==> backoff.next_wait() == 2 * backoff.wait_ms,
        2 * backoff.wait_ms > 50 ==> backoff.next_wait() == 50,
{
}

/// A program lies in the directory in front of the last separator of its path, drives and
/// backslashes in the directory included, as long as the directory does not begin with two
/// separators and does not end in one, in a dot or in a drive.
pub proof fn programs_lie_in_their_directory(dir: Seq<char>, name: Seq<char>, letter: char)
    requires
        dir.len() > 0,
        dir.last() != '/' && dir.last() != '\\' && dir.last() != '.' && dir.last() != ':',
        dir.len() >= 2 ==> !((dir[0] == '/' || dir[0] == '\\') && (dir[1] == '/' || dir[1]
            == '\\')),
        name.len() > 0,
        !name.contains('/') && !name.contains('\\') && !name.contains(':'),
        name != "."@,
    ensures
        lies_in(dir + seq!['/'] + name, dir, name),
        !dir.contains('/') ==> lies_in_behind_backslash(dir + seq!['\\'] + name, dir, name),
        lies_in_root(seq!['/'] + name, name),
        'a' <= letter <= 'z' || 'A' <= letter <= 'Z' ==> lies_on_drive(
            seq![letter, ':', '/'] + name,
            letter,
            '/',
            name,
        ) && lies_on_drive(seq![letter, ':', '\\'] + name, letter, '\\', name),
        single_component(name),
{
    assert(dir + seq!['/'] =~= dir.push('/'));
    assert(dir + seq!['\\'] =~= dir.push('\\'));
    let path = dir.push('\\') + name;
    if path.contains('/') && !dir.contains('/') {
        let i = choose|i: int| 0 <= i < path.len() && path[i] == '/';
        if i < dir.len() {
            assert(dir[i] == '/');
        } else if i > dir.len() {
            assert(name[i - dir.len() - 1] == '/');
        }
        assert(false);
    }
}

/// Every step but the spawning goes on in one way, whatever process there is: from the terminal to
/// the program, from reading its output to writing its input, and from there to serving it.
pub proof fn other_steps_only_go_on(pid: Option<u32>)
    ensures
        launch_progress(LaunchStep::OpenTerminal, pid) == seq![
            LaunchActionView::Continue(LaunchStep::Spawn),
        ],
        launch_progress(LaunchStep::OpenReader, pid) == seq![
            LaunchActionView::Continue(LaunchStep::OpenWriter),
        ],
        launch_progress(LaunchStep::OpenWriter, pid) == seq![LaunchActionView::Serve],
{
}

} // verus!
