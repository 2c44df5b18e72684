//! The programs that the launcher manages, and the states that they go through.
use vstd::prelude::*;

verus! {

/// The programs that the launcher knows.
#[derive(Debug, Clone, Copy, PartialEq, Eq, Hash, Structural)]
pub enum ServiceKind {
    Mysql,
    Auth,
    World,
    Client,
}

impl ServiceKind {
    /// Every program, in the order in which pages list them.
    pub const ALL: [ServiceKind; 4] = [
        ServiceKind::Mysql,
        ServiceKind::Auth,
        ServiceKind::World,
        ServiceKind::Client,
    ];

    /// The programs that run in the background and have a terminal page.
    pub const SERVICES: [ServiceKind; 3] = [
        ServiceKind::Mysql,
        ServiceKind::Auth,
        ServiceKind::World,
    ];

    /// The slot of this program in each per-program table.
    pub open spec fn slot(self) -> int {
        match self {
            ServiceKind::Mysql => 0,
            ServiceKind::Auth => 1,
            ServiceKind::World => 2,
            ServiceKind::Client => 3,
        }
    }

    /// Whether this is a background service: every program but the game client.
    pub open spec fn is_service(self) -> bool {
        self != ServiceKind::Client
    }

    /// The name that the launcher shows for this program.
    pub open spec fn label_text(self) -> Seq<char> {
        match self {
            ServiceKind::Mysql => "MySQL"@,
            ServiceKind::Auth => "Auth Server"@,
            ServiceKind::World => "World Server"@,
            ServiceKind::Client => "客户端"@,
        }
    }

    /// The hint shown in an empty path field.
    pub open spec fn placeholder_text(self) -> Seq<char> {
        match self {
            ServiceKind::Mysql => "mysqld.exe 完整路径"@,
            ServiceKind::Auth => "auth_server 可执行文件路径"@,
            ServiceKind::World => "world_server 可执行文件路径"@,
            ServiceKind::Client => "wow.exe 完户端路径"@,
        }
    }

    pub fn label(self) -> (result: &'static str)
        ensures
            result@ == self.label_text(),
    {
        match self {
            ServiceKind::Mysql => "MySQL",
            ServiceKind::Auth => "Auth Server",
            ServiceKind::World => "World Server",
            ServiceKind::Client => "客户端",
        }
    }

    pub fn index(self) -> (result: usize)
        ensures
            result == self.slot(),
            result < 4,
    {
        match self {
            ServiceKind::Mysql => 0,
            ServiceKind::Auth => 1,
            ServiceKind::World => 2,
            ServiceKind::Client => 3,
        }
    }

    pub fn placeholder(self) -> (result: &'static str)
        ensures
            result@ == self.placeholder_text(),
    {
        match self {
            ServiceKind::Mysql => "mysqld.exe 完整路径",
            ServiceKind::Auth => "auth_server 可执行文件路径",
            ServiceKind::World => "world_server 可执行文件路径",
            ServiceKind::Client => "wow.exe 完户端路径",
        }
    }
}

/// Where a program is in its life.
#[derive(Debug, Clone, Copy, PartialEq, Eq, Structural)]
pub enum Status {
    Stopped,
    Starting,
    Running,
    Stopping,
    Waiting,
    Error,
}

impl Status {
    /// A process exists or is on its way in or out.
    pub open spec fn operational(self) -> bool {
        self == Status::Starting || self == Status::Running || self == Status::Stopping
    }

    /// The words that the launcher shows for this state.
    pub open spec fn shown_text(self) -> Seq<char> {
        match self {
            Status::Stopped => "已停止"@,
            Status::Starting => "启动中…"@,
            Status::Running => "运行中"@,
            Status::Stopping => "停止中…"@,
            Status::Waiting => "等待 MySQL 启动…"@,
            Status::Error => "错误"@,
        }
    }

    pub fn text(self) -> (result: &'static str)
        ensures
            result@ == self.shown_text(),
    {
        match self {
            Status::Stopped => "已停止",
            Status::Starting => "启动中…",
            Status::Running => "运行中",
            Status::Stopping => "停止中…",
            Status::Waiting => "等待 MySQL 启动…",
            Status::Error => "错误",
        }
    }

    pub fn is_operational(self) -> (result: bool)
        ensures
            result == self.operational(),
    {
        matches!(self, Status::Starting | Status::Running | Status::Stopping)
    }
}

/// Each program has a place of its own among the four, and the game client the last.
pub proof fn programs_have_their_own_slots(a: ServiceKind, b: ServiceKind)
    ensures
        0 <= a.slot() < 4,
        a.slot() == b.slot() <==> a == b,
        ServiceKind::ALL@[a.slot()] == a,
        a != ServiceKind::Client ==> ServiceKind::SERVICES@[a.slot()] == a,
        a.is_service() <==> a != ServiceKind::Client,
        a.slot() == 3 <==> a == ServiceKind::Client,
{
}

/// A process exists, or is on its way in or out, exactly while a program starts, runs or stops.
pub proof fn operational_programs_start_run_or_stop(status: Status)
    ensures
        status.operational() <==> status == Status::Starting || status == Status::Running || status
            == Status::Stopping,
        !status.operational() <==> status == Status::Stopped || status == Status::Waiting || status
            == Status::Error,
{
}

/// No two programs have one name, and no two states are told by the same words.
pub proof fn names_and_words_are_distinct(a: ServiceKind, b: ServiceKind, s: Status, t: Status)
    ensures
        a.label_text() == b.label_text() <==> a == b,
        a.placeholder_text() == b.placeholder_text() <==> a == b,
        s.shown_text() == t.shown_text() <==> s == t,
{
    reveal_strlit("MySQL");
    reveal_strlit("Auth Server");
    reveal_strlit("World Server");
    reveal_strlit("客户端");
    reveal_strlit("mysqld.exe 完整路径");
    reveal_strlit("auth_server 可执行文件路径");
    reveal_strlit("world_server 可执行文件路径");
    reveal_strlit("wow.exe 完户端路径");
    reveal_strlit("已停止");
    reveal_strlit("启动中…");
    reveal_strlit("运行中");
    reveal_strlit("停止中…");
    reveal_strlit("等待 MySQL 启动…");
    reveal_strlit("错误");
    if a != b {
        assert(a.label_text().len() != b.label_text().len() || a.label_text()[0]
            != b.label_text()[0]);
        assert(a.placeholder_text().len() != b.placeholder_text().len() || a.placeholder_text()[0]
            != b.placeholder_text()[0]);
    }
    if s != t {
        assert(s.shown_text().len() != t.shown_text().len() || s.shown_text()[0]
            != t.shown_text()[0]);
    }
}

} // verus!
