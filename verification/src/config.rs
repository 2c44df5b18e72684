//! The paths of the managed programs, as the user sets and saves them.
use vstd::prelude::*;

use crate::service::ServiceKind;
use crate::text::{blank, is_blank, is_white_space};

verus! {

/// The file beside the launcher that holds the saved paths.
pub const FILE_NAME: &'static str = "wow_launcher.json";

/// One path per program. An empty path means that none is set.
#[derive(Debug)]
pub struct Config {
    pub mysql_path: String,
    pub auth_path: String,
    pub world_path: String,
    pub client_path: String,
}

/// What a [`Config`] holds.
pub struct ConfigView {
    pub mysql_path: Seq<char>,
    pub auth_path: Seq<char>,
    pub world_path: Seq<char>,
    pub client_path: Seq<char>,
}

impl ConfigView {
    /// The configuration in which no path is set.
    pub open spec fn unset() -> ConfigView {
        ConfigView {
            mysql_path: Seq::empty(),
            auth_path: Seq::empty(),
            world_path: Seq::empty(),
            client_path: Seq::empty(),
        }
    }

    /// The path of `kind`.
    pub open spec fn path(self, kind: ServiceKind) -> Seq<char> {
        match kind {
            ServiceKind::Mysql => self.mysql_path,
            ServiceKind::Auth => self.auth_path,
            ServiceKind::World => self.world_path,
            ServiceKind::Client => self.client_path,
        }
    }

    /// Whether `kind` has a path that is more than white space.
    pub open spec fn has_path(self, kind: ServiceKind) -> bool {
        !is_blank(self.path(kind))
    }

    /// This configuration with another path for `kind`.
    pub open spec fn with_path(self, kind: ServiceKind, path: Seq<char>) -> ConfigView {
        match kind {
            ServiceKind::Mysql => ConfigView { mysql_path: path, ..self },
            ServiceKind::Auth => ConfigView { auth_path: path, ..self },
            ServiceKind::World => ConfigView { world_path: path, ..self },
            ServiceKind::Client => ConfigView { client_path: path, ..self },
        }
    }

    /// The first program of the list, in its order, that has no path.
    pub open spec fn first_unset(self, kinds: Seq<ServiceKind>) -> Option<ServiceKind>
        decreases kinds.len(),
    {
        if kinds.len() == 0 {
            None
        } else if !self.has_path(kinds[0]) {
            Some(kinds[0])
        } else {
            self.first_unset(kinds.drop_first())
        }
    }

    /// How many programs of the list have a path.
    pub open spec fn count_set(self, kinds: Seq<ServiceKind>) -> nat
        decreases kinds.len(),
    {
        if kinds.len() == 0 {
            0
        } else {
            self.count_set(kinds.drop_last()) + if self.has_path(kinds.last()) {
                1nat
            } else {
                0nat
            }
        }
    }
}

impl View for Config {
    type V = ConfigView;

    open spec fn view(&self) -> ConfigView {
        ConfigView {
            mysql_path: self.mysql_path@,
            auth_path: self.auth_path@,
            world_path: self.world_path@,
            client_path: self.client_path@,
        }
    }
}

impl Default for Config {
    fn default() -> (result: Config)
        ensures
            result@ == ConfigView::unset(),
    {
        Config {
            mysql_path: String::new(),
            auth_path: String::new(),
            world_path: String::new(),
            client_path: String::new(),
        }
    }
}

impl Clone for Config {
    fn clone(&self) -> (result: Config)
        ensures
            result@ == self@,
    {
        Config {
            mysql_path: self.mysql_path.clone(),
            auth_path: self.auth_path.clone(),
            world_path: self.world_path.clone(),
            client_path: self.client_path.clone(),
        }
    }
}

impl Config {
    /// Whether a path is set for `kind`. White space alone does not count as a path.
    pub fn path_set(&self, kind: ServiceKind) -> (result: bool)
        ensures
            result == self@.has_path(kind),
    {
        !blank(self.path_for(kind))
    }

    /// The path of `kind`, as it was typed.
    pub fn path_for(&self, kind: ServiceKind) -> (result: &str)
        ensures
            result@ == self@.path(kind),
    {
        match kind {
            ServiceKind::Mysql => self.mysql_path.as_str(),
            ServiceKind::Auth => self.auth_path.as_str(),
            ServiceKind::World => self.world_path.as_str(),
            ServiceKind::Client => self.client_path.as_str(),
        }
    }

    pub fn set_path(&mut self, kind: ServiceKind, value: String)
        ensures
            final(self)@ == old(self)@.with_path(kind, value@),
    {
        match kind {
            ServiceKind::Mysql => {
                self.mysql_path = value;
            },
            ServiceKind::Auth => {
                self.auth_path = value;
            },
            ServiceKind::World => {
                self.world_path = value;
            },
            ServiceKind::Client => {
                self.client_path = value;
            },
        }
    }

    /// Whether the two configurations give `kind` the same path.
    pub fn same_path(&self, other: &Config, kind: ServiceKind) -> (result: bool)
        ensures
            result == (self@.path(kind) == other@.path(kind)),
    {
        match kind {
            ServiceKind::Mysql => self.mysql_path == other.mysql_path,
            ServiceKind::Auth => self.auth_path == other.auth_path,
            ServiceKind::World => self.world_path == other.world_path,
            ServiceKind::Client => self.client_path == other.client_path,
        }
    }

    /// Succeeds if every program has a path, and names the first one without a path if not.
    pub fn validate_all(&self) -> (result: Result<(), String>)
        ensures
            match (result, self@.first_unset(ServiceKind::ALL@)) {
                (Ok(_), None) => true,
                (Err(message), Some(kind)) => message@ == kind.label_text()
                    + " 未配置: 请为当前应用设置启动路径。"@,
                _ => false,
            },
    {
        let mut i: usize = 0;
        assert(ServiceKind::ALL@.skip(0) =~= ServiceKind::ALL@);
        while i < 4
            invariant
                i <= 4,
                self@.first_unset(ServiceKind::ALL@) == self@.first_unset(
                    ServiceKind::ALL@.skip(i as int),
                ),
            decreases 4 - i,
        {
            let kind = ServiceKind::ALL[i];
            if blank(self.path_for(kind)) {
                let mut message = kind.label().to_string();
                message.append(" 未配置: 请为当前应用设置启动路径。");
                return Err(message);
            }
            assert(ServiceKind::ALL@.skip(i as int).drop_first() =~= ServiceKind::ALL@.skip(i + 1));
            i += 1;
        }
        Ok(())
    }

    /// The first background service without a path, in start order.
    pub fn first_unset_service(&self) -> (result: Option<ServiceKind>)
        ensures
            result == self@.first_unset(ServiceKind::SERVICES@),
    {
        let mut i: usize = 0;
        assert(ServiceKind::SERVICES@.skip(0) =~= ServiceKind::SERVICES@);
        while i < 3
            invariant
                i <= 3,
                self@.first_unset(ServiceKind::SERVICES@) == self@.first_unset(
                    ServiceKind::SERVICES@.skip(i as int),
                ),
            decreases 3 - i,
        {
            let kind = ServiceKind::SERVICES[i];
            if !self.path_set(kind) {
                return Some(kind);
            }
            assert(ServiceKind::SERVICES@.skip(i as int).drop_first()
                =~= ServiceKind::SERVICES@.skip(i + 1));
            i += 1;
        }
        None
    }

    /// How many programs have a path.
    pub fn set_count(&self) -> (result: u32)
        ensures
            result == self@.count_set(ServiceKind::ALL@),
            result <= 4,
    {
        let mut count: u32 = 0;
        let mut i: usize = 0;
        while i < 4
            invariant
                i <= 4,
                count <= i,
                count == self@.count_set(ServiceKind::ALL@.take(i as int)),
            decreases 4 - i,
        {
            assert(ServiceKind::ALL@.take(i + 1).drop_last() =~= ServiceKind::ALL@.take(i as int));
            if self.path_set(ServiceKind::ALL[i]) {
                count += 1;
            }
            i += 1;
        }
        assert(ServiceKind::ALL@.take(4) =~= ServiceKind::ALL@);
        count
    }
}

/// What was found where the saved paths should be.
#[derive(Debug)]
pub enum Stored {
    /// No launcher directory, or no file in it.
    Missing,
    /// The file is there and reading it failed, for the reason given.
    Unreadable(String),
    /// The file was read and holds no configuration.
    Malformed,
    /// The configuration that the file holds.
    Parsed(Config),
}

/// The paths to start with, and a line to report if reading failed. Whatever goes wrong, the
/// launcher starts with no path set.
pub fn load(stored: Stored) -> (result: (Config, Option<String>))
    ensures
        match stored {
            Stored::Parsed(config) => result.0@ == config@ && result.1 is None,
            Stored::Unreadable(reason) => result.0@ == ConfigView::unset() && (result.1 matches Some(
                line,
            ) && line@ == "读取配置失败: "@ + reason@),
            _ => result.0@ == ConfigView::unset() && result.1 is None,
        },
{
    match stored {
        Stored::Parsed(config) => (config, None),
        Stored::Unreadable(reason) => {
            let mut line = "读取配置失败: ".to_string();
            line.append(reason.as_str());
            (Config::default(), Some(line))
        },
        Stored::Missing => (Config::default(), None),
        Stored::Malformed => (Config::default(), None),
    }
}

/// Why the paths could not be saved.
#[derive(Debug)]
pub enum SaveFault {
    /// The launcher's own directory is unknown.
    NoDirectory,
    /// The paths could not be written as text, for the reason given.
    Encoding(String),
    /// The file could not be written, for the reason given.
    Writing(String),
}

impl SaveFault {
    /// What the settings page says about this fault.
    pub open spec fn shown_text(self) -> Seq<char> {
        match self {
            SaveFault::NoDirectory => "无法定位启动器目录"@,
            SaveFault::Encoding(reason) => reason@,
            SaveFault::Writing(reason) => "写入配置失败: "@ + reason@,
        }
    }
}

/// The answer to an attempt to save the paths: success, or the words to show.
pub fn save(outcome: Result<(), SaveFault>) -> (result: Result<(), String>)
    ensures
        match outcome {
            Ok(_) => result is Ok,
            Err(fault) => result matches Err(message) && message@ == fault.shown_text(),
        },
{
    match outcome {
        Ok(()) => Ok(()),
        Err(SaveFault::NoDirectory) => Err("无法定位启动器目录".to_string()),
        Err(SaveFault::Encoding(reason)) => Err(reason),
        Err(SaveFault::Writing(reason)) => {
            let mut message = "写入配置失败: ".to_string();
            message.append(reason.as_str());
            Err(message)
        },
    }
}

/// Reading a path back gives what was set, and setting one path leaves the others alone.
pub proof fn set_path_round_trip(
    config: ConfigView,
    kind: ServiceKind,
    path: Seq<char>,
    other: ServiceKind,
)
    ensures
        config.with_path(kind, path).path(kind) == path,
        other != kind ==> config.with_path(kind, path).path(other) == config.path(other),
{
}

/// A list has no unset program exactly if every program of it has a path.
pub proof fn first_unset_is_none_iff_all_set(config: ConfigView, kinds: Seq<ServiceKind>)
    ensures
        config.first_unset(kinds) is None <==> (forall|i: int|
            0 <= i < kinds.len() ==> config.has_path(#[trigger] kinds[i])),
        config.first_unset(kinds) matches Some(kind) ==> !config.has_path(kind) && kinds.contains(
            kind,
        ),
    decreases kinds.len(),
{
    if kinds.len() > 0 {
        let rest = kinds.drop_first();
        first_unset_is_none_iff_all_set(config, rest);
        if config.has_path(kinds[0]) {
            assert forall|i: int| 0 <= i < kinds.len() && config.first_unset(kinds) is None implies config.has_path(
                #[trigger] kinds[i],
            ) by {
                if i > 0 {
                    assert(rest[i - 1] == kinds[i]);
                }
            }
            assert(forall|i: int| 0 <= i < rest.len() ==> rest[i] == kinds[i + 1]);
            if config.first_unset(kinds) is Some {
                let kind = config.first_unset(kinds)->0;
                let j = choose|j: int| 0 <= j < rest.len() && rest[j] == kind;
                assert(kinds[j + 1] == kind);
            }
        } else {
            assert(kinds[0] == kinds[0]);
            assert(kinds.contains(kinds[0]));
        }
    }
}

/// The first program without a path has none, and every program before it in the list has one.
pub proof fn first_unset_is_the_first(config: ConfigView, kinds: Seq<ServiceKind>) -> (at: int)
    requires
        config.first_unset(kinds) is Some,
    ensures
        0 <= at < kinds.len(),
        config.first_unset(kinds) == Some(kinds[at]),
        !config.has_path(kinds[at]),
        forall|i: int| 0 <= i < at ==> config.has_path(#[trigger] kinds[i]),
    decreases kinds.len(),
{
    if !config.has_path(kinds[0]) {
        0
    } else {
        let rest = kinds.drop_first();
        let at = first_unset_is_the_first(config, rest) + 1;
        assert(rest[at - 1] == kinds[at]);
        assert forall|i: int| 0 <= i < at implies config.has_path(#[trigger] kinds[i]) by {
            if i > 0 {
                assert(rest[i - 1] == kinds[i]);
            }
        }
        at
    }
}

/// Each program has its own path, and has one exactly if there is something in it but white space.
pub proof fn programs_have_their_own_paths(config: ConfigView, kind: ServiceKind)
    ensures
        config.path(ServiceKind::Mysql) == config.mysql_path,
        config.path(ServiceKind::Auth) == config.auth_path,
        config.path(ServiceKind::World) == config.world_path,
        config.path(ServiceKind::Client) == config.client_path,
        config.has_path(kind) <==> exists|i: int|
            0 <= i < config.path(kind).len() && !is_white_space(#[trigger] config.path(kind)[i]),
        ConfigView::unset().path(kind).len() == 0,
        !ConfigView::unset().has_path(kind),
{
}

/// How many of the four programs have a path: one for each that does.
pub proof fn set_paths_are_counted_one_by_one(config: ConfigView)
    ensures
        config.count_set(ServiceKind::ALL@) == (if config.has_path(ServiceKind::Mysql) {
            1nat
        } else {
            0
        }) + (if config.has_path(ServiceKind::Auth) {
            1nat
        } else {
            0
        }) + (if config.has_path(ServiceKind::World) {
            1nat
        } else {
            0
        }) + (if config.has_path(ServiceKind::Client) {
            1nat
        } else {
            0
        }),
{
    let all = ServiceKind::ALL@;
    assert(all.drop_last().drop_last().drop_last().drop_last() =~= Seq::empty());
    assert(all.drop_last().drop_last().drop_last().last() == ServiceKind::Mysql);
    assert(all.drop_last().drop_last().last() == ServiceKind::Auth);
    assert(all.drop_last().last() == ServiceKind::World);
    assert(all.last() == ServiceKind::Client);
    reveal_with_fuel(ConfigView::count_set, 5);
}

/// Whatever went wrong with saving, the words for it end in the reason that was given.
pub proof fn save_faults_give_their_reason(fault: SaveFault)
    ensures
        match fault {
            SaveFault::NoDirectory => fault.shown_text() == "无法定位启动器目录"@,
            SaveFault::Encoding(reason) => fault.shown_text() == reason@,
            SaveFault::Writing(reason) => fault.shown_text() == "写入配置失败: "@ + reason@,
        },
{
}

} // verus!
