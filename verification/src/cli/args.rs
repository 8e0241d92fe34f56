//! The commands and arguments of the command line, as plain values.
//!
//! Asset, dictionary and log operations are action-first commands with a
//! `--type` noun: `watcher add|import|export|query|delete|unmark|rename|clear
//! --type <noun> ...`; the daemon and batch tasks have their own lifecycle
//! subcommands.

use vstd::prelude::*;

verus! {

/// Every noun a command can act on.
#[derive(Debug, Clone, Copy, PartialEq, Eq, Structural)]
pub enum TargetKind {
    Url,
    Port,
    Ip,
    Name,
    System,
    Path,
    Log,
    Excel,
}

/// The name of a noun as the command line spells it.
pub open spec fn kind_name(kind: TargetKind) -> Seq<char> {
    match kind {
        TargetKind::Url => "url"@,
        TargetKind::Port => "port"@,
        TargetKind::Ip => "ip"@,
        TargetKind::Name => "name"@,
        TargetKind::System => "system"@,
        TargetKind::Path => "path"@,
        TargetKind::Log => "log"@,
        TargetKind::Excel => "excel"@,
    }
}

impl TargetKind {
    /// The name of the noun as the command line spells it.
    pub fn as_str(self) -> (s: &'static str)
        ensures
            s@ == kind_name(self),
    {
        match self {
            TargetKind::Url => "url",
            TargetKind::Port => "port",
            TargetKind::Ip => "ip",
            TargetKind::Name => "name",
            TargetKind::System => "system",
            TargetKind::Path => "path",
            TargetKind::Log => "log",
            TargetKind::Excel => "excel",
        }
    }

    /// Whether the noun is a monitored asset: a URL, port, IP or name.
    pub fn is_asset(self) -> (b: bool)
        ensures
            b == (self is Url || self is Port || self is Ip || self is Name),
    {
        match self {
            TargetKind::Url | TargetKind::Port | TargetKind::Ip | TargetKind::Name => true,
            _ => false,
        }
    }
}
/// What `add` can create.
#[derive(Debug, Clone, Copy, PartialEq, Eq, Structural)]
pub enum AddTarget {
    Url,
    Port,
    Ip,
    Name,
    System,
}

/// The noun of a AddTarget.
pub open spec fn add_target_kind(value: AddTarget) -> TargetKind {
    match value {
        AddTarget::Url => TargetKind::Url,
        AddTarget::Port => TargetKind::Port,
        AddTarget::Ip => TargetKind::Ip,
        AddTarget::Name => TargetKind::Name,
        AddTarget::System => TargetKind::System,
    }
}

impl From<AddTarget> for TargetKind {
    fn from(value: AddTarget) -> (kind: Self) {
        match value {
            AddTarget::Url => TargetKind::Url,
            AddTarget::Port => TargetKind::Port,
            AddTarget::Ip => TargetKind::Ip,
            AddTarget::Name => TargetKind::Name,
            AddTarget::System => TargetKind::System,
        }
    }
}

impl vstd::std_specs::convert::FromSpecImpl<AddTarget> for TargetKind {
    open spec fn obeys_from_spec() -> bool {
        true
    }

    open spec fn from_spec(value: AddTarget) -> Self {
        add_target_kind(value)
    }
}

/// What `import` can read from a file.
#[derive(Debug, Clone, Copy, PartialEq, Eq, Structural)]
pub enum ImportTarget {
    Url,
    Port,
    Ip,
    Name,
    Excel,
    Path,
}

/// The noun of a ImportTarget.
pub open spec fn import_target_kind(value: ImportTarget) -> TargetKind {
    match value {
        ImportTarget::Url => TargetKind::Url,
        ImportTarget::Port => TargetKind::Port,
        ImportTarget::Ip => TargetKind::Ip,
        ImportTarget::Name => TargetKind::Name,
        ImportTarget::Excel => TargetKind::Excel,
        ImportTarget::Path => TargetKind::Path,
    }
}

impl From<ImportTarget> for TargetKind {
    fn from(value: ImportTarget) -> (kind: Self) {
        match value {
            ImportTarget::Url => TargetKind::Url,
            ImportTarget::Port => TargetKind::Port,
            ImportTarget::Ip => TargetKind::Ip,
            ImportTarget::Name => TargetKind::Name,
            ImportTarget::Excel => TargetKind::Excel,
            ImportTarget::Path => TargetKind::Path,
        }
    }
}

impl vstd::std_specs::convert::FromSpecImpl<ImportTarget> for TargetKind {
    open spec fn obeys_from_spec() -> bool {
        true
    }

    open spec fn from_spec(value: ImportTarget) -> Self {
        import_target_kind(value)
    }
}

/// What `export` and `query` can list.
#[derive(Debug, Clone, Copy, PartialEq, Eq, Structural)]
pub enum InspectTarget {
    Url,
    Port,
    Ip,
    Name,
    System,
    Path,
    Log,
}

/// The noun of a InspectTarget.
pub open spec fn inspect_target_kind(value: InspectTarget) -> TargetKind {
    match value {
        InspectTarget::Url => TargetKind::Url,
        InspectTarget::Port => TargetKind::Port,
        InspectTarget::Ip => TargetKind::Ip,
        InspectTarget::Name => TargetKind::Name,
        InspectTarget::System => TargetKind::System,
        InspectTarget::Path => TargetKind::Path,
        InspectTarget::Log => TargetKind::Log,
    }
}

impl From<InspectTarget> for TargetKind {
    fn from(value: InspectTarget) -> (kind: Self) {
        match value {
            InspectTarget::Url => TargetKind::Url,
            InspectTarget::Port => TargetKind::Port,
            InspectTarget::Ip => TargetKind::Ip,
            InspectTarget::Name => TargetKind::Name,
            InspectTarget::System => TargetKind::System,
            InspectTarget::Path => TargetKind::Path,
            InspectTarget::Log => TargetKind::Log,
        }
    }
}

impl vstd::std_specs::convert::FromSpecImpl<InspectTarget> for TargetKind {
    open spec fn obeys_from_spec() -> bool {
        true
    }

    open spec fn from_spec(value: InspectTarget) -> Self {
        inspect_target_kind(value)
    }
}

/// What `delete` can remove.
#[derive(Debug, Clone, Copy, PartialEq, Eq, Structural)]
pub enum DeleteTarget {
    Url,
    Port,
    Ip,
    Name,
    System,
    Path,
}

/// The noun of a DeleteTarget.
pub open spec fn delete_target_kind(value: DeleteTarget) -> TargetKind {
    match value {
        DeleteTarget::Url => TargetKind::Url,
        DeleteTarget::Port => TargetKind::Port,
        DeleteTarget::Ip => TargetKind::Ip,
        DeleteTarget::Name => TargetKind::Name,
        DeleteTarget::System => TargetKind::System,
        DeleteTarget::Path => TargetKind::Path,
    }
}

impl From<DeleteTarget> for TargetKind {
    fn from(value: DeleteTarget) -> (kind: Self) {
        match value {
            DeleteTarget::Url => TargetKind::Url,
            DeleteTarget::Port => TargetKind::Port,
            DeleteTarget::Ip => TargetKind::Ip,
            DeleteTarget::Name => TargetKind::Name,
            DeleteTarget::System => TargetKind::System,
            DeleteTarget::Path => TargetKind::Path,
        }
    }
}

impl vstd::std_specs::convert::FromSpecImpl<DeleteTarget> for TargetKind {
    open spec fn obeys_from_spec() -> bool {
        true
    }

    open spec fn from_spec(value: DeleteTarget) -> Self {
        delete_target_kind(value)
    }
}

/// What `unmark` can take out of the baseline.
#[derive(Debug, Clone, Copy, PartialEq, Eq, Structural)]
pub enum UnmarkTarget {
    Url,
    Port,
    Ip,
    Name,
}

/// The noun of a UnmarkTarget.
pub open spec fn unmark_target_kind(value: UnmarkTarget) -> TargetKind {
    match value {
        UnmarkTarget::Url => TargetKind::Url,
        UnmarkTarget::Port => TargetKind::Port,
        UnmarkTarget::Ip => TargetKind::Ip,
        UnmarkTarget::Name => TargetKind::Name,
    }
}

impl From<UnmarkTarget> for TargetKind {
    fn from(value: UnmarkTarget) -> (kind: Self) {
        match value {
            UnmarkTarget::Url => TargetKind::Url,
            UnmarkTarget::Port => TargetKind::Port,
            UnmarkTarget::Ip => TargetKind::Ip,
            UnmarkTarget::Name => TargetKind::Name,
        }
    }
}

impl vstd::std_specs::convert::FromSpecImpl<UnmarkTarget> for TargetKind {
    open spec fn obeys_from_spec() -> bool {
        true
    }

    open spec fn from_spec(value: UnmarkTarget) -> Self {
        unmark_target_kind(value)
    }
}

/// What `rename` can rename.
#[derive(Debug, Clone, Copy, PartialEq, Eq, Structural)]
pub enum RenameTarget {
    System,
}

/// The noun of a RenameTarget.
pub open spec fn rename_target_kind(value: RenameTarget) -> TargetKind {
    match value {
        RenameTarget::System => TargetKind::System,
    }
}

impl From<RenameTarget> for TargetKind {
    fn from(value: RenameTarget) -> (kind: Self) {
        match value {
            RenameTarget::System => TargetKind::System,
        }
    }
}

impl vstd::std_specs::convert::FromSpecImpl<RenameTarget> for TargetKind {
    open spec fn obeys_from_spec() -> bool {
        true
    }

    open spec fn from_spec(value: RenameTarget) -> Self {
        rename_target_kind(value)
    }
}

/// What `clear` can empty.
#[derive(Debug, Clone, Copy, PartialEq, Eq, Structural)]
pub enum ClearTarget {
    Log,
}

/// The noun of a ClearTarget.
pub open spec fn clear_target_kind(value: ClearTarget) -> TargetKind {
    match value {
        ClearTarget::Log => TargetKind::Log,
    }
}

impl From<ClearTarget> for TargetKind {
    fn from(value: ClearTarget) -> (kind: Self) {
        match value {
            ClearTarget::Log => TargetKind::Log,
        }
    }
}

impl vstd::std_specs::convert::FromSpecImpl<ClearTarget> for TargetKind {
    open spec fn obeys_from_spec() -> bool {
        true
    }

    open spec fn from_spec(value: ClearTarget) -> Self {
        clear_target_kind(value)
    }
}

/// A log level filter.
#[derive(Debug, Clone, Copy, PartialEq, Eq, Structural)]
pub enum LogLevelArg {
    Error,
    Warn,
    Info,
    Debug,
    Trace,
}

/// The level as log records store it.
pub open spec fn db_level(level: LogLevelArg) -> Seq<char> {
    match level {
        LogLevelArg::Error => "ERROR"@,
        LogLevelArg::Warn => "WARN"@,
        LogLevelArg::Info => "INFO"@,
        LogLevelArg::Debug => "DEBUG"@,
        LogLevelArg::Trace => "TRACE"@,
    }
}

impl LogLevelArg {
    /// The level as log records store it.
    pub fn as_db_level(self) -> (s: &'static str)
        ensures
            s@ == db_level(self),
    {
        match self {
            LogLevelArg::Error => "ERROR",
            LogLevelArg::Warn => "WARN",
            LogLevelArg::Info => "INFO",
            LogLevelArg::Debug => "DEBUG",
            LogLevelArg::Trace => "TRACE",
        }
    }
}

/// `add --type <noun> [--baseline] [--system S] [--ip IP] [--bind-ip IP] VALUE`.
#[derive(Debug, Clone)]
pub struct AddArgs {
    pub target: AddTarget,
    pub baseline: bool,
    pub system: Option<String>,
    pub ip: Option<String>,
    pub bind_ip: Option<String>,
    pub value: String,
}

/// `import --type <noun> [--baseline] [--system S] [--ip IP] [--bind-ip IP] FILE`.
#[derive(Debug, Clone)]
pub struct ImportArgs {
    pub target: ImportTarget,
    pub baseline: bool,
    pub system: Option<String>,
    pub ip: Option<String>,
    pub bind_ip: Option<String>,
    pub file: String,
}

/// `export --type <noun> [--baseline] [--level L] [--keyword K] [--limit N] FILE`.
#[derive(Debug, Clone)]
pub struct ExportArgs {
    pub target: InspectTarget,
    pub baseline: bool,
    pub level: Option<LogLevelArg>,
    pub keyword: Option<String>,
    pub limit: usize,
    pub file: String,
}

/// `query --type <noun> [--baseline] [--keyword K] [--level L] [--limit N]`.
#[derive(Debug, Clone)]
pub struct QueryArgs {
    pub target: InspectTarget,
    pub baseline: bool,
    pub keyword: Option<String>,
    pub level: Option<LogLevelArg>,
    pub limit: usize,
}

/// `delete --type <noun> [--baseline] [--system S] [--ip IP] VALUE`.
#[derive(Debug, Clone)]
pub struct DeleteArgs {
    pub target: DeleteTarget,
    pub baseline: bool,
    pub system: Option<String>,
    pub ip: Option<String>,
    pub value: String,
}

/// `unmark --type <noun> --system S [--ip IP] VALUE`.
#[derive(Debug, Clone)]
pub struct UnmarkArgs {
    pub target: UnmarkTarget,
    pub system: String,
    pub ip: Option<String>,
    pub value: String,
}

/// `rename --type system OLD NEW`.
#[derive(Debug, Clone)]
pub struct RenameArgs {
    pub target: RenameTarget,
    pub old_name: String,
    pub new_name: String,
}

/// `clear --type log [--before TIME]`.
#[derive(Debug, Clone)]
pub struct ClearArgs {
    pub target: ClearTarget,
    pub before: Option<String>,
}

/// Adding one non-baseline URL, port, IP or name to a system.
#[derive(Debug, Clone)]
pub struct EntityAddArgs {
    pub system: String,
    pub ip: Option<String>,
    pub bind_ip: Option<String>,
    pub value: String,
}

/// Importing non-baseline URLs, ports, IPs or names of a system from a file.
#[derive(Debug, Clone)]
pub struct EntityImportArgs {
    pub system: String,
    pub ip: Option<String>,
    pub bind_ip: Option<String>,
    pub file: String,
}

/// Lifecycle of the monitoring daemon.
#[derive(Debug, Clone)]
pub enum DaemonCommands {
    Run { once: bool, foreground: bool },
    Status,
    Stop,
    Restart { foreground: bool },
}

/// Monitoring batches.
#[derive(Debug, Clone)]
pub enum TaskCommands {
    Run { once: bool },
    List,
    Status { batch: Option<String> },
    Stop { batch: Option<String> },
}

/// Every command.
#[derive(Debug, Clone)]
pub enum Commands {
    Init,
    Add(AddArgs),
    Import(ImportArgs),
    Export(ExportArgs),
    Query(QueryArgs),
    Delete(DeleteArgs),
    Unmark(UnmarkArgs),
    Rename(RenameArgs),
    Clear(ClearArgs),
    Daemon(DaemonCommands),
    Task(TaskCommands),
    Report { batch: Option<String> },
    Dashboard { refresh_seconds: u64 },
}

/// The parsed command line: `--example` prints an example configuration.
#[derive(Debug, Clone)]
pub struct Cli {
    pub example: bool,
    pub command: Option<Commands>,
}

} // verus!
