//! The arguments of the commands, as plain values.

use vstd::prelude::*;

verus! {

/// Arguments of the law command.
#[derive(Debug)]
pub struct LawArgs {
    pub command: Option<LawCommand>,
    /// Search query (without a subcommand)
    pub query: Option<String>,
    pub page: u32,
    pub size: u32,
    pub law_type: Option<String>,
    pub department: Option<String>,
}

/// Subcommands of the law command.
#[derive(Debug)]
pub enum LawCommand {
    Search { query: String, page: u32, size: u32 },
    Detail { id: String },
    History { id: String },
}

/// Arguments of the ordinance command.
#[derive(Debug)]
pub struct OrdinanceArgs {
    pub command: Option<OrdinanceCommand>,
    pub query: Option<String>,
    pub page: u32,
    pub size: u32,
    pub region: Option<String>,
    pub law_type: Option<String>,
}

/// Subcommands of the ordinance command.
#[derive(Debug)]
pub enum OrdinanceCommand {
    Search { query: String, page: u32, size: u32 },
    Detail { id: String },
}

/// Arguments of the precedent command.
#[derive(Debug)]
pub struct PrecedentArgs {
    pub command: Option<PrecedentCommand>,
    pub query: Option<String>,
    pub page: u32,
    pub size: u32,
    pub court: Option<String>,
    pub case_type: Option<String>,
    pub date_from: Option<String>,
    pub date_to: Option<String>,
}

/// Subcommands of the precedent command.
#[derive(Debug)]
pub enum PrecedentCommand {
    Search { query: String, page: u32, size: u32 },
    Detail { id: String },
}

/// Arguments of the administrative rule command.
#[derive(Debug)]
pub struct AdmruleArgs {
    pub query: Option<String>,
    pub page: u32,
    pub size: u32,
}

/// Arguments of the legal interpretation command.
#[derive(Debug)]
pub struct InterpretationArgs {
    pub query: Option<String>,
    pub page: u32,
    pub size: u32,
}

/// Arguments of the unified search command.
#[derive(Debug)]
pub struct SearchArgs {
    pub query: String,
    pub page: u32,
    pub size: u32,
    /// Source to search (nlic, elis, all, or a list)
    pub source: String,
    /// Search the APIs in parallel
    pub parallel: bool,
    /// APIs to search in parallel mode (comma-separated)
    pub apis: Option<String>,
    pub batch: bool,
    pub batch_size: u32,
    pub cache_tier: Option<u8>,
    pub max_concurrent: u32,
    pub timeout: u32,
    pub no_cache: bool,
}

/// Arguments of the configuration command.
#[derive(Debug)]
pub struct ConfigArgs {
    pub command: ConfigCommand,
}

/// Subcommands of the configuration command.
#[derive(Debug)]
pub enum ConfigCommand {
    SetKey { key: String, value: String },
    Get { key: String },
    Path,
    Init,
}

/// Arguments of the cache command.
#[derive(Debug)]
pub struct CacheArgs {
    pub command: CacheCommand,
}

/// Subcommands of the cache command.
#[derive(Debug)]
pub enum CacheCommand {
    Status,
    Clear { api: Option<String>, force: bool },
    Config,
    Enable,
    Disable,
}

} // verus!
