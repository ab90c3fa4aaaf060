//! What a run is configured with, and what is decided from it before the
//! first batch: the logging level, whether the two directories will do, and
//! which strategy runs.

use crate::error::view_result;
use crate::process::{FKSpecies, Identity, Processor, ProcessorView};
use vstd::prelude::*;

verus! {

/// The settings of a run.
#[derive(Debug, PartialEq, Eq)]
pub struct Config {
    /// Input folder path
    pub inpath: String,
    /// Output folder path
    pub outpath: String,
    /// Verbosity
    pub verbose: u8,
    /// Quiet (overrides verbose)
    pub quiet: bool,
    /// Processor name
    pub proc: String,
}

/// How much is logged.
#[derive(Debug, Clone, Copy, PartialEq, Eq, Structural)]
pub enum LogLevel {
    Off,
    Warn,
    Info,
    Debug,
}

/// The level that the two logging settings ask for: quiet turns logging off
/// whatever the verbosity; else warnings at verbosity 0, information at 1,
/// everything above.
pub open spec fn log_level(quiet: bool, verbose: u8) -> LogLevel {
    if quiet {
        LogLevel::Off
    } else if verbose == 0 {
        LogLevel::Warn
    } else if verbose == 1 {
        LogLevel::Info
    } else {
        LogLevel::Debug
    }
}

/// The logging level of a configuration.
pub fn getloglvl(conf: &Config) -> (level: LogLevel)
    ensures
        level == log_level(conf.quiet, conf.verbose),
{
    if conf.quiet {
        LogLevel::Off
    } else {
        match conf.verbose {
            0 => LogLevel::Warn,
            1 => LogLevel::Info,
            _ => LogLevel::Debug,
        }
    }
}

/// Why a run does not start.
#[derive(Debug, PartialEq, Eq)]
pub enum ConfigError {
    /// Input and output are one path.
    IdenticalPaths,
    /// The input path is no directory.
    InputNotDirectory,
    /// The output path is no directory.
    OutputNotDirectory,
    /// No strategy has the name asked for; the names that there are come
    /// with it.
    UnknownProcessor { name: String, valid: Vec<String> },
}

/// What a `ConfigError` holds.
pub ghost enum ConfigFault {
    IdenticalPaths,
    InputNotDirectory,
    OutputNotDirectory,
    UnknownProcessor { name: Seq<char>, valid: Seq<Seq<char>> },
}

impl View for ConfigError {
    type V = ConfigFault;

    open spec fn view(&self) -> ConfigFault {
        match self {
            ConfigError::IdenticalPaths => ConfigFault::IdenticalPaths,
            ConfigError::InputNotDirectory => ConfigFault::InputNotDirectory,
            ConfigError::OutputNotDirectory => ConfigFault::OutputNotDirectory,
            ConfigError::UnknownProcessor { name, valid } => ConfigFault::UnknownProcessor {
                name: name@,
                valid: valid.deep_view(),
            },
        }
    }
}

/// What is wrong with the two directories, if anything: that they are one
/// path is found first, then that the input is no directory, then that the
/// output is none.
pub open spec fn path_fault(
    inpath: Seq<char>,
    outpath: Seq<char>,
    in_is_dir: bool,
    out_is_dir: bool,
) -> Option<ConfigFault> {
    if inpath == outpath {
        Some(ConfigFault::IdenticalPaths)
    } else if !in_is_dir {
        Some(ConfigFault::InputNotDirectory)
    } else if !out_is_dir {
        Some(ConfigFault::OutputNotDirectory)
    } else {
        None
    }
}

/// Checks that the two paths of a configuration differ and that both are
/// directories; whether each is one is for the caller to find out.
pub fn checkpaths(conf: &Config, in_is_dir: bool, out_is_dir: bool) -> (r: Result<(), ConfigError>)
    ensures
        match r {
            Ok(_) => path_fault(conf.inpath@, conf.outpath@, in_is_dir, out_is_dir).is_none(),
            Err(e) => path_fault(conf.inpath@, conf.outpath@, in_is_dir, out_is_dir) == Some(e@),
        },
{
    if conf.inpath == conf.outpath {
        return Err(ConfigError::IdenticalPaths);
    }
    if !in_is_dir {
        return Err(ConfigError::InputNotDirectory);
    }
    if !out_is_dir {
        return Err(ConfigError::OutputNotDirectory);
    }
    Ok(())
}

/// The names of the strategies.
pub open spec fn processor_names() -> Seq<Seq<char>> {
    seq!["identity"@, "fkspecies"@]
}

/// The strategy of a name, bound to an output directory.
pub open spec fn processor_named(name: Seq<char>, outpath: Seq<char>) -> Result<
    ProcessorView,
    ConfigFault,
> {
    if name == "identity"@ {
        Ok(ProcessorView::Identity(outpath))
    } else if name == "fkspecies"@ {
        Ok(ProcessorView::FKSpecies(outpath))
    } else {
        Err(ConfigFault::UnknownProcessor { name, valid: processor_names() })
    }
}

/// Whether a name reads as the given text.
fn is_named(name: &String, text: &str) -> (same: bool)
    ensures
        same == (name@ == text@),
{
    let other = text.to_owned();
    *name == other
}

/// The strategy that a configuration selects.
pub fn getproc(conf: &Config) -> (r: Result<Processor, ConfigError>)
    ensures
        view_result(r) == processor_named(conf.proc@, conf.outpath@),
{
    if is_named(&conf.proc, "identity") {
        Ok(Processor::Identity(Identity::new(conf.outpath.as_str())))
    } else if is_named(&conf.proc, "fkspecies") {
        Ok(Processor::FKSpecies(FKSpecies::new(conf.outpath.as_str())))
    } else {
        let mut valid: Vec<String> = Vec::new();
        valid.push("identity".to_owned());
        valid.push("fkspecies".to_owned());
        assert(valid.deep_view() =~= processor_names());
        Err(ConfigError::UnknownProcessor { name: conf.proc.clone(), valid })
    }
}

/// What is decided before the first batch: the directories are checked, and
/// only then is the strategy selected.
pub open spec fn startup_outcome(
    inpath: Seq<char>,
    outpath: Seq<char>,
    proc: Seq<char>,
    in_is_dir: bool,
    out_is_dir: bool,
) -> Result<ProcessorView, ConfigFault> {
    match path_fault(inpath, outpath, in_is_dir, out_is_dir) {
        Some(fault) => Err(fault),
        None => processor_named(proc, outpath),
    }
}

/// A run starts only with two different paths that are both directories,
/// and with the name of a strategy.
pub proof fn lemma_startup(
    inpath: Seq<char>,
    outpath: Seq<char>,
    proc: Seq<char>,
    in_is_dir: bool,
    out_is_dir: bool,
)
    ensures
        startup_outcome(inpath, outpath, proc, in_is_dir, out_is_dir).is_ok() <==> inpath
            != outpath && in_is_dir && out_is_dir && (proc == "identity"@ || proc
            == "fkspecies"@),
{
}

/// Validates a configuration and selects its strategy.
pub fn startup(conf: &Config, in_is_dir: bool, out_is_dir: bool) -> (r: Result<
    Processor,
    ConfigError,
>)
    ensures
        view_result(r) == startup_outcome(
            conf.inpath@,
            conf.outpath@,
            conf.proc@,
            in_is_dir,
            out_is_dir,
        ),
{
    match checkpaths(conf, in_is_dir, out_is_dir) {
        Ok(_) => getproc(conf),
        Err(e) => Err(e),
    }
}

} // verus!
