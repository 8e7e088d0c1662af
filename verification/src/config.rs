//! Run options and the immutable configuration snapshot handed to every
//! task of a watch session.

use vstd::prelude::*;

verus! {

/// Options shared by the build-like subcommands.
#[derive(Debug, Clone, Copy, PartialEq, Eq, Structural)]
pub struct Opts {
    /// Build artifacts in release mode, with optimizations.
    pub release: bool,
    /// Build for client-side rendering only.
    pub csr: bool,
    /// Verbosity level: 0 is errors and warnings only.
    pub verbose: u8,
}

impl Default for Opts {
    /// The default options: debug build, hydrate mode, quiet.
    fn default() -> (r: Opts)
        ensures
            !r.release,
            !r.csr,
            r.verbose == 0,
    {
        Opts { release: false, csr: false, verbose: 0 }
    }
}

/// The subcommand chosen on the command line.
#[derive(Debug, Clone, Copy, PartialEq, Eq, Structural)]
pub enum Commands {
    /// Write a default configuration file to the current directory.
    Init,
    /// Compile the client (csr and hydrate) and the server.
    Build(Opts),
    /// Run the test suites for app, client and server.
    Test(Opts),
    /// Serve; in csr mode an internal dev server is used.
    Serve(Opts),
    /// Serve and automatically rebuild and reload when files change.
    Watch(Opts),
}

/// The parsed command line.
#[derive(Debug, Clone, Copy, PartialEq, Eq, Structural)]
pub struct Cli {
    pub command: Commands,
}

/// The options carried by the chosen subcommand, or `None` for `Init`,
/// which takes none.
pub fn command_opts(cli: &Cli) -> (r: Option<Opts>)
    ensures
        r == (match cli.command {
            Commands::Init => None::<Opts>,
            Commands::Build(o) => Some(o),
            Commands::Test(o) => Some(o),
            Commands::Serve(o) => Some(o),
            Commands::Watch(o) => Some(o),
        }),
{
    match &cli.command {
        Commands::Init => None,
        Commands::Build(o) => Some(*o),
        Commands::Test(o) => Some(*o),
        Commands::Serve(o) => Some(*o),
        Commands::Watch(o) => Some(*o),
    }
}

/// Whether an argument vector carries the cargo-subcommand shim word in
/// second position; when the tool runs as a cargo subcommand, cargo inserts
/// the tool's own name there, which the parser does not expect.
pub open spec fn has_subcommand_shim(args: Seq<String>) -> bool {
    args.len() >= 2 && args[1]@ == "leptos"@
}

/// Drop the cargo-subcommand shim word from an argument vector, if present;
/// any other argument vector is left unchanged.
pub fn normalize_args(args: &mut Vec<String>)
    ensures
        has_subcommand_shim(old(args)@) ==> final(args)@ == old(args)@.remove(1),
        !has_subcommand_shim(old(args)@) ==> final(args)@ == old(args)@,
{
    if args.len() >= 2 {
        let shim: String = "leptos".to_owned();
        if shim.eq(&args[1]) {
            let _ = args.remove(1);
        }
    }
}

/// The immutable snapshot of run options and derived paths. It is
/// constructed once, then only read; a task that needs a variant clones it
/// first, so the original observed by every other task never changes.
#[derive(Debug)]
pub struct Config {
    /// The run options.
    pub cli: Opts,
    /// Path of the HTML entry-point template.
    pub index_path: String,
    /// The build's output directory, cleared at the start of each run.
    pub site_dir: String,
}

impl Clone for Config {
    /// A clone is an exact copy; mutating it later cannot affect the
    /// original.
    fn clone(&self) -> (r: Config)
        ensures
            r == *self,
    {
        Config {
            cli: self.cli,
            index_path: self.index_path.clone(),
            site_dir: self.site_dir.clone(),
        }
    }
}

impl Config {
    /// Assemble a configuration snapshot.
    pub fn new(cli: Opts, index_path: String, site_dir: String) -> (r: Config)
        ensures
            r.cli == cli,
            r.index_path == index_path,
            r.site_dir == site_dir,
    {
        Config { cli, index_path, site_dir }
    }

    /// A copy of this configuration with `csr` replaced, for a one-off
    /// secondary build. `self` is only read: every other field of the copy
    /// equals the original's, and the original itself is untouched, so a
    /// concurrent task holding the original still observes its `csr` value.
    pub fn with_csr(&self, csr: bool) -> (r: Config)
        ensures
            r.cli.csr == csr,
            r.cli.release == self.cli.release,
            r.cli.verbose == self.cli.verbose,
            r.index_path == self.index_path,
            r.site_dir == self.site_dir,
    {
        Config {
            cli: Opts { release: self.cli.release, csr, verbose: self.cli.verbose },
            index_path: self.index_path.clone(),
            site_dir: self.site_dir.clone(),
        }
    }
}

} // verus!
