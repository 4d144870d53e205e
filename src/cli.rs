use crate::pipeline::{full_plan, full_stages, Stage};
use vstd::prelude::*;

verus! {

/// Dependencies whose logs may be shown.
#[derive(Clone, Copy, Debug, PartialEq, Eq, Structural, PartialOrd, Ord)]
pub enum Log {
    /// WASM build (wasm, wasm-opt, walrus)
    Wasm,
    /// Internal reload and csr server (hyper, axum)
    Server,
}

/// Options of the commands that build.
#[derive(Clone, Copy, Debug, PartialEq, Eq, Structural)]
pub struct Opts {
    /// Build artifacts in release mode, with optimizations.
    pub release: bool,
    /// Build for client side rendering instead of the default hydrate mode.
    pub csr: bool,
    /// Verbosity (none: info, errors & warnings, -v: verbose, -vv: very verbose).
    pub verbose: u8,
}

impl Default for Opts {
    fn default() -> (r: Opts)
        ensures
            r == (Opts { release: false, csr: false, verbose: 0 }),
    {
        Opts { release: false, csr: false, verbose: 0 }
    }
}

impl Opts {
    /// The stages of a whole build with these options.
    pub fn stages(&self, copy_assets: bool) -> (r: Vec<Stage>)
        ensures
            r@ == full_plan(self.csr, copy_assets),
    {
        full_stages(self.csr, copy_assets)
    }
}

/// What to do.
#[derive(Clone, Copy, Debug, PartialEq, Eq, Structural)]
pub enum Commands {
    /// Output toml that needs to be added to the Cargo.toml file.
    Config,
    /// Compile the project. Defaults to hydrate mode.
    Build(Opts),
    /// Run the cargo tests for app, client and server.
    Test(Opts),
    /// Serve. Defaults to hydrate mode.
    Serve(Opts),
    /// Serve and automatically reload when files change. Defaults to hydrate mode.
    Watch(Opts),
}

impl Commands {
    /// The build options of the command, if it builds.
    pub fn opts(&self) -> (r: Option<Opts>)
        ensures
            self is Config <==> r is None,
            *self matches Commands::Build(o) ==> r == Some(o),
            *self matches Commands::Test(o) ==> r == Some(o),
            *self matches Commands::Serve(o) ==> r == Some(o),
            *self matches Commands::Watch(o) ==> r == Some(o),
    {
        match self {
            Commands::Config => None,
            Commands::Build(o) | Commands::Test(o) | Commands::Serve(o) | Commands::Watch(o) => Some(*o),
        }
    }
}

/// The command line.
#[derive(Debug)]
pub struct Cli {
    /// Path to Cargo.toml.
    pub manifest_path: Option<String>,
    /// Output logs from dependencies (multiple --log accepted).
    pub log: Vec<Log>,
    pub command: Commands,
}

/// The word that cargo puts before the arguments when run as `cargo leptos`.
pub open spec fn subcommand_word() -> Seq<char> {
    seq!['l', 'e', 'p', 't', 'o', 's']
}

/// The arguments without the word `leptos` in second place, where cargo put
/// it when running the program as a subcommand.
pub fn strip_subcommand_word(args: Vec<String>) -> (r: Vec<String>)
    ensures
        args@.len() > 1 && args@[1]@ == subcommand_word() ==> r@ == args@.remove(1),
        !(args@.len() > 1 && args@[1]@ == subcommand_word()) ==> r@ == args@,
{
    let mut out = args;
    if out.len() > 1 {
        proof {
            reveal_strlit("leptos");
        }
        let word = String::from_str("leptos");
        assert(word@ == subcommand_word());
        if out[1].eq(&word) {
            out.remove(1);
        }
    }
    out
}

} // verus!
