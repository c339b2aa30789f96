//! Launch parameters of the sidecar.

use crate::text::{decimal, decimal_string};
use vstd::prelude::*;

verus! {

/// The port the sidecar is told to listen on unless configured otherwise.
pub const DEFAULT_PORT: u16 = 11420;

/// The logical name of the sidecar executable.
pub open spec fn sidecar_program() -> Seq<char> {
    "skima-server"@
}

/// The name of the persistent data file inside the data directory.
pub open spec fn data_file_name() -> Seq<char> {
    "skima.db"@
}

/// The arguments the sidecar is started with: the data file behind
/// `--db-path`, then the port, in decimal, behind `--port`.
pub open spec fn launch_args(data_path: Seq<char>, port: u16) -> Seq<Seq<char>> {
    seq!["--db-path"@, data_path, "--port"@, decimal(port as nat)]
}

/// What is needed to start the sidecar once: where its data lives and which
/// port it serves. Built at startup, handed to the spawn, then dropped.
#[derive(Clone, Debug, PartialEq, Eq)]
pub struct LaunchSpec {
    working_dir: String,
    data_path: String,
    port: u16,
}

/// The mathematical content of a [`LaunchSpec`].
pub struct LaunchSpecView {
    /// The directory that has to exist before the sidecar starts.
    pub working_dir: Seq<char>,
    /// The data file handed to the sidecar.
    pub data_path: Seq<char>,
    pub port: u16,
}

impl LaunchSpecView {
    /// The executable to start.
    pub open spec fn program(self) -> Seq<char> {
        sidecar_program()
    }

    /// The arguments to start it with.
    pub open spec fn args(self) -> Seq<Seq<char>> {
        launch_args(self.data_path, self.port)
    }
}

impl View for LaunchSpec {
    type V = LaunchSpecView;

    closed spec fn view(&self) -> LaunchSpecView {
        LaunchSpecView {
            working_dir: self.working_dir@,
            data_path: self.data_path@,
            port: self.port,
        }
    }
}

/// The name of the data file, to be joined to the data directory.
pub fn data_file() -> (name: String)
    ensures
        name@ == data_file_name(),
{
    String::from_str("skima.db")
}

impl LaunchSpec {
    /// The launch parameters for a sidecar that keeps its data file
    /// `data_path` inside `working_dir` and listens on `port`.
    pub fn new(working_dir: String, data_path: String, port: u16) -> (spec: LaunchSpec)
        ensures
            spec@ == (LaunchSpecView { working_dir: working_dir@, data_path: data_path@, port }),
    {
        LaunchSpec { working_dir, data_path, port }
    }

    /// The logical name of the executable to start.
    pub fn program(&self) -> (name: String)
        ensures
            name@ == self@.program(),
    {
        String::from_str("skima-server")
    }

    /// The ordered arguments to start it with.
    pub fn args(&self) -> (args: Vec<String>)
        ensures
            args.deep_view() == self@.args(),
    {
        let mut args: Vec<String> = Vec::new();
        args.push(String::from_str("--db-path"));
        args.push(self.data_path.clone());
        args.push(String::from_str("--port"));
        args.push(decimal_string(self.port as u64));
        assert(args.deep_view() =~= self@.args());
        args
    }

    /// The directory that has to exist before the sidecar starts.
    pub fn working_dir(&self) -> (dir: &String)
        ensures
            dir@ == self@.working_dir,
    {
        &self.working_dir
    }

    /// The data file handed to the sidecar.
    pub fn data_path(&self) -> (path: &String)
        ensures
            path@ == self@.data_path,
    {
        &self.data_path
    }

    /// The port the sidecar is told to listen on.
    pub fn port(&self) -> (port: u16)
        ensures
            port == self@.port,
    {
        self.port
    }
}

} // verus!
