//! The harness's view of a scene binary: the scenes its `info` reported, and
//! the command lines that run one of them.
//!
//! Starting processes is the caller's part: it runs the binary and hands the
//! exit status and output over, and it spawns the commands built here.

use vstd::prelude::*;

use crate::proto::{decode_info, json_document, Error, Fault, Info};
use crate::fuzz::random_seed;
use crate::text::{decimal, decimal_string, texts};

verus! {

/// Why a scene binary could not be used.
#[derive(Debug)]
pub enum BundleError {
    /// `info` exited with a failure.
    InfoFailed,
    /// `info` printed no valid Info message.
    Info(Error),
}

impl BundleError {
    /// The error as a message for the user.
    pub fn message(&self) -> (r: String)
        ensures
            self matches BundleError::InfoFailed ==> r@ == "running scene bundle failed"@,
            self matches BundleError::Info(e) ==> r@ == "parsing scene bundle info: "@ + e.text(),
    {
        match self {
            BundleError::InfoFailed => String::from_str("running scene bundle failed"),
            BundleError::Info(e) => String::from_str("parsing scene bundle info: ").concat(
                e.message().as_str(),
            ),
        }
    }
}

/// Whether `info` output in these bytes gives the scene list `names`.
pub open spec fn info_gives(bytes: Seq<u8>, names: Seq<Seq<char>>) -> bool {
    json_document(bytes) matches Some(doc) && decode_info(doc) == Ok::<Seq<Seq<char>>, Fault>(names)
}

/// Why `info` output in these bytes is no Info message, where serde_json
/// parses them.
pub open spec fn info_fault(bytes: Seq<u8>) -> Option<Fault> {
    match json_document(bytes) {
        Some(doc) => match decode_info(doc) {
            Err(f) => Some(f),
            Ok(_) => None,
        },
        None => None,
    }
}

/// A process to start: the program, its arguments, and an environment
/// variable to set.
pub struct RunCommand {
    pub program: String,
    pub args: Vec<String>,
    pub env: Option<(String, String)>,
}

/// The arguments that run `scene` with a seed and an optional start time.
pub open spec fn run_args(scene: Seq<char>, seed: u64, start_time: Option<u64>) -> Seq<Seq<char>> {
    seq!["run"@, scene, "--rng-seed"@, decimal(seed as nat)] + match start_time {
        Some(t) => seq!["--start-time"@, decimal(t as nat)],
        None => Seq::empty(),
    }
}

fn build_run_args(scene: &str, seed: u64, start_time: Option<u64>) -> (r: Vec<String>)
    ensures
        texts(r@) == run_args(scene@, seed, start_time),
{
    let mut args: Vec<String> = Vec::new();
    args.push(String::from_str("run"));
    args.push(String::from_str(scene));
    args.push(String::from_str("--rng-seed"));
    args.push(decimal_string(seed));
    if let Some(t) = start_time {
        args.push(String::from_str("--start-time"));
        args.push(decimal_string(t));
    }
    assert(texts(args@) =~= run_args(scene@, seed, start_time));
    args
}

/// A built scene binary and the scenes it offers.
#[derive(Clone)]
pub struct SceneBundle {
    path: String,
    scenes: Vec<String>,
}

impl SceneBundle {
    /// The scene binary at `path`, from the exit status and output of its
    /// `info` subcommand.
    pub fn new(path: String, info_succeeded: bool, info_stdout: &[u8]) -> (r: Result<
        SceneBundle,
        BundleError,
    >)
        ensures
            !info_succeeded ==> r matches Err(BundleError::InfoFailed),
            info_succeeded ==> (r is Ok <==> exists|names: Seq<Seq<char>>|
                #[trigger] info_gives(info_stdout@, names)),
            r matches Ok(b) ==> b.path_text() == path@ && info_gives(info_stdout@, texts(b.scene_list())),
            info_succeeded && json_document(info_stdout@) is None ==> (r matches Err(
                BundleError::Info(Error::Json(_)),
            )),
            info_succeeded ==> (info_fault(info_stdout@) matches Some(f) ==> (r matches Err(
                BundleError::Info(e),
            ) && e.fault() == f)),
    {
        if !info_succeeded {
            return Err(BundleError::InfoFailed);
        }
        match Info::deserialize(info_stdout) {
            Ok(info) => {
                assert(info_gives(info_stdout@, texts(info.scenes@)));
                Ok(SceneBundle { path, scenes: info.scenes })
            },
            Err(e) => Err(BundleError::Info(e)),
        }
    }

    /// The scenes of the binary.
    pub closed spec fn scene_list(&self) -> Seq<String> {
        self.scenes@
    }

    /// The path of the binary.
    pub closed spec fn path_text(&self) -> Seq<char> {
        self.path@
    }

    /// The scenes the binary offers, in the order its `info` gave them.
    pub fn scenes(&self) -> (r: &Vec<String>)
        ensures
            r@ == self.scene_list(),
    {
        &self.scenes
    }

    /// The command that runs `scene` with this seed and start time, with
    /// the log filter handed on in `RUST_LOG`; its output is to be captured.
    pub fn run_command(
        &self,
        scene: &str,
        rng_seed: u64,
        start_time: Option<u64>,
        log_filter: Option<&str>,
    ) -> (r: RunCommand)
        ensures
            r.program@ == self.path_text(),
            texts(r.args@) == run_args(scene@, rng_seed, start_time),
            log_filter matches Some(f) ==> (r.env matches Some((k, v)) && k@ == "RUST_LOG"@ && v@
                == f@),
            log_filter is None ==> r.env is None,
    {
        let env = match log_filter {
            Some(f) => Some((String::from_str("RUST_LOG"), String::from_str(f))),
            None => None,
        };
        RunCommand {
            program: self.path.clone(),
            args: build_run_args(scene, rng_seed, start_time),
            env,
        }
    }
}

/// A scene binary that is run to completion, one scene at a time.
pub struct SceneBinary {
    path: String,
    scenes: Vec<String>,
}

impl SceneBinary {
    /// The scene binary at `path`, from the exit status and output of its
    /// `info` subcommand.
    pub fn new(path: String, info_succeeded: bool, info_stdout: &[u8]) -> (r: Result<
        SceneBinary,
        BundleError,
    >)
        ensures
            !info_succeeded ==> r matches Err(BundleError::InfoFailed),
            info_succeeded ==> (r is Ok <==> exists|names: Seq<Seq<char>>|
                #[trigger] info_gives(info_stdout@, names)),
            r matches Ok(b) ==> b.path_text() == path@ && info_gives(info_stdout@, texts(b.scene_list())),
            info_succeeded && json_document(info_stdout@) is None ==> (r matches Err(
                BundleError::Info(Error::Json(_)),
            )),
            info_succeeded ==> (info_fault(info_stdout@) matches Some(f) ==> (r matches Err(
                BundleError::Info(e),
            ) && e.fault() == f)),
    {
        if !info_succeeded {
            return Err(BundleError::InfoFailed);
        }
        match Info::deserialize(info_stdout) {
            Ok(info) => {
                assert(info_gives(info_stdout@, texts(info.scenes@)));
                Ok(SceneBinary { path, scenes: info.scenes })
            },
            Err(e) => Err(BundleError::Info(e)),
        }
    }

    /// The scenes of the binary.
    pub closed spec fn scene_list(&self) -> Seq<String> {
        self.scenes@
    }

    /// The path of the binary.
    pub closed spec fn path_text(&self) -> Seq<char> {
        self.path@
    }

    /// The scenes the binary offers, in the order its `info` gave them.
    pub fn scenes(&self) -> (r: &Vec<String>)
        ensures
            r@ == self.scene_list(),
    {
        &self.scenes
    }

    /// The command that runs `scene` with the given seed, or a random one,
    /// and an optional start time.
    pub fn run_command(&self, scene: &str, rng_seed: Option<u64>, start_time: Option<u64>) -> (r:
        RunCommand)
        ensures
            r.program@ == self.path_text(),
            rng_seed matches Some(s) ==> texts(r.args@) == run_args(scene@, s, start_time),
            exists|s: u64| texts(r.args@) == #[trigger] run_args(scene@, s, start_time),
            r.env is None,
    {
        let seed = match rng_seed {
            Some(s) => s,
            None => random_seed(),
        };
        RunCommand {
            program: self.path.clone(),
            args: build_run_args(scene, seed, start_time),
            env: None,
        }
    }
}

} // verus!
