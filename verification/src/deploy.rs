//! The deployment sequence against a runtime: create the user, log in, read
//! the program archive, upload it, wait for its compilation, start the PLC.
//! Each step is outside work; this module decides what comes next from how
//! the last step went, and stops at the first step that fails.
use vstd::prelude::*;

verus! {

/// Where a deployment stands.
#[derive(Debug, Clone, Copy, PartialEq, Eq, Structural)]
pub enum DeployStage {
    CreateUser,
    Login,
    ReadProgram,
    Upload,
    AwaitCompilation,
    StartPlc,
    Succeeded,
    Failed,
}

/// The outside work to do next, or how the deployment ended.
#[derive(Debug, PartialEq, Eq)]
pub enum DeployAction {
    /// Make sure the user account exists.
    CreateUser,
    /// Log in and keep the token.
    Login,
    /// Read the program archive at this path.
    ReadProgramZip(String),
    /// Upload this archive, the one that was read.
    UploadProgram(Vec<u8>),
    /// Poll the compilation every `poll_interval_secs` seconds, for at most `timeout_secs`.
    WaitForCompilation { poll_interval_secs: u64, timeout_secs: u64 },
    /// Start the PLC.
    StartPlc,
    /// Every step succeeded: the PLC is running.
    Succeeded,
    /// A step failed; the text says which.
    Failed(String),
}

/// The seconds between two looks at the compilation.
pub const COMPILATION_POLL_INTERVAL_SECS: u64 = 2;

/// The seconds a compilation may take.
pub const COMPILATION_TIMEOUT_SECS: u64 = 120;

/// A deployment in progress.
pub struct Deployment {
    pub stage: DeployStage,
    /// Where the program archive is read from.
    pub program_zip_path: String,
    /// The archive, once it has been read; empty before.
    pub program: Vec<u8>,
}

/// The position of a stage in the sequence; both ends come last.
pub open spec fn stage_index(s: DeployStage) -> nat {
    match s {
        DeployStage::CreateUser => 0,
        DeployStage::Login => 1,
        DeployStage::ReadProgram => 2,
        DeployStage::Upload => 3,
        DeployStage::AwaitCompilation => 4,
        DeployStage::StartPlc => 5,
        DeployStage::Succeeded => 6,
        DeployStage::Failed => 6,
    }
}

/// A stage with work still to do.
pub open spec fn is_running(s: DeployStage) -> bool {
    s != DeployStage::Succeeded && s != DeployStage::Failed
}

/// The stage after a step that succeeded.
pub open spec fn stage_after(s: DeployStage) -> DeployStage {
    match s {
        DeployStage::CreateUser => DeployStage::Login,
        DeployStage::Login => DeployStage::ReadProgram,
        DeployStage::ReadProgram => DeployStage::Upload,
        DeployStage::Upload => DeployStage::AwaitCompilation,
        DeployStage::AwaitCompilation => DeployStage::StartPlc,
        DeployStage::StartPlc => DeployStage::Succeeded,
        DeployStage::Succeeded => DeployStage::Succeeded,
        DeployStage::Failed => DeployStage::Failed,
    }
}

/// What a failure at a stage is reported as: the step that failed, and for
/// the archive, where it was looked for.
pub open spec fn failure_context(s: DeployStage, zip_path: Seq<char>) -> Seq<char> {
    match s {
        DeployStage::CreateUser => "user setup failed"@,
        DeployStage::Login => "authentication failed"@,
        DeployStage::ReadProgram => "failed to read program zip at '"@ + zip_path + "'"@,
        DeployStage::Upload => "program upload failed"@,
        DeployStage::AwaitCompilation => "compilation failed"@,
        _ => "failed to start PLC"@,
    }
}

/// Whether `a` is the action a deployment asks for in its present stage (but
/// for a failure, whose action carries its context): the upload carries the
/// archive that was read.
pub open spec fn asks_for(d: Deployment, a: DeployAction) -> bool {
    match d.stage {
        DeployStage::CreateUser => a == DeployAction::CreateUser,
        DeployStage::Login => a == DeployAction::Login,
        DeployStage::ReadProgram => a == DeployAction::ReadProgramZip(d.program_zip_path),
        DeployStage::Upload => a matches DeployAction::UploadProgram(bytes) && bytes@ == d.program@,
        DeployStage::AwaitCompilation => a == DeployAction::WaitForCompilation {
            poll_interval_secs: COMPILATION_POLL_INTERVAL_SECS,
            timeout_secs: COMPILATION_TIMEOUT_SECS,
        },
        DeployStage::StartPlc => a == DeployAction::StartPlc,
        _ => a == DeployAction::Succeeded,
    }
}

impl Deployment {
    /// A deployment at its first step, reading the program from `program_zip_path`.
    pub fn new(program_zip_path: String) -> (d: Deployment)
        ensures
            d.stage == DeployStage::CreateUser,
            d.program_zip_path == program_zip_path,
            d.program@.len() == 0,
    {
        Deployment { stage: DeployStage::CreateUser, program_zip_path, program: Vec::new() }
    }

    /// The work the present stage asks for.
    pub fn current_action(&self) -> (a: DeployAction)
        requires
            is_running(self.stage),
        ensures
            asks_for(*self, a),
            self.stage == DeployStage::ReadProgram ==> (a matches DeployAction::ReadProgramZip(p)
                && p@ == self.program_zip_path@),
            self.stage == DeployStage::Upload ==> (a matches DeployAction::UploadProgram(b) && b@
                == self.program@),
    {
        match self.stage {
            DeployStage::CreateUser => DeployAction::CreateUser,
            DeployStage::Login => DeployAction::Login,
            DeployStage::ReadProgram => DeployAction::ReadProgramZip(self.program_zip_path.clone()),
            DeployStage::Upload => {
                let bytes = self.program.clone();
                assert(bytes@ =~= self.program@);
                DeployAction::UploadProgram(bytes)
            },
            DeployStage::AwaitCompilation => DeployAction::WaitForCompilation {
                poll_interval_secs: COMPILATION_POLL_INTERVAL_SECS,
                timeout_secs: COMPILATION_TIMEOUT_SECS,
            },
            DeployStage::StartPlc => DeployAction::StartPlc,
            _ => DeployAction::Succeeded,
        }
    }

    fn failure_text(&self) -> (r: String)
        ensures
            r@ == failure_context(self.stage, self.program_zip_path@),
    {
        match self.stage {
            DeployStage::CreateUser => String::from_str("user setup failed"),
            DeployStage::Login => String::from_str("authentication failed"),
            DeployStage::ReadProgram => {
                let mut r = String::from_str("failed to read program zip at '");
                r.append(self.program_zip_path.as_str());
                r.append("'");
                r
            },
            DeployStage::Upload => String::from_str("program upload failed"),
            DeployStage::AwaitCompilation => String::from_str("compilation failed"),
            _ => String::from_str("failed to start PLC"),
        }
    }

    /// Takes in how the present step went and gives the next action: after a
    /// success the next step's work (or `Succeeded` after starting the PLC);
    /// after a failure, at once and whatever stage it came in, `Failed` with
    /// the step's context, and nothing more is done. A successful read of the
    /// archive is taken in by `program_read`, which keeps what was read.
    pub fn step_done(&mut self, succeeded: bool) -> (a: DeployAction)
        requires
            is_running(old(self).stage),
            succeeded ==> old(self).stage != DeployStage::ReadProgram,
        ensures
            final(self).program_zip_path == old(self).program_zip_path,
            final(self).program == old(self).program,
            succeeded ==> final(self).stage == stage_after(old(self).stage),
            succeeded ==> asks_for(*final(self), a),
            !succeeded ==> final(self).stage == DeployStage::Failed,
            !succeeded ==> (a matches DeployAction::Failed(ctx) && ctx@ == failure_context(
                old(self).stage,
                old(self).program_zip_path@,
            )),
            stage_index(final(self).stage) > stage_index(old(self).stage),
    {
        if succeeded {
            self.stage = match self.stage {
                DeployStage::CreateUser => DeployStage::Login,
                DeployStage::Login => DeployStage::ReadProgram,
                DeployStage::Upload => DeployStage::AwaitCompilation,
                DeployStage::AwaitCompilation => DeployStage::StartPlc,
                _ => DeployStage::Succeeded,
            };
            if self.stage == DeployStage::Succeeded {
                DeployAction::Succeeded
            } else {
                self.current_action()
            }
        } else {
            let ctx = self.failure_text();
            self.stage = DeployStage::Failed;
            DeployAction::Failed(ctx)
        }
    }

    /// Takes in the archive that was read and gives the upload of exactly
    /// that archive.
    pub fn program_read(&mut self, bytes: Vec<u8>) -> (a: DeployAction)
        requires
            old(self).stage == DeployStage::ReadProgram,
        ensures
            final(self).stage == DeployStage::Upload,
            final(self).program_zip_path == old(self).program_zip_path,
            final(self).program@ == bytes@,
            a matches DeployAction::UploadProgram(up) && up@ == bytes@,
            asks_for(*final(self), a),
    {
        self.program = bytes;
        self.stage = DeployStage::Upload;
        self.current_action()
    }
}

/// What each stage asks for: the archive is read from the deployment's own
/// path and the upload carries the archive that was read, whatever they are;
/// the compilation is polled every 2 seconds for at most 120.
pub proof fn lemma_stage_actions(d: Deployment, a: DeployAction)
    requires
        asks_for(d, a),
    ensures
        d.stage == DeployStage::CreateUser ==> a == DeployAction::CreateUser,
        d.stage == DeployStage::Login ==> a == DeployAction::Login,
        d.stage == DeployStage::ReadProgram ==> (a matches DeployAction::ReadProgramZip(p) && p@
            == d.program_zip_path@),
        d.stage == DeployStage::Upload ==> (a matches DeployAction::UploadProgram(b) && b@
            == d.program@),
        d.stage == DeployStage::AwaitCompilation ==> a == (DeployAction::WaitForCompilation {
            poll_interval_secs: 2,
            timeout_secs: 120,
        }),
        d.stage == DeployStage::StartPlc ==> a == DeployAction::StartPlc,
        !is_running(d.stage) ==> a == DeployAction::Succeeded,
{
}

/// The steps come in the order create user, log in, read, upload, wait for
/// the compilation, start the PLC, and starting the PLC ends the deployment.
pub proof fn lemma_step_order()
    ensures
        stage_after(DeployStage::CreateUser) == DeployStage::Login,
        stage_after(DeployStage::Login) == DeployStage::ReadProgram,
        stage_after(DeployStage::ReadProgram) == DeployStage::Upload,
        stage_after(DeployStage::Upload) == DeployStage::AwaitCompilation,
        stage_after(DeployStage::AwaitCompilation) == DeployStage::StartPlc,
        stage_after(DeployStage::StartPlc) == DeployStage::Succeeded,
{
}

/// A failure names the step that failed, and a failed read names the path it
/// read from, whatever the path is.
pub proof fn lemma_failure_names_step(zip_path: Seq<char>)
    ensures
        failure_context(DeployStage::CreateUser, zip_path) == "user setup failed"@,
        failure_context(DeployStage::Login, zip_path) == "authentication failed"@,
        failure_context(DeployStage::ReadProgram, zip_path) == "failed to read program zip at '"@
            + zip_path + "'"@,
        failure_context(DeployStage::Upload, zip_path) == "program upload failed"@,
        failure_context(DeployStage::AwaitCompilation, zip_path) == "compilation failed"@,
        failure_context(DeployStage::StartPlc, zip_path) == "failed to start PLC"@,
{
}

} // verus!
