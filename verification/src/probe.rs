//! Decisions of a board flash through the probe-rs command line tool.
//!
//! The host runs `probe-rs download` and then `probe-rs reset`; after each
//! run it hands the outcome to [`flash_next`], which says whether to run the
//! next command or to finish with a message. While a flash is in progress
//! the serial reader keeps the port closed.

use vstd::prelude::*;

verus! {

/// The two probe-rs runs of a flash, in order.
#[derive(Debug, Clone, Copy, PartialEq, Eq)]
pub enum ProbeCommand {
    /// `probe-rs download --chip <chip> <elf>`: writes the firmware.
    Download,
    /// `probe-rs reset --chip <chip>`: restarts the board.
    Reset,
}

/// How one probe-rs run ended.
#[derive(Debug, PartialEq, Eq)]
pub enum CommandOutcome {
    /// The process could not be started; the text of the error.
    SpawnFailed(String),
    /// The process ran; whether it exited successfully and what it wrote to stderr.
    Exited { success: bool, stderr: String },
}

/// What to do after a probe-rs run.
#[derive(Debug, PartialEq, Eq)]
pub enum FlashAction {
    /// Run this command next.
    Run(ProbeCommand),
    /// The flash is over: the message for the caller, or the error.
    Finish(Result<String, String>),
}

/// The outcome of a flash given the outcome of the last run: a failed
/// start or a failed exit ends it with an error naming the step; a
/// successful download goes on to the reset; a successful reset ends it.
pub open spec fn flash_step(cmd: ProbeCommand, outcome: CommandOutcome) -> FlashStep {
    match outcome {
        CommandOutcome::SpawnFailed(e) => FlashStep::Fail(
            match cmd {
                ProbeCommand::Download => "spawn probe-rs failed: "@,
                ProbeCommand::Reset => "spawn reset failed: "@,
            } + e@,
        ),
        CommandOutcome::Exited { success, stderr } => if !success {
            FlashStep::Fail(
                match cmd {
                    ProbeCommand::Download => "download failed: "@,
                    ProbeCommand::Reset => "reset failed: "@,
                } + stderr@,
            )
        } else {
            match cmd {
                ProbeCommand::Download => FlashStep::Next(ProbeCommand::Reset),
                ProbeCommand::Reset => FlashStep::Done("flashed + reset OK"@),
            }
        },
    }
}

/// A [`FlashAction`] seen through the text of its messages.
pub enum FlashStep {
    /// Run this command next.
    Next(ProbeCommand),
    /// Finished; the success message.
    Done(Seq<char>),
    /// Finished; the error message.
    Fail(Seq<char>),
}

/// The run started and its process exited with success (whatever it wrote
/// to stderr).
pub open spec fn exited_ok(outcome: CommandOutcome) -> bool {
    outcome matches CommandOutcome::Exited { success: true, .. }
}

/// Only the exit status decides whether a run succeeded: a successful
/// download always goes on to the reset and a successful reset always ends
/// the flash with "flashed + reset OK", whatever the process wrote to
/// stderr; a flash ends in an error exactly when the run could not start or
/// exited unsuccessfully.
pub proof fn lemma_only_exit_status_decides(cmd: ProbeCommand, outcome: CommandOutcome)
    ensures
        exited_ok(outcome) && cmd == ProbeCommand::Download ==> flash_step(cmd, outcome)
            == FlashStep::Next(ProbeCommand::Reset),
        exited_ok(outcome) && cmd == ProbeCommand::Reset ==> flash_step(cmd, outcome)
            == FlashStep::Done("flashed + reset OK"@),
        (flash_step(cmd, outcome) is Fail) <==> !exited_ok(outcome),
{
}

/// Two runs of the same command that both exited successfully lead to the
/// same next step, however their stderr texts differ.
pub proof fn lemma_stderr_does_not_decide(cmd: ProbeCommand, s1: String, s2: String)
    ensures
        flash_step(cmd, CommandOutcome::Exited { success: true, stderr: s1 }) == flash_step(
            cmd,
            CommandOutcome::Exited { success: true, stderr: s2 },
        ),
{
}

/// The [`FlashStep`] a [`FlashAction`] stands for.
pub open spec fn step_of_action(act: FlashAction) -> FlashStep {
    match act {
        FlashAction::Run(c) => FlashStep::Next(c),
        FlashAction::Finish(Ok(m)) => FlashStep::Done(m@),
        FlashAction::Finish(Err(m)) => FlashStep::Fail(m@),
    }
}

/// The chip probe-rs is told to talk to.
pub fn chip() -> (s: String)
    ensures
        s@ == "nRF52833_xxAA"@,
{
    String::from_str("nRF52833_xxAA")
}

/// Path of the firmware image (built separately from the firmware crate).
pub fn firmware_elf() -> (s: String)
    ensures
        s@ == "target/thumbv7em-none-eabihf/debug/firmware"@,
{
    String::from_str("target/thumbv7em-none-eabihf/debug/firmware")
}

/// The arguments of a probe-rs run: `download --chip <chip> <elf>` or
/// `reset --chip <chip>`.
pub fn probe_args(cmd: ProbeCommand) -> (args: Vec<String>)
    ensures
        args@.map_values(|a: String| a@) == match cmd {
            ProbeCommand::Download => seq![
                "download"@,
                "--chip"@,
                "nRF52833_xxAA"@,
                "target/thumbv7em-none-eabihf/debug/firmware"@,
            ],
            ProbeCommand::Reset => seq!["reset"@, "--chip"@, "nRF52833_xxAA"@],
        },
{
    let mut args: Vec<String> = Vec::new();
    match cmd {
        ProbeCommand::Download => {
            args.push(String::from_str("download"));
            args.push(String::from_str("--chip"));
            args.push(chip());
            args.push(firmware_elf());
        },
        ProbeCommand::Reset => {
            args.push(String::from_str("reset"));
            args.push(String::from_str("--chip"));
            args.push(chip());
        },
    }
    proof {
        let m = args@.map_values(|a: String| a@);
        match cmd {
            ProbeCommand::Download => {
                assert(m =~= seq![
                    "download"@,
                    "--chip"@,
                    "nRF52833_xxAA"@,
                    "target/thumbv7em-none-eabihf/debug/firmware"@,
                ]);
            },
            ProbeCommand::Reset => {
                assert(m =~= seq!["reset"@, "--chip"@, "nRF52833_xxAA"@]);
            },
        }
    }
    args
}

/// Decides what follows a probe-rs run. A flash always ends after the
/// reset, whatever its outcome, and never runs more than the two commands.
pub fn flash_next(cmd: ProbeCommand, outcome: CommandOutcome) -> (act: FlashAction)
    ensures
        step_of_action(act) == flash_step(cmd, outcome),
        cmd == ProbeCommand::Reset ==> act is Finish,
        act matches FlashAction::Run(next) ==> cmd == ProbeCommand::Download && next
            == ProbeCommand::Reset,
        exited_ok(outcome) && cmd == ProbeCommand::Download ==> act == FlashAction::Run(
            ProbeCommand::Reset,
        ),
        exited_ok(outcome) && cmd == ProbeCommand::Reset ==> (act matches FlashAction::Finish(
            Ok(m),
        ) && m@ == "flashed + reset OK"@),
        (act matches FlashAction::Finish(Err(_))) <==> !exited_ok(outcome),
{
    proof {
        lemma_only_exit_status_decides(cmd, outcome);
    }
    match outcome {
        CommandOutcome::SpawnFailed(e) => {
            let mut msg = match cmd {
                ProbeCommand::Download => String::from_str("spawn probe-rs failed: "),
                ProbeCommand::Reset => String::from_str("spawn reset failed: "),
            };
            msg.append(e.as_str());
            FlashAction::Finish(Err(msg))
        },
        CommandOutcome::Exited { success, stderr } => {
            if !success {
                let mut msg = match cmd {
                    ProbeCommand::Download => String::from_str("download failed: "),
                    ProbeCommand::Reset => String::from_str("reset failed: "),
                };
                msg.append(stderr.as_str());
                FlashAction::Finish(Err(msg))
            } else {
                match cmd {
                    ProbeCommand::Download => FlashAction::Run(ProbeCommand::Reset),
                    ProbeCommand::Reset => FlashAction::Finish(
                        Ok(String::from_str("flashed + reset OK")),
                    ),
                }
            }
        },
    }
}

} // verus!
