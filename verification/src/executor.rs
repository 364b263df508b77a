//! The execution planner: a state machine that decides, stage by stage
//! and command by command, what to spawn next and how to wire it. The
//! caller performs each directive (spawning and waiting are operating
//! system work) and reports what happened; the machine decides what
//! follows, short-circuiting AND-chains and halting the whole sequence
//! at the first failing stage.

use vstd::prelude::*;

use crate::parser::{toks_view, Stage};

verus! {

/// The final verdict of one execution run: success, or the first
/// failure with the stage and command that caused it.
#[derive(Clone, Copy, Debug, PartialEq, Eq, Structural)]
pub enum ExecutionResult {
    Success,
    /// The process could not be started (not found, no permission).
    SpawnFailure { stage: usize, command: usize },
    /// The process ran and ended with a non-zero or abnormal status.
    ExitFailure { stage: usize, command: usize },
}

/// What the caller reports back after performing a directive.
#[derive(Clone, Copy, Debug, PartialEq, Eq, Structural)]
pub enum ExecEvent {
    /// A piped process was started.
    Spawned,
    /// The process could not be started.
    SpawnFailed,
    /// A spawned-and-awaited process ended; `success` is a clean zero
    /// exit.
    Exited { success: bool },
    /// Every process of the pipeline was awaited; `success` is the
    /// last one's clean zero exit.
    PipelineDone { success: bool },
}

/// What the machine asks the caller to do next.
#[derive(Clone, Copy, Debug, PartialEq, Eq, Structural)]
pub enum Directive {
    /// Spawn the command with inherited standard streams and wait for
    /// it.
    RunOne { stage: usize, command: usize },
    /// Spawn a pipeline member: its standard input comes from the
    /// previous member's pipe when `read_prev`, and its standard
    /// output feeds a pipe to the next member when `write_next`.
    SpawnPiped { stage: usize, command: usize, read_prev: bool, write_next: bool },
    /// Every member is spawned: wait on all of them, in any order.
    AwaitPipeline { stage: usize },
    /// Nothing is left to do.
    Finished { result: ExecutionResult },
}

/// How many commands a stage holds.
pub open spec fn n_cmds(st: Stage) -> nat {
    match st {
        Stage::Single(_) => 1,
        Stage::Pipeline(cs) => cs@.len(),
        Stage::AndChain(cs) => cs@.len(),
    }
}

/// The tokens of command `k` of a stage.
pub open spec fn cmd_at(st: Stage, k: int) -> Seq<Seq<char>> {
    match st {
        Stage::Single(c) => c@,
        Stage::Pipeline(cs) => cs@[k]@,
        Stage::AndChain(cs) => cs@[k]@,
    }
}

/// One execution run over parsed stages.
pub struct Executor {
    pub stages: Vec<Stage>,
    pub pos_stage: usize,
    pub pos_cmd: usize,
    pub waiting: bool,
    pub outcome: Option<ExecutionResult>,
}

impl Executor {
    /// The machine's invariant: stages are well-formed and, while the
    /// run is not decided, the position points at a real command, a
    /// `Single` stage has position zero, and the machine awaits a
    /// pipeline only inside one.
    pub open spec fn wf(&self) -> bool {
        &&& forall|i: int| 0 <= i < self.stages@.len() ==> self.stages@[i].wf()
        &&& match self.outcome {
            Some(_) => true,
            None => {
                &&& (self.pos_stage as int) < self.stages@.len()
                &&& (self.pos_cmd as int) < n_cmds(self.stages@[self.pos_stage as int])
                &&& (self.stages@[self.pos_stage as int] is Single ==> self.pos_cmd == 0)
                &&& (self.waiting ==> self.stages@[self.pos_stage as int] is Pipeline)
            },
        }
    }

    /// What the machine asks for in a given state.
    pub open spec fn directive_spec(&self) -> Directive {
        match self.outcome {
            Some(r) => Directive::Finished { result: r },
            None => match self.stages@[self.pos_stage as int] {
                Stage::Single(_) => (Directive::RunOne { stage: self.pos_stage, command: 0 }),
                Stage::AndChain(_) => (Directive::RunOne {
                    stage: self.pos_stage,
                    command: self.pos_cmd,
                }),
                Stage::Pipeline(cs) => if self.waiting {
                    (Directive::AwaitPipeline { stage: self.pos_stage })
                } else {
                    (Directive::SpawnPiped {
                        stage: self.pos_stage,
                        command: self.pos_cmd,
                        read_prev: self.pos_cmd > 0,
                        write_next: (self.pos_cmd as int) + 1 < cs@.len(),
                    })
                },
            },
        }
    }

    /// Which report fits the pending directive.
    pub open spec fn event_fits(&self, ev: ExecEvent) -> bool {
        match self.directive_spec() {
            Directive::RunOne { .. } => ev is SpawnFailed || ev is Exited,
            Directive::SpawnPiped { .. } => ev is Spawned || ev is SpawnFailed,
            Directive::AwaitPipeline { .. } => ev is PipelineDone,
            Directive::Finished { .. } => false,
        }
    }

    /// The state after moving past the current stage: the next stage
    /// from its first command, or overall success after the last one.
    pub open spec fn next_stage_spec(self) -> Executor {
        if self.pos_stage + 1 < self.stages@.len() {
            Executor {
                pos_stage: (self.pos_stage + 1) as usize,
                pos_cmd: 0,
                waiting: false,
                ..self
            }
        } else {
            Executor { outcome: Some(ExecutionResult::Success), ..self }
        }
    }

    /// The full transition relation: how a report moves the machine.
    pub open spec fn step_spec(self, ev: ExecEvent) -> Executor {
        let st = self.stages@[self.pos_stage as int];
        match ev {
            ExecEvent::SpawnFailed => Executor {
                outcome: Some(
                    ExecutionResult::SpawnFailure {
                        stage: self.pos_stage,
                        command: self.pos_cmd,
                    },
                ),
                ..self
            },
            ExecEvent::Exited { success } => if success {
                if st is AndChain && self.pos_cmd + 1 < n_cmds(st) {
                    Executor { pos_cmd: (self.pos_cmd + 1) as usize, ..self }
                } else {
                    self.next_stage_spec()
                }
            } else {
                Executor {
                    outcome: Some(
                        ExecutionResult::ExitFailure {
                            stage: self.pos_stage,
                            command: self.pos_cmd,
                        },
                    ),
                    ..self
                }
            },
            ExecEvent::Spawned => if self.pos_cmd + 1 < n_cmds(st) {
                Executor { pos_cmd: (self.pos_cmd + 1) as usize, ..self }
            } else {
                Executor { waiting: true, ..self }
            },
            ExecEvent::PipelineDone { success } => if success {
                self.next_stage_spec()
            } else {
                Executor {
                    outcome: Some(
                        ExecutionResult::ExitFailure {
                            stage: self.pos_stage,
                            command: (n_cmds(st) - 1) as usize,
                        },
                    ),
                    ..self
                }
            },
        }
    }

    /// A fresh machine over `stages`; an empty sequence is already a
    /// success.
    pub fn new(stages: Vec<Stage>) -> (r: Executor)
        requires
            forall|i: int| 0 <= i < stages@.len() ==> stages@[i].wf(),
        ensures
            r.wf(),
            r.stages == stages,
            r.pos_stage == 0,
            r.pos_cmd == 0,
            !r.waiting,
            r.outcome == if stages@.len() == 0 {
                Some(ExecutionResult::Success)
            } else {
                None::<ExecutionResult>
            },
    {
        let outcome: Option<ExecutionResult> = if stages.len() == 0 {
            Some(ExecutionResult::Success)
        } else {
            None
        };
        Executor { stages, pos_stage: 0, pos_cmd: 0, waiting: false, outcome }
    }

    /// How many stages the machine holds.
    pub fn stage_count(&self) -> (r: usize)
        ensures
            r == self.stages@.len(),
    {
        self.stages.len()
    }

    /// How many commands stage `stage` holds.
    pub fn command_count(&self, stage: usize) -> (r: usize)
        requires
            (stage as int) < self.stages@.len(),
        ensures
            r == n_cmds(self.stages@[stage as int]),
    {
        match &self.stages[stage] {
            Stage::Single(_) => 1,
            Stage::Pipeline(cs) => cs.len(),
            Stage::AndChain(cs) => cs.len(),
        }
    }

    /// The token texts of command `command` of stage `stage`: the
    /// program name, then each argument as one string, embedded spaces
    /// preserved.
    pub fn command_strings(&self, stage: usize, command: usize) -> (r: Vec<String>)
        requires
            (stage as int) < self.stages@.len(),
            (command as int) < n_cmds(self.stages@[stage as int]),
        ensures
            r@.map_values(|s: String| s@) == cmd_at(self.stages@[stage as int], command as int),
    {
        match &self.stages[stage] {
            Stage::Single(c) => c.strings(),
            Stage::Pipeline(cs) => cs[command].strings(),
            Stage::AndChain(cs) => cs[command].strings(),
        }
    }

    /// What to do next.
    pub fn directive(&self) -> (d: Directive)
        requires
            self.wf(),
        ensures
            d == self.directive_spec(),
    {
        match &self.outcome {
            Some(r) => Directive::Finished { result: *r },
            None => match &self.stages[self.pos_stage] {
                Stage::Single(_) => Directive::RunOne { stage: self.pos_stage, command: 0 },
                Stage::AndChain(_) => Directive::RunOne {
                    stage: self.pos_stage,
                    command: self.pos_cmd,
                },
                Stage::Pipeline(cs) => if self.waiting {
                    Directive::AwaitPipeline { stage: self.pos_stage }
                } else {
                    let n: usize = cs.len();
                    Directive::SpawnPiped {
                        stage: self.pos_stage,
                        command: self.pos_cmd,
                        read_prev: self.pos_cmd > 0,
                        write_next: self.pos_cmd + 1 < n,
                    }
                },
            },
        }
    }

    /// Feed back what happened; the machine moves as `step_spec` says.
    pub fn step(&mut self, ev: ExecEvent)
        requires
            old(self).wf(),
            old(self).outcome is None,
            old(self).event_fits(ev),
        ensures
            *final(self) == old(self).step_spec(ev),
            final(self).wf(),
    {
        let cnt: usize = self.command_count(self.pos_stage);
        let is_and: bool = match &self.stages[self.pos_stage] {
            Stage::AndChain(_) => true,
            _ => false,
        };
        match ev {
            ExecEvent::SpawnFailed => {
                self.outcome = Some(
                    ExecutionResult::SpawnFailure { stage: self.pos_stage, command: self.pos_cmd },
                );
            },
            ExecEvent::Exited { success } => {
                if success {
                    if is_and && self.pos_cmd + 1 < cnt {
                        self.pos_cmd = self.pos_cmd + 1;
                    } else {
                        self.advance_stage();
                    }
                } else {
                    self.outcome = Some(
                        ExecutionResult::ExitFailure {
                            stage: self.pos_stage,
                            command: self.pos_cmd,
                        },
                    );
                }
            },
            ExecEvent::Spawned => {
                if self.pos_cmd + 1 < cnt {
                    self.pos_cmd = self.pos_cmd + 1;
                } else {
                    self.waiting = true;
                }
            },
            ExecEvent::PipelineDone { success } => {
                if success {
                    self.advance_stage();
                } else {
                    self.outcome = Some(
                        ExecutionResult::ExitFailure { stage: self.pos_stage, command: cnt - 1 },
                    );
                }
            },
        }
    }

    /// Move past the current stage.
    fn advance_stage(&mut self)
        requires
            old(self).wf(),
            old(self).outcome is None,
        ensures
            *final(self) == old(self).next_stage_spec(),
            final(self).wf(),
    {
        let n: usize = self.stages.len();
        if self.pos_stage + 1 < n {
            self.pos_stage = self.pos_stage + 1;
            self.pos_cmd = 0;
            self.waiting = false;
        } else {
            self.outcome = Some(ExecutionResult::Success);
        }
    }
}

/// An AND-chain short-circuits: when the machine runs an AND-chain and
/// the current command reports an unsuccessful exit, the machine is
/// finished with that failure, so no later command of the chain — and
/// no later stage — is ever directed to spawn.
pub proof fn lemma_and_chain_short_circuit(m: Executor, ev: ExecEvent)
    requires
        m.wf(),
        m.outcome is None,
        m.stages@[m.pos_stage as int] is AndChain,
        ev == (ExecEvent::Exited { success: false }),
    ensures
        m.step_spec(ev).outcome == Some(
            ExecutionResult::ExitFailure { stage: m.pos_stage, command: m.pos_cmd },
        ),
        m.step_spec(ev).directive_spec() == (Directive::Finished {
            result: ExecutionResult::ExitFailure { stage: m.pos_stage, command: m.pos_cmd },
        }),
{
}

/// A failing stage halts the whole sequence: whatever the stage kind,
/// once a command reports a spawn failure the machine is finished with
/// that failure and directs nothing further.
pub proof fn lemma_spawn_failure_halts(m: Executor, ev: ExecEvent)
    requires
        m.wf(),
        m.outcome is None,
        ev == ExecEvent::SpawnFailed,
        m.event_fits(ev),
    ensures
        m.step_spec(ev).outcome == Some(
            ExecutionResult::SpawnFailure { stage: m.pos_stage, command: m.pos_cmd },
        ),
        m.step_spec(ev).directive_spec() == (Directive::Finished {
            result: ExecutionResult::SpawnFailure { stage: m.pos_stage, command: m.pos_cmd },
        }),
{
}

} // verus!
