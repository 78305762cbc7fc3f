//! Operations as state machines over register accesses.
//!
//! An [`Operation`] never touches the hardware. It names the next register
//! access as an [`Action`]; the caller performs it and hands the answer back
//! as a [`Response`]. What an operation has left to do is its [`Progress`]:
//! the steps that remain and how far the first of them has come.
use vstd::prelude::*;
use crate::error::{error_state, manage_error_states, Error};
use crate::geometry::PAGESIZE;
use crate::registers::{Command, Flag, InterruptFlags, PowerReductionMode, Status};
use crate::script::{
    bank_swap_script, boot_protection_script, copy_script, erase_script, erase_unit_script,
    power_reduction_script, write_script, EraseGranularity, Step,
};

verus! {

/// One access to the hardware, asked of the caller.
#[derive(Copy, Clone, Debug, PartialEq, Eq)]
pub enum Action {
    /// Read the status register and answer with [`Response::Status`].
    ReadStatus,
    /// Read the interrupt-flag register and answer with
    /// [`Response::InterruptFlags`].
    ReadInterruptFlags,
    /// Write the command to the control register, together with the unlock
    /// key. Do not wait for it.
    Execute(Command),
    /// Clear one sticky flag by writing it to the interrupt-flag register.
    ClearFlag(Flag),
    /// Write the address register. The value fits its 24 bits.
    WriteAddress(u32),
    /// Load the 32-bit word at `source` and store it at `destination`.
    CopyWord { destination: u32, source: u32 },
    /// Set the power reduction mode in the control register, leaving its
    /// other fields as they are.
    SetPowerReductionMode(PowerReductionMode),
    /// The operation is over, with this result. Nothing is left to perform.
    Complete(Result<(), Error>),
    /// The device did not reset although it had to. Nothing sensible can
    /// follow: the caller must not go on.
    Fatal,
}

/// What the hardware answered to the last action.
#[derive(Copy, Clone, Debug, PartialEq, Eq)]
pub enum Response {
    /// The access was a write, or the copy of a word: it has been performed.
    Done,
    /// The status register, as just read.
    Status(Status),
    /// The interrupt-flag register, as just read.
    InterruptFlags(InterruptFlags),
}

/// What an operation has left to do.
pub struct Progress {
    /// The steps that remain. The first one is in progress.
    pub steps: Seq<Step>,
    /// How many register accesses of the first step have been answered as
    /// that step needs them.
    pub stage: nat,
    /// `Ok` until the error flags were read with one of them set.
    pub outcome: Result<(), Error>,
}

impl Progress {
    /// The progress of an operation on which nothing has been performed yet.
    pub open spec fn begin(steps: Seq<Step>) -> Progress {
        Progress { steps, stage: 0, outcome: Ok(()) }
    }

    /// Nothing remains to be done.
    pub open spec fn finished(self) -> bool {
        self.steps.len() == 0
    }

    /// The register access that the operation waits for.
    ///
    /// Executing a command takes three accesses: write it, poll the done flag
    /// until it is set, clear the done flag. Checking for errors takes four:
    /// read the flags once, then clear the three error flags one by one,
    /// whether set or not.
    pub open spec fn action(self) -> Action {
        if self.finished() {
            Action::Complete(self.outcome)
        } else {
            match self.steps[0] {
                Step::WaitReady => Action::ReadStatus,
                Step::Command(command) => if self.stage == 0 {
                    Action::Execute(command)
                } else if self.stage == 1 {
                    Action::ReadInterruptFlags
                } else {
                    Action::ClearFlag(Flag::Done)
                },
                Step::CopyWord { destination, source } => Action::CopyWord { destination, source },
                Step::SetAddress(address) => Action::WriteAddress((address % 0x100_0000) as u32),
                Step::DecodeErrors => if self.stage == 0 {
                    Action::ReadInterruptFlags
                } else if self.stage == 1 {
                    Action::ClearFlag(Flag::AddressError)
                } else if self.stage == 2 {
                    Action::ClearFlag(Flag::LockError)
                } else {
                    Action::ClearFlag(Flag::ProgrammingError)
                },
                Step::SetPowerReductionMode(mode) => Action::SetPowerReductionMode(mode),
                Step::Unreachable => Action::Fatal,
            }
        }
    }

    /// The same step, `stage` accesses in.
    pub open spec fn at(self, stage: nat) -> Progress {
        Progress { steps: self.steps, stage, outcome: self.outcome }
    }

    /// The first step is over: on to the one after it.
    pub open spec fn proceed(self) -> Progress {
        Progress { steps: self.steps.skip(1), stage: 0, outcome: self.outcome }
    }

    /// The operation ends here, whatever steps remained.
    pub open spec fn stop(self) -> Progress {
        Progress { steps: Seq::empty(), stage: 0, outcome: self.outcome }
    }

    /// The progress after `response` has come in.
    ///
    /// A response of another kind than the pending action asks for changes
    /// nothing, and neither does a poll that finds its flag not yet set: the
    /// same action is pending again. A finished operation stays finished.
    pub open spec fn next(self, response: Response) -> Progress {
        if self.finished() {
            self
        } else {
            match self.steps[0] {
                Step::WaitReady => match response {
                    Response::Status(status) => if status.ready {
                        self.proceed()
                    } else {
                        self
                    },
                    _ => self,
                },
                Step::Command(_) => if self.stage == 0 {
                    if response is Done {
                        self.at(1)
                    } else {
                        self
                    }
                } else if self.stage == 1 {
                    match response {
                        Response::InterruptFlags(flags) => if flags.done {
                            self.at(2)
                        } else {
                            self
                        },
                        _ => self,
                    }
                } else {
                    if response is Done {
                        self.proceed()
                    } else {
                        self
                    }
                },
                Step::CopyWord { .. } | Step::SetAddress(_) | Step::SetPowerReductionMode(_) => {
                    if response is Done {
                        self.proceed()
                    } else {
                        self
                    }
                },
                Step::DecodeErrors => if self.stage == 0 {
                    match response {
                        Response::InterruptFlags(flags) => Progress {
                            steps: self.steps,
                            stage: 1,
                            outcome: error_state(flags),
                        },
                        _ => self,
                    }
                } else if self.stage < 3 {
                    if response is Done {
                        self.at(self.stage + 1)
                    } else {
                        self
                    }
                } else {
                    if response is Done {
                        if self.outcome is Ok {
                            self.proceed()
                        } else {
                            self.stop()
                        }
                    } else {
                        self
                    }
                },
                Step::Unreachable => self,
            }
        }
    }
}

/// Where a write stands.
#[derive(Copy, Clone, Debug)]
enum WritePhase {
    /// Waiting for the controller before the page buffer is cleared.
    Prepare,
    /// Clearing the page buffer.
    Clear,
    /// Copying the next word or, once none is left, waiting for the
    /// controller for the last time.
    Copy,
    /// Waiting for the controller before the page that the last word closed
    /// is written.
    FlushReady,
    /// Writing the page that the last word closed.
    Flush,
    /// Writing the page that the last words began.
    FinalFlush,
    /// Decoding the error flags.
    Decode,
}

/// Where the erase of a unit stands.
#[derive(Copy, Clone, Debug)]
enum ErasePart {
    /// Pointing the address register at the unit.
    Address,
    /// Waiting for the controller.
    Ready,
    /// Erasing the unit.
    Erase,
    /// Decoding the error flags.
    Decode,
}

/// Where a switch of the boot protection stands.
#[derive(Copy, Clone, Debug)]
enum ProtectPoint {
    /// Waiting for the controller.
    Ready,
    /// Executing the command.
    Switch,
    /// Decoding the error flags.
    Decode,
}

/// The steps that remain, in constant space.
#[derive(Copy, Clone, Debug)]
enum Job {
    /// Nothing remains.
    Finished,
    /// `words` words are still to be copied, the next one from `source` to
    /// `destination`. `dirty` tells whether the page buffer holds words that
    /// no page write has committed.
    Write { destination: u32, source: u32, words: u32, dirty: bool, phase: WritePhase },
    /// `units` units are still to be erased, the next one at `address`.
    Erase { address: u32, units: u32, granularity: EraseGranularity, part: ErasePart },
    /// Boot protection is still to be brought into the state `protect`.
    BootProtection { protect: bool, point: ProtectPoint },
    /// The banks are to be swapped; `issued` once the command is through.
    BankSwap { issued: bool },
    /// The power reduction mode is still to be set.
    PowerReduction { mode: PowerReductionMode },
}

impl Job {
    /// No address that the job will still come to lies beyond the 32 bits.
    spec fn inv(self) -> bool {
        match self {
            Job::Write { destination, source, words, .. } => {
                &&& destination + 4 * words <= u32::MAX
                &&& source + 4 * words <= u32::MAX
            },
            Job::Erase { address, units, granularity, .. } => {
                address + units * granularity.unit() <= u32::MAX
            },
            _ => true,
        }
    }

    /// The steps that remain, the one in progress first.
    spec fn steps(self) -> Seq<Step> {
        match self {
            Job::Finished => Seq::empty(),
            Job::Write { destination, source, words, dirty, phase } => {
                let d = destination as int;
                let s = source as int;
                let n = words as nat;
                match phase {
                    WritePhase::Prepare => write_script(d, s, n),
                    WritePhase::Clear => seq![Step::Command(Command::PageBufferClear)]
                        + copy_script(d, s, n, false),
                    WritePhase::Copy => copy_script(d, s, n, dirty),
                    WritePhase::FlushReady => seq![
                        Step::WaitReady,
                        Step::Command(Command::WritePage),
                    ] + copy_script(d, s, n, false),
                    WritePhase::Flush => seq![Step::Command(Command::WritePage)] + copy_script(
                        d,
                        s,
                        n,
                        false,
                    ),
                    WritePhase::FinalFlush => seq![
                        Step::Command(Command::WritePage),
                        Step::DecodeErrors,
                    ],
                    WritePhase::Decode => seq![Step::DecodeErrors],
                }
            },
            Job::Erase { address, units, granularity, part } => {
                if units == 0 {
                    Seq::empty()
                } else {
                    let unit = erase_unit_script(address as int, granularity);
                    let rest = erase_script(
                        address + granularity.unit(),
                        (units - 1) as nat,
                        granularity,
                    );
                    match part {
                        ErasePart::Address => unit + rest,
                        ErasePart::Ready => unit.skip(1) + rest,
                        ErasePart::Erase => unit.skip(2) + rest,
                        ErasePart::Decode => unit.skip(3) + rest,
                    }
                }
            },
            Job::BootProtection { protect, point } => match point {
                ProtectPoint::Ready => boot_protection_script(protect),
                ProtectPoint::Switch => boot_protection_script(protect).skip(1),
                ProtectPoint::Decode => boot_protection_script(protect).skip(2),
            },
            Job::BankSwap { issued } => if issued {
                bank_swap_script().skip(1)
            } else {
                bank_swap_script()
            },
            Job::PowerReduction { mode } => power_reduction_script(mode),
        }
    }

    /// The step in progress, if any remains.
    fn head(&self) -> (head: Option<Step>)
        requires
            self.inv(),
        ensures
            head is None <==> self.steps().len() == 0,
            head matches Some(step) ==> self.steps()[0] == step,
    {
        match *self {
            Job::Finished => None,
            Job::Write { destination, source, words, dirty, phase } => match phase {
                WritePhase::Prepare => Some(Step::WaitReady),
                WritePhase::Clear => Some(Step::Command(Command::PageBufferClear)),
                WritePhase::Copy => if words == 0 {
                    Some(Step::WaitReady)
                } else {
                    Some(Step::CopyWord { destination, source })
                },
                WritePhase::FlushReady => Some(Step::WaitReady),
                WritePhase::Flush => Some(Step::Command(Command::WritePage)),
                WritePhase::FinalFlush => Some(Step::Command(Command::WritePage)),
                WritePhase::Decode => Some(Step::DecodeErrors),
            },
            Job::Erase { address, units, granularity, part } => if units == 0 {
                None
            } else {
                match part {
                    ErasePart::Address => Some(Step::SetAddress(address)),
                    ErasePart::Ready => Some(Step::WaitReady),
                    ErasePart::Erase => Some(Step::Command(granularity.command())),
                    ErasePart::Decode => Some(Step::DecodeErrors),
                }
            },
            Job::BootProtection { protect, point } => match point {
                ProtectPoint::Ready => Some(Step::WaitReady),
                ProtectPoint::Switch => if protect {
                    Some(Step::Command(Command::ClearBootProtectionDisable))
                } else {
                    Some(Step::Command(Command::SetBootProtectionDisable))
                },
                ProtectPoint::Decode => Some(Step::DecodeErrors),
            },
            Job::BankSwap { issued } => if issued {
                Some(Step::Unreachable)
            } else {
                Some(Step::Command(Command::BankSwapReset))
            },
            Job::PowerReduction { mode } => Some(Step::SetPowerReductionMode(mode)),
        }
    }

    /// The job once its first step is over.
    fn tail(self) -> (tail: Job)
        requires
            self.inv(),
            self.steps().len() > 0,
        ensures
            tail.inv(),
            tail.steps() == self.steps().skip(1),
    {
        let tail = match self {
            Job::Finished => Job::Finished,
            Job::Write { destination, source, words, dirty, phase } => match phase {
                WritePhase::Prepare => Job::Write {
                    destination,
                    source,
                    words,
                    dirty,
                    phase: WritePhase::Clear,
                },
                WritePhase::Clear => Job::Write {
                    destination,
                    source,
                    words,
                    dirty: false,
                    phase: WritePhase::Copy,
                },
                WritePhase::Copy => if words == 0 {
                    if dirty {
                        Job::Write { destination, source, words, dirty, phase: WritePhase::FinalFlush }
                    } else {
                        Job::Write { destination, source, words, dirty, phase: WritePhase::Decode }
                    }
                } else if destination % PAGESIZE >= PAGESIZE - 4 {
                    // The page buffer is full: write it to flash
                    Job::Write {
                        destination: destination + 4,
                        source: source + 4,
                        words: words - 1,
                        dirty: false,
                        phase: WritePhase::FlushReady,
                    }
                } else {
                    Job::Write {
                        destination: destination + 4,
                        source: source + 4,
                        words: words - 1,
                        dirty: true,
                        phase: WritePhase::Copy,
                    }
                },
                WritePhase::FlushReady => Job::Write {
                    destination,
                    source,
                    words,
                    dirty,
                    phase: WritePhase::Flush,
                },
                WritePhase::Flush => Job::Write {
                    destination,
                    source,
                    words,
                    dirty: false,
                    phase: WritePhase::Copy,
                },
                WritePhase::FinalFlush => Job::Write {
                    destination,
                    source,
                    words,
                    dirty,
                    phase: WritePhase::Decode,
                },
                WritePhase::Decode => Job::Finished,
            },
            Job::Erase { address, units, granularity, part } => match part {
                ErasePart::Address => Job::Erase {
                    address,
                    units,
                    granularity,
                    part: ErasePart::Ready,
                },
                ErasePart::Ready => Job::Erase {
                    address,
                    units,
                    granularity,
                    part: ErasePart::Erase,
                },
                ErasePart::Erase => Job::Erase {
                    address,
                    units,
                    granularity,
                    part: ErasePart::Decode,
                },
                ErasePart::Decode => {
                    proof {
                        lemma_erase_bound(address, units, granularity);
                    }
                    Job::Erase {
                        address: address + granularity.size(),
                        units: units - 1,
                        granularity,
                        part: ErasePart::Address,
                    }
                },
            },
            Job::BootProtection { protect, point } => match point {
                ProtectPoint::Ready => Job::BootProtection { protect, point: ProtectPoint::Switch },
                ProtectPoint::Switch => Job::BootProtection { protect, point: ProtectPoint::Decode },
                ProtectPoint::Decode => Job::Finished,
            },
            Job::BankSwap { issued } => if issued {
                Job::Finished
            } else {
                Job::BankSwap { issued: true }
            },
            Job::PowerReduction { mode } => Job::Finished,
        };
        assert(tail.steps() =~= self.steps().skip(1));
        tail
    }
}

/// With a unit still to erase, the address of the next one fits, and so does
/// the rest of the job from there.
proof fn lemma_erase_bound(address: u32, units: u32, granularity: EraseGranularity)
    requires
        units > 0,
        address + units * granularity.unit() <= u32::MAX,
    ensures
        address + granularity.unit() <= u32::MAX,
        (address + granularity.unit()) + (units - 1) * granularity.unit() <= u32::MAX,
{
    assert(units * granularity.unit() == granularity.unit() + (units - 1) * granularity.unit())
        by (nonlinear_arith);
    assert((units - 1) * granularity.unit() >= 0) by (nonlinear_arith)
        requires
            units > 0,
    ;
}

/// An operation of the controller in progress.
#[derive(Copy, Clone, Debug)]
pub struct Operation {
    job: Job,
    stage: u8,
    outcome: Result<(), Error>,
}

impl View for Operation {
    type V = Progress;

    closed spec fn view(&self) -> Progress {
        Progress { steps: self.job.steps(), stage: self.stage as nat, outcome: self.outcome }
    }
}

impl Operation {
    #[verifier::type_invariant]
    spec fn inv(self) -> bool {
        self.job.inv()
    }

    /// A write of `words` words from `source` to `destination`.
    pub(crate) fn write(destination: u32, source: u32, words: u32) -> (operation: Operation)
        requires
            destination + 4 * words <= u32::MAX,
            source + 4 * words <= u32::MAX,
        ensures
            operation@ == Progress::begin(
                write_script(destination as int, source as int, words as nat),
            ),
    {
        Operation {
            job: Job::Write { destination, source, words, dirty: false, phase: WritePhase::Prepare },
            stage: 0,
            outcome: Ok(()),
        }
    }

    /// An erase of `units` units of `granularity` from `address` on.
    pub(crate) fn erase(address: u32, units: u32, granularity: EraseGranularity) -> (operation:
        Operation)
        requires
            address + units * granularity.unit() <= u32::MAX,
        ensures
            operation@ == Progress::begin(erase_script(address as int, units as nat, granularity)),
    {
        Operation {
            job: Job::Erase { address, units, granularity, part: ErasePart::Address },
            stage: 0,
            outcome: Ok(()),
        }
    }

    /// Switching boot protection on or off.
    pub(crate) fn boot_protection(protect: bool) -> (operation: Operation)
        ensures
            operation@ == Progress::begin(boot_protection_script(protect)),
    {
        Operation {
            job: Job::BootProtection { protect, point: ProtectPoint::Ready },
            stage: 0,
            outcome: Ok(()),
        }
    }

    /// Swapping the banks.
    pub(crate) fn bank_swap() -> (operation: Operation)
        ensures
            operation@ == Progress::begin(bank_swap_script()),
    {
        Operation { job: Job::BankSwap { issued: false }, stage: 0, outcome: Ok(()) }
    }

    /// Setting the power reduction mode.
    pub(crate) fn power_reduction(mode: PowerReductionMode) -> (operation: Operation)
        ensures
            operation@ == Progress::begin(power_reduction_script(mode)),
    {
        Operation { job: Job::PowerReduction { mode }, stage: 0, outcome: Ok(()) }
    }

    /// The register access to perform next, or the result of the operation
    /// once it is over.
    pub fn action(&self) -> (action: Action)
        ensures
            action == self@.action(),
    {
        proof {
            use_type_invariant(self);
        }
        match self.job.head() {
            None => Action::Complete(self.outcome),
            Some(step) => match step {
                Step::WaitReady => Action::ReadStatus,
                Step::Command(command) => if self.stage == 0 {
                    Action::Execute(command)
                } else if self.stage == 1 {
                    Action::ReadInterruptFlags
                } else {
                    Action::ClearFlag(Flag::Done)
                },
                Step::CopyWord { destination, source } => Action::CopyWord { destination, source },
                Step::SetAddress(address) => {
                    assert(address & 0x00ff_ffff == address % 0x100_0000) by (bit_vector);
                    Action::WriteAddress(address & 0x00ff_ffff)
                },
                Step::DecodeErrors => if self.stage == 0 {
                    Action::ReadInterruptFlags
                } else if self.stage == 1 {
                    Action::ClearFlag(Flag::AddressError)
                } else if self.stage == 2 {
                    Action::ClearFlag(Flag::LockError)
                } else {
                    Action::ClearFlag(Flag::ProgrammingError)
                },
                Step::SetPowerReductionMode(mode) => Action::SetPowerReductionMode(mode),
                Step::Unreachable => Action::Fatal,
            },
        }
    }

    /// Whether the operation is over.
    pub fn is_finished(&self) -> (finished: bool)
        ensures
            finished == self@.finished(),
    {
        proof {
            use_type_invariant(self);
        }
        self.job.head().is_none()
    }

    /// Take in the answer to the pending action.
    pub fn advance(&mut self, response: Response)
        ensures
            final(self)@ == old(self)@.next(response),
    {
        proof {
            use_type_invariant(&*self);
        }
        let done = match response {
            Response::Done => true,
            _ => false,
        };
        let next = match self.job.head() {
            None => *self,
            Some(step) => match step {
                Step::WaitReady => match response {
                    Response::Status(status) => if status.ready {
                        self.proceed()
                    } else {
                        *self
                    },
                    _ => *self,
                },
                Step::Command(_) => if self.stage == 0 {
                    if done {
                        self.at(1)
                    } else {
                        *self
                    }
                } else if self.stage == 1 {
                    match response {
                        Response::InterruptFlags(flags) => if flags.done {
                            self.at(2)
                        } else {
                            *self
                        },
                        _ => *self,
                    }
                } else {
                    if done {
                        self.proceed()
                    } else {
                        *self
                    }
                },
                Step::CopyWord { .. } | Step::SetAddress(_) | Step::SetPowerReductionMode(_) => {
                    if done {
                        self.proceed()
                    } else {
                        *self
                    }
                },
                Step::DecodeErrors => if self.stage == 0 {
                    match response {
                        Response::InterruptFlags(flags) => Operation {
                            job: self.job,
                            stage: 1,
                            outcome: manage_error_states(&flags),
                        },
                        _ => *self,
                    }
                } else if self.stage < 3 {
                    if done {
                        self.at(self.stage + 1)
                    } else {
                        *self
                    }
                } else {
                    if done {
                        if self.outcome.is_ok() {
                            self.proceed()
                        } else {
                            Operation { job: Job::Finished, stage: 0, outcome: self.outcome }
                        }
                    } else {
                        *self
                    }
                },
                Step::Unreachable => *self,
            },
        };
        *self = next;
    }

    /// The same step, `stage` accesses in.
    fn at(&self, stage: u8) -> (operation: Operation)
        ensures
            operation@ == self@.at(stage as nat),
    {
        proof {
            use_type_invariant(self);
        }
        Operation { job: self.job, stage, outcome: self.outcome }
    }

    /// On to the next step.
    fn proceed(&self) -> (operation: Operation)
        requires
            !self@.finished(),
        ensures
            operation@ == self@.proceed(),
    {
        proof {
            use_type_invariant(self);
        }
        Operation { job: self.job.tail(), stage: 0, outcome: self.outcome }
    }
}

} // verus!
