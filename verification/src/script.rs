//! The steps of each operation, in the order in which they are taken.
//!
//! A step is one call on the command sequencer or the error decoder. The
//! script of an operation is the whole sequence of its steps, as a function of
//! the request alone: no answer of the hardware changes it, except that an
//! error found by [`Step::DecodeErrors`] ends it there.
use vstd::prelude::*;
use crate::geometry::{BLOCKSIZE, PAGESIZE};
use crate::registers::{Command, PowerReductionMode};

verus! {

/// Data erased per command
#[derive(Copy, Clone, Debug, PartialEq, Eq)]
pub enum EraseGranularity {
    /// One block. This erase type is supported by main memory
    Block,
    /// One page. This erase type is supported for the AUX memory
    Page,
}

impl EraseGranularity {
    /// The command that erases one unit.
    pub open spec fn erase_command(self) -> Command {
        match self {
            EraseGranularity::Block => Command::EraseBlock,
            EraseGranularity::Page => Command::ErasePage,
        }
    }

    /// The size of one unit in bytes.
    pub open spec fn unit(self) -> u32 {
        match self {
            EraseGranularity::Block => BLOCKSIZE,
            EraseGranularity::Page => PAGESIZE,
        }
    }

    /// The command that erases one unit.
    pub fn command(&self) -> (command: Command)
        ensures
            command == self.erase_command(),
    {
        match self {
            EraseGranularity::Block => Command::EraseBlock,
            EraseGranularity::Page => Command::ErasePage,
        }
    }

    /// The size of one unit in bytes.
    pub fn size(&self) -> (size: u32)
        ensures
            size == self.unit(),
            size == 512 || size == 8192,
    {
        match self {
            EraseGranularity::Block => BLOCKSIZE,
            EraseGranularity::Page => PAGESIZE,
        }
    }
}

/// One step of an operation.
#[derive(Copy, Clone, Debug, PartialEq, Eq)]
pub enum Step {
    /// Wait until the controller is ready.
    WaitReady,
    /// Execute a command and wait until it is done.
    Command(Command),
    /// Copy one 32-bit word from `source` to `destination`. The store lands
    /// in the page buffer.
    CopyWord { destination: u32, source: u32 },
    /// Point the address register at a unit.
    SetAddress(u32),
    /// Read the error flags, clear them, and end the operation if one was set.
    DecodeErrors,
    /// Set the power reduction mode.
    SetPowerReductionMode(PowerReductionMode),
    /// The device should have reset before this step: reaching it is fatal.
    Unreachable,
}

/// Whether the word at `address` is the last one of its page, so that the page
/// buffer is full once it is stored.
pub open spec fn closes_page(address: int) -> bool {
    address % (PAGESIZE as int) >= PAGESIZE - 4
}

/// The end of a write: wait for the last page write, commit what is still in
/// the page buffer, and check for errors.
pub open spec fn flush_script(dirty: bool) -> Seq<Step> {
    if dirty {
        seq![Step::WaitReady, Step::Command(Command::WritePage), Step::DecodeErrors]
    } else {
        seq![Step::WaitReady, Step::DecodeErrors]
    }
}

/// Copying `words` words, then the end of the write. After each word that
/// closes a page the page is written; `dirty` tells whether the page buffer
/// holds words that no page write has committed yet.
pub open spec fn copy_script(destination: int, source: int, words: nat, dirty: bool) -> Seq<Step>
    decreases words,
{
    if words == 0 {
        flush_script(dirty)
    } else {
        let copy = Step::CopyWord { destination: destination as u32, source: source as u32 };
        if closes_page(destination) {
            seq![copy, Step::WaitReady, Step::Command(Command::WritePage)] + copy_script(
                destination + 4,
                source + 4,
                (words - 1) as nat,
                false,
            )
        } else {
            seq![copy] + copy_script(destination + 4, source + 4, (words - 1) as nat, true)
        }
    }
}

/// The steps of a write of `words` words: clear the page buffer, then copy.
pub open spec fn write_script(destination: int, source: int, words: nat) -> Seq<Step> {
    seq![Step::WaitReady, Step::Command(Command::PageBufferClear)] + copy_script(
        destination,
        source,
        words,
        false,
    )
}

/// The steps that erase the unit at `address`.
pub open spec fn erase_unit_script(address: int, granularity: EraseGranularity) -> Seq<Step> {
    seq![
        Step::SetAddress(address as u32),
        Step::WaitReady,
        Step::Command(granularity.erase_command()),
        Step::DecodeErrors,
    ]
}

/// The steps of an erase of `units` units from `address` on, one unit after
/// the other.
pub open spec fn erase_script(address: int, units: nat, granularity: EraseGranularity) -> Seq<Step>
    decreases units,
{
    if units == 0 {
        Seq::empty()
    } else {
        erase_unit_script(address, granularity) + erase_script(
            address + granularity.unit(),
            (units - 1) as nat,
            granularity,
        )
    }
}

/// The command that brings boot protection into the state `protect`.
pub open spec fn boot_protection_command(protect: bool) -> Command {
    if protect {
        Command::ClearBootProtectionDisable
    } else {
        Command::SetBootProtectionDisable
    }
}

/// The steps that switch boot protection on or off.
pub open spec fn boot_protection_script(protect: bool) -> Seq<Step> {
    seq![Step::WaitReady, Step::Command(boot_protection_command(protect)), Step::DecodeErrors]
}

/// The steps of a bank swap. The command resets the device, so the second
/// step is never reached on a device that works.
pub open spec fn bank_swap_script() -> Seq<Step> {
    seq![Step::Command(Command::BankSwapReset), Step::Unreachable]
}

/// The one step that sets the power reduction mode.
pub open spec fn power_reduction_script(mode: PowerReductionMode) -> Seq<Step> {
    seq![Step::SetPowerReductionMode(mode)]
}

/// The commands that a script executes, in order.
pub open spec fn commands(steps: Seq<Step>) -> Seq<Command>
    decreases steps.len(),
{
    if steps.len() == 0 {
        Seq::empty()
    } else {
        let rest = commands(steps.skip(1));
        match steps[0] {
            Step::Command(command) => seq![command] + rest,
            _ => rest,
        }
    }
}

/// The words that a script copies, in order, each as its destination and its
/// source.
pub open spec fn copies(steps: Seq<Step>) -> Seq<(u32, u32)>
    decreases steps.len(),
{
    if steps.len() == 0 {
        Seq::empty()
    } else {
        let rest = copies(steps.skip(1));
        match steps[0] {
            Step::CopyWord { destination, source } => seq![(destination, source)] + rest,
            _ => rest,
        }
    }
}

/// The number of pages that `words` words from `destination` on reach into.
pub open spec fn pages_touched(destination: int, words: nat) -> nat {
    if words == 0 {
        0
    } else {
        ((destination + 4 * words - 1) / 512 - destination / 512 + 1) as nat
    }
}

/// The commands of two scripts run one after the other are those of the
/// first, then those of the second.
pub proof fn lemma_commands_concat(first: Seq<Step>, second: Seq<Step>)
    ensures
        commands(first + second) == commands(first) + commands(second),
    decreases first.len(),
{
    if first.len() == 0 {
        assert(first + second =~= second);
        assert(commands(first) + commands(second) =~= commands(second));
    } else {
        lemma_commands_concat(first.skip(1), second);
        assert((first + second).skip(1) =~= first.skip(1) + second);
        assert(commands(first + second) =~= commands(first) + commands(second));
    }
}

/// The words copied by two scripts run one after the other are those of the
/// first, then those of the second.
pub proof fn lemma_copies_concat(first: Seq<Step>, second: Seq<Step>)
    ensures
        copies(first + second) == copies(first) + copies(second),
    decreases first.len(),
{
    if first.len() == 0 {
        assert(first + second =~= second);
        assert(copies(first) + copies(second) =~= copies(second));
    } else {
        lemma_copies_concat(first.skip(1), second);
        assert((first + second).skip(1) =~= first.skip(1) + second);
        assert(copies(first + second) =~= copies(first) + copies(second));
    }
}

/// What a script of one step executes and copies.
proof fn lemma_single(step: Step)
    ensures
        commands(seq![step]) == match step {
            Step::Command(command) => seq![command],
            _ => Seq::empty(),
        },
        copies(seq![step]) == match step {
            Step::CopyWord { destination, source } => seq![(destination, source)],
            _ => Seq::empty(),
        },
{
    let steps = seq![step];
    assert(steps.skip(1) =~= Seq::empty());
    assert(commands(steps.skip(1)) =~= Seq::empty());
    assert(copies(steps.skip(1)) =~= Seq::empty());
    match step {
        Step::Command(command) => {
            assert(commands(steps) =~= seq![command]);
        },
        _ => {},
    }
    match step {
        Step::CopyWord { destination, source } => {
            assert(copies(steps) =~= seq![(destination, source)]);
        },
        _ => {},
    }
}

/// What a script executes and copies, told from its first step.
proof fn lemma_first(step: Step, rest: Seq<Step>)
    ensures
        commands(seq![step] + rest) == commands(seq![step]) + commands(rest),
        copies(seq![step] + rest) == copies(seq![step]) + copies(rest),
{
    lemma_commands_concat(seq![step], rest);
    lemma_copies_concat(seq![step], rest);
}

/// From a word-aligned destination, copying executes one page write for each
/// page that the words reach into, and nothing else. Where no word is left
/// it executes one if the page buffer is dirty.
proof fn lemma_copy_commands(destination: int, source: int, words: nat, dirty: bool)
    requires
        destination >= 0,
        destination % 4 == 0,
    ensures
        commands(copy_script(destination, source, words, dirty)) == Seq::new(
            if words == 0 {
                if dirty {
                    1nat
                } else {
                    0nat
                }
            } else {
                pages_touched(destination, words)
            },
            |i: int| Command::WritePage,
        ),
    decreases words,
{
    let flush = Step::Command(Command::WritePage);
    if words == 0 {
        lemma_single(Step::WaitReady);
        lemma_single(flush);
        lemma_single(Step::DecodeErrors);
        if dirty {
            assert(flush_script(dirty) =~= seq![Step::WaitReady] + (seq![flush]
                + seq![Step::DecodeErrors]));
            lemma_first(flush, seq![Step::DecodeErrors]);
            lemma_first(Step::WaitReady, seq![flush] + seq![Step::DecodeErrors]);
            assert(commands(flush_script(dirty)) =~= Seq::new(1, |i: int| Command::WritePage));
        } else {
            assert(flush_script(dirty) =~= seq![Step::WaitReady] + seq![Step::DecodeErrors]);
            lemma_first(Step::WaitReady, seq![Step::DecodeErrors]);
            assert(commands(flush_script(dirty)) =~= Seq::new(0, |i: int| Command::WritePage));
        }
    } else {
        let copy = Step::CopyWord { destination: destination as u32, source: source as u32 };
        let left = (words - 1) as nat;
        lemma_single(copy);
        lemma_single(Step::WaitReady);
        lemma_single(flush);
        if closes_page(destination) {
            let rest = copy_script(destination + 4, source + 4, left, false);
            lemma_copy_commands(destination + 4, source + 4, left, false);
            assert(copy_script(destination, source, words, dirty) =~= seq![copy] + (seq![
                Step::WaitReady,
            ] + (seq![flush] + rest)));
            lemma_first(flush, rest);
            lemma_first(Step::WaitReady, seq![flush] + rest);
            lemma_first(copy, seq![Step::WaitReady] + (seq![flush] + rest));
            assert(commands(copy_script(destination, source, words, dirty)) =~= Seq::new(
                pages_touched(destination, words),
                |i: int| Command::WritePage,
            ));
        } else {
            let rest = copy_script(destination + 4, source + 4, left, true);
            lemma_copy_commands(destination + 4, source + 4, left, true);
            lemma_first(copy, rest);
            assert(commands(copy_script(destination, source, words, dirty)) =~= Seq::new(
                pages_touched(destination, words),
                |i: int| Command::WritePage,
            ));
        }
    }
}

/// A write from a word-aligned destination clears the page buffer once, then
/// writes one page for each page that its words reach into: one at each page
/// boundary that it crosses, and one more for the words behind the last
/// boundary, if there are any.
pub proof fn lemma_write_commands(destination: int, source: int, words: nat)
    requires
        destination >= 0,
        destination % 4 == 0,
    ensures
        commands(write_script(destination, source, words)) == seq![Command::PageBufferClear]
            + Seq::new(pages_touched(destination, words), |i: int| Command::WritePage),
{
    let clear = Step::Command(Command::PageBufferClear);
    let rest = copy_script(destination, source, words, false);
    lemma_copy_commands(destination, source, words, false);
    lemma_single(Step::WaitReady);
    lemma_single(clear);
    assert(write_script(destination, source, words) =~= seq![Step::WaitReady] + (seq![clear]
        + rest));
    lemma_first(clear, rest);
    lemma_first(Step::WaitReady, seq![clear] + rest);
    assert(commands(write_script(destination, source, words)) =~= seq![Command::PageBufferClear]
        + Seq::new(pages_touched(destination, words), |i: int| Command::WritePage));
}

/// Copying copies each of the words once, in ascending order.
proof fn lemma_copy_copies(destination: int, source: int, words: nat, dirty: bool)
    ensures
        copies(copy_script(destination, source, words, dirty)) == Seq::new(
            words,
            |i: int| ((destination + 4 * i) as u32, (source + 4 * i) as u32),
        ),
    decreases words,
{
    let flush = Step::Command(Command::WritePage);
    let all = Seq::new(words, |i: int| ((destination + 4 * i) as u32, (source + 4 * i) as u32));
    lemma_single(Step::WaitReady);
    lemma_single(flush);
    lemma_single(Step::DecodeErrors);
    if words == 0 {
        if dirty {
            assert(flush_script(dirty) =~= seq![Step::WaitReady] + (seq![flush]
                + seq![Step::DecodeErrors]));
            lemma_first(flush, seq![Step::DecodeErrors]);
            lemma_first(Step::WaitReady, seq![flush] + seq![Step::DecodeErrors]);
        } else {
            assert(flush_script(dirty) =~= seq![Step::WaitReady] + seq![Step::DecodeErrors]);
            lemma_first(Step::WaitReady, seq![Step::DecodeErrors]);
        }
        assert(copies(flush_script(dirty)) =~= all);
    } else {
        let copy = Step::CopyWord { destination: destination as u32, source: source as u32 };
        let left = (words - 1) as nat;
        let behind = Seq::new(
            left,
            |i: int| ((destination + 4 + 4 * i) as u32, (source + 4 + 4 * i) as u32),
        );
        lemma_single(copy);
        assert(seq![(destination as u32, source as u32)] + behind =~= all);
        if closes_page(destination) {
            let rest = copy_script(destination + 4, source + 4, left, false);
            lemma_copy_copies(destination + 4, source + 4, left, false);
            assert(copy_script(destination, source, words, dirty) =~= seq![copy] + (seq![
                Step::WaitReady,
            ] + (seq![flush] + rest)));
            lemma_first(flush, rest);
            lemma_first(Step::WaitReady, seq![flush] + rest);
            lemma_first(copy, seq![Step::WaitReady] + (seq![flush] + rest));
            assert(copies(copy_script(destination, source, words, dirty)) =~= all);
        } else {
            let rest = copy_script(destination + 4, source + 4, left, true);
            lemma_copy_copies(destination + 4, source + 4, left, true);
            lemma_first(copy, rest);
            assert(copies(copy_script(destination, source, words, dirty)) =~= all);
        }
    }
}

/// A write copies each of its words once, in ascending order: word `i` from
/// `source + 4 * i` to `destination + 4 * i`.
pub proof fn lemma_write_copies(destination: int, source: int, words: nat)
    ensures
        copies(write_script(destination, source, words)) == Seq::new(
            words,
            |i: int| ((destination + 4 * i) as u32, (source + 4 * i) as u32),
        ),
{
    let clear = Step::Command(Command::PageBufferClear);
    let rest = copy_script(destination, source, words, false);
    lemma_copy_copies(destination, source, words, false);
    lemma_single(Step::WaitReady);
    lemma_single(clear);
    assert(write_script(destination, source, words) =~= seq![Step::WaitReady] + (seq![clear]
        + rest));
    lemma_first(clear, rest);
    lemma_first(Step::WaitReady, seq![clear] + rest);
    assert(copies(write_script(destination, source, words)) =~= copies(rest));
}

/// An erase takes four steps for each unit, and unit `i` is the one at
/// `address + i * unit`: the script is the scripts of its units, one after the
/// other in ascending order.
pub proof fn lemma_erase_units(address: int, units: nat, granularity: EraseGranularity, i: int)
    requires
        0 <= i < units,
    ensures
        erase_script(address, units, granularity).len() == 4 * units,
        erase_script(address, units, granularity).subrange(4 * i, 4 * i + 4) == erase_unit_script(
            address + i * granularity.unit(),
            granularity,
        ),
    decreases units,
{
    let unit = erase_unit_script(address, granularity);
    let rest = erase_script(address + granularity.unit(), (units - 1) as nat, granularity);
    lemma_erase_length(address, units, granularity);
    lemma_erase_length(address + granularity.unit(), (units - 1) as nat, granularity);
    if i == 0 {
        assert((unit + rest).subrange(0, 4) =~= unit);
    } else {
        lemma_erase_units(address + granularity.unit(), (units - 1) as nat, granularity, i - 1);
        assert((unit + rest).subrange(4 * i, 4 * i + 4) =~= rest.subrange(4 * (i - 1), 4 * (i - 1) + 4));
        assert(address + granularity.unit() + (i - 1) * granularity.unit() == address + i
            * granularity.unit()) by (nonlinear_arith);
    }
}

/// An erase takes four steps for each unit.
pub proof fn lemma_erase_length(address: int, units: nat, granularity: EraseGranularity)
    ensures
        erase_script(address, units, granularity).len() == 4 * units,
    decreases units,
{
    if units > 0 {
        lemma_erase_length(address + granularity.unit(), (units - 1) as nat, granularity);
    }
}

/// An erase executes the erase command of its granularity once for each unit,
/// and no other command.
pub proof fn lemma_erase_commands(address: int, units: nat, granularity: EraseGranularity)
    ensures
        commands(erase_script(address, units, granularity)) == Seq::new(
            units,
            |i: int| granularity.erase_command(),
        ),
    decreases units,
{
    let all = Seq::new(units, |i: int| granularity.erase_command());
    if units == 0 {
        assert(commands(erase_script(address, units, granularity)) =~= all);
    } else {
        let erase = Step::Command(granularity.erase_command());
        let rest = erase_script(address + granularity.unit(), (units - 1) as nat, granularity);
        lemma_erase_commands(address + granularity.unit(), (units - 1) as nat, granularity);
        lemma_single(Step::SetAddress(address as u32));
        lemma_single(Step::WaitReady);
        lemma_single(erase);
        lemma_single(Step::DecodeErrors);
        assert(erase_script(address, units, granularity) =~= seq![Step::SetAddress(address as u32)]
            + (seq![Step::WaitReady] + (seq![erase] + (seq![Step::DecodeErrors] + rest))));
        lemma_first(Step::DecodeErrors, rest);
        lemma_first(erase, seq![Step::DecodeErrors] + rest);
        lemma_first(Step::WaitReady, seq![erase] + (seq![Step::DecodeErrors] + rest));
        lemma_first(
            Step::SetAddress(address as u32),
            seq![Step::WaitReady] + (seq![erase] + (seq![Step::DecodeErrors] + rest)),
        );
        assert(commands(erase_script(address, units, granularity)) =~= all);
    }
}

} // verus!
