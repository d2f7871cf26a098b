//! Seccomp filters: what a filter decides, and its compilation to a program
//! that the kernel runs on every system call.
//!
//! A filter maps system call numbers to chains of rules. A rule is a list of
//! conditions that must all hold; a chain matches when one of its rules does,
//! and an empty chain matches whatever the arguments are. A system call that
//! matches gets the filter's match action, every other one its mismatch
//! action.

use seccompiler::BackendError;
use seccompiler::SeccompCondition;
use seccompiler::SeccompFilter;
use seccompiler::SeccompRule;
use std::collections::BTreeMap;
use vstd::prelude::*;

verus! {

/// How much of an argument a condition compares.
#[derive(Clone, Copy, PartialEq, Eq, Structural, Debug)]
pub enum ArgLen {
    /// The low 32 bits.
    Dword,
    /// All 64 bits.
    Qword,
}

/// How a condition compares an argument with its value.
#[derive(Clone, Copy, PartialEq, Eq, Structural, Debug)]
pub enum CmpOp {
    /// They are equal.
    Eq,
    /// They differ.
    Ne,
    /// They are equal in the bits of the mask.
    MaskedEq(u64),
}

/// A comparison of one system call argument with a value.
#[derive(Clone, Copy, PartialEq, Eq, Structural, Debug)]
pub struct Condition {
    /// Which argument, counted from zero.
    pub arg_index: u8,
    /// How much of it.
    pub arg_len: ArgLen,
    /// How it is compared.
    pub op: CmpOp,
    /// With what.
    pub value: u64,
}

/// What the kernel does with a system call.
#[derive(Clone, Copy, PartialEq, Eq, Structural, Debug)]
pub enum FilterAction {
    /// Let it through.
    Allow,
    /// Fail it with this error number.
    Errno(u32),
    /// Kill the calling thread.
    KillThread,
    /// Kill the calling process.
    KillProcess,
    /// Let it through after logging it.
    Log,
    /// Notify the caller's tracing process with this number.
    Trace(u32),
    /// Send `SIGSYS` to the calling process.
    Trap,
}

/// The processor architecture that a filter is compiled for.
#[derive(Clone, Copy, PartialEq, Eq, Structural, Debug)]
pub enum Arch {
    /// x86-64.
    X86_64,
    /// AArch64.
    Aarch64,
    /// RISC-V, 64 bits.
    Riscv64,
}

/// One instruction of a classic BPF program.
#[derive(Clone, Copy, PartialEq, Eq, Structural, Debug)]
pub struct Instruction {
    /// The operation.
    pub code: u16,
    /// Instructions to skip when a comparison holds.
    pub jt: u8,
    /// Instructions to skip when it does not.
    pub jf: u8,
    /// The operand.
    pub k: u32,
}

/// A filter: chains of rules by system call number, and the two actions.
pub struct FilterView {
    pub rules: Map<i64, Seq<Seq<Condition>>>,
    pub mismatch_action: FilterAction,
    pub match_action: FilterAction,
    pub arch: Arch,
}

/// The part of a value that a condition of this length compares.
pub open spec fn operand(len: ArgLen, value: u64) -> u64 {
    match len {
        ArgLen::Dword => value & 0xffff_ffff,
        ArgLen::Qword => value,
    }
}

/// Whether `condition` holds of a call with these arguments.
pub open spec fn condition_holds(condition: Condition, args: Seq<u64>) -> bool {
    let left = operand(condition.arg_len, args[condition.arg_index as int]);
    let right = operand(condition.arg_len, condition.value);
    match condition.op {
        CmpOp::Eq => left == right,
        CmpOp::Ne => left != right,
        CmpOp::MaskedEq(mask) => left & mask == right & mask,
    }
}

/// Whether every condition of `rule` holds.
pub open spec fn rule_holds(rule: Seq<Condition>, args: Seq<u64>) -> bool {
    forall|i: int| 0 <= i < rule.len() ==> condition_holds(#[trigger] rule[i], args)
}

/// Whether `chain` matches: it is empty, or one of its rules holds.
pub open spec fn chain_holds(chain: Seq<Seq<Condition>>, args: Seq<u64>) -> bool {
    chain.len() == 0 || exists|i: int| 0 <= i < chain.len() && rule_holds(#[trigger] chain[i], args)
}

impl FilterView {
    /// What the filter does with the system call `nr` on these arguments.
    pub open spec fn verdict(self, nr: i64, args: Seq<u64>) -> FilterAction {
        if self.rules.dom().contains(nr) && chain_holds(self.rules[nr], args) {
            self.match_action
        } else {
            self.mismatch_action
        }
    }

    /// Whether every number can be a system call number and no rule is longer
    /// than any that a filter here needs.
    pub open spec fn is_compilable(self) -> bool {
        forall|nr: i64| #[trigger]
            self.rules.dom().contains(nr) ==> {
                &&& 0 <= nr <= u32::MAX
                &&& forall|i: int|
                    0 <= i < self.rules[nr].len() ==> 1 <= (#[trigger] self.rules[nr][i]).len() <= 8
            }
    }
}

impl FilterView {
    /// Whether a filter is sure to compile to a program within the kernel's
    /// limit: it has at most 400 numbers, at most eight of them with rules, and
    /// those with at most eight rules of at most two conditions each.
    pub open spec fn is_small(self) -> bool {
        &&& self.rules.dom().finite()
        &&& self.rules.dom().len() <= 400
        &&& self.rules.dom().filter(|nr: i64| self.rules[nr].len() > 0).len() <= 8
        &&& forall|nr: i64| #[trigger]
            self.rules.dom().contains(nr) ==> {
                &&& self.rules[nr].len() <= 8
                &&& forall|i: int|
                    0 <= i < self.rules[nr].len() ==> (#[trigger] self.rules[nr][i]).len() <= 2
            }
    }
}

/// What a program reads: the architecture word, the system call number and
/// its six arguments.
pub struct SyscallData {
    pub arch: u32,
    pub nr: u32,
    pub args: Seq<u64>,
}

/// The 32-bit word at byte `offset` of the system call data.
pub open spec fn data_word(data: SyscallData, offset: u32) -> u32 {
    if offset == 0 {
        data.nr
    } else if offset == 4 {
        data.arch
    } else {
        let arg = data.args[(offset - 16) / 8];
        if offset % 8 == 0 {
            (arg & 0xffff_ffff) as u32
        } else {
            (arg >> 32) as u32
        }
    }
}

/// Runs `program` from instruction `pc` with `acc` in the accumulator, and
/// gives the word that it returns. `None` where the program runs off its end
/// or holds an operation other than the six below.
pub open spec fn run_from(
    program: Seq<Instruction>,
    data: SyscallData,
    pc: int,
    acc: u32,
) -> Option<u32>
    decreases
            (if pc < program.len() {
                program.len() - pc
            } else {
                0
            }),
{
    if !(0 <= pc < program.len()) {
        None
    } else {
        let at = program[pc];
        if at.code == 0x20 {
            // Load the word at `k`.
            run_from(program, data, pc + 1, data_word(data, at.k))
        } else if at.code == 0x54 {
            // And with `k`.
            run_from(program, data, pc + 1, acc & at.k)
        } else if at.code == 0x05 {
            // Jump ahead by `k`.
            run_from(program, data, pc + 1 + at.k, acc)
        } else if at.code == 0x15 {
            // Compare with `k`.
            run_from(
                program,
                data,
                pc + 1 + (if acc == at.k {
                    at.jt
                } else {
                    at.jf
                }),
                acc,
            )
        } else if at.code == 0x06 {
            // Return `k`.
            Some(at.k)
        } else {
            None
        }
    }
}

/// The word that a program returns for an action.
pub open spec fn action_word(action: FilterAction) -> u32 {
    match action {
        FilterAction::Allow => 0x7fff_0000,
        FilterAction::Errno(errno) => 0x0005_0000 | (errno & 0xffff),
        FilterAction::KillThread => 0,
        FilterAction::KillProcess => 0x8000_0000,
        FilterAction::Log => 0x7ffc_0000,
        FilterAction::Trace(number) => 0x7ff0_0000 | (number & 0xffff),
        FilterAction::Trap => 0x0003_0000,
    }
}

/// The word by which the kernel names an architecture.
pub open spec fn audit_word(arch: Arch) -> u32 {
    match arch {
        Arch::X86_64 => 0xC000_003E,
        Arch::Aarch64 => 0xC000_00B7,
        Arch::Riscv64 => 0xC000_00F3,
    }
}

/// Whether `program` decides every system call of the filter's architecture as
/// `filter` does.
pub open spec fn implements(program: Seq<Instruction>, filter: FilterView) -> bool {
    forall|nr: i64, args: Seq<u64>|
        0 <= nr <= u32::MAX && args.len() == 6 ==> #[trigger] decision(
            program,
            filter.arch,
            nr,
            args,
        ) == Some(action_word(filter.verdict(nr, args)))
}

/// What `program` returns for the system call `nr` with these arguments.
pub open spec fn decision(
    program: Seq<Instruction>,
    arch: Arch,
    nr: i64,
    args: Seq<u64>,
) -> Option<u32> {
    run_from(program, SyscallData { arch: audit_word(arch), nr: nr as u32, args }, 0, 0)
}

#[verifier::external_type_specification]
#[verifier::external_body]
pub struct ExSeccompCondition(SeccompCondition);

#[verifier::external_type_specification]
#[verifier::external_body]
pub struct ExSeccompRule(SeccompRule);

#[verifier::external_type_specification]
#[verifier::external_body]
pub struct ExSeccompFilter(SeccompFilter);

#[verifier::external_type_specification]
#[verifier::external_body]
pub struct ExBackendError(BackendError);

/// The comparison that a `SeccompCondition` holds.
pub uninterp spec fn condition_contents(condition: SeccompCondition) -> Condition;

/// The conditions that a `SeccompRule` holds, in order.
pub uninterp spec fn rule_contents(rule: SeccompRule) -> Seq<Condition>;

/// The rules and actions that a `SeccompFilter` holds.
pub uninterp spec fn filter_contents(filter: SeccompFilter) -> FilterView;

/// The program that the conversion of a `SeccompFilter` to a `BpfProgram`
/// gives for a filter, or the text of its error.
pub uninterp spec fn compiled(filter: FilterView) -> Result<Seq<Instruction>, Seq<char>>;

/// The architecture that `TargetArch::try_from` reads in a name; `None` where
/// it fails.
pub uninterp spec fn parsed_arch(name: Seq<char>) -> Option<Arch>;

/// The conditions of each condition value in a list.
pub open spec fn conditions_view(conditions: Seq<SeccompCondition>) -> Seq<Condition> {
    Seq::new(conditions.len(), |i: int| condition_contents(conditions[i]))
}

/// The conditions of each rule in a chain.
pub open spec fn chain_view(chain: Seq<SeccompRule>) -> Seq<Seq<Condition>> {
    Seq::new(chain.len(), |i: int| rule_contents(chain[i]))
}

/// The conditions of each rule of each chain in a table.
pub open spec fn table_view(table: Map<i64, Vec<SeccompRule>>) -> Map<i64, Seq<Seq<Condition>>> {
    Map::new(|nr: i64| table.dom().contains(nr), |nr: i64| chain_view(table[nr]@))
}

/// Calls `SeccompCondition::new`, which checks that there is an argument with
/// that index (a system call has six) and otherwise keeps what it is given.
#[verifier::external_body]
pub(crate) fn new_condition(condition: Condition) -> (r: Result<SeccompCondition, BackendError>)
    ensures
        r is Ok <==> condition.arg_index <= 5,
        r matches Ok(built) ==> condition_contents(built) == condition,
{
    let arg_len = match condition.arg_len {
        ArgLen::Dword => seccompiler::SeccompCmpArgLen::Dword,
        ArgLen::Qword => seccompiler::SeccompCmpArgLen::Qword,
    };
    let op = match condition.op {
        CmpOp::Eq => seccompiler::SeccompCmpOp::Eq,
        CmpOp::Ne => seccompiler::SeccompCmpOp::Ne,
        CmpOp::MaskedEq(mask) => seccompiler::SeccompCmpOp::MaskedEq(mask),
    };
    SeccompCondition::new(condition.arg_index, arg_len, op, condition.value)
}

/// Calls `SeccompRule::new`, which refuses an empty list and otherwise keeps
/// the conditions that it is given.
#[verifier::external_body]
pub(crate) fn new_rule(conditions: Vec<SeccompCondition>) -> (r: Result<SeccompRule, BackendError>)
    ensures
        r is Ok <==> conditions@.len() > 0,
        r matches Ok(built) ==> rule_contents(built) == conditions_view(conditions@),
{
    SeccompRule::new(conditions)
}

/// Calls `SeccompFilter::new`, which refuses two equal actions and otherwise
/// keeps what it is given.
#[verifier::external_body]
pub(crate) fn new_filter(
    rules: BTreeMap<i64, Vec<SeccompRule>>,
    mismatch_action: FilterAction,
    match_action: FilterAction,
    arch: Arch,
) -> (r: Result<SeccompFilter, BackendError>)
    ensures
        r is Ok <==> mismatch_action != match_action,
        r matches Ok(built) ==> filter_contents(built) == (FilterView {
            rules: table_view(rules@),
            mismatch_action,
            match_action,
            arch,
        }),
{
    let action = |action: FilterAction| match action {
        FilterAction::Allow => seccompiler::SeccompAction::Allow,
        FilterAction::Errno(errno) => seccompiler::SeccompAction::Errno(errno),
        FilterAction::KillThread => seccompiler::SeccompAction::KillThread,
        FilterAction::KillProcess => seccompiler::SeccompAction::KillProcess,
        FilterAction::Log => seccompiler::SeccompAction::Log,
        FilterAction::Trace(number) => seccompiler::SeccompAction::Trace(number),
        FilterAction::Trap => seccompiler::SeccompAction::Trap,
    };
    let arch = match arch {
        Arch::X86_64 => seccompiler::TargetArch::x86_64,
        Arch::Aarch64 => seccompiler::TargetArch::aarch64,
        Arch::Riscv64 => seccompiler::TargetArch::riscv64,
    };
    SeccompFilter::new(rules, action(mismatch_action), action(match_action), arch)
}

/// Calls the conversion of a `SeccompFilter` to a `BpfProgram`. It fails only
/// on a filter whose program would be as long as the kernel's limit of 4096
/// instructions or longer. A number without rules takes five instructions; one
/// with rules takes two, and each of its rules three and at most six for every
/// condition; so a small filter stays below that. The program returns, for every system call, the
/// word of the action that the filter has for it; it starts with three
/// instructions that check the architecture, and ends in a return. A number
/// that does not fit 32 bits makes the conversion panic. Where it fails, the
/// wrapper gives the error's `Display` text.
#[verifier::external_body]
pub(crate) fn compile(filter: SeccompFilter) -> (r: Result<Vec<Instruction>, String>)
    requires
        filter_contents(filter).is_compilable(),
    ensures
        r is Ok <==> compiled(filter_contents(filter)) is Ok,
        filter_contents(filter).is_small() ==> r is Ok,
        r matches Ok(program) ==> program@ == compiled(filter_contents(filter))->Ok_0,
        r matches Ok(program) ==> 4 <= program@.len() < 4096,
        r matches Ok(program) ==> implements(program@, filter_contents(filter)),
        r matches Err(text) ==> text@ == compiled(filter_contents(filter))->Err_0,
{
    let program: seccompiler::BpfProgram = match filter.try_into() {
        Ok(program) => program,
        Err(error) => return Err(BackendError::to_string(&error)),
    };
    Ok(
        program.into_iter().map(
            |at: seccompiler::sock_filter|
                Instruction { code: at.code, jt: at.jt, jf: at.jf, k: at.k },
        ).collect(),
    )
}

/// The architecture of this name, in lower case.
pub open spec fn arch_named(name: Seq<char>) -> Option<Arch> {
    if name == "x86_64"@ {
        Some(Arch::X86_64)
    } else if name == "aarch64"@ {
        Some(Arch::Aarch64)
    } else if name == "riscv64"@ {
        Some(Arch::Riscv64)
    } else {
        None
    }
}

/// A string with its ASCII capitals in lower case.
pub open spec fn lowercase(text: Seq<char>) -> Seq<char> {
    Seq::new(
        text.len(),
        |i: int|
            if 'A' <= text[i] && text[i] <= 'Z' {
                (text[i] as u32 + 32) as char
            } else {
                text[i]
            },
    )
}

/// Calls `TargetArch::try_from`, which lowers the case of a name and knows
/// three architectures. Which of the names outside ASCII it knows, if any, is
/// left unsaid.
#[verifier::external_body]
pub(crate) fn parse_arch(name: &str) -> (r: Result<Arch, BackendError>)
    ensures
        r is Ok <==> parsed_arch(name@) is Some,
        r matches Ok(arch) ==> Some(arch) == parsed_arch(name@),
        vstd::utf8::is_ascii_chars(name@) ==> (r is Ok <==> arch_named(lowercase(name@)) is Some),
        vstd::utf8::is_ascii_chars(name@) && r is Ok ==> Some(r->Ok_0) == arch_named(
            lowercase(name@),
        ),
{
    match seccompiler::TargetArch::try_from(name)? {
        seccompiler::TargetArch::x86_64 => Ok(Arch::X86_64),
        seccompiler::TargetArch::aarch64 => Ok(Arch::Aarch64),
        seccompiler::TargetArch::riscv64 => Ok(Arch::Riscv64),
    }
}

} // verus!
