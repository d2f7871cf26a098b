//! The seccomp filters of the sandbox.
//!
//! The denylist filter lets every system call through except the
//! mandatory-deny list, the names that a policy adds, and the dangerous cases
//! of four otherwise harmless calls. The allowlist filter is its complement:
//! it stops everything but the names that a policy lists. Both come with an
//! overlay that makes `clone3` look unimplemented.

use crate::abi::AF_PACKET;
use crate::abi::ENOSYS;
use crate::abi::PR_SET_MM;
use crate::abi::SYS_CLONE3;
use crate::abi::SYS_CLONE;
use crate::abi::SYS_IOCTL;
use crate::abi::SYS_PRCTL;
use crate::abi::SYS_SOCKET;
use crate::abi::TIOCLINUX;
use crate::abi::TIOCSTI;
use crate::error::Cause;
use crate::error::CauseView;
use crate::error::FilterError;
use crate::error::FilterErrorView;
use crate::procedure::Op;
use crate::procedure::OpView;
use crate::procedure;
use crate::text;
use crate::unix::filter::Arch;
use crate::unix::filter::ArgLen;
use crate::unix::filter::CmpOp;
use crate::unix::filter::compile;
use crate::unix::filter::Condition;
use crate::unix::filter::FilterAction;
use crate::unix::filter::FilterView;
use crate::unix::filter::Instruction;
use crate::unix::filter::new_condition;
use crate::unix::filter::new_filter;
use crate::unix::filter::new_rule;
use crate::unix::filter::parse_arch;
use crate::unix::filter;
use crate::unix::syscalls::is_mandatory_deny_syscall;
use crate::unix::syscalls::is_survival_syscall;
use crate::unix::syscalls::mandatory_deny_syscall_nrs;
use crate::unix::syscalls::nr_for_name;
use crate::unix::syscalls;
use seccompiler::SeccompCondition;
use seccompiler::SeccompRule;
use std::collections::BTreeMap;
use vstd::prelude::*;

verus! {

/// All namespace-creation bits of `clone` together.
pub const CLONE_NEW_MASK: u64 = 0x7E02_0000;

/// The namespace-creation bits of `clone`: mount, cgroup, UTS, IPC, user, PID
/// and network.
pub const CLONE_NEW_BITS: [u64; 7] = [
    0x0002_0000,
    0x0200_0000,
    0x0400_0000,
    0x0800_0000,
    0x1000_0000,
    0x2000_0000,
    0x4000_0000,
];

/// The condition that the low half of argument `arg_index` equals `value`.
pub open spec fn low_half_is(arg_index: u8, value: u64) -> Condition {
    Condition { arg_index, arg_len: ArgLen::Dword, op: CmpOp::Eq, value }
}

/// The condition that the low half of argument `arg_index` differs from
/// `value`.
pub open spec fn low_half_is_not(arg_index: u8, value: u64) -> Condition {
    Condition { arg_index, arg_len: ArgLen::Dword, op: CmpOp::Ne, value }
}

/// The condition that argument 0 has exactly the bits `value` of `mask`.
pub open spec fn first_arg_masked(mask: u64, value: u64) -> Condition {
    Condition { arg_index: 0, arg_len: ArgLen::Qword, op: CmpOp::MaskedEq(mask), value }
}

/// The dangerous cases of `ioctl`: the two terminal-injection requests.
pub open spec fn ioctl_deny_chain() -> Seq<Seq<Condition>> {
    seq![seq![low_half_is(1, TIOCSTI)], seq![low_half_is(1, TIOCLINUX)]]
}

/// The dangerous cases of `clone`: each namespace-creation bit.
pub open spec fn clone_deny_chain() -> Seq<Seq<Condition>> {
    Seq::new(7, |i: int| seq![first_arg_masked(CLONE_NEW_BITS@[i], CLONE_NEW_BITS@[i])])
}

/// The dangerous case of `prctl`: rewriting memory-map descriptors.
pub open spec fn prctl_deny_chain() -> Seq<Seq<Condition>> {
    seq![seq![low_half_is(0, PR_SET_MM)]]
}

/// The dangerous case of `socket`: raw packet sockets.
pub open spec fn socket_deny_chain() -> Seq<Seq<Condition>> {
    seq![seq![low_half_is(0, AF_PACKET)]]
}

/// Whether `nr` is one of the four calls of which only some cases are
/// dangerous.
pub open spec fn is_guarded(nr: i64) -> bool {
    nr == SYS_IOCTL || nr == SYS_CLONE || nr == SYS_PRCTL || nr == SYS_SOCKET
}

/// The dangerous cases of a guarded call.
pub open spec fn deny_guard(nr: i64) -> Seq<Seq<Condition>> {
    if nr == SYS_IOCTL {
        ioctl_deny_chain()
    } else if nr == SYS_CLONE {
        clone_deny_chain()
    } else if nr == SYS_PRCTL {
        prctl_deny_chain()
    } else {
        socket_deny_chain()
    }
}

/// The harmless cases of a call: all of them, unless it is guarded.
pub open spec fn allow_guard(nr: i64) -> Seq<Seq<Condition>> {
    if nr == SYS_IOCTL {
        seq![seq![low_half_is_not(1, TIOCSTI), low_half_is_not(1, TIOCLINUX)]]
    } else if nr == SYS_CLONE {
        seq![seq![first_arg_masked(CLONE_NEW_MASK, 0)]]
    } else if nr == SYS_PRCTL {
        seq![seq![low_half_is_not(0, PR_SET_MM)]]
    } else if nr == SYS_SOCKET {
        seq![seq![low_half_is_not(0, AF_PACKET)]]
    } else {
        seq![]
    }
}

/// The denylist filter: blanket denies for the mandatory-deny list and the
/// extras, and the dangerous cases of the guarded calls that are not extras.
pub open spec fn denylist_filter(
    extra: Seq<i64>,
    deny_action: FilterAction,
    arch: Arch,
) -> FilterView {
    FilterView {
        rules: Map::new(
            |nr: i64| is_guarded(nr) || syscalls::is_mandatory_denied(nr) || extra.contains(nr),
            |nr: i64|
                if is_guarded(nr) && !extra.contains(nr) {
                    deny_guard(nr)
                } else {
                    seq![]
                },
        ),
        mismatch_action: FilterAction::Allow,
        match_action: deny_action,
        arch,
    }
}

/// The allowlist filter: the harmless cases of the listed calls, none of the
/// mandatory-deny list, and `clone3`, which its overlay answers.
pub open spec fn allowlist_filter(
    allowed: Seq<i64>,
    deny_action: FilterAction,
    arch: Arch,
) -> FilterView {
    FilterView {
        rules: Map::new(
            |nr: i64| nr == SYS_CLONE3 || (allowed.contains(nr) && !syscalls::is_mandatory_denied(nr)),
            |nr: i64| allow_guard(nr),
        ),
        mismatch_action: deny_action,
        match_action: FilterAction::Allow,
        arch,
    }
}

/// The overlay that fails `clone3` with `ENOSYS` and lets everything else
/// through. Its single rule holds whatever the arguments are.
pub open spec fn clone3_filter(arch: Arch) -> FilterView {
    FilterView {
        rules: Map::empty().insert(SYS_CLONE3, seq![seq![first_arg_masked(0, 0)]]),
        mismatch_action: FilterAction::Allow,
        match_action: FilterAction::Errno(ENOSYS),
        arch,
    }
}

/// What compiling a filter gives.
pub open spec fn finalized(filter: FilterView) -> Result<Seq<Instruction>, FilterErrorView> {
    if filter.mismatch_action == filter.match_action {
        Err(FilterErrorView::Creation)
    } else {
        match filter::compiled(filter) {
            Ok(program) => Ok(program),
            Err(reason) => Err(FilterErrorView::Compilation(reason)),
        }
    }
}

/// Whether filters can be built on the architecture of this name.
pub open spec fn is_supported_arch(name: Seq<char>) -> bool {
    filter::parsed_arch(name) == Some(Arch::X86_64)
}

/// Why filters cannot be built on the architecture of this name.
pub open spec fn arch_error(name: Seq<char>) -> FilterErrorView {
    if filter::parsed_arch(name) is None {
        FilterErrorView::UnsupportedArch(name)
    } else {
        FilterErrorView::UnnumberedArch(name)
    }
}

/// The denylist program for an architecture name.
pub open spec fn denylist_program(
    extra: Seq<i64>,
    deny_action: FilterAction,
    arch: Seq<char>,
) -> Result<Seq<Instruction>, FilterErrorView> {
    if is_supported_arch(arch) {
        finalized(denylist_filter(extra, deny_action, Arch::X86_64))
    } else {
        Err(arch_error(arch))
    }
}

/// The allowlist program for an architecture name.
pub open spec fn allowlist_program(
    allowed: Seq<i64>,
    deny_action: FilterAction,
    arch: Seq<char>,
) -> Result<Seq<Instruction>, FilterErrorView> {
    if is_supported_arch(arch) {
        finalized(allowlist_filter(allowed, deny_action, Arch::X86_64))
    } else {
        Err(arch_error(arch))
    }
}

/// The `clone3` overlay for an architecture name.
pub open spec fn clone3_program(arch: Seq<char>) -> Result<Seq<Instruction>, FilterErrorView> {
    if is_supported_arch(arch) {
        finalized(clone3_filter(Arch::X86_64))
    } else {
        Err(arch_error(arch))
    }
}

/// The model of a program or of why there is none.
pub open spec fn program_view(r: Result<Vec<Instruction>, FilterError>) -> Result<
    Seq<Instruction>,
    FilterErrorView,
> {
    match r {
        Ok(program) => Ok(program@),
        Err(error) => Err(error@),
    }
}

/// Builds a rule from its conditions.
fn build_rule(conditions: &[Condition]) -> (r: Result<SeccompRule, FilterError>)
    requires
        conditions@.len() > 0,
        forall|i: int| 0 <= i < conditions@.len() ==> (#[trigger] conditions@[i]).arg_index <= 5,
    ensures
        r is Ok,
        filter::rule_contents(r->Ok_0) == conditions@,
{
    let mut built: Vec<SeccompCondition> = Vec::new();
    let mut i: usize = 0;
    while i < conditions.len()
        invariant
            i <= conditions@.len(),
            built@.len() == i,
            forall|j: int| 0 <= j < conditions@.len() ==> (#[trigger] conditions@[j]).arg_index <= 5,
            filter::conditions_view(built@) == conditions@.take(i as int),
        decreases conditions@.len() - i,
    {
        match new_condition(conditions[i]) {
            Ok(condition) => {
                let ghost before = built@;
                built.push(condition);
                assert(filter::conditions_view(built@) =~= filter::conditions_view(before).push(
                    conditions@[i as int],
                ));
                assert(conditions@.take(i + 1) =~= conditions@.take(i as int).push(
                    conditions@[i as int],
                ));
            },
            Err(_) => {
                return Err(FilterError::Condition);
            },
        }
        i = i + 1;
    }
    assert(conditions@.take(i as int) =~= conditions@);
    match new_rule(built) {
        Ok(rule) => Ok(rule),
        Err(_) => Err(FilterError::Rule),
    }
}

/// Builds a rule from one condition.
fn single_condition_rule(condition: Condition) -> (r: Result<SeccompRule, FilterError>)
    requires
        condition.arg_index <= 5,
    ensures
        r is Ok,
        filter::rule_contents(r->Ok_0) == seq![condition],
{
    let conditions: [Condition; 1] = [condition];
    assert(conditions@ =~= seq![condition]);
    build_rule(conditions.as_slice())
}

/// `ioctl`: deny the two terminal-injection requests. The comparison is on 32
/// bits, so the upper half of the argument, which the kernel ignores, cannot
/// hide a request.
pub fn ioctl_deny_rules() -> (r: Result<Vec<SeccompRule>, FilterError>)
    ensures
        r is Ok,
        filter::chain_view(r->Ok_0@) == ioctl_deny_chain(),
{
    let first = single_condition_rule(
        Condition { arg_index: 1, arg_len: ArgLen::Dword, op: CmpOp::Eq, value: TIOCSTI },
    )?;
    let second = single_condition_rule(
        Condition { arg_index: 1, arg_len: ArgLen::Dword, op: CmpOp::Eq, value: TIOCLINUX },
    )?;
    let mut rules: Vec<SeccompRule> = Vec::new();
    rules.push(first);
    rules.push(second);
    assert(filter::chain_view(rules@) =~= ioctl_deny_chain());
    Ok(rules)
}

/// `clone`: deny when any namespace-creation bit is set. A condition cannot
/// say "any bit of a mask", so there is one rule for each bit.
pub fn clone_deny_rules() -> (r: Result<Vec<SeccompRule>, FilterError>)
    ensures
        r is Ok,
        filter::chain_view(r->Ok_0@) == clone_deny_chain(),
{
    let bits = CLONE_NEW_BITS;
    let mut rules: Vec<SeccompRule> = Vec::new();
    let mut i: usize = 0;
    while i < 7
        invariant
            i <= 7,
            bits == CLONE_NEW_BITS,
            rules@.len() == i,
            filter::chain_view(rules@) == clone_deny_chain().take(i as int),
        decreases 7 - i,
    {
        let bit: u64 = bits[i];
        let rule = single_condition_rule(
            Condition {
                arg_index: 0,
                arg_len: ArgLen::Qword,
                op: CmpOp::MaskedEq(bit),
                value: bit,
            },
        )?;
        let ghost before = rules@;
        rules.push(rule);
        assert(filter::chain_view(rules@) =~= filter::chain_view(before).push(clone_deny_chain()[i as int]));
        assert(clone_deny_chain().take(i + 1) =~= clone_deny_chain().take(i as int).push(
            clone_deny_chain()[i as int],
        ));
        i = i + 1;
    }
    assert(clone_deny_chain().take(7) =~= clone_deny_chain());
    Ok(rules)
}

/// `prctl`: deny rewriting memory-map descriptors.
pub fn prctl_deny_rules() -> (r: Result<Vec<SeccompRule>, FilterError>)
    ensures
        r is Ok,
        filter::chain_view(r->Ok_0@) == prctl_deny_chain(),
{
    let rule = single_condition_rule(
        Condition { arg_index: 0, arg_len: ArgLen::Dword, op: CmpOp::Eq, value: PR_SET_MM },
    )?;
    let mut rules: Vec<SeccompRule> = Vec::new();
    rules.push(rule);
    assert(filter::chain_view(rules@) =~= prctl_deny_chain());
    Ok(rules)
}

/// `socket`: deny raw packet sockets.
pub fn socket_deny_rules() -> (r: Result<Vec<SeccompRule>, FilterError>)
    ensures
        r is Ok,
        filter::chain_view(r->Ok_0@) == socket_deny_chain(),
{
    let rule = single_condition_rule(
        Condition { arg_index: 0, arg_len: ArgLen::Dword, op: CmpOp::Eq, value: AF_PACKET },
    )?;
    let mut rules: Vec<SeccompRule> = Vec::new();
    rules.push(rule);
    assert(filter::chain_view(rules@) =~= socket_deny_chain());
    Ok(rules)
}

/// The harmless cases of an allowed call.
fn allow_rules(nr: i64) -> (r: Result<Vec<SeccompRule>, FilterError>)
    ensures
        r is Ok,
        filter::chain_view(r->Ok_0@) == allow_guard(nr),
{
    let mut rules: Vec<SeccompRule> = Vec::new();
    if nr == SYS_IOCTL {
        let conditions: [Condition; 2] = [
            Condition { arg_index: 1, arg_len: ArgLen::Dword, op: CmpOp::Ne, value: TIOCSTI },
            Condition { arg_index: 1, arg_len: ArgLen::Dword, op: CmpOp::Ne, value: TIOCLINUX },
        ];
        assert(conditions@ =~= seq![low_half_is_not(1, TIOCSTI), low_half_is_not(1, TIOCLINUX)]);
        rules.push(build_rule(conditions.as_slice())?);
    } else if nr == SYS_CLONE {
        rules.push(
            single_condition_rule(
                Condition {
                    arg_index: 0,
                    arg_len: ArgLen::Qword,
                    op: CmpOp::MaskedEq(CLONE_NEW_MASK),
                    value: 0,
                },
            )?,
        );
    } else if nr == SYS_PRCTL {
        rules.push(
            single_condition_rule(
                Condition { arg_index: 0, arg_len: ArgLen::Dword, op: CmpOp::Ne, value: PR_SET_MM },
            )?,
        );
    } else if nr == SYS_SOCKET {
        rules.push(
            single_condition_rule(
                Condition { arg_index: 0, arg_len: ArgLen::Dword, op: CmpOp::Ne, value: AF_PACKET },
            )?,
        );
    }
    assert(filter::chain_view(rules@) =~= allow_guard(nr));
    Ok(rules)
}

/// Whether the architecture name is sure to be supported: it is ASCII, and it
/// is `x86_64` in lower case.
pub open spec fn is_known_arch(name: Seq<char>) -> bool {
    vstd::utf8::is_ascii_chars(name) && filter::arch_named(filter::lowercase(name)) == Some(
        Arch::X86_64,
    )
}

/// Whether the architecture name is sure to be refused: it is ASCII and not
/// `x86_64` in any case.
pub open spec fn is_foreign_arch(name: Seq<char>) -> bool {
    vstd::utf8::is_ascii_chars(name) && filter::arch_named(filter::lowercase(name)) != Some(
        Arch::X86_64,
    )
}

/// The name that the standard library has for x86-64 is supported.
pub proof fn lemma_x86_64_is_known()
    ensures
        is_known_arch("x86_64"@),
{
    reveal_strlit("x86_64");
    assert(filter::lowercase("x86_64"@) =~= "x86_64"@);
}

/// Reads the architecture name. Only x86-64 has system call numbers here.
pub fn target_arch(arch: &str) -> (r: Result<Arch, FilterError>)
    ensures
        is_supported_arch(arch@) ==> r is Ok && r->Ok_0 == Arch::X86_64,
        !is_supported_arch(arch@) ==> r is Err && r->Err_0@ == arch_error(arch@),
        is_known_arch(arch@) ==> r is Ok,
        is_foreign_arch(arch@) ==> r is Err,
{
    match parse_arch(arch) {
        Ok(Arch::X86_64) => Ok(Arch::X86_64),
        Ok(_) => Err(FilterError::UnnumberedArch(arch.to_owned())),
        Err(_) => Err(FilterError::UnsupportedArch(arch.to_owned())),
    }
}

/// The numbers of the guarded calls.
spec fn guarded_numbers() -> Seq<i64> {
    seq![SYS_IOCTL, SYS_CLONE, SYS_PRCTL, SYS_SOCKET]
}

proof fn lemma_bounded_filter_is_small(filter: FilterView, numbers: Seq<i64>)
    requires
        numbers.len() <= 400,
        forall|nr: i64| #[trigger] filter.rules.dom().contains(nr) ==> numbers.contains(nr),
        forall|nr: i64| #[trigger]
            filter.rules.dom().contains(nr) && filter.rules[nr].len() > 0 ==> is_guarded(nr) || nr
                == SYS_CLONE3,
        forall|nr: i64| #[trigger]
            filter.rules.dom().contains(nr) ==> filter.rules[nr].len() <= 8 && forall|i: int|
                0 <= i < filter.rules[nr].len() ==> (#[trigger] filter.rules[nr][i]).len() <= 2,
    ensures
        filter.is_small(),
{
    let dom = filter.rules.dom();
    vstd::seq_lib::seq_to_set_is_finite(numbers);
    numbers.lemma_cardinality_of_set();
    assert(dom.subset_of(numbers.to_set()));
    vstd::set_lib::lemma_len_subset(dom, numbers.to_set());
    let ruled = dom.filter(|nr: i64| filter.rules[nr].len() > 0);
    let few = guarded_numbers().push(SYS_CLONE3);
    vstd::seq_lib::seq_to_set_is_finite(few);
    few.lemma_cardinality_of_set();
    assert forall|nr: i64| ruled.contains(nr) implies few.to_set().contains(nr) by {
        assert(few[0] == SYS_IOCTL && few[1] == SYS_CLONE && few[2] == SYS_PRCTL && few[3]
            == SYS_SOCKET && few[4] == SYS_CLONE3);
    }
    vstd::set_lib::lemma_len_subset(ruled, few.to_set());
}

/// A denylist whose numbers stand in a list is small where that list leaves
/// room for the guarded calls and the mandatory-deny list.
pub proof fn lemma_denylist_is_small(
    extra: Seq<i64>,
    list: Seq<i64>,
    deny_action: FilterAction,
    arch: Arch,
)
    requires
        forall|i: int| 0 <= i < extra.len() ==> list.contains(#[trigger] extra[i]),
        list.len() + syscalls::mandatory_deny_list().len() + 4 <= 400,
    ensures
        denylist_filter(extra, deny_action, arch).is_small(),
{
    let mandatory = syscalls::mandatory_deny_list();
    let numbers = guarded_numbers() + mandatory + list;
    let filter = denylist_filter(extra, deny_action, arch);
    assert forall|nr: i64| #[trigger] filter.rules.dom().contains(nr) implies numbers.contains(
        nr,
    ) by {
        syscalls::lemma_mandatory_deny_list(nr);
        if extra.contains(nr) {
            let e = choose|e: int| 0 <= e < extra.len() && extra[e] == nr;
            assert(list.contains(extra[e]));
            let i = choose|i: int| 0 <= i < list.len() && list[i] == nr;
            assert(numbers[4 + mandatory.len() + i] == nr);
        } else if mandatory.contains(nr) {
            let i = choose|i: int| 0 <= i < mandatory.len() && mandatory[i] == nr;
            assert(numbers[4 + i] == nr);
        } else {
            assert(numbers[0] == SYS_IOCTL && numbers[1] == SYS_CLONE && numbers[2] == SYS_PRCTL
                && numbers[3] == SYS_SOCKET);
        }
    }
    lemma_bounded_filter_is_small(filter, numbers);
}

/// An allowlist whose numbers stand in a list is small where that list leaves
/// room for `clone3`.
pub proof fn lemma_allowlist_is_small(
    allowed: Seq<i64>,
    list: Seq<i64>,
    deny_action: FilterAction,
    arch: Arch,
)
    requires
        forall|i: int| 0 <= i < allowed.len() ==> list.contains(#[trigger] allowed[i]),
        list.len() + 1 <= 400,
    ensures
        allowlist_filter(allowed, deny_action, arch).is_small(),
{
    let numbers = list.push(SYS_CLONE3);
    let filter = allowlist_filter(allowed, deny_action, arch);
    assert forall|nr: i64| #[trigger] filter.rules.dom().contains(nr) implies numbers.contains(
        nr,
    ) by {
        if nr == SYS_CLONE3 {
            assert(numbers.last() == nr);
        } else {
            let e = choose|e: int| 0 <= e < allowed.len() && allowed[e] == nr;
            assert(list.contains(allowed[e]));
            let i = choose|i: int| 0 <= i < list.len() && list[i] == nr;
            assert(numbers[i] == nr);
        }
    }
    lemma_bounded_filter_is_small(filter, numbers);
}

proof fn lemma_clone3_is_small(arch: Arch)
    ensures
        clone3_filter(arch).is_small(),
{
    let numbers = seq![SYS_CLONE3];
    assert(numbers[0] == SYS_CLONE3);
    lemma_bounded_filter_is_small(clone3_filter(arch), numbers);
}

/// Compiles a filter.
fn finalize_filter(
    rules: BTreeMap<i64, Vec<SeccompRule>>,
    mismatch_action: FilterAction,
    match_action: FilterAction,
    arch: Arch,
) -> (r: Result<Vec<Instruction>, FilterError>)
    requires
        (FilterView { rules: filter::table_view(rules@), mismatch_action, match_action, arch })
            .is_compilable(),
    ensures
        program_view(r) == finalized(
            FilterView { rules: filter::table_view(rules@), mismatch_action, match_action, arch },
        ),
        r matches Ok(program) ==> filter::implements(
            program@,
            FilterView { rules: filter::table_view(rules@), mismatch_action, match_action, arch },
        ),
        mismatch_action != match_action && (FilterView {
            rules: filter::table_view(rules@),
            mismatch_action,
            match_action,
            arch,
        }).is_small() ==> r is Ok,
{
    match new_filter(rules, mismatch_action, match_action, arch) {
        Ok(filter) => match compile(filter) {
            Ok(program) => Ok(program),
            Err(reason) => Err(FilterError::Compilation(reason)),
        },
        Err(_) => Err(FilterError::Creation),
    }
}

/// Builds the denylist filter: it blocks the mandatory-deny list and
/// `extra_denied_nrs` with `deny_action`, guards `ioctl`, `clone`, `prctl` and
/// `socket`, and lets every other call through. An extra that names a guarded
/// call overrides its guard with a full deny.
pub fn build_denylist_filter(
    extra_denied_nrs: &[i64],
    deny_action: FilterAction,
    arch: &str,
) -> (r: Result<Vec<Instruction>, FilterError>)
    requires
        forall|i: int|
            0 <= i < extra_denied_nrs@.len() ==> 0 <= #[trigger] extra_denied_nrs@[i] <= u32::MAX,
    ensures
        program_view(r) == denylist_program(extra_denied_nrs@, deny_action, arch@),
        r matches Ok(program) ==> filter::implements(
            program@,
            denylist_filter(extra_denied_nrs@, deny_action, Arch::X86_64),
        ),
        is_known_arch(arch@) && deny_action != FilterAction::Allow && denylist_filter(
            extra_denied_nrs@,
            deny_action,
            Arch::X86_64,
        ).is_small() ==> r is Ok,
        is_foreign_arch(arch@) ==> r is Err,
{
    let arch = target_arch(arch)?;
    let mut rules: BTreeMap<i64, Vec<SeccompRule>> = BTreeMap::new();
    rules.insert(SYS_IOCTL, ioctl_deny_rules()?);
    rules.insert(SYS_CLONE, clone_deny_rules()?);
    rules.insert(SYS_PRCTL, prctl_deny_rules()?);
    rules.insert(SYS_SOCKET, socket_deny_rules()?);
    let mandatory = mandatory_deny_syscall_nrs();
    let mut i: usize = 0;
    while i < mandatory.len()
        invariant
            i <= mandatory@.len(),
            forall|nr: i64| mandatory@.contains(nr) <==> syscalls::is_mandatory_denied(nr),
            forall|nr: i64| #[trigger]
                rules@.dom().contains(nr) <==> is_guarded(nr) || mandatory@.take(
                    i as int,
                ).contains(nr),
            forall|nr: i64| #[trigger]
                rules@.dom().contains(nr) ==> filter::chain_view(rules@[nr]@) == (if is_guarded(
                    nr,
                ) {
                    deny_guard(nr)
                } else {
                    seq![]
                }),
        decreases mandatory@.len() - i,
    {
        let nr = mandatory[i];
        proof {
            lemma_take_contains(mandatory@, i as int);
        }
        if !rules.contains_key(&nr) {
            let none: Vec<SeccompRule> = Vec::new();
            assert(filter::chain_view(none@) =~= seq![]);
            rules.insert(nr, none);
        }
        i = i + 1;
    }
    assert(mandatory@.take(i as int) =~= mandatory@);
    let mut j: usize = 0;
    while j < extra_denied_nrs.len()
        invariant
            j <= extra_denied_nrs@.len(),
            forall|nr: i64| #[trigger]
                rules@.dom().contains(nr) <==> is_guarded(nr) || syscalls::is_mandatory_denied(nr)
                    || extra_denied_nrs@.take(j as int).contains(nr),
            forall|nr: i64| #[trigger]
                rules@.dom().contains(nr) ==> filter::chain_view(rules@[nr]@) == (if is_guarded(nr)
                    && !extra_denied_nrs@.take(j as int).contains(nr) {
                    deny_guard(nr)
                } else {
                    seq![]
                }),
        decreases extra_denied_nrs@.len() - j,
    {
        let none: Vec<SeccompRule> = Vec::new();
        assert(filter::chain_view(none@) =~= seq![]);
        proof {
            lemma_take_contains(extra_denied_nrs@, j as int);
        }
        rules.insert(extra_denied_nrs[j], none);
        j = j + 1;
    }
    assert(extra_denied_nrs@.take(j as int) =~= extra_denied_nrs@);
    let ghost model = denylist_filter(extra_denied_nrs@, deny_action, Arch::X86_64);
    assert(filter::table_view(rules@) =~= model.rules);
    proof {
        lemma_denylist_is_compilable(extra_denied_nrs@, deny_action, Arch::X86_64);
    }
    finalize_filter(rules, FilterAction::Allow, deny_action, arch)
}

/// What the first `n + 1` elements hold.
proof fn lemma_take_contains(list: Seq<i64>, n: int)
    requires
        0 <= n < list.len(),
    ensures
        forall|x: i64|
            list.take(n + 1).contains(x) <==> list.take(n).contains(x) || x == list[n],
{
    assert(list.take(n + 1) =~= list.take(n).push(list[n]));
    assert forall|x: i64| list.take(n).contains(x) || x == list[n] implies list.take(
        n + 1,
    ).contains(x) by {
        if list.take(n).contains(x) {
            let k = choose|k: int| 0 <= k < list.take(n).len() && list.take(n)[k] == x;
            assert(list.take(n + 1)[k] == x);
        } else {
            assert(list.take(n + 1)[n] == x);
        }
    }
}

proof fn lemma_denylist_is_compilable(extra: Seq<i64>, deny_action: FilterAction, arch: Arch)
    requires
        forall|i: int| 0 <= i < extra.len() ==> 0 <= #[trigger] extra[i] <= u32::MAX,
    ensures
        denylist_filter(extra, deny_action, arch).is_compilable(),
{
}

proof fn lemma_allowlist_is_compilable(allowed: Seq<i64>, deny_action: FilterAction, arch: Arch)
    requires
        forall|i: int| 0 <= i < allowed.len() ==> 0 <= #[trigger] allowed[i] <= u32::MAX,
    ensures
        allowlist_filter(allowed, deny_action, arch).is_compilable(),
{
}

/// Builds the allowlist filter: it lets the harmless cases of `allowed_nrs`
/// through and blocks every other call with `deny_action`. A call on the
/// mandatory-deny list stays blocked even where it is listed. `clone3` passes
/// here, because the overlay is what answers it.
pub fn build_allowlist_filter(
    allowed_nrs: &[i64],
    deny_action: FilterAction,
    arch: &str,
) -> (r: Result<Vec<Instruction>, FilterError>)
    requires
        forall|i: int| 0 <= i < allowed_nrs@.len() ==> 0 <= #[trigger] allowed_nrs@[i] <= u32::MAX,
    ensures
        program_view(r) == allowlist_program(allowed_nrs@, deny_action, arch@),
        r matches Ok(program) ==> filter::implements(
            program@,
            allowlist_filter(allowed_nrs@, deny_action, Arch::X86_64),
        ),
        is_known_arch(arch@) && deny_action != FilterAction::Allow && allowlist_filter(
            allowed_nrs@,
            deny_action,
            Arch::X86_64,
        ).is_small() ==> r is Ok,
        is_foreign_arch(arch@) ==> r is Err,
{
    let arch = target_arch(arch)?;
    let mut rules: BTreeMap<i64, Vec<SeccompRule>> = BTreeMap::new();
    rules.insert(SYS_CLONE3, allow_rules(SYS_CLONE3)?);
    let mut i: usize = 0;
    while i < allowed_nrs.len()
        invariant
            i <= allowed_nrs@.len(),
            forall|nr: i64| #[trigger]
                rules@.dom().contains(nr) <==> nr == SYS_CLONE3 || (allowed_nrs@.take(
                    i as int,
                ).contains(nr) && !syscalls::is_mandatory_denied(nr)),
            forall|nr: i64| #[trigger]
                rules@.dom().contains(nr) ==> filter::chain_view(rules@[nr]@) == allow_guard(nr),
        decreases allowed_nrs@.len() - i,
    {
        let nr = allowed_nrs[i];
        proof {
            lemma_take_contains(allowed_nrs@, i as int);
        }
        if !is_mandatory_deny_syscall(nr) {
            rules.insert(nr, allow_rules(nr)?);
        }
        i = i + 1;
    }
    assert(allowed_nrs@.take(i as int) =~= allowed_nrs@);
    let ghost model = allowlist_filter(allowed_nrs@, deny_action, Arch::X86_64);
    assert(filter::table_view(rules@) =~= model.rules);
    proof {
        lemma_allowlist_is_compilable(allowed_nrs@, deny_action, Arch::X86_64);
    }
    finalize_filter(rules, deny_action, FilterAction::Allow, arch)
}

/// Builds the `clone3` overlay.
///
/// The flags of `clone3` lie behind a pointer, where no filter can look. An
/// answer of `ENOSYS` makes a C library fall back to `clone`, whose flags the
/// main filter checks. Every other call passes, so the main filter's decisions
/// stand for them.
pub fn build_clone3_enosys_filter(arch: &str) -> (r: Result<Vec<Instruction>, FilterError>)
    ensures
        program_view(r) == clone3_program(arch@),
        r matches Ok(program) ==> filter::implements(program@, clone3_filter(Arch::X86_64)),
        is_known_arch(arch@) ==> r is Ok,
        is_foreign_arch(arch@) ==> r is Err,
{
    let arch = target_arch(arch)?;
    let rule = single_condition_rule(
        Condition { arg_index: 0, arg_len: ArgLen::Qword, op: CmpOp::MaskedEq(0), value: 0 },
    )?;
    let mut chain: Vec<SeccompRule> = Vec::new();
    chain.push(rule);
    assert(filter::chain_view(chain@) =~= seq![seq![first_arg_masked(0, 0)]]);
    let mut rules: BTreeMap<i64, Vec<SeccompRule>> = BTreeMap::new();
    rules.insert(SYS_CLONE3, chain);
    assert(filter::table_view(rules@) =~= clone3_filter(Arch::X86_64).rules);
    proof {
        lemma_clone3_is_small(Arch::X86_64);
    }
    finalize_filter(rules, FilterAction::Allow, FilterAction::Errno(ENOSYS), arch)
}

/// The numbers of the names that a policy denies, or the first name that it
/// may not deny.
pub open spec fn resolved_denials(names: Seq<Seq<char>>) -> Result<Seq<i64>, FilterErrorView>
    decreases names.len(),
{
    if names.len() == 0 {
        Ok(seq![])
    } else {
        match resolved_denials(names.drop_last()) {
            Err(error) => Err(error),
            Ok(nrs) => match syscalls::syscall_nr(names.last()) {
                None => Err(FilterErrorView::UnknownSyscall(names.last())),
                Some(nr) => if syscalls::is_survival(nr) {
                    Err(FilterErrorView::SurvivalSyscall(names.last()))
                } else {
                    Ok(nrs.push(nr))
                },
            },
        }
    }
}

/// The numbers of the names that a policy allows, or the first name that is
/// not recognized.
pub open spec fn resolved_allowances(names: Seq<Seq<char>>) -> Result<Seq<i64>, FilterErrorView>
    decreases names.len(),
{
    if names.len() == 0 {
        Ok(seq![])
    } else {
        match resolved_allowances(names.drop_last()) {
            Err(error) => Err(error),
            Ok(nrs) => match syscalls::syscall_nr(names.last()) {
                None => Err(FilterErrorView::UnknownAllowance(names.last())),
                Some(nr) => Ok(nrs.push(nr)),
            },
        }
    }
}

/// Names resolve to numbers of named calls only, however many names there are.
pub proof fn lemma_resolved_are_named(names: Seq<Seq<char>>)
    ensures
        resolved_denials(names) matches Ok(nrs) ==> forall|i: int|
            0 <= i < nrs.len() ==> syscalls::named_syscall_list().contains(#[trigger] nrs[i]),
        resolved_allowances(names) matches Ok(nrs) ==> forall|i: int|
            0 <= i < nrs.len() ==> syscalls::named_syscall_list().contains(#[trigger] nrs[i]),
    decreases names.len(),
{
    if names.len() > 0 {
        lemma_resolved_are_named(names.drop_last());
        syscalls::lemma_named_syscall_list(names.last());
    }
}

/// The model of a list of numbers or of why there is none.
pub open spec fn numbers_view(r: Result<Vec<i64>, FilterError>) -> Result<
    Seq<i64>,
    FilterErrorView,
> {
    match r {
        Ok(nrs) => Ok(nrs@),
        Err(error) => Err(error@),
    }
}

proof fn lemma_error_stays(names: Seq<Seq<char>>, n: int)
    requires
        0 <= n <= names.len(),
    ensures
        resolved_denials(names.take(n)) is Err ==> resolved_denials(names) == resolved_denials(
            names.take(n),
        ),
        resolved_allowances(names.take(n)) is Err ==> resolved_allowances(names)
            == resolved_allowances(names.take(n)),
    decreases names.len() - n,
{
    if n < names.len() {
        lemma_error_stays(names, n + 1);
        assert(names.take(n + 1).drop_last() =~= names.take(n));
    } else {
        assert(names.take(n) =~= names);
    }
}

/// Resolves the names that a policy denies. An unknown name is an error, since
/// dropping it would leave a call reachable that its author meant to block; so
/// is a call that a process needs to exit.
pub fn resolve_denials(names: &[&str]) -> (r: Result<Vec<i64>, FilterError>)
    ensures
        numbers_view(r) == resolved_denials(text::names_view(names@)),
        r matches Ok(nrs) ==> forall|i: int|
            0 <= i < nrs@.len() ==> 0 <= #[trigger] nrs@[i] <= u32::MAX,
{
    let ghost all = text::names_view(names@);
    let mut nrs: Vec<i64> = Vec::new();
    let mut i: usize = 0;
    while i < names.len()
        invariant
            i <= names@.len(),
            all == text::names_view(names@),
            resolved_denials(all.take(i as int)) == Ok::<Seq<i64>, FilterErrorView>(nrs@),
            forall|j: int| 0 <= j < nrs@.len() ==> 0 <= #[trigger] nrs@[j] <= u32::MAX,
        decreases names@.len() - i,
    {
        let name = names[i];
        proof {
            assert(all.take(i + 1).drop_last() =~= all.take(i as int));
            assert(all.take(i + 1).last() == name@);
            lemma_error_stays(all, i + 1);
            syscalls::lemma_named_syscalls_are_numbers(name@);
        }
        match nr_for_name(name) {
            None => {
                return Err(FilterError::UnknownSyscall(name.to_owned()));
            },
            Some(nr) => {
                if is_survival_syscall(nr) {
                    return Err(FilterError::SurvivalSyscall(name.to_owned()));
                }
                nrs.push(nr);
            },
        }
        i = i + 1;
    }
    assert(all.take(i as int) =~= all);
    Ok(nrs)
}

/// Resolves the names that a policy allows. An unknown name is an error.
pub fn resolve_allowances(names: &[&str]) -> (r: Result<Vec<i64>, FilterError>)
    ensures
        numbers_view(r) == resolved_allowances(text::names_view(names@)),
        r matches Ok(nrs) ==> forall|i: int|
            0 <= i < nrs@.len() ==> 0 <= #[trigger] nrs@[i] <= u32::MAX,
{
    let ghost all = text::names_view(names@);
    let mut nrs: Vec<i64> = Vec::new();
    let mut i: usize = 0;
    while i < names.len()
        invariant
            i <= names@.len(),
            all == text::names_view(names@),
            resolved_allowances(all.take(i as int)) == Ok::<Seq<i64>, FilterErrorView>(nrs@),
            forall|j: int| 0 <= j < nrs@.len() ==> 0 <= #[trigger] nrs@[j] <= u32::MAX,
        decreases names@.len() - i,
    {
        let name = names[i];
        proof {
            assert(all.take(i + 1).drop_last() =~= all.take(i as int));
            assert(all.take(i + 1).last() == name@);
            lemma_error_stays(all, i + 1);
            syscalls::lemma_named_syscalls_are_numbers(name@);
        }
        match nr_for_name(name) {
            None => {
                return Err(FilterError::UnknownAllowance(name.to_owned()));
            },
            Some(nr) => {
                nrs.push(nr);
            },
        }
        i = i + 1;
    }
    assert(all.take(i as int) =~= all);
    Ok(nrs)
}

/// The operation that installs a program on the current thread.
pub fn apply_filter(bpf: Vec<Instruction>) -> (r: Op)
    ensures
        r@ == OpView::InstallFilter(bpf@),
{
    Op::InstallFilter(bpf)
}

/// The operation that installs a program, or the refusal that stands for a
/// program which could not be built.
pub open spec fn install_op(program: Result<Seq<Instruction>, FilterErrorView>) -> OpView {
    match program {
        Ok(instructions) => OpView::InstallFilter(instructions),
        Err(error) => OpView::Refuse(CauseView::Filter(error)),
    }
}

/// The operations that install the denylist filter: the main filter, then the
/// overlay. The first that cannot be had is a refusal, and nothing follows it.
pub open spec fn denylist_ops(
    names: Seq<Seq<char>>,
    deny_action: FilterAction,
    arch: Seq<char>,
) -> Seq<OpView> {
    match resolved_denials(names) {
        Err(error) => seq![OpView::Refuse(CauseView::Filter(error))],
        Ok(nrs) => {
            let main = denylist_program(nrs, deny_action, arch);
            if main is Err {
                seq![install_op(main)]
            } else {
                seq![install_op(main), install_op(clone3_program(arch))]
            }
        },
    }
}

/// The operations that install the allowlist filter: the overlay, then the
/// main filter, which would not let another filter be installed. Where either
/// cannot be had, there is nothing but a refusal.
pub open spec fn allowlist_ops(
    names: Seq<Seq<char>>,
    deny_action: FilterAction,
    arch: Seq<char>,
) -> Seq<OpView> {
    match resolved_allowances(names) {
        Err(error) => seq![OpView::Refuse(CauseView::Filter(error))],
        Ok(nrs) => {
            let main = allowlist_program(nrs, deny_action, arch);
            let overlay = clone3_program(arch);
            if main is Err {
                seq![install_op(main)]
            } else if overlay is Err {
                seq![install_op(overlay)]
            } else {
                seq![install_op(overlay), install_op(main)]
            }
        },
    }
}

/// The filters that a denylist of these numbers is made of, in the order in
/// which they are installed.
pub open spec fn denylist_filters(nrs: Seq<i64>, deny_action: FilterAction) -> Seq<FilterView> {
    seq![denylist_filter(nrs, deny_action, Arch::X86_64), clone3_filter(Arch::X86_64)]
}

/// The filters that an allowlist of these numbers is made of, in the order in
/// which they are installed.
pub open spec fn allowlist_filters(nrs: Seq<i64>, deny_action: FilterAction) -> Seq<FilterView> {
    seq![clone3_filter(Arch::X86_64), allowlist_filter(nrs, deny_action, Arch::X86_64)]
}

/// Whether an operation installs a program that does what `filter` says.
pub open spec fn installs(op: OpView, filter: FilterView) -> bool {
    op matches OpView::InstallFilter(program) && filter::implements(program, filter)
}

/// Whether the operations install these filters, one by one.
pub open spec fn install_all(ops: Seq<OpView>, filters: Seq<FilterView>) -> bool {
    &&& ops.len() == filters.len()
    &&& forall|i: int| 0 <= i < ops.len() ==> installs(#[trigger] ops[i], filters[i])
}

/// Whether the last of these operations is a refusal.
pub open spec fn ends_in_refusal(ops: Seq<OpView>) -> bool {
    ops.len() > 0 && ops.last() is Refuse
}

/// Installs a program that was built, or refuses.
fn install_or_refuse(program: Result<Vec<Instruction>, FilterError>) -> (r: Op)
    ensures
        r@ == install_op(program_view(program)),
{
    match program {
        Ok(instructions) => apply_filter(instructions),
        Err(error) => Op::Refuse(Cause::Filter(error)),
    }
}

/// Resolves `extra_deny_names`, builds the denylist filter, and gives the
/// operations that install it together with the `clone3` overlay.
///
/// Filters stack and the kernel takes the most restrictive verdict, so this
/// serves both a profile's own filter and a later, additional one.
pub fn apply_denylist(
    extra_deny_names: &[&str],
    deny_action: FilterAction,
    arch: &str,
) -> (r: Vec<Op>)
    ensures
        procedure::ops_view(r@) == denylist_ops(
            text::names_view(extra_deny_names@),
            deny_action,
            arch@,
        ),
        is_known_arch(arch@) && deny_action != FilterAction::Allow && resolved_denials(
            text::names_view(extra_deny_names@),
        ) is Ok ==> !ends_in_refusal(procedure::ops_view(r@)),
        is_foreign_arch(arch@) ==> ends_in_refusal(procedure::ops_view(r@)),
        ends_in_refusal(procedure::ops_view(r@)) || install_all(
            procedure::ops_view(r@),
            denylist_filters(
                resolved_denials(text::names_view(extra_deny_names@))->Ok_0,
                deny_action,
            ),
        ),
{
    let ghost names = text::names_view(extra_deny_names@);
    proof {
        lemma_resolved_are_named(names);
        if resolved_denials(names) is Ok {
            lemma_denylist_is_small(
                resolved_denials(names)->Ok_0,
                syscalls::named_syscall_list(),
                deny_action,
                Arch::X86_64,
            );
        }
    }
    let mut ops: Vec<Op> = Vec::new();
    match resolve_denials(extra_deny_names) {
        Err(error) => {
            ops.push(Op::Refuse(Cause::Filter(error)));
        },
        Ok(nrs) => {
            let main = build_denylist_filter(nrs.as_slice(), deny_action, arch);
            let built = main.is_ok();
            ops.push(install_or_refuse(main));
            if built {
                ops.push(install_or_refuse(build_clone3_enosys_filter(arch)));
            }
        },
    }
    assert(procedure::ops_view(ops@) =~= denylist_ops(
        text::names_view(extra_deny_names@),
        deny_action,
        arch@,
    ));
    ops
}

/// Resolves `allow_names`, builds the allowlist filter, and gives the
/// operations that install it together with the `clone3` overlay.
pub fn apply_allowlist(allow_names: &[&str], deny_action: FilterAction, arch: &str) -> (r: Vec<Op>)
    ensures
        procedure::ops_view(r@) == allowlist_ops(text::names_view(allow_names@), deny_action, arch@),
        is_known_arch(arch@) && deny_action != FilterAction::Allow && resolved_allowances(
            text::names_view(allow_names@),
        ) is Ok ==> !ends_in_refusal(procedure::ops_view(r@)),
        is_foreign_arch(arch@) ==> ends_in_refusal(procedure::ops_view(r@)),
        ends_in_refusal(procedure::ops_view(r@)) || install_all(
            procedure::ops_view(r@),
            allowlist_filters(
                resolved_allowances(text::names_view(allow_names@))->Ok_0,
                deny_action,
            ),
        ),
{
    let ghost names = text::names_view(allow_names@);
    proof {
        lemma_resolved_are_named(names);
        if resolved_allowances(names) is Ok {
            lemma_allowlist_is_small(
                resolved_allowances(names)->Ok_0,
                syscalls::named_syscall_list(),
                deny_action,
                Arch::X86_64,
            );
        }
    }
    let mut ops: Vec<Op> = Vec::new();
    match resolve_allowances(allow_names) {
        Err(error) => {
            ops.push(Op::Refuse(Cause::Filter(error)));
        },
        Ok(nrs) => {
            let main = build_allowlist_filter(nrs.as_slice(), deny_action, arch);
            let overlay = build_clone3_enosys_filter(arch);
            if main.is_err() {
                ops.push(install_or_refuse(main));
            } else if overlay.is_err() {
                ops.push(install_or_refuse(overlay));
            } else {
                ops.push(install_or_refuse(overlay));
                ops.push(install_or_refuse(main));
            }
        },
    }
    assert(procedure::ops_view(ops@) =~= allowlist_ops(
        text::names_view(allow_names@),
        deny_action,
        arch@,
    ));
    ops
}

} // verus!
