//! What the seccomp filters promise of every system call.

use crate::abi::AF_PACKET;
use crate::abi::ENOSYS;
use crate::abi::PR_SET_MM;
use crate::abi::SYS_CLONE3;
use crate::abi::SYS_CLONE;
use crate::abi::SYS_IOCTL;
use crate::abi::SYS_PRCTL;
use crate::abi::SYS_SOCKET;
use crate::abi::TIOCLINUX;
use crate::abi::TIOCSTI;
use crate::error::FilterErrorView;
use crate::unix::filter::Arch;
use crate::unix::filter::Condition;
use crate::unix::filter::FilterAction;
use crate::unix::filter::FilterView;
use crate::unix::filter::Instruction;
use crate::unix::filter;
use crate::unix::seccomp::CLONE_NEW_BITS;
use crate::unix::seccomp::CLONE_NEW_MASK;
use crate::unix::seccomp;
use crate::unix::syscalls;
use vstd::prelude::*;

verus! {

/// Whether a call is a dangerous case of a guarded call: a terminal-injection
/// `ioctl`, a namespace-creating `clone`, a `prctl` that rewrites memory-map
/// descriptors, or a raw packet `socket`.
pub open spec fn is_dangerous_case(nr: i64, args: Seq<u64>) -> bool {
    ||| nr == SYS_IOCTL && (args[1] & 0xffff_ffff == TIOCSTI || args[1] & 0xffff_ffff == TIOCLINUX)
    ||| nr == SYS_CLONE && args[0] & CLONE_NEW_MASK != 0
    ||| nr == SYS_PRCTL && args[0] & 0xffff_ffff == PR_SET_MM
    ||| nr == SYS_SOCKET && args[0] & 0xffff_ffff == AF_PACKET
}

/// The single bits fold to the mask: a value has one of the bits exactly where
/// it meets the mask.
pub proof fn lemma_clone_bits_cover_mask(flags: u64)
    ensures
        flags & CLONE_NEW_MASK != 0 <==> exists|i: int|
            0 <= i < 7 && flags & #[trigger] CLONE_NEW_BITS@[i] == CLONE_NEW_BITS@[i],
{
    let bits = CLONE_NEW_BITS@;
    assert(flags & 0x7E02_0000 != 0 <==> (flags & 0x0002_0000 == 0x0002_0000 || flags & 0x0200_0000
        == 0x0200_0000 || flags & 0x0400_0000 == 0x0400_0000 || flags & 0x0800_0000 == 0x0800_0000
        || flags & 0x1000_0000 == 0x1000_0000 || flags & 0x2000_0000 == 0x2000_0000 || flags
        & 0x4000_0000 == 0x4000_0000)) by (bit_vector);
    assert(bits[0] == 0x0002_0000 && bits[1] == 0x0200_0000 && bits[2] == 0x0400_0000 && bits[3]
        == 0x0800_0000 && bits[4] == 0x1000_0000 && bits[5] == 0x2000_0000 && bits[6]
        == 0x4000_0000);
}

proof fn lemma_single_condition(condition: Condition, args: Seq<u64>)
    ensures
        filter::rule_holds(seq![condition], args) == filter::condition_holds(condition, args),
{
    assert(seq![condition][0] == condition);
}

proof fn lemma_single_rule(rule: Seq<Condition>, args: Seq<u64>)
    ensures
        filter::chain_holds(seq![rule], args) == filter::rule_holds(rule, args),
{
    assert(seq![rule][0] == rule);
}

proof fn lemma_low_halves()
    ensures
        TIOCSTI & 0xffff_ffff == TIOCSTI,
        TIOCLINUX & 0xffff_ffff == TIOCLINUX,
        PR_SET_MM & 0xffff_ffff == PR_SET_MM,
        AF_PACKET & 0xffff_ffff == AF_PACKET,
{
    assert(0x5412u64 & 0xffff_ffff == 0x5412u64) by (bit_vector);
    assert(0x541Cu64 & 0xffff_ffff == 0x541Cu64) by (bit_vector);
    assert(35u64 & 0xffff_ffff == 35u64) by (bit_vector);
    assert(17u64 & 0xffff_ffff == 17u64) by (bit_vector);
}

proof fn lemma_deny_guard(nr: i64, args: Seq<u64>)
    requires
        seccomp::is_guarded(nr),
    ensures
        filter::chain_holds(seccomp::deny_guard(nr), args) == is_dangerous_case(nr, args),
{
    let chain = seccomp::deny_guard(nr);
    lemma_low_halves();
    if nr == SYS_IOCTL {
        lemma_single_condition(seccomp::low_half_is(1, TIOCSTI), args);
        lemma_single_condition(seccomp::low_half_is(1, TIOCLINUX), args);
        assert(chain[0] == seq![seccomp::low_half_is(1, TIOCSTI)]);
        assert(chain[1] == seq![seccomp::low_half_is(1, TIOCLINUX)]);
    } else if nr == SYS_CLONE {
        lemma_clone_bits_cover_mask(args[0]);
        assert forall|i: int| 0 <= i < 7 implies filter::rule_holds(#[trigger] chain[i], args) == (
        args[0] & CLONE_NEW_BITS@[i] == CLONE_NEW_BITS@[i]) by {
            let bit = CLONE_NEW_BITS@[i];
            lemma_single_condition(seccomp::first_arg_masked(bit, bit), args);
            assert(bit & bit == bit) by (bit_vector);
        }
        if args[0] & CLONE_NEW_MASK != 0 {
            let i = choose|i: int|
                0 <= i < 7 && args[0] & #[trigger] CLONE_NEW_BITS@[i] == CLONE_NEW_BITS@[i];
            assert(filter::rule_holds(chain[i], args));
        }
    } else if nr == SYS_PRCTL {
        lemma_single_condition(seccomp::low_half_is(0, PR_SET_MM), args);
        lemma_single_rule(seq![seccomp::low_half_is(0, PR_SET_MM)], args);
    } else {
        lemma_single_condition(seccomp::low_half_is(0, AF_PACKET), args);
        lemma_single_rule(seq![seccomp::low_half_is(0, AF_PACKET)], args);
    }
}

proof fn lemma_allow_guard(nr: i64, args: Seq<u64>)
    ensures
        filter::chain_holds(seccomp::allow_guard(nr), args) == !is_dangerous_case(nr, args),
{
    lemma_low_halves();
    if nr == SYS_IOCTL {
        let first = seccomp::low_half_is_not(1, TIOCSTI);
        let second = seccomp::low_half_is_not(1, TIOCLINUX);
        lemma_single_rule(seq![first, second], args);
        assert(seq![first, second][0] == first && seq![first, second][1] == second);
        if !is_dangerous_case(nr, args) {
            assert(filter::rule_holds(seq![first, second], args));
        } else {
            assert(!filter::condition_holds(seq![first, second][0], args)
                || !filter::condition_holds(seq![first, second][1], args));
        }
    } else if nr == SYS_CLONE {
        lemma_single_condition(seccomp::first_arg_masked(CLONE_NEW_MASK, 0), args);
        lemma_single_rule(seq![seccomp::first_arg_masked(CLONE_NEW_MASK, 0)], args);
        assert(0u64 & CLONE_NEW_MASK == 0) by (bit_vector);
    } else if nr == SYS_PRCTL {
        lemma_single_condition(seccomp::low_half_is_not(0, PR_SET_MM), args);
        lemma_single_rule(seq![seccomp::low_half_is_not(0, PR_SET_MM)], args);
    } else if nr == SYS_SOCKET {
        lemma_single_condition(seccomp::low_half_is_not(0, AF_PACKET), args);
        lemma_single_rule(seq![seccomp::low_half_is_not(0, AF_PACKET)], args);
    }
}

/// The denylist filter blocks exactly the mandatory-deny list, the extras and
/// the dangerous cases of the guarded calls, and lets everything else through.
pub proof fn lemma_denylist_verdict(
    extra: Seq<i64>,
    deny_action: FilterAction,
    arch: Arch,
    nr: i64,
    args: Seq<u64>,
)
    ensures
        seccomp::denylist_filter(extra, deny_action, arch).verdict(nr, args) == (
        if syscalls::is_mandatory_denied(nr) || extra.contains(nr) || is_dangerous_case(nr, args) {
            deny_action
        } else {
            FilterAction::Allow
        }),
{
    if seccomp::is_guarded(nr) {
        lemma_deny_guard(nr, args);
    }
}

/// The allowlist filter lets exactly the harmless cases of the listed calls
/// through, and `clone3` for its overlay. A call on the mandatory-deny list is
/// blocked even where it is listed.
pub proof fn lemma_allowlist_verdict(
    allowed: Seq<i64>,
    deny_action: FilterAction,
    arch: Arch,
    nr: i64,
    args: Seq<u64>,
)
    ensures
        seccomp::allowlist_filter(allowed, deny_action, arch).verdict(nr, args) == (if nr
            == SYS_CLONE3 || (allowed.contains(nr) && !syscalls::is_mandatory_denied(nr)
            && !is_dangerous_case(nr, args)) {
            FilterAction::Allow
        } else {
            deny_action
        }),
{
    lemma_allow_guard(nr, args);
}

/// The overlay fails `clone3` with `ENOSYS`, whatever its arguments are, and
/// lets every other call through.
pub proof fn lemma_clone3_verdict(arch: Arch, nr: i64, args: Seq<u64>)
    ensures
        seccomp::clone3_filter(arch).verdict(nr, args) == (if nr == SYS_CLONE3 {
            FilterAction::Errno(ENOSYS)
        } else {
            FilterAction::Allow
        }),
{
    let condition = seccomp::first_arg_masked(0, 0);
    lemma_single_condition(condition, args);
    lemma_single_rule(seq![condition], args);
    let first = args[0];
    assert(first & 0u64 == 0u64 & 0u64) by (bit_vector);
}

/// A denylist program stops every call on the mandatory-deny list with the
/// deny action, whatever the policy adds and whatever the arguments are.
pub proof fn lemma_denylist_program_blocks_mandatory(
    program: Seq<Instruction>,
    extra: Seq<i64>,
    deny_action: FilterAction,
    nr: i64,
    args: Seq<u64>,
)
    requires
        filter::implements(program, seccomp::denylist_filter(extra, deny_action, Arch::X86_64)),
        syscalls::is_mandatory_denied(nr),
        args.len() == 6,
    ensures
        filter::decision(program, Arch::X86_64, nr, args) == Some(filter::action_word(deny_action)),
{
    lemma_denylist_verdict(extra, deny_action, Arch::X86_64, nr, args);
}

/// The numbers that a policy's denials resolve to never hold a survival call.
pub proof fn lemma_denials_spare_survival(names: Seq<Seq<char>>, nr: i64)
    ensures
        seccomp::resolved_denials(names) matches Ok(nrs) ==> syscalls::is_survival(nr)
            ==> !nrs.contains(nr),
    decreases names.len(),
{
    if names.len() > 0 {
        lemma_denials_spare_survival(names.drop_last(), nr);
    }
}

/// A worker can always exit: whatever names a policy denies, the resulting
/// filter lets every survival call through.
pub proof fn lemma_denylist_lets_worker_exit(
    names: Seq<Seq<char>>,
    deny_action: FilterAction,
    arch: Arch,
    nr: i64,
    args: Seq<u64>,
)
    requires
        syscalls::is_survival(nr),
    ensures
        seccomp::resolved_denials(names) matches Ok(nrs) ==> seccomp::denylist_filter(
            nrs,
            deny_action,
            arch,
        ).verdict(nr, args) == FilterAction::Allow,
{
    lemma_denials_spare_survival(names, nr);
    if let Ok(nrs) = seccomp::resolved_denials(names) {
        lemma_denylist_verdict(nrs, deny_action, arch, nr, args);
    }
}

/// Denials resolve exactly where every name is known and none is a survival
/// call, each name to its own number.
pub proof fn lemma_denials_resolve(names: Seq<Seq<char>>)
    ensures
        seccomp::resolved_denials(names) is Ok <==> forall|i: int|
            0 <= i < names.len() ==> syscalls::syscall_nr(#[trigger] names[i]) is Some
                && !syscalls::is_survival(syscalls::syscall_nr(names[i])->Some_0),
        seccomp::resolved_denials(names) matches Ok(nrs) ==> nrs.len() == names.len() && forall|
            i: int,
        |
            0 <= i < names.len() ==> Some(#[trigger] nrs[i]) == syscalls::syscall_nr(names[i]),
    decreases names.len(),
{
    if names.len() > 0 {
        let front = names.drop_last();
        lemma_denials_resolve(front);
        assert forall|i: int| 0 <= i < front.len() implies front[i] == #[trigger] names[i] by {}
        if seccomp::resolved_denials(names) is Ok {
            assert forall|i: int| 0 <= i < names.len() implies syscalls::syscall_nr(
                #[trigger] names[i],
            ) is Some && !syscalls::is_survival(syscalls::syscall_nr(names[i])->Some_0) by {
                if i < front.len() {
                    assert(front[i] == names[i]);
                }
            }
        } else if seccomp::resolved_denials(front) is Err {
            let i = choose|i: int|
                0 <= i < front.len() && !(syscalls::syscall_nr(#[trigger] front[i]) is Some
                    && !syscalls::is_survival(syscalls::syscall_nr(front[i])->Some_0));
            assert(names[i] == front[i]);
        } else {
            assert(names[names.len() - 1] == names.last());
        }
    }
}

/// How restrictive an action is to the kernel.
pub open spec fn severity(action: FilterAction) -> nat {
    match action {
        FilterAction::Allow => 0,
        FilterAction::Log => 1,
        FilterAction::Trace(_) => 2,
        FilterAction::Errno(_) => 3,
        FilterAction::Trap => 4,
        FilterAction::KillThread => 5,
        FilterAction::KillProcess => 6,
    }
}

/// What the kernel does with a call under several filters, in the order in
/// which they were installed: the most restrictive action wins, and the filter
/// installed last among equals.
pub open spec fn stacked_verdict(
    filters: Seq<FilterView>,
    nr: i64,
    args: Seq<u64>,
) -> FilterAction
    decreases filters.len(),
{
    if filters.len() == 0 {
        FilterAction::Allow
    } else {
        let before = stacked_verdict(filters.drop_last(), nr, args);
        let last = filters.last().verdict(nr, args);
        if severity(last) >= severity(before) {
            last
        } else {
            before
        }
    }
}

/// Filters only ever narrow: whatever is stacked onto the installed ones, no
/// call is treated more leniently than before.
pub proof fn lemma_stacking_only_narrows(
    installed: Seq<FilterView>,
    added: Seq<FilterView>,
    nr: i64,
    args: Seq<u64>,
)
    ensures
        severity(stacked_verdict(installed + added, nr, args)) >= severity(
            stacked_verdict(installed, nr, args),
        ),
    decreases added.len(),
{
    if added.len() > 0 {
        lemma_stacking_only_narrows(installed, added.drop_last(), nr, args);
        assert((installed + added).drop_last() =~= installed + added.drop_last());
    } else {
        assert(installed + added =~= installed);
    }
}

/// Under the denylist filter and its overlay, `clone3` fails with `ENOSYS`
/// unless a policy denies it by number, and every other call is treated as the
/// denylist filter says.
pub proof fn lemma_denylist_stack(
    extra: Seq<i64>,
    deny_action: FilterAction,
    nr: i64,
    args: Seq<u64>,
)
    requires
        !extra.contains(SYS_CLONE3),
    ensures
        stacked_verdict(
            seq![
                seccomp::denylist_filter(extra, deny_action, Arch::X86_64),
                seccomp::clone3_filter(Arch::X86_64),
            ],
            nr,
            args,
        ) == (if nr == SYS_CLONE3 {
            FilterAction::Errno(ENOSYS)
        } else {
            seccomp::denylist_filter(extra, deny_action, Arch::X86_64).verdict(nr, args)
        }),
{
    let main = seccomp::denylist_filter(extra, deny_action, Arch::X86_64);
    let overlay = seccomp::clone3_filter(Arch::X86_64);
    lemma_denylist_verdict(extra, deny_action, Arch::X86_64, nr, args);
    lemma_clone3_verdict(Arch::X86_64, nr, args);
    assert(seq![main, overlay].drop_last() =~= seq![main]);
    assert(seq![main].drop_last() =~= Seq::<FilterView>::empty());
    reveal_with_fuel(stacked_verdict, 3);
}

/// Under the overlay and the allowlist filter, `clone3` fails with `ENOSYS`,
/// and every other call is treated as the allowlist filter says.
pub proof fn lemma_allowlist_stack(
    allowed: Seq<i64>,
    deny_action: FilterAction,
    nr: i64,
    args: Seq<u64>,
)
    ensures
        stacked_verdict(
            seq![
                seccomp::clone3_filter(Arch::X86_64),
                seccomp::allowlist_filter(allowed, deny_action, Arch::X86_64),
            ],
            nr,
            args,
        ) == (if nr == SYS_CLONE3 {
            FilterAction::Errno(ENOSYS)
        } else {
            seccomp::allowlist_filter(allowed, deny_action, Arch::X86_64).verdict(nr, args)
        }),
{
    let main = seccomp::allowlist_filter(allowed, deny_action, Arch::X86_64);
    let overlay = seccomp::clone3_filter(Arch::X86_64);
    lemma_allowlist_verdict(allowed, deny_action, Arch::X86_64, nr, args);
    lemma_clone3_verdict(Arch::X86_64, nr, args);
    assert(seq![overlay, main].drop_last() =~= seq![overlay]);
    assert(seq![overlay].drop_last() =~= Seq::<FilterView>::empty());
    reveal_with_fuel(stacked_verdict, 3);
}

/// Allowances resolve exactly where every name is known, each name to its own
/// number.
pub proof fn lemma_allowances_resolve(names: Seq<Seq<char>>)
    ensures
        seccomp::resolved_allowances(names) is Ok <==> forall|i: int|
            0 <= i < names.len() ==> syscalls::syscall_nr(#[trigger] names[i]) is Some,
        seccomp::resolved_allowances(names) matches Ok(nrs) ==> nrs.len() == names.len() && forall|
            i: int,
        |
            0 <= i < names.len() ==> Some(#[trigger] nrs[i]) == syscalls::syscall_nr(names[i]),
    decreases names.len(),
{
    if names.len() > 0 {
        let front = names.drop_last();
        lemma_allowances_resolve(front);
        assert forall|i: int| 0 <= i < front.len() implies front[i] == #[trigger] names[i] by {}
        assert(names[names.len() - 1] == names.last());
        if seccomp::resolved_allowances(names) is Ok {
            assert forall|i: int| 0 <= i < names.len() implies syscalls::syscall_nr(
                #[trigger] names[i],
            ) is Some by {
                if i < front.len() {
                    assert(front[i] == names[i]);
                }
            }
        } else if seccomp::resolved_allowances(front) is Err {
            let i = choose|i: int|
                0 <= i < front.len() && !(syscalls::syscall_nr(#[trigger] front[i]) is Some);
            assert(names[i] == front[i]);
        }
    }
}

/// Whether a policy may deny a name.
pub open spec fn is_deniable(name: Seq<char>) -> bool {
    syscalls::syscall_nr(name) matches Some(nr) && !syscalls::is_survival(nr)
}

/// Denials are refused over the first name that may not be denied: as unknown
/// where it stands for no call, and as a survival call where it stands for one
/// that a process needs to exit.
pub proof fn lemma_denials_refuse_first(names: Seq<Seq<char>>, i: int)
    requires
        0 <= i < names.len(),
        !is_deniable(names[i]),
        forall|j: int| 0 <= j < i ==> is_deniable(#[trigger] names[j]),
    ensures
        seccomp::resolved_denials(names) is Err,
        seccomp::resolved_denials(names)->Err_0 == (if syscalls::syscall_nr(names[i]) is None {
            FilterErrorView::UnknownSyscall(names[i])
        } else {
            FilterErrorView::SurvivalSyscall(names[i])
        }),
    decreases names.len(),
{
    let front = names.drop_last();
    if i < front.len() {
        assert forall|j: int| 0 <= j < i implies is_deniable(#[trigger] front[j]) by {
            assert(front[j] == names[j]);
        }
        lemma_denials_refuse_first(front, i);
    } else {
        lemma_denials_resolve(front);
        assert forall|j: int| 0 <= j < front.len() implies syscalls::syscall_nr(
            #[trigger] front[j],
        ) is Some && !syscalls::is_survival(syscalls::syscall_nr(front[j])->Some_0) by {
            assert(is_deniable(names[j]));
        }
        assert(names.last() == names[i]);
    }
}

/// Allowances are refused over the first name that stands for no call.
pub proof fn lemma_allowances_refuse_first(names: Seq<Seq<char>>, i: int)
    requires
        0 <= i < names.len(),
        syscalls::syscall_nr(names[i]) is None,
        forall|j: int| 0 <= j < i ==> syscalls::syscall_nr(#[trigger] names[j]) is Some,
    ensures
        seccomp::resolved_allowances(names) is Err,
        seccomp::resolved_allowances(names)->Err_0 == FilterErrorView::UnknownAllowance(names[i]),
    decreases names.len(),
{
    let front = names.drop_last();
    if i < front.len() {
        assert forall|j: int| 0 <= j < i implies syscalls::syscall_nr(#[trigger] front[j])
            is Some by {
            assert(front[j] == names[j]);
        }
        lemma_allowances_refuse_first(front, i);
    } else {
        lemma_allowances_resolve(front);
        assert forall|j: int| 0 <= j < front.len() implies syscalls::syscall_nr(
            #[trigger] front[j],
        ) is Some by {
            assert(front[j] == names[j]);
        }
        assert(names.last() == names[i]);
    }
}

/// The dangerous cases, by the numbers of the kernel: `ioctl` with the request
/// `TIOCSTI` or `TIOCLINUX` in its low half, `clone` with any of the seven
/// namespace bits, `prctl` with `PR_SET_MM` and `socket` with `AF_PACKET` in
/// their low halves.
pub proof fn lemma_dangerous_cases(nr: i64, args: Seq<u64>)
    ensures
        is_dangerous_case(nr, args) <==> {
            ||| nr == 16 && (args[1] & 0xffff_ffff == 0x5412 || args[1] & 0xffff_ffff == 0x541c)
            ||| nr == 56 && args[0] & 0x7e02_0000 != 0
            ||| nr == 157 && args[0] & 0xffff_ffff == 35
            ||| nr == 41 && args[0] & 0xffff_ffff == 17
        },
{
}

/// What a program answers, by the words of the kernel.
pub proof fn lemma_action_words(errno: u32)
    ensures
        filter::action_word(FilterAction::Allow) == 0x7fff_0000,
        filter::action_word(FilterAction::KillProcess) == 0x8000_0000,
        filter::action_word(FilterAction::KillThread) == 0,
        filter::action_word(FilterAction::Trap) == 0x0003_0000,
        filter::action_word(FilterAction::Log) == 0x7ffc_0000,
        filter::action_word(FilterAction::Trace(errno)) == 0x7ff0_0000u32 | (errno & 0xffff),
        filter::action_word(FilterAction::Errno(errno)) == 0x0005_0000u32 | (errno & 0xffff),
        filter::action_word(FilterAction::Errno(1)) == 0x0005_0001,
        filter::action_word(FilterAction::Errno(38)) == 0x0005_0026,
{
    assert(0x0005_0000u32 | (1u32 & 0xffff) == 0x0005_0001u32 && 0x0005_0000u32 | (38u32 & 0xffff)
        == 0x0005_0026u32) by (bit_vector);
}

} // verus!
