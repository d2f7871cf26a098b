//! What the primitives give, said of their results and in the numbers of the
//! kernel.

use crate::error::Cause;
use crate::error::CauseView;
use crate::error::FilterError;
use crate::procedure::Op;
use crate::procedure::OpView;
use crate::procedure;
use crate::text;
use crate::unix::filter::Arch;
use crate::unix::filter::ArgLen;
use crate::unix::filter::CmpOp;
use crate::unix::filter::Condition;
use crate::unix::filter::FilterAction;
use crate::unix::filter::Instruction;
use crate::unix::filter;
use crate::unix::hardening;
use crate::unix::mount_namespace;
use crate::unix::network_namespace;
use crate::unix::seccomp;
use crate::unix::seccomp_laws;
use crate::unix::syscall_laws;
use crate::unix::SyscallResult;
use crate::unix::syscalls;
use seccompiler::SeccompRule;
use vstd::prelude::*;

verus! {

/// A system call that returns a negative value failed with the error number
/// that was recorded; any other value is the result.
pub proof fn lemma_return_values(
    a: i32,
    b: i64,
    c: isize,
    errno: i32,
    ra: Result<i32, i32>,
    rb: Result<i64, i32>,
    rc: Result<isize, i32>,
)
    requires
        call_ensures(<i32 as SyscallResult>::syscall_result, (a, errno), ra),
        call_ensures(<i64 as SyscallResult>::syscall_result, (b, errno), rb),
        call_ensures(<isize as SyscallResult>::syscall_result, (c, errno), rc),
    ensures
        a >= 0 ==> ra == Ok::<i32, i32>(a),
        a < 0 ==> ra == Err::<i32, i32>(errno),
        b >= 0 ==> rb == Ok::<i64, i32>(b),
        b < 0 ==> rb == Err::<i64, i32>(errno),
        c >= 0 ==> rc == Ok::<isize, i32>(c),
        c < 0 ==> rc == Err::<isize, i32>(errno),
{
}

/// The flag that gives up privileges is set where the call returned a positive
/// value, and not where it returned zero.
pub proof fn lemma_no_new_privs_read(returned: i32, errno: i32, r: Result<bool, i32>)
    requires
        call_ensures(hardening::get_no_new_privs, (returned, errno), r),
    ensures
        returned > 0 ==> r == Ok::<bool, i32>(true),
        returned == 0 ==> r == Ok::<bool, i32>(false),
        returned < 0 ==> r == Err::<bool, i32>(errno),
{
}

/// The four process controls: not dumpable, killed with the parent, securebits
/// locked, no new privileges.
pub proof fn lemma_process_controls(dumpable: Op, pdeathsig: Op, securebits: Op, privileges: Op)
    requires
        call_ensures(hardening::set_dumpable_off, (), dumpable),
        call_ensures(hardening::set_pdeathsig_kill, (), pdeathsig),
        call_ensures(hardening::lock_securebits, (), securebits),
        call_ensures(hardening::set_no_new_privs, (), privileges),
    ensures
        dumpable == (Op::Prctl { option: 4, arg: 0 }),
        pdeathsig == (Op::Prctl { option: 1, arg: 9 }),
        securebits == (Op::Prctl { option: 28, arg: 0xcf }),
        privileges == (Op::Prctl { option: 38, arg: 1 }),
{
    assert(dumpable@ is Prctl);
    assert(pdeathsig@ is Prctl);
    assert(securebits@ is Prctl);
    assert(privileges@ is Prctl);
}

/// Loopback is brought up through a datagram socket: the flags of `lo` are read
/// and `lo` is raised.
pub proof fn lemma_loopback(r: Vec<Op>)
    requires
        call_ensures(network_namespace::bring_up_loopback, (), r),
    ensures
        r@.len() == 3,
        r@[0]@ == (OpView::OpenSocket { domain: 2, kind: 2, protocol: 0 }),
        r@[1]@ == OpView::GetInterfaceFlags("lo"@),
        r@[2]@ == OpView::RaiseInterface("lo"@),
{
    let ops = procedure::ops_view(r@);
    assert(ops.len() == r@.len());
    assert(ops[0] == r@[0]@);
    assert(ops[1] == r@[1]@);
    assert(ops[2] == r@[2]@);
}

/// Whether a single operation refuses a zero byte in a path.
pub open spec fn refuses_zero_byte(ops: Seq<Op>) -> bool {
    ops.len() == 1 && ops[0] == Op::Refuse(Cause::NulInPath)
}

proof fn lemma_refusal(ops: Seq<Op>)
    requires
        procedure::ops_view(ops) == seq![
            OpView::Refuse(CauseView::NulInPath),
        ],
    ensures
        refuses_zero_byte(ops),
{
    let views = procedure::ops_view(ops);
    assert(views.len() == 1);
    assert(views[0] == ops[0]@);
}

/// The root's propagation is changed first to slave and then to private, with
/// everything below it.
pub proof fn lemma_root_private(r: Vec<Op>)
    requires
        call_ensures(mount_namespace::make_root_private, (), r),
    ensures
        r@.len() == 2,
        r@[0]@ == (OpView::Mount {
            source: None,
            target: vstd::utf8::encode_utf8("/"@),
            fstype: None,
            flags: 0x8_4000,
        }),
        r@[1]@ == (OpView::Mount {
            source: None,
            target: vstd::utf8::encode_utf8("/"@),
            fstype: None,
            flags: 0x4_4000,
        }),
{
    let ops = procedure::ops_view(r@);
    assert(ops.len() == 2);
    assert(ops[0] == r@[0]@);
    assert(ops[1] == r@[1]@);
    assert(0x4000u64 | 0x8_0000u64 == 0x8_4000u64 && 0x4000u64 | 0x4_0000u64 == 0x4_4000u64)
        by (bit_vector);
}

/// The root's propagation is changed by a mount on it with these flags alone.
pub proof fn lemma_root_propagation(flags: u64, r: Op)
    requires
        call_ensures(mount_namespace::set_root_propagation, (flags,), r),
    ensures
        r@ == (OpView::Mount {
            source: None,
            target: vstd::utf8::encode_utf8("/"@),
            fstype: None,
            flags,
        }),
{
}

/// A tmpfs is mounted on its target without flags; a zero byte is refused.
pub proof fn lemma_tmpfs(target: &[u8], r: Vec<Op>)
    requires
        call_ensures(mount_namespace::mount_tmpfs, (target,), r),
    ensures
        target@.contains(0u8) ==> refuses_zero_byte(r@),
        !target@.contains(0u8) ==> r@.len() == 1 && r@[0]@ == (OpView::Mount {
            source: Some(vstd::utf8::encode_utf8("none"@)),
            target: target@,
            fstype: Some("tmpfs"@),
            flags: 0,
        }),
{
    let ops = procedure::ops_view(r@);
    if target@.contains(0u8) {
        lemma_refusal(r@);
    } else {
        assert(ops.len() == 1);
        assert(ops[0] == r@[0]@);
    }
}

/// A path is bound to its target, which is created first, with everything below
/// it; flags are set by a remount behind that, and where there are none there is
/// no remount. A zero byte in either path is refused.
pub proof fn lemma_bind(source: &[u8], target: &[u8], flags: u64, r: Vec<Op>)
    requires
        call_ensures(mount_namespace::bind_mount, (source, target, flags), r),
    ensures
        source@.contains(0u8) || target@.contains(0u8) ==> refuses_zero_byte(r@),
        !source@.contains(0u8) && !target@.contains(0u8) ==> {
            &&& r@.len() == (if flags == 0 {
                2int
            } else {
                3
            })
            &&& r@[0]@ == OpView::CreateDirAll(target@)
            &&& r@[1]@ == (OpView::Mount {
                source: Some(source@),
                target: target@,
                fstype: None,
                flags: 0x5000,
            })
            &&& flags != 0 ==> r@[2]@ == (OpView::Mount {
                source: None,
                target: target@,
                fstype: None,
                flags: 0x5020 | flags,
            })
        },
{
    let ops = procedure::ops_view(r@);
    assert(0x1000u64 | 0x4000u64 == 0x5000u64 && 0x1000u64 | 0x4000u64 | 0x20u64 | flags
        == 0x5020u64 | flags) by (bit_vector);
    if source@.contains(0u8) || target@.contains(0u8) {
        lemma_refusal(r@);
    } else {
        assert(ops.len() == r@.len());
        assert(ops[0] == r@[0]@);
        assert(ops[1] == r@[1]@);
        if flags != 0 {
            assert(ops[2] == r@[2]@);
        }
    }
}

/// A proc file system is mounted on its target, which is created first; a zero
/// byte is refused.
pub proof fn lemma_proc(target: &[u8], r: Vec<Op>)
    requires
        call_ensures(mount_namespace::mount_proc, (target,), r),
    ensures
        target@.contains(0u8) ==> refuses_zero_byte(r@),
        !target@.contains(0u8) ==> r@.len() == 2 && r@[0]@ == OpView::CreateDirAll(target@)
            && r@[1]@ == (OpView::Mount {
            source: Some(vstd::utf8::encode_utf8("proc"@)),
            target: target@,
            fstype: Some("proc"@),
            flags: 0,
        }),
{
    let ops = procedure::ops_view(r@);
    if target@.contains(0u8) {
        lemma_refusal(r@);
    } else {
        assert(ops.len() == 2);
        assert(ops[0] == r@[0]@);
        assert(ops[1] == r@[1]@);
    }
}

/// The root is exchanged in one call; a zero byte in either path is refused.
pub proof fn lemma_pivot(new_root: &[u8], old_root: &[u8], r: Vec<Op>)
    requires
        call_ensures(mount_namespace::pivot_root, (new_root, old_root), r),
    ensures
        new_root@.contains(0u8) || old_root@.contains(0u8) ==> refuses_zero_byte(r@),
        !new_root@.contains(0u8) && !old_root@.contains(0u8) ==> r@.len() == 1 && r@[0]@
            == (OpView::PivotRoot { new_root: new_root@, old_root: old_root@ }),
{
    let ops = procedure::ops_view(r@);
    if new_root@.contains(0u8) || old_root@.contains(0u8) {
        lemma_refusal(r@);
    } else {
        assert(ops.len() == 1);
        assert(ops[0] == r@[0]@);
    }
}

/// A mount is detached lazily; a zero byte is refused.
pub proof fn lemma_unmount(target: &[u8], r: Vec<Op>)
    requires
        call_ensures(mount_namespace::umount, (target,), r),
    ensures
        target@.contains(0u8) ==> refuses_zero_byte(r@),
        !target@.contains(0u8) ==> r@.len() == 1 && r@[0]@ == (OpView::Unmount {
            target: target@,
            options: 2,
        }),
{
    let ops = procedure::ops_view(r@);
    if target@.contains(0u8) {
        lemma_refusal(r@);
    } else {
        assert(ops.len() == 1);
        assert(ops[0] == r@[0]@);
    }
}

/// A path is handed to the kernel as it is, unless it holds a zero byte.
pub proof fn lemma_cstring(path: &[u8], r: Result<Vec<u8>, Cause>)
    requires
        call_ensures(mount_namespace::path_to_cstring, (path,), r),
    ensures
        path@.contains(0u8) ==> r is Err && r->Err_0 == Cause::NulInPath,
        !path@.contains(0u8) ==> r is Ok && r->Ok_0@ == path@,
{
}

/// Looking a name up gives the number that the name stands for.
pub proof fn lemma_name_lookup(name: &str, r: Option<i64>)
    requires
        call_ensures(syscalls::nr_for_name, (name,), r),
    ensures
        r == syscalls::syscall_nr(name@),
{
}

/// The mandatory-deny list holds sixty numbers, no one twice, and the survival
/// list four; the two tests tell what the lists hold. No call is on both.
pub proof fn lemma_call_lists(
    denied: Vec<i64>,
    survival: [i64; 4],
    nr: i64,
    is_denied: bool,
    is_survival: bool,
)
    requires
        call_ensures(syscalls::mandatory_deny_syscall_nrs, (), denied),
        call_ensures(syscalls::survival_syscall_nrs, (), survival),
        call_ensures(syscalls::is_mandatory_deny_syscall, (nr,), is_denied),
        call_ensures(syscalls::is_survival_syscall, (nr,), is_survival),
    ensures
        denied@.len() == 60,
        denied@.no_duplicates(),
        denied@.contains(nr) <==> is_denied,
        is_denied <==> syscalls::is_mandatory_denied(nr),
        survival@ == seq![60i64, 231, 15, 219],
        survival@.contains(nr) <==> is_survival,
        is_survival <==> syscalls::is_survival(nr),
        !(is_denied && is_survival),
{
    syscall_laws::lemma_mandatory_numbers(nr);
    syscall_laws::lemma_survival_numbers(nr);
    syscalls::lemma_mandatory_deny_list(nr);
}

/// Denying names gives the number of each, in order, unless one is unknown or is
/// a call that a process needs to exit: then it is an error over the first such
/// name.
pub proof fn lemma_denials_result(names: &[&str], r: Result<Vec<i64>, FilterError>)
    requires
        call_ensures(seccomp::resolve_denials, (names,), r),
    ensures
        r is Ok <==> forall|i: int|
            0 <= i < names@.len() ==> seccomp_laws::is_deniable((#[trigger] names@[i])@),
        r matches Ok(nrs) ==> nrs@.len() == names@.len() && forall|i: int|
            0 <= i < names@.len() ==> Some(#[trigger] nrs@[i]) == syscalls::syscall_nr(
                names@[i]@,
            ),
        forall|i: int|
            0 <= i < names@.len() && !seccomp_laws::is_deniable((#[trigger] names@[i])@) && (forall|
                j: int,
            |
                0 <= j < i ==> seccomp_laws::is_deniable((#[trigger] names@[j])@))
                ==> (match syscalls::syscall_nr(names@[i]@) {
                None => r matches Err(FilterError::UnknownSyscall(name)) && name@ == names@[i]@,
                Some(_) => r matches Err(FilterError::SurvivalSyscall(name)) && name@
                    == names@[i]@,
            }),
{
    let texts = text::names_view(names@);
    seccomp_laws::lemma_denials_resolve(texts);
    assert(texts.len() == names@.len());
    assert forall|i: int| 0 <= i < names@.len() implies texts[i] == (#[trigger] names@[i])@ by {}
    if r is Ok {
        assert forall|i: int| 0 <= i < names@.len() implies seccomp_laws::is_deniable(
            (#[trigger] names@[i])@,
        ) by {
            assert(syscalls::syscall_nr(texts[i]) is Some);
        }
    } else if forall|i: int|
        0 <= i < names@.len() ==> seccomp_laws::is_deniable((#[trigger] names@[i])@) {
        assert forall|i: int| 0 <= i < texts.len() implies syscalls::syscall_nr(
            #[trigger] texts[i],
        ) is Some && !syscalls::is_survival(syscalls::syscall_nr(texts[i])->Some_0) by {
            assert(seccomp_laws::is_deniable(names@[i]@));
        }
    }
    assert forall|i: int|
        0 <= i < names@.len() && !seccomp_laws::is_deniable((#[trigger] names@[i])@) && (forall|
            j: int,
        |
            0 <= j < i ==> seccomp_laws::is_deniable((#[trigger] names@[j])@)) implies (
    match syscalls::syscall_nr(names@[i]@) {
        None => r matches Err(FilterError::UnknownSyscall(name)) && name@ == names@[i]@,
        Some(_) => r matches Err(FilterError::SurvivalSyscall(name)) && name@ == names@[i]@,
    }) by {
        assert forall|j: int| 0 <= j < i implies seccomp_laws::is_deniable(#[trigger] texts[j]) by {
            assert(seccomp_laws::is_deniable(names@[j]@));
        }
        seccomp_laws::lemma_denials_refuse_first(texts, i);
        assert(texts[i] == names@[i]@);
        assert(r->Err_0@ == seccomp::resolved_denials(texts)->Err_0);
    }
}

/// Allowing names gives the number of each, in order, unless one is unknown:
/// then it is an error over the first such name.
pub proof fn lemma_allowances_result(names: &[&str], r: Result<Vec<i64>, FilterError>)
    requires
        call_ensures(seccomp::resolve_allowances, (names,), r),
    ensures
        r is Ok <==> forall|i: int|
            0 <= i < names@.len() ==> syscalls::syscall_nr((#[trigger] names@[i])@) is Some,
        r matches Ok(nrs) ==> nrs@.len() == names@.len() && forall|i: int|
            0 <= i < names@.len() ==> Some(#[trigger] nrs@[i]) == syscalls::syscall_nr(
                names@[i]@,
            ),
        forall|i: int|
            0 <= i < names@.len() && syscalls::syscall_nr((#[trigger] names@[i])@) is None
                && (forall|j: int|
                0 <= j < i ==> syscalls::syscall_nr((#[trigger] names@[j])@) is Some) ==> (r
                matches Err(FilterError::UnknownAllowance(name)) && name@ == names@[i]@),
{
    let texts = text::names_view(names@);
    seccomp_laws::lemma_allowances_resolve(texts);
    assert(texts.len() == names@.len());
    assert forall|i: int| 0 <= i < names@.len() implies texts[i] == (#[trigger] names@[i])@ by {}
    if r is Ok {
        assert forall|i: int| 0 <= i < names@.len() implies syscalls::syscall_nr(
            (#[trigger] names@[i])@,
        ) is Some by {
            assert(syscalls::syscall_nr(texts[i]) is Some);
        }
    } else if forall|i: int|
        0 <= i < names@.len() ==> syscalls::syscall_nr((#[trigger] names@[i])@) is Some {
        assert forall|i: int| 0 <= i < texts.len() implies syscalls::syscall_nr(
            #[trigger] texts[i],
        ) is Some by {
            assert(syscalls::syscall_nr(names@[i]@) is Some);
        }
    }
    assert forall|i: int|
        0 <= i < names@.len() && syscalls::syscall_nr((#[trigger] names@[i])@) is None && (forall|
            j: int,
        |
            0 <= j < i ==> syscalls::syscall_nr((#[trigger] names@[j])@) is Some) implies (r
        matches Err(FilterError::UnknownAllowance(name)) && name@ == names@[i]@) by {
        assert forall|j: int| 0 <= j < i implies syscalls::syscall_nr(#[trigger] texts[j])
            is Some by {
            assert(syscalls::syscall_nr(names@[j]@) is Some);
        }
        seccomp_laws::lemma_allowances_refuse_first(texts, i);
        assert(texts[i] == names@[i]@);
        assert(r->Err_0@ == seccomp::resolved_allowances(texts)->Err_0);
    }
}

/// A denylist program decides by number and arguments: the deny action for the
/// mandatory-deny list, for each listed number and for the dangerous cases, and
/// nothing else.
pub proof fn lemma_denylist_program(
    extra: &[i64],
    deny_action: FilterAction,
    arch: &str,
    r: Result<Vec<Instruction>, FilterError>,
    nr: i64,
    args: Seq<u64>,
)
    requires
        call_ensures(seccomp::build_denylist_filter, (extra, deny_action, arch), r),
        0 <= nr <= u32::MAX,
        args.len() == 6,
    ensures
        r matches Ok(program) ==> filter::decision(program@, Arch::X86_64, nr, args) == Some(
            if syscalls::is_mandatory_denied(nr) || extra@.contains(nr)
                || seccomp_laws::is_dangerous_case(nr, args) {
                filter::action_word(deny_action)
            } else {
                0x7fff_0000
            },
        ),
{
    seccomp_laws::lemma_denylist_verdict(extra@, deny_action, Arch::X86_64, nr, args);
    seccomp_laws::lemma_action_words(0);
}

/// An allowlist program decides by number and arguments: it lets a harmless case
/// of a listed number through, unless the number is on the mandatory-deny list,
/// and `clone3`; everything else gets the deny action.
pub proof fn lemma_allowlist_program(
    allowed: &[i64],
    deny_action: FilterAction,
    arch: &str,
    r: Result<Vec<Instruction>, FilterError>,
    nr: i64,
    args: Seq<u64>,
)
    requires
        call_ensures(seccomp::build_allowlist_filter, (allowed, deny_action, arch), r),
        0 <= nr <= u32::MAX,
        args.len() == 6,
    ensures
        r matches Ok(program) ==> filter::decision(program@, Arch::X86_64, nr, args) == Some(
            if nr == 435 || (allowed@.contains(nr) && !syscalls::is_mandatory_denied(nr)
                && !seccomp_laws::is_dangerous_case(nr, args)) {
                0x7fff_0000
            } else {
                filter::action_word(deny_action)
            },
        ),
{
    seccomp_laws::lemma_allowlist_verdict(allowed@, deny_action, Arch::X86_64, nr, args);
    seccomp_laws::lemma_action_words(0);
}

/// The overlay answers `clone3` with `ENOSYS` and lets every other call through.
pub proof fn lemma_overlay_program(
    arch: &str,
    r: Result<Vec<Instruction>, FilterError>,
    nr: i64,
    args: Seq<u64>,
)
    requires
        call_ensures(seccomp::build_clone3_enosys_filter, (arch,), r),
        0 <= nr <= u32::MAX,
        args.len() == 6,
    ensures
        r matches Ok(program) ==> filter::decision(program@, Arch::X86_64, nr, args) == Some(
            if nr == 435 {
                0x0005_0026
            } else {
                0x7fff_0000u32
            },
        ),
{
    seccomp_laws::lemma_clone3_verdict(Arch::X86_64, nr, args);
    seccomp_laws::lemma_action_words(0);
}

/// Among ASCII names, exactly those that read `x86_64` in lower case name an
/// architecture with system call numbers. Of the others, those that name none at
/// all and those that name another one are told apart.
pub proof fn lemma_arch_result(arch: &str, r: Result<Arch, FilterError>)
    requires
        call_ensures(seccomp::target_arch, (arch,), r),
    ensures
        r matches Ok(found) ==> found == Arch::X86_64,
        r matches Err(error) ==> match filter::parsed_arch(arch@) {
            None => error matches FilterError::UnsupportedArch(name) && name@ == arch@,
            Some(_) => error matches FilterError::UnnumberedArch(name) && name@ == arch@,
        },
        vstd::utf8::is_ascii_chars(arch@) ==> (r is Ok <==> filter::lowercase(arch@) == "x86_64"@),
{
    reveal_strlit("x86_64");
    reveal_strlit("aarch64");
    reveal_strlit("riscv64");
    if let Err(error) = r {
        assert(error@ == seccomp::arch_error(arch@));
    }
}

/// Whether a rule is the single comparison of the low half of an argument.
pub open spec fn compares_low_half(rule: SeccompRule, arg_index: u8, value: u64) -> bool {
    filter::rule_contents(rule) == seq![
        Condition { arg_index, arg_len: ArgLen::Dword, op: CmpOp::Eq, value },
    ]
}

/// The rules of the guarded calls: the two terminal requests of `ioctl`,
/// `PR_SET_MM` of `prctl` and `AF_PACKET` of `socket`, each compared with the low
/// half of its argument.
pub proof fn lemma_guard_rules(
    ioctl: Result<Vec<SeccompRule>, FilterError>,
    prctl: Result<Vec<SeccompRule>, FilterError>,
    socket: Result<Vec<SeccompRule>, FilterError>,
)
    requires
        call_ensures(seccomp::ioctl_deny_rules, (), ioctl),
        call_ensures(seccomp::prctl_deny_rules, (), prctl),
        call_ensures(seccomp::socket_deny_rules, (), socket),
    ensures
        ioctl is Ok && ioctl->Ok_0@.len() == 2,
        compares_low_half(ioctl->Ok_0@[0], 1, 0x5412),
        compares_low_half(ioctl->Ok_0@[1], 1, 0x541c),
        prctl is Ok && prctl->Ok_0@.len() == 1,
        compares_low_half(prctl->Ok_0@[0], 0, 35),
        socket is Ok && socket->Ok_0@.len() == 1,
        compares_low_half(socket->Ok_0@[0], 0, 17),
{
    let a = filter::chain_view(ioctl->Ok_0@);
    let b = filter::chain_view(prctl->Ok_0@);
    let c = filter::chain_view(socket->Ok_0@);
    assert(a.len() == ioctl->Ok_0@.len() && b.len() == prctl->Ok_0@.len() && c.len()
        == socket->Ok_0@.len());
    assert(a[0] == filter::rule_contents(ioctl->Ok_0@[0]));
    assert(a[1] == filter::rule_contents(ioctl->Ok_0@[1]));
    assert(b[0] == filter::rule_contents(prctl->Ok_0@[0]));
    assert(c[0] == filter::rule_contents(socket->Ok_0@[0]));
}

/// Whether a rule is the test of one bit of the first argument.
pub open spec fn tests_bit(rule: SeccompRule, bit: u64) -> bool {
    filter::rule_contents(rule) == seq![
        Condition {
            arg_index: 0,
            arg_len: ArgLen::Qword,
            op: CmpOp::MaskedEq(bit),
            value: bit,
        },
    ]
}

/// The rules of `clone`: one for each of the seven namespace bits.
pub proof fn lemma_clone_rules(r: Result<Vec<SeccompRule>, FilterError>)
    requires
        call_ensures(seccomp::clone_deny_rules, (), r),
    ensures
        r is Ok && r->Ok_0@.len() == 7,
        tests_bit(r->Ok_0@[0], 0x0002_0000),
        tests_bit(r->Ok_0@[1], 0x0200_0000),
        tests_bit(r->Ok_0@[2], 0x0400_0000),
        tests_bit(r->Ok_0@[3], 0x0800_0000),
        tests_bit(r->Ok_0@[4], 0x1000_0000),
        tests_bit(r->Ok_0@[5], 0x2000_0000),
        tests_bit(r->Ok_0@[6], 0x4000_0000),
{
    let rules = r->Ok_0@;
    let chain = filter::chain_view(rules);
    assert(chain.len() == rules.len());
    assert(chain[0] == filter::rule_contents(rules[0]));
    assert(chain[1] == filter::rule_contents(rules[1]));
    assert(chain[2] == filter::rule_contents(rules[2]));
    assert(chain[3] == filter::rule_contents(rules[3]));
    assert(chain[4] == filter::rule_contents(rules[4]));
    assert(chain[5] == filter::rule_contents(rules[5]));
    assert(chain[6] == filter::rule_contents(rules[6]));
}

/// A program is installed as it is.
pub proof fn lemma_installation(program: Vec<Instruction>, r: Op)
    requires
        call_ensures(seccomp::apply_filter, (program,), r),
    ensures
        r matches Op::InstallFilter(own) && own@ == program@,
{
    assert(r@ is InstallFilter);
}

/// Whether an operation installs a program that answers a call with this word.
pub open spec fn answers(op: Op, nr: i64, args: Seq<u64>, word: u32) -> bool {
    op matches Op::InstallFilter(program) && filter::decision(
        program@,
        Arch::X86_64,
        nr,
        args,
    ) == Some(word)
}

/// A denylist is put in force by two programs. The first stops the
/// mandatory-deny list, the named calls and the dangerous cases; the second
/// answers `clone3`. On an architecture in doubt, or over a bad name, the last
/// operation is a refusal instead.
pub proof fn lemma_denylist_ops(
    names: &[&str],
    deny_action: FilterAction,
    arch: &str,
    r: Vec<Op>,
    nrs: Result<Vec<i64>, FilterError>,
    nr: i64,
    args: Seq<u64>,
)
    requires
        call_ensures(seccomp::apply_denylist, (names, deny_action, arch), r),
        call_ensures(seccomp::resolve_denials, (names,), nrs),
        0 <= nr <= u32::MAX,
        args.len() == 6,
    ensures
        r@.len() > 0,
        nrs matches Err(error) ==> r@.len() == 1 && (r@[0] matches Op::Refuse(Cause::Filter(own))
            && own@ == error@),
        vstd::utf8::is_ascii_chars(arch@) && filter::lowercase(arch@) == "x86_64"@ && deny_action
            != FilterAction::Allow && nrs is Ok ==> !(r@.last() is Refuse),
        vstd::utf8::is_ascii_chars(arch@) && filter::lowercase(arch@) != "x86_64"@ ==> r@.last()
            is Refuse,
        !(r@.last() is Refuse) ==> nrs is Ok && r@.len() == 2 && answers(
            r@[0],
            nr,
            args,
            if syscalls::is_mandatory_denied(nr) || nrs->Ok_0@.contains(nr)
                || seccomp_laws::is_dangerous_case(nr, args) {
                filter::action_word(deny_action)
            } else {
                0x7fff_0000
            },
        ) && answers(
            r@[1],
            nr,
            args,
            if nr == 435 {
                0x0005_0026
            } else {
                0x7fff_0000
            },
        ),
{
    let ops = procedure::ops_view(r@);
    reveal_strlit("x86_64");
    reveal_strlit("aarch64");
    reveal_strlit("riscv64");
    assert(ops.len() == r@.len());
    assert(ops[0] == r@[0]@);
    assert(ops.last() == r@.last()@);
    if ops.len() == 2 {
        assert(ops[1] == r@[1]@);
    }
    seccomp_laws::lemma_action_words(0);
    if let Ok(nrs) = nrs {
        seccomp_laws::lemma_denylist_verdict(nrs@, deny_action, Arch::X86_64, nr, args);
    }
    seccomp_laws::lemma_clone3_verdict(Arch::X86_64, nr, args);
}

/// An allowlist is put in force by two programs. The first answers `clone3`; the
/// second lets the harmless cases of the named calls through and stops
/// everything else. On an architecture in doubt, or over an unknown name, there
/// is a refusal instead.
pub proof fn lemma_allowlist_ops(
    names: &[&str],
    deny_action: FilterAction,
    arch: &str,
    r: Vec<Op>,
    nrs: Result<Vec<i64>, FilterError>,
    nr: i64,
    args: Seq<u64>,
)
    requires
        call_ensures(seccomp::apply_allowlist, (names, deny_action, arch), r),
        call_ensures(seccomp::resolve_allowances, (names,), nrs),
        0 <= nr <= u32::MAX,
        args.len() == 6,
    ensures
        r@.len() > 0,
        nrs matches Err(error) ==> r@.len() == 1 && (r@[0] matches Op::Refuse(Cause::Filter(own))
            && own@ == error@),
        vstd::utf8::is_ascii_chars(arch@) && filter::lowercase(arch@) == "x86_64"@ && deny_action
            != FilterAction::Allow && nrs is Ok ==> !(r@.last() is Refuse),
        vstd::utf8::is_ascii_chars(arch@) && filter::lowercase(arch@) != "x86_64"@ ==> r@.last()
            is Refuse,
        r@.last() is Refuse ==> r@.len() == 1,
        !(r@.last() is Refuse) ==> nrs is Ok && r@.len() == 2 && answers(
            r@[0],
            nr,
            args,
            if nr == 435 {
                0x0005_0026
            } else {
                0x7fff_0000
            },
        ) && answers(
            r@[1],
            nr,
            args,
            if nr == 435 || (nrs->Ok_0@.contains(nr) && !syscalls::is_mandatory_denied(nr)
                && !seccomp_laws::is_dangerous_case(nr, args)) {
                0x7fff_0000
            } else {
                filter::action_word(deny_action)
            },
        ),
{
    let ops = procedure::ops_view(r@);
    reveal_strlit("x86_64");
    reveal_strlit("aarch64");
    reveal_strlit("riscv64");
    assert(ops.len() == r@.len());
    assert(ops[0] == r@[0]@);
    assert(ops.last() == r@.last()@);
    if ops.len() == 2 {
        assert(ops[1] == r@[1]@);
    }
    seccomp_laws::lemma_action_words(0);
    if let Ok(nrs) = nrs {
        seccomp_laws::lemma_allowlist_verdict(nrs@, deny_action, Arch::X86_64, nr, args);
    }
    seccomp_laws::lemma_clone3_verdict(Arch::X86_64, nr, args);
}

/// Whether the name of an architecture reads `x86_64`, in whatever case.
pub open spec fn reads_x86_64(arch: Seq<char>) -> bool {
    vstd::utf8::is_ascii_chars(arch) && filter::lowercase(arch) == "x86_64"@
}

/// On x86-64 a program can be built unless it would deny by allowing, or might
/// be too long for the kernel: a list of three hundred numbers is never too
/// long.
pub proof fn lemma_programs_are_built(
    numbers: &[i64],
    deny_action: FilterAction,
    arch: &str,
    denylist: Result<Vec<Instruction>, FilterError>,
    allowlist: Result<Vec<Instruction>, FilterError>,
    overlay: Result<Vec<Instruction>, FilterError>,
)
    requires
        call_ensures(seccomp::build_denylist_filter, (numbers, deny_action, arch), denylist),
        call_ensures(seccomp::build_allowlist_filter, (numbers, deny_action, arch), allowlist),
        call_ensures(seccomp::build_clone3_enosys_filter, (arch,), overlay),
        reads_x86_64(arch@),
    ensures
        overlay is Ok,
        deny_action != FilterAction::Allow && numbers@.len() <= 300 ==> denylist is Ok && allowlist
            is Ok,
        deny_action != FilterAction::Allow && denylist is Err ==> denylist->Err_0 is Compilation,
        deny_action != FilterAction::Allow && allowlist is Err ==> allowlist->Err_0 is Compilation,
        deny_action == FilterAction::Allow && filter::parsed_arch(arch@) == Some(Arch::X86_64)
            ==> denylist is Err && denylist->Err_0 is Creation && allowlist is Err
            && allowlist->Err_0 is Creation,
{
    reveal_strlit("x86_64");
    syscalls::lemma_mandatory_deny_list(0);
    if numbers@.len() <= 300 {
        assert forall|i: int| 0 <= i < numbers@.len() implies numbers@.contains(
            #[trigger] numbers@[i],
        ) by {}
        seccomp::lemma_denylist_is_small(numbers@, numbers@, deny_action, Arch::X86_64);
        seccomp::lemma_allowlist_is_small(numbers@, numbers@, deny_action, Arch::X86_64);
    }
    assert(seccomp::program_view(denylist) is Err <==> denylist is Err);
    assert(seccomp::program_view(allowlist) is Err <==> allowlist is Err);
    assert(seccomp::program_view(overlay) is Err <==> overlay is Err);
}

/// Elsewhere no program can be built, and the error names the architecture.
pub proof fn lemma_programs_are_refused(
    numbers: &[i64],
    deny_action: FilterAction,
    arch: &str,
    denylist: Result<Vec<Instruction>, FilterError>,
    allowlist: Result<Vec<Instruction>, FilterError>,
    overlay: Result<Vec<Instruction>, FilterError>,
    found: Result<Arch, FilterError>,
)
    requires
        call_ensures(seccomp::build_denylist_filter, (numbers, deny_action, arch), denylist),
        call_ensures(seccomp::build_allowlist_filter, (numbers, deny_action, arch), allowlist),
        call_ensures(seccomp::build_clone3_enosys_filter, (arch,), overlay),
        call_ensures(seccomp::target_arch, (arch,), found),
    ensures
        vstd::utf8::is_ascii_chars(arch@) && !reads_x86_64(arch@) ==> denylist is Err && allowlist
            is Err && overlay is Err,
        found is Err ==> denylist is Err && denylist->Err_0@ == found->Err_0@,
        found is Err ==> allowlist is Err && allowlist->Err_0@ == found->Err_0@,
        found is Err ==> overlay is Err && overlay->Err_0@ == found->Err_0@,
{
    reveal_strlit("x86_64");
    reveal_strlit("aarch64");
    reveal_strlit("riscv64");
    assert(seccomp::program_view(denylist) is Err <==> denylist is Err);
    assert(seccomp::program_view(allowlist) is Err <==> allowlist is Err);
    assert(seccomp::program_view(overlay) is Err <==> overlay is Err);
}

} // verus!
