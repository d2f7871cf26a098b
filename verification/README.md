# sandbox

Default-deny worker-process sandboxing, verified with Verus.

A worker starts from `Profile::deny_all()` and is widened only by the explicit
grants its own crate declares. Three stages confine it:

1. `prepare` — in the control process, before the spawn: the child's launch
   environment as plain data.
2. `apply` — the first statement of the worker's `main()`: the procedure that
   configures the namespaces, replaces the root, drops capabilities, hardens the
   process and installs the seccomp filters.
3. `tighten` — optional, after initialization: stacks further syscall denials.

`apply` and `tighten` return a `Session`. It names one operation after another
and takes the outcome of each; its caller performs them. What is done, in which
order, and what a failure means is decided in the verified library.

## Layout

| Path | Contents |
| ---- | -------- |
| `src/profile.rs`, `src/profiles/` | the policy vocabulary and the base profiles |
| `src/prepare.rs` | the launch environment |
| `src/procedure.rs`, `src/script.rs` | procedures, sessions, and the pieces procedures are made of |
| `src/linux.rs` | the Linux backend |
| `src/unix/` | mount, network, hardening, Landlock and seccomp primitives |
| `src/meshworker.rs`, `src/sandbox_profiles.rs` | worker host roles and launch plans |
| `src/*_laws.rs`, `src/unix/seccomp_laws.rs` | what holds for every policy and every answer of the operating system |
| `app/` | performs the operations, reads the environment, and drives the mesh |
| `tests/` | tests, with the outside crates linked |

System call numbers and flags are those of Linux on x86-64; filters are built on
no other architecture.
