# minihype

A minimal hypervisor front end whose decisions are verified with Verus.

- `src/ioctl.rs` — Linux ioctl request numbers (`_IOC`, `_IO`, `_IOR`,
  `_IOW`, `_IOWR`) with their bit layout, and the laws that the fields
  decode back and that the encoding is injective.
- `src/kvm.rs` — the KVM request numbers (built through `libc`) and the
  bring-up protocol as a state machine: version check, VM and vCPU creation,
  guest memory, registers, and the run loop until `hlt`.
- `src/hv.rs` — Apple Hypervisor return codes, the line reported for each,
  the error carried on, and the exception class of an exit.
- `src/hv_session.rs` — the Apple Hypervisor session as a state machine,
  from VM creation through one run to teardown.
- `app/` — the hosts that perform the actions: `/dev/kvm` on Linux, the
  Hypervisor framework on Apple silicon.
