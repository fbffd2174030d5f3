# AxiomOS (verified library)

A capability-based microkernel model in the style of seL4, in which a
capability is a linear Rust value `Cap<T>` whose ownership is the authority it
grants. The library is written in Verus and its functions carry contracts
that Verus proves, with two exceptions:

* `text::string_push`, a trusted wrapper around std's `String::push`, whose
  contract (the character is appended) is taken from std's documentation;
* the `Drop` impls of `Cap` and `CapSlot`, which run `CapObject::on_revoke`
  on a capability's object when it is dropped: what a drop does is not
  stated in any contract, and is covered by tests.

Layout:

* `src/capability` — rights, badges, errors, `Cap<T>`, capability slots and
  tables (`CapSlot`, `CNode`), and the badge allocator.
* `src/ipc` — endpoints, messages and reply objects.
* `src/memory` — frames, page tables and untyped memory.
* `src/distributed` — the soft-bus, device nodes and service tokens.
* `src/kernel` — threads, syscall numbers and the boot sequence.
* `src/text` — decimal and hexadecimal numerals for text forms.
* `app/main.rs` — the host-build kernel entry point, which runs the boot
  sequence and prints its report.
* `tests/` — integration tests.
