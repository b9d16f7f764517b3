# anodize

Language-level isolation for mixed-criticality Rust programs: threads are
grouped, channels can only connect threads of one group, and a global
allocator bounds the memory each group may hold.

- `src/` is the verified library: the per-group memory accounting
  (`pool`, `allocator`, `fixed_bound`), heterogeneous lists (`hlist`), the
  group-tagged channel ends and not-yet-spawned threads (`thread_groups`),
  and the example system's argument checking and data types (`visodom`,
  `settings`, `trajectory`, `grouped_thread`).
- `app/` is the runtime around it: the `GlobalAlloc` front ends with their
  process-wide state, thread groups on std threads, configuration reading,
  image loading and tracking, and the floating-point kinematics and
  teleoperation helpers.
