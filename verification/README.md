# retour

Function hooks for x86 and x86-64: a hook calls a function of yours before a
chosen instruction of a target function, then lets the target go on.

- `src/` is the verified library. It decodes the instruction at the target
  (through iced-x86), decides how it is carried into the hook's code
  (copied, re-targeted if it refers to memory relative to itself, turned
  into an absolute call or jump if it branches relative to itself, refused
  if it is a loop), lays out the stack-aligning call of the hook around it,
  computes the bytes of a relocated instruction for any placement, and keeps
  the enabled/disabled state of each hook. A small model of the stack and
  frame pointers shows that the hook is called with an aligned stack and that
  both pointers are restored before the displaced instruction runs.
- `app/` holds what runs in the process: reading the target's bytes,
  querying and changing memory protection (region), the enable/disable
  plumbing, the function-pointer traits and the `static_detour!` generator.
- `tests/` runs the library on real instruction bytes.
