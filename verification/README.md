# swap_engine

A Solana trading program's logic as a verified library: pool quotes and validity for
Raydium and Pump.fun, profit estimates and the trade-size search, tips and lamport movements,
the sandwich tracker, swap requests, and the program's own account records.

- `src/` is the library, verified with Verus. Every public function states what it returns,
  and the laws that relate functions stand as public proof functions beside them.
- `tests/` runs the library on concrete values.
- `app/` is the Anchor program around the library: accounts, instruction handlers, the
  cross-program invocation of a swap, and the floating-point steps (a pool's price check and the
  square root that the search takes), which the library receives as functions.
