# Perpetual DEX core

Verus library for a perpetual-futures exchange, with an Anchor (Solana) program around it.

- `src/math.rs`: fixed-point risk math. It covers profit and loss, funding payment and rate, premium index, margin, health factor, liquidation bonus, constant-product AMM output, price impact, fees and oracle checks. Each function's contract says exactly what it returns and when it fails.
- `src/state.rs`, `src/events.rs`, `src/error.rs`: account data, events and error codes as plain values.
- `src/instructions/`: one struct per instruction holding the accounts it reads and writes, with an `execute` method. The method checks the account constraints and arguments in order, then applies the effect or changes nothing. Its contract names the first refusal (`refusal`) and the exact new state and events.
- `src/laws.rs`: properties across inputs and calls. Among them: long and short profits and funding are opposite, funding stays within its maximum, a fill never grows `k`, a withdrawal undoes a deposit, and the insurance fund's balance plus covered bad debt never exceeds the fees it collected.
- Order and fill sizes are base units. Positions open only from the user's filled order, at its average fill price. Margin is isolated: a closed position's loss never reaches the user's free collateral. Liquidation prices must lie within the protocol's maximum oracle deviation of the AMM mark, and an underwater position is liquidatable with its shortfall counted as bad debt.
- `app/`: the Anchor program. It holds the account contexts, reads the cluster clock, makes the token transfers, emits events and converts between the program's accounts and the library's values.
- `tests/`: concrete scenarios for every instruction, every error and every law.
