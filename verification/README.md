# poke_engine

The verified core of a Pokémon battle engine.

- `src/state.rs`: the battle vocabulary (sides, slots, stats, types, statuses,
  weather, terrain, moves, items) and the battle state that the ability rules
  read and write: two sides of six pokemon (species, hp, abilities, item,
  status, types), their volatile statuses, side conditions and speed boost,
  and the weather and terrain.
- `src/instruction.rs`: the instruction set that records every change a turn
  makes, the faint context carried with damage, and instruction equality.
- `src/debug_text.rs`: the text each instruction is printed as
  (`Instruction::debug_string`; the derived `Debug` prints the Rust form).
- `src/abilities.rs`: all abilities, which of them mold breaker ignores or
  which survive contact changes, skill swap and trace, the side updates of
  charge, protosynthesis / quark drive and toxic debris, what abilities do as
  their holder switches out, and ice face breaking on a blocked move.
- `src/before_move.rs`: what abilities do as a move is about to be used.
- `src/after_hit.rs`: what abilities do after a move has hit (including the
  spicy spray burn).
- `src/on_start.rs`: what abilities do as their holder takes the field.
- `src/end_of_turn.rs`: what abilities do at the end of a turn.
- `src/search.rs`: how the root of the expectiminimax search is split among
  workers and how their rows are put back in order.
- `src/mcts.rs`: worker counts, iteration budgets, settings, shared-tree child
  slots and the merging of visit counts of the Monte Carlo tree search.
- `app/`: floating-point scoring, threads, environment settings and random
  sampling around the library.

What the ability rules need from the rest of an engine (whether an ability or
the weather is suppressed, whether a move ignores the target's ability, the
stat changes a new forme's stats call for, the instructions of boosts, of
curing a status, of eating a berry or of a choice lock, whether a boost took
effect) is handed to them as arguments. Of the boosts, the state keeps the
speed boost: the recorded speed boosts move it.

Not here: the attack-power modifiers, the move generator, the evaluation
function, the expectiminimax and Monte Carlo tree searches themselves, and the
pruned parallel root search; they rest on floating-point scores, on stat boosts and
on the move, item and damage rules, which this crate does not hold.
