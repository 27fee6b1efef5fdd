# cetkaik_ai

Computer players for cetkaik (机戦), verified with Verus.

- `src/model.rs`, `src/moves.rs`, `src/state.rs`: the board, pieces, moves and game states
  as plain values, with their views.
- `src/rules.rs`: the calls into the rule crates (move generation, state transitions, hand
  scoring, casting the sticks), each with the contract that the crate's source supports.
- `src/naive.rs`: conversions to and from `cetkaik_naive_representation`.
- `src/cetkaik_engine.rs`: the `CetkaikEngine` trait and the score helpers.
- `src/random_player.rs`, `src/greedy.rs`, `src/min_max_avg.rs`: three engines.
- `src/cerke_online_bot.rs`: the tactics of the Cerke Online computer player.
- `src/game.rs`: one turn of a match between two engines.
- `app/`: the command-line program that plays matches and prints them.
