[package]
name = "cetkaik_ai"
version = "0.1.0"
edition = "2021"
publish = false

[dependencies]
cetkaik_full_state_transition = "*"
cetkaik_fundamental = "*"
cetkaik_traits = "*"
cetkaik_yhuap_move_candidates = "*"
cetkaik_calculate_hand = "*"
cetkaik_compact_representation = "*"
cetkaik_naive_representation = "*"
cetkaik_render_to_console = "*"
cetkaik_core = "*"
rand = { version = "0.8", features = ["small_rng"] }
clap = { version = "4", features = ["derive"] }
