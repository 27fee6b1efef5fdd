pub mod cerke_online_bot;
pub mod cetkaik_engine;
pub mod game;
pub mod greedy;
pub mod min_max_avg;
pub mod model;
pub mod moves;
pub mod random_player;
mod naive;
mod random;
pub mod rules;
pub mod state;
