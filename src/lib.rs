pub mod grid;
pub mod rule;
pub mod automaton;
pub mod seeder;
pub mod control;
