pub mod rational;
pub mod util;
pub mod types;
pub mod dice;
pub mod damage;
pub mod basetraits;
pub mod action;
pub mod creature;
pub mod combat;
