pub mod manual;
pub mod negotiator;
