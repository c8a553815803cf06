pub mod backend;
pub mod capture;
pub mod cli;
pub mod deliver;
pub mod flow;
pub mod text;
