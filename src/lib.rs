pub mod history;
pub mod oracle;
pub mod series;
pub mod state;
pub mod vol;
