pub mod bgpi;
pub mod fetcher;
pub mod ppu;
pub mod structs;
pub mod cc;
