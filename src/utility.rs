pub mod consume_spsc;
pub mod replace_spsc;
pub mod ring;
