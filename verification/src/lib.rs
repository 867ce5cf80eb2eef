pub mod laws;
pub mod ring_buffer;
