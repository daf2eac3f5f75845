//! Rendering core of a Game Boy Advance style video unit: the display
//! registers, the colour and tile formats held in video memory, and the
//! per-pixel compositing of backgrounds and sprites, and the address
//! relocation a fault handler applies to loads and stores into emulated memory.
pub mod bitfield;
pub mod bytes;
pub mod objects;
pub mod pixel;
pub mod registers;
pub mod video;
pub mod remap;
