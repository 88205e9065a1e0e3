//! An ice-cream truck service: validates orders, prices them, and tells the
//! bus adapter which reply to send and which notifications to broadcast.
pub mod flavour;
pub mod order;
pub mod truck;
