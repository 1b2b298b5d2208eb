//! Input and interaction logic for driving a browser over the Chrome DevTools
//! Protocol: keyboard tables, the key and mouse events each interaction sends,
//! and the page functions it calls on elements.

pub mod text;
pub mod keys;
pub mod actions;
pub mod mouse;
pub mod dom_event;
pub mod laws;
