//! Safe core of the configuration-option bindings of a chat client's plugin
//! interface: option descriptors, the callback cells handed to the host as
//! opaque context, the dispatch run by each callback trampoline, and the
//! lifecycle of a configuration section.
//!
//! Native handles (sections, options, the plugin, the addresses of the
//! callback cells) are carried here as plain addresses; the layer that talks
//! to the host turns them into pointers.
pub mod callbacks;
pub mod option;
pub mod section;
