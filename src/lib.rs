//! Host-side logic of a two-panel desktop shell: a control panel on the left
//! drives a web content panel on the right, and every navigation of the content
//! panel is relayed back to the control panel.

pub mod address;
pub mod layout;
pub mod script;
pub mod shell;

pub use address::url_parses;
pub use layout::{startup_windows, ContentSource, WindowSpec};
pub use script::{greet, location_script};
pub use shell::{NavError, NavigationDecision, Panel, Shell};
