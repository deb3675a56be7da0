//! Application core: the `Model`, the pure `update` reducer, and the message
//! and modal types that drive the MVU loop. Terminal- and I/O-independent.
pub mod input;
pub mod laws;
pub mod message;

pub use message::{Action, Command, Event, LifecycleOp};
pub mod config_edit;
pub mod edit_laws;
pub mod modal;
pub mod model;
pub mod update;

pub use modal::{
    Confirm, FormKind, FormState, ImportPickState, InstallPickState, Modal, ProgressState,
    TextField, TypedConfirm,
};
pub use model::Model;
pub use update::update;
