//! Client-side logic for an event-notification service: command routing,
//! request construction (query-string GET or JSON-body POST), and decoding
//! of the server's enveloped JSON replies with a raw-text fallback.

pub mod domain;
pub mod json;
pub mod params;
pub mod render;
pub mod request;
pub mod router;

pub use domain::{Event, Response, Subscriber};
pub use params::ParameterMap;
pub use render::Rendered;
pub use request::{Mode, PreparedRequest};
pub use router::{Cli, Commands, PayloadShape, Plan};
