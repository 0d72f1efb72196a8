//! Types and traits giving an interface between low-level http server
//! implementations and the services that use them.
//!
//! The two halves of the interface are [`Body`], a pull-based byte stream used
//! as the payload of requests and responses, and [`HttpService`], the
//! capability of turning a request into a pending response.

pub mod body;
pub mod message;
pub mod service;

pub use body::Body;
pub use body::fill_len;
pub use message::HttpRequest;
pub use message::HttpResponse;
pub use service::ConnectionDirective;
pub use service::HttpService;
pub use service::ResponseFuture;
pub use service::ServiceFn;
pub use service::connection_directive;
