//! Request handling for a web front end that drives several supervisord
//! servers over XML-RPC: request parameter shapes, the table of supervisor
//! methods, the registry of configured servers, routing of API requests,
//! and the text processing of the log endpoint.

pub mod text;
pub mod request_params;
pub mod api;
pub mod servers;
pub mod routing;
pub mod status;
pub mod log_request;
pub mod tags;
