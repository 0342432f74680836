//! A verified client library for a restaurant-reservation booking service's
//! private REST API.
//!
//! The library builds the HTTP requests (URLs, authorization headers, JSON and
//! form bodies) for each remote operation and normalizes responses into a
//! parsed JSON value or an error. Sending requests over the network is left to
//! the embedding application.

pub mod resy_api_gateway;
pub mod resy_client;
pub mod text;
