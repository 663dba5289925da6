//! Print dispatch core: media resolution, spooler submission and job
//! visibility checks, subnet printer discovery, queue registration and a
//! driverless ESC/POS receipt encoder.

pub mod commands;
pub mod discovery;
pub mod escpos;
pub mod graphql;
pub mod http_api;
pub mod media;
pub mod print_flow;
pub mod registrar;
pub mod spooler;
pub mod state;
pub mod text;
pub mod verification;
