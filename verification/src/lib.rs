//! Runtime interception core: hook table, symbol resolver, runtime
//! introspection, bootstrap state machine and the payload and frame-rate hooks.

pub mod bootstrap;
pub mod config;
pub mod config_app;
pub mod detector;
pub mod embedded_dlls;
pub mod fps_hook;
pub mod http_hook;
pub mod installer;
pub mod interceptor;
pub mod notifier;
pub mod proxy;
pub mod symbol_list;
pub mod symbols;
pub mod symbols_impl;
pub mod text;
pub mod types;
