//! Iskandar: integración de ERPs de América Latina.

pub mod api;
pub mod arranque;
pub mod cadena;
pub mod catalogo;
pub mod cli;
pub mod client;
pub mod decimal;
pub mod doble;
pub mod error;
pub mod esquema;
pub mod extra;
pub mod fecha;
pub mod garantias;
pub mod microsip;
pub mod models;
pub mod provider;
pub mod registry;
pub mod reporte;
pub mod security;
pub mod texto;
