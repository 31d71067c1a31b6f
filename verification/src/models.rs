//! Modelos universales compartidos entre providers.
//!
//! Tres reglas: el dinero va siempre en [`crate::decimal::Decimal`]; los
//! identificadores ([`common::EntidadId`]) pueden ser enteros o textos; y
//! todo documento lleva un campo `extra` para lo que no mapea al modelo.

pub mod clientes;
pub mod common;
pub mod compras;
pub mod contabilidad;
pub mod cxc;
pub mod inventario;
pub mod ventas;
