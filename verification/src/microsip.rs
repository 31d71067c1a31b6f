//! Provider de Microsip.
//!
//! Microsip se integra por su API nativa. Esta parte decide qué llamadas se
//! hacen, en qué orden y con qué argumentos, y qué se concluye de cada
//! respuesta; quien carga la biblioteca y ejecuta las llamadas vive fuera.

pub mod articulos;
pub mod clientes;
pub mod comun;
pub mod conexiones;
pub mod config;
pub mod corridas;
pub mod cxc;
pub mod dll;
pub mod exito;
pub mod facturas;
pub mod fila;
pub mod guiones;
pub mod leyes;
pub mod maquina;
pub mod nativo;
pub mod params;
pub mod provider;
pub mod security;
pub mod sesion;
