//! Lo que cada operación garantiza, dicho sobre lo que recibe y lo que entrega:
//! cifras, posiciones, claves y textos concretos, sin los nombres intermedios
//! con los que la operación se define.

pub mod consulta;
pub mod credito;
pub mod extras;
pub mod factura;
pub mod maquina;
pub mod numeros;
pub mod pasos;
pub mod seguridad;
pub mod textos;
