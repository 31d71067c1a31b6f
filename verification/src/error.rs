//! El error universal del framework.

use vstd::prelude::*;

use crate::texto::entero_a_texto;

verus! {

/// Error universal: todo lo que puede salir mal al hablar con un ERP.
#[derive(Debug, Clone)]
pub enum IskandarError {
    UnknownProvider(String),
    UnsupportedModule { provider: String, module: String },
    NotImplemented(&'static str),
    Config(String),
    Connection(String),
    Validation(String),
    NotFound(String),
    /// Error nativo del ERP: `code` es el código tal como lo regresa el
    /// sistema y `message` el texto recuperado del propio ERP.
    Provider { code: i32, message: String },
    /// Error de entrada/salida, por su mensaje.
    Io(String),
}

/// El contenido de un [`IskandarError`].
pub enum ErrorV {
    UnknownProvider(Seq<char>),
    UnsupportedModule { provider: Seq<char>, module: Seq<char> },
    NotImplemented(Seq<char>),
    Config(Seq<char>),
    Connection(Seq<char>),
    Validation(Seq<char>),
    NotFound(Seq<char>),
    Provider { code: i32, message: Seq<char> },
    Io(Seq<char>),
}

impl View for IskandarError {
    type V = ErrorV;

    open spec fn view(&self) -> ErrorV {
        match self {
            IskandarError::UnknownProvider(s) => ErrorV::UnknownProvider(s@),
            IskandarError::UnsupportedModule { provider, module } => ErrorV::UnsupportedModule {
                provider: provider@,
                module: module@,
            },
            IskandarError::NotImplemented(s) => ErrorV::NotImplemented(s@),
            IskandarError::Config(s) => ErrorV::Config(s@),
            IskandarError::Connection(s) => ErrorV::Connection(s@),
            IskandarError::Validation(s) => ErrorV::Validation(s@),
            IskandarError::NotFound(s) => ErrorV::NotFound(s@),
            IskandarError::Provider { code, message } => ErrorV::Provider {
                code: *code,
                message: message@,
            },
            IskandarError::Io(s) => ErrorV::Io(s@),
        }
    }
}

impl ErrorV {
    /// El texto con el que se muestra el error.
    pub open spec fn texto(self) -> Seq<char> {
        match self {
            ErrorV::UnknownProvider(p) => "el provider '"@ + p + "' no está registrado"@,
            ErrorV::UnsupportedModule { provider, module } => "el provider '"@ + provider
                + "' no soporta el módulo '"@ + module + "'"@,
            ErrorV::NotImplemented(s) => "operación aún no implementada: "@ + s,
            ErrorV::Config(s) => "error de configuración: "@ + s,
            ErrorV::Connection(s) => "error de conexión: "@ + s,
            ErrorV::Validation(s) => "error de validación: "@ + s,
            ErrorV::NotFound(s) => "no encontrado: "@ + s,
            ErrorV::Provider { code, message } => "error del ERP (código "@
                + crate::texto::entero_texto(code as int) + "): "@ + message,
            ErrorV::Io(s) => s,
        }
    }
}

impl IskandarError {
    /// El texto con el que se muestra el error.
    pub fn mensaje(&self) -> (r: String)
        ensures
            r@ == self@.texto(),
            match *self {
                IskandarError::UnknownProvider(p) => r@ == "el provider '"@ + p@
                    + "' no está registrado"@,
                IskandarError::UnsupportedModule { provider, module } => r@ == "el provider '"@
                    + provider@ + "' no soporta el módulo '"@ + module@ + "'"@,
                IskandarError::NotImplemented(s) => r@ == "operación aún no implementada: "@ + s@,
                IskandarError::Config(s) => r@ == "error de configuración: "@ + s@,
                IskandarError::Connection(s) => r@ == "error de conexión: "@ + s@,
                IskandarError::Validation(s) => r@ == "error de validación: "@ + s@,
                IskandarError::NotFound(s) => r@ == "no encontrado: "@ + s@,
                IskandarError::Provider { code, message } => r@ == "error del ERP (código "@
                    + crate::texto::entero_texto(code as int) + "): "@ + message@,
                IskandarError::Io(s) => r@ == s@,
            },
    {
        match self {
            IskandarError::UnknownProvider(p) => "el provider '".to_owned().concat(
                p.as_str(),
            ).concat("' no está registrado"),
            IskandarError::UnsupportedModule { provider, module } => "el provider '".to_owned().concat(
                provider.as_str(),
            ).concat("' no soporta el módulo '").concat(module.as_str()).concat("'"),
            IskandarError::NotImplemented(s) => "operación aún no implementada: ".to_owned().concat(
                s,
            ),
            IskandarError::Config(s) => "error de configuración: ".to_owned().concat(s.as_str()),
            IskandarError::Connection(s) => "error de conexión: ".to_owned().concat(s.as_str()),
            IskandarError::Validation(s) => "error de validación: ".to_owned().concat(s.as_str()),
            IskandarError::NotFound(s) => "no encontrado: ".to_owned().concat(s.as_str()),
            IskandarError::Provider { code, message } => "error del ERP (código ".to_owned().concat(
                entero_a_texto(*code as i64).as_str(),
            ).concat("): ").concat(message.as_str()),
            IskandarError::Io(s) => s.clone(),
        }
    }
}

} // verus!
