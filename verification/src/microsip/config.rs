//! Configuración del provider Microsip.

use vstd::prelude::*;

use crate::microsip::dll::{al_inicio, MicrosipDll};
use crate::microsip::guiones::consulta::{
    consulta_cabe, programa_consulta, programa_prueba, Consulta,
};
use crate::microsip::guiones::vista_opcion;
use crate::microsip::maquina::Maquina;

verus! {

/// Sección `[providers.microsip]` de la configuración.
#[derive(Debug, Clone)]
pub struct MicrosipConfig {
    /// Ruta a `ApiMicrosip.dll`.
    pub dll_path: String,
    /// Base de empresa, local o remota (`host:ruta`).
    pub db_path: String,
    pub usuario: String,
    pub password: String,
    /// Base de Metadatos, necesaria para los chequeos de compatibilidad.
    pub metadatos_path: Option<String>,
    /// Permitir existencias negativas.
    pub existencias_negativas: bool,
    /// Validar el precio mínimo en ventas.
    pub validar_precio_minimo: bool,
}

/// El contenido de una ruta opcional.
pub open spec fn ruta(r: Option<String>) -> Option<Seq<char>> {
    match r {
        Some(s) => Some(s@),
        None => None,
    }
}

impl MicrosipConfig {
    /// Los dos valores de `SetReglasVentas`. El primero va al revés que la
    /// configuración: 1 prohíbe las existencias negativas, 0 las permite.
    pub open spec fn reglas(self) -> (i32, i32) {
        (
            if self.existencias_negativas {
                0
            } else {
                1
            },
            if self.validar_precio_minimo {
                1
            } else {
                0
            },
        )
    }

    pub fn reglas_ventas(&self) -> (r: (i32, i32))
        ensures
            r == self.reglas(),
            r.0 == (if self.existencias_negativas {
                0int
            } else {
                1
            }),
            r.1 == (if self.validar_precio_minimo {
                1int
            } else {
                0
            }),
    {
        let negativas: i32 = if self.existencias_negativas {
            0
        } else {
            1
        };
        let minimo: i32 = if self.validar_precio_minimo {
            1
        } else {
            0
        };
        (negativas, minimo)
    }

    /// La ruta de Metadatos, si se configuró.
    pub fn metadatos(&self) -> (r: Option<&str>)
        ensures
            vista_opcion(r) == ruta(self.metadatos_path),
            match (r, self.metadatos_path) {
                (Some(a), Some(b)) => a@ == b@,
                (None, None) => true,
                _ => false,
            },
    {
        match &self.metadatos_path {
            Some(s) => Some(s.as_str()),
            None => None,
        }
    }

    /// Prueba la conexión a la base de empresa.
    pub fn probar_conexion(&self, dll: &MicrosipDll) -> (m: Maquina)
        ensures
            al_inicio(
                m,
                programa_prueba(self.db_path@, self.usuario@, self.password@),
                dll.estado,
            ),
    {
        dll.probar_conexion(self.db_path.as_str(), self.usuario.as_str(), self.password.as_str())
    }

    /// Ejecuta una consulta contra la base de empresa.
    pub fn consultar(&self, dll: &MicrosipDll, consulta: &Consulta) -> (m: Maquina)
        requires
            consulta_cabe(*consulta),
        ensures
            al_inicio(
                m,
                programa_consulta(self.db_path@, self.usuario@, self.password@, *consulta),
                dll.estado,
            ),
    {
        dll.query(
            self.db_path.as_str(),
            self.usuario.as_str(),
            self.password.as_str(),
            consulta,
        )
    }
}

/// La ruta de Metadatos es la que se configuró, sea la que sea, o ninguna.
pub proof fn ley_ruta(c: MicrosipConfig, o: Option<&str>)
    ensures
        ruta(c.metadatos_path) is Some <==> c.metadatos_path is Some,
        c.metadatos_path is Some ==> ruta(c.metadatos_path)->Some_0 == c.metadatos_path->Some_0@,
        vista_opcion(o) is Some <==> o is Some,
        o is Some ==> vista_opcion(o)->Some_0 == o->Some_0@,
{
}

} // verus!
