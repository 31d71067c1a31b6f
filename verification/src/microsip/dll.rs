//! Las operaciones sobre `ApiMicrosip.dll`: cada una da la máquina que
//! recorre su guion.

use vstd::prelude::*;

use crate::error::{ErrorV, IskandarError};
use crate::microsip::guiones::consulta::{
    consulta_cabe, guion_conectada, guion_conexion, guion_consulta, guion_desconexion,
    guion_prueba, guion_sonda, ley_consulta_valida, programa_conectada, programa_conexion,
    programa_consulta, programa_desconexion, programa_prueba, programa_sonda, Consulta,
};
use crate::microsip::guiones::credito::{guion_credito, ley_credito_valido, programa_credito};
use crate::microsip::guiones::factura::{guion_factura, ley_factura_valida, programa_factura};
use crate::microsip::guiones::vista_opcion;
use crate::microsip::maquina::{Fase, Maquina, MicrosipState, Programa};
use crate::microsip::nativo::Registro;
use crate::microsip::params::{CreditoParams, FacturaParams};

verus! {

/// Handles de una conexión: la base y su transacción.
#[derive(Debug, Clone, Copy, PartialEq, Eq, Structural)]
pub struct DbHandle {
    pub db: i32,
    pub trn: i32,
}

/// Una biblioteca nativa cargada, por lo que recuerda entre operaciones. Solo
/// una operación puede estar en curso a la vez.
#[derive(Debug)]
pub struct MicrosipDll {
    pub estado: MicrosipState,
}

/// El error de una biblioteca que no se pudo cargar.
pub fn error_carga(path: &str, motivo: &str) -> (e: IskandarError)
    ensures
        e@ == ErrorV::Connection("no se pudo cargar la DLL '"@ + path@ + "': "@ + motivo@),
{
    IskandarError::Connection(
        "no se pudo cargar la DLL '".to_owned().concat(path).concat("': ").concat(motivo),
    )
}

/// El error de una biblioteca cuyo candado quedó envenenado.
pub fn error_candado() -> (e: IskandarError)
    ensures
        e@ == ErrorV::Connection(
            "lock de la DLL envenenado: un hilo anterior falló dentro de ApiMicrosip"@,
        ),
{
    IskandarError::Connection(
        "lock de la DLL envenenado: un hilo anterior falló dentro de ApiMicrosip".to_owned(),
    )
}

/// El error de una tarea bloqueante que no terminó.
pub fn error_tarea(motivo: &str) -> (e: IskandarError)
    ensures
        e@ == ErrorV::Connection("tarea bloqueante falló: "@ + motivo@),
{
    IskandarError::Connection("tarea bloqueante falló: ".to_owned().concat(motivo))
}

/// La máquina está al principio del programa.
pub open spec fn al_inicio(m: Maquina, p: Programa, memoria: MicrosipState) -> bool {
    &&& m.wf()
    &&& m.programa() == p
    &&& m.estado() == p.inicio(memoria)
}

impl MicrosipDll {
    /// Una biblioteca recién cargada: nada chequeado, ninguna lista creada.
    pub fn nueva() -> (r: MicrosipDll)
        ensures
            r.estado == (MicrosipState {
                compatibilidad_ventas_checada: false,
                compatibilidad_cxc_checada: false,
                pl_handle: None,
            }),
    {
        MicrosipDll {
            estado: MicrosipState {
                compatibilidad_ventas_checada: false,
                compatibilidad_cxc_checada: false,
                pl_handle: None,
            },
        }
    }

    /// Abre una conexión a la base de empresa.
    pub fn connect(&self, db_path: &str, usuario: &str, password: &str) -> (m: Maquina)
        ensures
            al_inicio(m, programa_conexion(db_path@, usuario@, password@), self.estado),
    {
        let (g, n) = guion_conexion(db_path, usuario, password);
        Maquina::nueva(g, n, n, n, n, self.estado)
    }

    /// Los handles de la conexión que una máquina abrió.
    pub fn handle(m: &Maquina) -> (h: DbHandle)
        ensures
            h.db == m.estado().regs.empresa_db,
            h.trn == m.estado().regs.empresa_trn,
    {
        DbHandle { db: m.registro(Registro::EmpresaDb), trn: m.registro(Registro::EmpresaTrn) }
    }

    /// Pregunta si la conexión sigue activa; la respuesta la da
    /// [`MicrosipDll::respuesta_conectada`].
    pub fn connected(&self, handle: DbHandle) -> (m: Maquina)
        ensures
            al_inicio(m, programa_conectada(handle.db), self.estado),
    {
        let (g, n) = guion_conectada(handle.db);
        Maquina::nueva(g, n, n, n, n, self.estado)
    }

    /// `true` si `DBConnected` regresó 1.
    pub fn respuesta_conectada(m: &Maquina) -> (r: bool)
        ensures
            r == (m.estado().regs.compatibilidad == 1),
    {
        m.registro(Registro::Compatibilidad) == 1
    }

    /// Cierra una conexión.
    pub fn disconnect(&self, handle: DbHandle) -> (m: Maquina)
        ensures
            al_inicio(m, programa_desconexion(handle.db), self.estado),
    {
        let g = guion_desconexion(handle.db);
        Maquina::nueva(g, 0, 0, 0, 0, self.estado)
    }

    /// Abre una conexión, confirma que está activa y la cierra.
    pub fn probar_conexion(&self, db_path: &str, usuario: &str, password: &str) -> (m: Maquina)
        ensures
            al_inicio(m, programa_prueba(db_path@, usuario@, password@), self.estado),
    {
        let (g, cuerpo, cierre) = guion_prueba(db_path, usuario, password);
        Maquina::nueva(g, cuerpo, cuerpo, cierre, cierre, self.estado)
    }

    /// Abre una conexión y la cierra en el acto.
    pub fn sondear(&self, db_path: &str, usuario: &str, password: &str) -> (m: Maquina)
        ensures
            al_inicio(m, programa_sonda(db_path@, usuario@, password@), self.estado),
    {
        let (g, n) = guion_sonda(db_path, usuario, password);
        Maquina::nueva(g, n, n, n, n, self.estado)
    }

    /// Conecta, ejecuta una consulta de solo lectura entregando cada fila, y
    /// desconecta.
    pub fn query(&self, db_path: &str, usuario: &str, password: &str, consulta: &Consulta) -> (m:
        Maquina)
        requires
            consulta_cabe(*consulta),
        ensures
            al_inicio(m, programa_consulta(db_path@, usuario@, password@, *consulta), self.estado),
    {
        let (g, cuerpo, cierre) = guion_consulta(db_path, usuario, password, consulta);
        proof {
            ley_consulta_valida(db_path@, usuario@, password@, *consulta);
        }
        Maquina::nueva(g, cuerpo, cuerpo, cierre, cierre, self.estado)
    }

    /// El alta completa de una factura.
    pub fn crear_factura(
        &self,
        db_path: &str,
        usuario: &str,
        password: &str,
        metadatos_path: Option<&str>,
        reglas_ventas: (i32, i32),
        params: &FacturaParams,
    ) -> (m: Maquina)
        ensures
            al_inicio(
                m,
                programa_factura(
                    self.estado,
                    db_path@,
                    usuario@,
                    password@,
                    vista_opcion(metadatos_path),
                    reglas_ventas,
                    *params,
                ),
                self.estado,
            ),
    {
        let (g, cuerpo, al_fallar, cierre) = guion_factura(
            &self.estado,
            db_path,
            usuario,
            password,
            metadatos_path,
            reglas_ventas,
            params,
        );
        proof {
            ley_factura_valida(
                self.estado,
                db_path@,
                usuario@,
                password@,
                vista_opcion(metadatos_path),
                reglas_ventas,
                *params,
            );
        }
        Maquina::nueva(g, cuerpo, cuerpo, al_fallar, cierre, self.estado)
    }

    /// El alta completa de un crédito.
    pub fn crear_credito(
        &self,
        db_path: &str,
        usuario: &str,
        password: &str,
        metadatos_path: Option<&str>,
        params: &CreditoParams,
    ) -> (m: Maquina)
        ensures
            al_inicio(
                m,
                programa_credito(
                    self.estado,
                    db_path@,
                    usuario@,
                    password@,
                    vista_opcion(metadatos_path),
                    *params,
                ),
                self.estado,
            ),
    {
        let (g, cuerpo, aborta, al_fallar, cierre) = guion_credito(
            &self.estado,
            db_path,
            usuario,
            password,
            metadatos_path,
            params,
        );
        proof {
            ley_credito_valido(
                self.estado,
                db_path@,
                usuario@,
                password@,
                vista_opcion(metadatos_path),
                *params,
            );
        }
        Maquina::nueva(g, cuerpo, aborta, al_fallar, cierre, self.estado)
    }

    /// Da por terminada una operación: recuerda lo que deba recordarse y
    /// entrega el resultado.
    pub fn terminar(&mut self, m: Maquina) -> (r: Result<i32, IskandarError>)
        requires
            m.estado().fase == Fase::Fin,
        ensures
            final(self).estado == m.estado().memoria,
            match (r, m.estado().falla) {
                (Ok(d), None) => d == m.estado().regs.documento,
                (Err(e), Some(f)) => e@ == f,
                _ => false,
            },
    {
        self.estado = m.memoria();
        m.resultado()
    }
}

} // verus!
