//! Auditoría de un Microsip: ¿sigue viva la credencial de fábrica?

use vstd::prelude::*;

use crate::error::{ErrorV, IskandarError};
use crate::microsip::config::MicrosipConfig;
use crate::microsip::dll::{al_inicio, MicrosipDll};
use crate::microsip::guiones::consulta::programa_sonda;
use crate::microsip::maquina::Maquina;
use crate::security::{
    bloqueantes, ids_de, AuditError, AuditErrorV, AuditReport, Disposition, Finding, FindingId,
    Remediation, Reverify, Severity,
};
use crate::texto::{eq_ignore_ascii_case, iguales, iguales_sin_caja};

verus! {

/// La base de destino acepta la credencial de fábrica.
pub const F_FACTORY_CREDS_ACTIVE: &'static str = "F-MSIP-FACTORY-CREDS-ACTIVE";

/// La configuración local usa la credencial de fábrica.
pub const F_FACTORY_CREDS_CONFIG: &'static str = "F-MSIP-FACTORY-CREDS-CONFIG";

/// Usuario de fábrica de Firebird, público.
pub const SYSDBA_USUARIO: &'static str = "SYSDBA";

/// Contraseña de fábrica de Firebird, pública.
pub const SYSDBA_PASSWORD_FABRICA: &'static str = "masterkey";

pub const TITULO_ACTIVE: &'static str = "El Firebird de destino acepta la contraseña de fábrica de SYSDBA";

pub const DETALLE_ACTIVE: &'static str = "Se intentó conectar al Firebird configurado usando la credencial de fábrica SYSDBA/masterkey (documentada públicamente por Firebird, no un secreto de Microsip) y la conexión tuvo éxito. Cualquiera con acceso de red al puerto de Firebird puede autenticarse como superusuario sin conocer ninguna credencial real, sin importar qué credencial tenga configurada Iskandar. Conectarse a un sistema así vuelve a Iskandar (y a sus demás tenants) superficie de ataque.";

pub const RESUMEN_ACTIVE: &'static str = "Cambiar la contraseña de SYSDBA en el Firebird de destino";

pub const PASO_1_ACTIVE: &'static str = "Detener temporalmente el acceso de red al servicio de Firebird si es posible mientras se hace el cambio.";

pub const PASO_2_ACTIVE: &'static str = "Cambiar la contraseña de SYSDBA con `gsec` (o el Server Manager de Firebird) por una contraseña fuerte — recordar que Firebird trunca la contraseña de SYSDBA a los primeros 8 caracteres, así que los primeros 8 caracteres por sí solos deben ser suficientemente fuertes.";

pub const PASO_3_ACTIVE: &'static str = "Actualizar `[providers.microsip].password` en la configuración de Iskandar con la nueva contraseña.";

pub const PASO_4_ACTIVE: &'static str = "Volver a correr `iskandar audit --provider microsip` y confirmar que este hallazgo desaparece.";

pub const EVIDENCIA_ACTIVE: &'static str = "SYSDBA acepta la contraseña de fábrica en ";

pub const TITULO_CONFIG: &'static str = "La configuración local de Iskandar también usa la pareja de fábrica";

pub const DETALLE_CONFIG: &'static str = "`[providers.microsip].usuario`/`password` en la configuración de Iskandar coinciden con la pareja de fábrica SYSDBA/masterkey. Esto es una señal débil (Firebird trunca la contraseña de SYSDBA a 8 caracteres, así que esta comparación literal no prueba nada sobre el Firebird de destino), pero indica que Iskandar mismo no está usando una credencial dedicada.";

pub const RESUMEN_CONFIG: &'static str = "Usar una credencial de aplicación dedicada, no SYSDBA/masterkey";

pub const PASO_1_CONFIG: &'static str = "Crear un usuario de Firebird dedicado para Iskandar (no SYSDBA) con solo los permisos que necesita.";

pub const PASO_2_CONFIG: &'static str = "Actualizar `[providers.microsip].usuario`/`password` en la configuración de Iskandar.";

pub const EVIDENCIA_CONFIG: &'static str = "MicrosipConfig.usuario == 'SYSDBA' (case-insensitive) y password == 'masterkey' (comparación literal, sin truncar)";

/// La configuración local usa la pareja de fábrica: el usuario sin distinguir
/// mayúsculas, la contraseña literal.
pub open spec fn pareja_de_fabrica(config: MicrosipConfig) -> bool {
    iguales_sin_caja(config.usuario@, SYSDBA_USUARIO@) && config.password@
        == SYSDBA_PASSWORD_FABRICA@
}

pub fn config_usa_credenciales_de_fabrica(config: &MicrosipConfig) -> (r: bool)
    ensures
        r == pareja_de_fabrica(*config),
{
    eq_ignore_ascii_case(config.usuario.as_str(), SYSDBA_USUARIO) && iguales(
        config.password.as_str(),
        SYSDBA_PASSWORD_FABRICA,
    )
}

/// Los textos de una lista.
pub open spec fn pasos_de(s: Seq<String>) -> Seq<Seq<char>> {
    Seq::new(s.len(), |i: int| s[i]@)
}

/// El hallazgo de la credencial de fábrica activa: crítico y bloqueante.
pub open spec fn es_hallazgo_activo(f: Finding, db_path: Seq<char>) -> bool {
    &&& f.id == FindingId(F_FACTORY_CREDS_ACTIVE)
    &&& f.title@ == TITULO_ACTIVE@
    &&& f.detail@ == DETALLE_ACTIVE@
    &&& f.severity == Severity::Critical
    &&& f.disposition == Disposition::Blocking
    &&& f.remediation.summary@ == RESUMEN_ACTIVE@
    &&& pasos_de(f.remediation.steps@) == seq![
        PASO_1_ACTIVE@,
        PASO_2_ACTIVE@,
        PASO_3_ACTIVE@,
        PASO_4_ACTIVE@,
    ]
    &&& f.remediation.reverify == Reverify::ReRunCheck
    &&& f.evidence matches Some(ev) && ev@ == EVIDENCIA_ACTIVE@ + db_path
    &&& f.waived is None
}

/// El hallazgo de la configuración local: grave pero informativo.
pub open spec fn es_hallazgo_config(f: Finding) -> bool {
    &&& f.id == FindingId(F_FACTORY_CREDS_CONFIG)
    &&& f.title@ == TITULO_CONFIG@
    &&& f.detail@ == DETALLE_CONFIG@
    &&& f.severity == Severity::High
    &&& f.disposition == Disposition::Informational
    &&& f.remediation.summary@ == RESUMEN_CONFIG@
    &&& pasos_de(f.remediation.steps@) == seq![PASO_1_CONFIG@, PASO_2_CONFIG@]
    &&& f.remediation.reverify == Reverify::ReRunCheck
    &&& f.evidence matches Some(ev) && ev@ == EVIDENCIA_CONFIG@
    &&& f.waived is None
}

pub fn finding_factory_creds_active(db_path: &str) -> (f: Finding)
    ensures
        es_hallazgo_activo(f, db_path@),
        f.id.0@ == "F-MSIP-FACTORY-CREDS-ACTIVE"@,
        f.severity is Critical,
        f.disposition is Blocking,
        f.evidence matches Some(ev) && ev@ == "SYSDBA acepta la contraseña de fábrica en "@
            + db_path@,
{
    let steps: Vec<String> = vec![
        PASO_1_ACTIVE.to_owned(),
        PASO_2_ACTIVE.to_owned(),
        PASO_3_ACTIVE.to_owned(),
        PASO_4_ACTIVE.to_owned(),
    ];
    proof {
        assert(pasos_de(steps@) =~= seq![
            PASO_1_ACTIVE@,
            PASO_2_ACTIVE@,
            PASO_3_ACTIVE@,
            PASO_4_ACTIVE@,
        ]);
    }
    Finding {
        id: FindingId(F_FACTORY_CREDS_ACTIVE),
        title: TITULO_ACTIVE.to_owned(),
        detail: DETALLE_ACTIVE.to_owned(),
        severity: Severity::Critical,
        disposition: Disposition::Blocking,
        remediation: Remediation {
            summary: RESUMEN_ACTIVE.to_owned(),
            steps,
            reverify: Reverify::ReRunCheck,
        },
        evidence: Some(EVIDENCIA_ACTIVE.to_owned().concat(db_path)),
        waived: None,
    }
}

pub fn finding_factory_creds_config() -> (f: Finding)
    ensures
        es_hallazgo_config(f),
        f.id.0@ == "F-MSIP-FACTORY-CREDS-CONFIG"@,
        f.severity is High,
        f.disposition is Informational,
{
    let steps: Vec<String> = vec![PASO_1_CONFIG.to_owned(), PASO_2_CONFIG.to_owned()];
    proof {
        assert(pasos_de(steps@) =~= seq![PASO_1_CONFIG@, PASO_2_CONFIG@]);
    }
    Finding {
        id: FindingId(F_FACTORY_CREDS_CONFIG),
        title: TITULO_CONFIG.to_owned(),
        detail: DETALLE_CONFIG.to_owned(),
        severity: Severity::High,
        disposition: Disposition::Informational,
        remediation: Remediation {
            summary: RESUMEN_CONFIG.to_owned(),
            steps,
            reverify: Reverify::ReRunCheck,
        },
        evidence: Some(EVIDENCIA_CONFIG.to_owned()),
        waived: None,
    }
}

/// Lo que dice la sonda: si conectó, la credencial vive; si la base respondió
/// con un rechazo, no; cualquier otra falla no dice nada de la credencial.
pub open spec fn lectura_sonda(r: Result<i32, ErrorV>) -> Result<bool, AuditErrorV> {
    match r {
        Ok(_) => Ok(true),
        Err(ErrorV::Provider { .. }) => Ok(false),
        Err(e) => Err(AuditErrorV::Unreachable(e.texto())),
    }
}

/// Un resultado nativo por su contenido.
pub open spec fn vista_resultado(r: Result<i32, IskandarError>) -> Result<i32, ErrorV> {
    match r {
        Ok(n) => Ok(n),
        Err(e) => Err(e@),
    }
}

/// El módulo de auditoría de Microsip.
#[derive(Debug)]
pub struct SecurityMicrosip {
    pub config: MicrosipConfig,
}

/// Los hallazgos de un reporte: primero el de la configuración, después el de
/// la sonda.
pub open spec fn es_reporte(config: MicrosipConfig, activa: bool, r: AuditReport) -> bool {
    let n: int = if pareja_de_fabrica(config) {
        1
    } else {
        0
    };
    &&& r.provider@ == "microsip"@
    &&& r.findings@.len() == n + (if activa {
        1int
    } else {
        0int
    })
    &&& n == 1 ==> es_hallazgo_config(r.findings@[0])
    &&& activa ==> es_hallazgo_activo(r.findings@[n], config.db_path@)
}

impl SecurityMicrosip {
    /// La sonda: se conecta a la base configurada con la credencial de
    /// fábrica, use la que use la configuración, y cierra en el acto.
    pub fn probe_factory_creds_activo(&self, dll: &MicrosipDll) -> (m: Maquina)
        ensures
            al_inicio(
                m,
                programa_sonda(self.config.db_path@, SYSDBA_USUARIO@, SYSDBA_PASSWORD_FABRICA@),
                dll.estado,
            ),
            al_inicio(
                m,
                programa_sonda(self.config.db_path@, "SYSDBA"@, "masterkey"@),
                dll.estado,
            ),
    {
        dll.sondear(self.config.db_path.as_str(), SYSDBA_USUARIO, SYSDBA_PASSWORD_FABRICA)
    }

    /// Interpreta el resultado de la sonda.
    pub fn leer_sonda(&self, r: Result<i32, IskandarError>) -> (s: Result<bool, AuditError>)
        ensures
            match (s, lectura_sonda(vista_resultado(r))) {
                (Ok(a), Ok(b)) => a == b,
                (Err(e), Err(f)) => e@ == f,
                _ => false,
            },
            r is Ok ==> (s matches Ok(b) && b),
            r matches Err(IskandarError::Provider { .. }) ==> (s matches Ok(b) && !b),
            s is Err <==> r is Err && !(r->Err_0 is Provider),
            s matches Err(e) ==> e@ == AuditErrorV::Unreachable(r->Err_0@.texto()),
    {
        match r {
            Ok(_) => Ok(true),
            Err(e) => match &e {
                IskandarError::Provider { .. } => Ok(false),
                _ => Err(AuditError::Unreachable(e.mensaje())),
            },
        }
    }

    /// El reporte de la auditoría, conocido el resultado de la sonda. La
    /// puerta queda abierta si y solo si la credencial de fábrica no vive.
    pub fn security_audit(&self, sonda: Result<bool, AuditError>) -> (r: Result<
        AuditReport,
        AuditError,
    >)
        ensures
            match (r, sonda) {
                (Ok(rep), Ok(activa)) => {
                    &&& es_reporte(self.config, activa, rep)
                    &&& ids_de(bloqueantes(rep.findings@)) == (if activa {
                        seq![FindingId(F_FACTORY_CREDS_ACTIVE)]
                    } else {
                        seq![]
                    })
                },
                (Err(e), Err(f)) => e == f,
                _ => false,
            },
    {
        let activa = match sonda {
            Ok(b) => b,
            Err(e) => {
                return Err(e);
            },
        };
        let mut findings: Vec<Finding> = Vec::new();
        if config_usa_credenciales_de_fabrica(&self.config) {
            findings.push(finding_factory_creds_config());
        }
        let ghost previos = findings@;
        if activa {
            findings.push(finding_factory_creds_active(self.config.db_path.as_str()));
        }
        proof {
            reveal_with_fuel(bloqueantes, 3);
            assert(findings@.take(0) =~= seq![]);
            if activa {
                assert(findings@.drop_last() =~= previos);
            }
            if previos.len() > 0 {
                assert(previos.drop_last() =~= seq![]);
            }
            assert(bloqueantes(previos) =~= seq![]);
            assert(ids_de(bloqueantes(findings@)) =~= (if activa {
                seq![FindingId(F_FACTORY_CREDS_ACTIVE)]
            } else {
                seq![]
            }));
        }
        Ok(AuditReport { provider: "microsip", findings })
    }
}

} // verus!
