//! La auditoría: la puerta, los hallazgos de Microsip y el reporte.

use vstd::prelude::*;

use crate::cadena::{es_llano, texto_debug, texto_llano};
use crate::error::ErrorV;
use crate::microsip::config::MicrosipConfig;
use crate::microsip::security::{
    es_hallazgo_activo, es_hallazgo_config, es_reporte, lectura_sonda, pareja_de_fabrica, pasos_de,
};
use crate::reporte::{
    clase, de_clase, ids_llanos, ordenados, ordenados_hasta, texto_hallazgo, texto_hallazgos,
    texto_ids, texto_ids_llanos, texto_pasos, texto_reporte,
};
use crate::security::{
    bloqueantes, ids_de, AuditErrorV, AuditReport, Disposition, Finding, FindingId, Reverify,
    Severity,
};
use crate::texto::{digitos, iguales_sin_caja, minuscula_ascii};

verus! {

/// Los bloqueantes son los hallazgos cuya disposición es bloquear, todos y en su
/// orden.
pub proof fn ley_bloqueantes(s: Seq<Finding>)
    ensures
        bloqueantes(s) == s.filter(|f: Finding| f.disposition is Blocking),
        ids_de(bloqueantes(s)) == s.filter(|f: Finding| f.disposition is Blocking).map_values(
            |f: Finding| f.id,
        ),
    decreases s.len(),
{
    reveal(Seq::filter);
    if s.len() > 0 {
        ley_bloqueantes(s.drop_last());
    }
    assert(bloqueantes(s) =~= s.filter(|f: Finding| f.disposition is Blocking));
    assert(ids_de(bloqueantes(s)) =~= bloqueantes(s).map_values(|f: Finding| f.id));
}

/// La pareja de fábrica es la contraseña `masterkey`, letra por letra, con el
/// usuario `SYSDBA` escrito en mayúsculas, en minúsculas o revuelto.
pub proof fn ley_pareja_de_fabrica(c: MicrosipConfig)
    ensures
        pareja_de_fabrica(c) <==> c.password@ == "masterkey"@ && c.usuario@.len() == 6 && (
        c.usuario@[0] == 'S' || c.usuario@[0] == 's') && (c.usuario@[1] == 'Y' || c.usuario@[1]
            == 'y') && (c.usuario@[2] == 'S' || c.usuario@[2] == 's') && (c.usuario@[3] == 'D'
            || c.usuario@[3] == 'd') && (c.usuario@[4] == 'B' || c.usuario@[4] == 'b') && (
        c.usuario@[5] == 'A' || c.usuario@[5] == 'a'),
{
    reveal_strlit("SYSDBA");
    let u = c.usuario@;
    let s = "SYSDBA"@;
    if u.len() == 6 {
        assert(iguales_sin_caja(u, s) <==> forall|i: int|
            0 <= i < 6 ==> minuscula_ascii(#[trigger] u[i]) == minuscula_ascii(s[i]));
        if iguales_sin_caja(u, s) {
            assert(minuscula_ascii(u[0]) == minuscula_ascii('S'));
            assert(minuscula_ascii(u[1]) == minuscula_ascii('Y'));
            assert(minuscula_ascii(u[2]) == minuscula_ascii('S'));
            assert(minuscula_ascii(u[3]) == minuscula_ascii('D'));
            assert(minuscula_ascii(u[4]) == minuscula_ascii('B'));
            assert(minuscula_ascii(u[5]) == minuscula_ascii('A'));
        }
    }
}

/// El hallazgo de la credencial de fábrica viva es crítico, bloquea, y cita la
/// base que la acepta.
pub proof fn ley_hallazgo_activo(f: Finding, db_path: Seq<char>)
    requires
        es_hallazgo_activo(f, db_path),
    ensures
        f.id.0@ == "F-MSIP-FACTORY-CREDS-ACTIVE"@,
        f.severity is Critical,
        f.disposition is Blocking,
        f.title@ == "El Firebird de destino acepta la contraseña de fábrica de SYSDBA"@,
        f.detail@ == "Se intentó conectar al Firebird configurado usando la credencial de fábrica SYSDBA/masterkey (documentada públicamente por Firebird, no un secreto de Microsip) y la conexión tuvo éxito. Cualquiera con acceso de red al puerto de Firebird puede autenticarse como superusuario sin conocer ninguna credencial real, sin importar qué credencial tenga configurada Iskandar. Conectarse a un sistema así vuelve a Iskandar (y a sus demás tenants) superficie de ataque."@,
        f.remediation.summary@ == "Cambiar la contraseña de SYSDBA en el Firebird de destino"@,
        f.remediation.steps@.len() == 4,
        f.remediation.steps@[0]@ == "Detener temporalmente el acceso de red al servicio de Firebird si es posible mientras se hace el cambio."@,
        f.remediation.steps@[1]@ == "Cambiar la contraseña de SYSDBA con `gsec` (o el Server Manager de Firebird) por una contraseña fuerte — recordar que Firebird trunca la contraseña de SYSDBA a los primeros 8 caracteres, así que los primeros 8 caracteres por sí solos deben ser suficientemente fuertes."@,
        f.remediation.steps@[2]@ == "Actualizar `[providers.microsip].password` en la configuración de Iskandar con la nueva contraseña."@,
        f.remediation.steps@[3]@ == "Volver a correr `iskandar audit --provider microsip` y confirmar que este hallazgo desaparece."@,
        f.remediation.reverify is ReRunCheck,
        f.evidence matches Some(ev) && ev@ == "SYSDBA acepta la contraseña de fábrica en "@ + db_path,
        f.waived is None,
{
    assert(pasos_de(f.remediation.steps@).len() == f.remediation.steps@.len());
    assert forall|i: int| 0 <= i < f.remediation.steps@.len() implies pasos_de(
        f.remediation.steps@,
    )[i] == (#[trigger] f.remediation.steps@[i])@ by {
    }
}

/// El hallazgo de la configuración local es grave pero solo informa.
pub proof fn ley_hallazgo_config(f: Finding)
    requires
        es_hallazgo_config(f),
    ensures
        f.id.0@ == "F-MSIP-FACTORY-CREDS-CONFIG"@,
        f.severity is High,
        f.disposition is Informational,
        f.title@ == "La configuración local de Iskandar también usa la pareja de fábrica"@,
        f.detail@ == "`[providers.microsip].usuario`/`password` en la configuración de Iskandar coinciden con la pareja de fábrica SYSDBA/masterkey. Esto es una señal débil (Firebird trunca la contraseña de SYSDBA a 8 caracteres, así que esta comparación literal no prueba nada sobre el Firebird de destino), pero indica que Iskandar mismo no está usando una credencial dedicada."@,
        f.remediation.summary@ == "Usar una credencial de aplicación dedicada, no SYSDBA/masterkey"@,
        f.remediation.steps@.len() == 2,
        f.remediation.steps@[0]@ == "Crear un usuario de Firebird dedicado para Iskandar (no SYSDBA) con solo los permisos que necesita."@,
        f.remediation.steps@[1]@ == "Actualizar `[providers.microsip].usuario`/`password` en la configuración de Iskandar."@,
        f.remediation.reverify is ReRunCheck,
        f.evidence matches Some(ev) && ev@ == "MicrosipConfig.usuario == 'SYSDBA' (case-insensitive) y password == 'masterkey' (comparación literal, sin truncar)"@,
        f.waived is None,
{
    assert(pasos_de(f.remediation.steps@).len() == f.remediation.steps@.len());
    assert forall|i: int| 0 <= i < f.remediation.steps@.len() implies pasos_de(
        f.remediation.steps@,
    )[i] == (#[trigger] f.remediation.steps@[i])@ by {
    }
}

/// Lo que la sonda dice: que conectó, que la credencial vive; que la base la
/// rechazó con un código, cualquiera, que no; lo demás, que no se sabe.
pub proof fn ley_sonda(n: i32, code: i32, message: Seq<char>, s: Seq<char>)
    ensures
        lectura_sonda(Ok(n)) == Ok::<_, AuditErrorV>(true),
        lectura_sonda(Err(ErrorV::Provider { code, message })) == Ok::<_, AuditErrorV>(false),
        lectura_sonda(Err(ErrorV::Connection(s))) == Err::<bool, _>(
            AuditErrorV::Unreachable("error de conexión: "@ + s),
        ),
        lectura_sonda(Err(ErrorV::Validation(s))) == Err::<bool, _>(
            AuditErrorV::Unreachable("error de validación: "@ + s),
        ),
        lectura_sonda(Err(ErrorV::Config(s))) == Err::<bool, _>(
            AuditErrorV::Unreachable("error de configuración: "@ + s),
        ),
        lectura_sonda(Err(ErrorV::NotFound(s))) == Err::<bool, _>(
            AuditErrorV::Unreachable("no encontrado: "@ + s),
        ),
        lectura_sonda(Err(ErrorV::Io(s))) == Err::<bool, _>(AuditErrorV::Unreachable(s)),
{
}

/// El reporte de Microsip trae el hallazgo de la configuración si y solo si usa
/// la pareja de fábrica, y el de la credencial viva si y solo si la sonda entró.
pub proof fn ley_reporte_microsip(c: MicrosipConfig, activa: bool, r: AuditReport)
    requires
        es_reporte(c, activa, r),
    ensures
        r.provider@ == "microsip"@,
        !activa && !pareja_de_fabrica(c) ==> r.findings@.len() == 0,
        activa && !pareja_de_fabrica(c) ==> r.findings@.len() == 1 && r.findings@[0].id.0@
            == "F-MSIP-FACTORY-CREDS-ACTIVE"@ && r.findings@[0].disposition is Blocking,
        !activa && pareja_de_fabrica(c) ==> r.findings@.len() == 1 && r.findings@[0].id.0@
            == "F-MSIP-FACTORY-CREDS-CONFIG"@ && r.findings@[0].disposition is Informational,
        activa && pareja_de_fabrica(c) ==> r.findings@.len() == 2 && r.findings@[0].id.0@
            == "F-MSIP-FACTORY-CREDS-CONFIG"@ && r.findings@[1].id.0@
            == "F-MSIP-FACTORY-CREDS-ACTIVE"@ && r.findings@[0].disposition is Informational
            && r.findings@[1].disposition is Blocking,
{
}

// ---------------------------------------------------------------------
// El reporte
// ---------------------------------------------------------------------

proof fn lema_clase_filtrada(s: Seq<Finding>, k: int, d: Disposition, v: Severity)
    ensures
        de_clase(s, k).filter(|f: Finding| f.disposition == d && f.severity == v) == (if k
            == clase_de(d, v) {
            s.filter(|f: Finding| f.disposition == d && f.severity == v)
        } else {
            seq![]
        }),
    decreases s.len(),
{
    reveal(Seq::filter);
    let q = |f: Finding| f.disposition == d && f.severity == v;
    if s.len() > 0 {
        let t = s.drop_last();
        lema_clase_filtrada(t, k, d, v);
        if clase(s.last()) == k {
            let c = de_clase(s, k);
            assert(c.drop_last() =~= de_clase(t, k));
            assert(c.last() == s.last());
        }
    }
    assert(de_clase(s, k).filter(q) =~= (if k == clase_de(d, v) {
        s.filter(q)
    } else {
        seq![]
    }));
}

/// El lugar de una disposición y una severidad.
spec fn clase_de(d: Disposition, v: Severity) -> int {
    (if d == Disposition::Blocking {
        4int
    } else {
        9int
    }) - (match v {
        Severity::Info => 0int,
        Severity::Low => 1,
        Severity::Medium => 2,
        Severity::High => 3,
        Severity::Critical => 4,
    })
}

proof fn lema_orden_filtrado(s: Seq<Finding>, n: nat, d: Disposition, v: Severity)
    ensures
        ordenados_hasta(s, n).filter(|f: Finding| f.disposition == d && f.severity == v) == (
        if clase_de(d, v) < n {
            s.filter(|f: Finding| f.disposition == d && f.severity == v)
        } else {
            seq![]
        }),
    decreases n,
{
    let q = |f: Finding| f.disposition == d && f.severity == v;
    if n == 0 {
        reveal(Seq::filter);
        assert(ordenados_hasta(s, n).filter(q) =~= seq![]);
    } else {
        let m = (n - 1) as nat;
        lema_orden_filtrado(s, m, d, v);
        lema_clase_filtrada(s, m as int, d, v);
        Seq::filter_distributes_over_add(ordenados_hasta(s, m), de_clase(s, m as int), q);
        assert(ordenados_hasta(s, n).filter(q) =~= (if clase_de(d, v) < n {
            s.filter(q)
        } else {
            seq![]
        }));
    }
}

/// Ordenar el reporte no quita, repite ni cruza hallazgos: los de cada disposición
/// y severidad son los mismos, en el mismo orden en que venían.
pub proof fn ley_orden_estable(s: Seq<Finding>, d: Disposition, v: Severity)
    ensures
        ordenados(s).filter(|f: Finding| f.disposition == d && f.severity == v) == s.filter(
            |f: Finding| f.disposition == d && f.severity == v,
        ),
{
    lema_orden_filtrado(s, 10, d, v);
}

/// Qué tan grave es una severidad, de `Info` a `Critical`.
pub proof fn ley_grados()
    ensures
        Severity::Info.grado() < Severity::Low.grado(),
        Severity::Low.grado() < Severity::Medium.grado(),
        Severity::Medium.grado() < Severity::High.grado(),
        Severity::High.grado() < Severity::Critical.grado(),
        Severity::Info.grado() == 0,
        Severity::Critical.grado() == 4,
{
}

/// En el reporte ningún informativo va antes de un bloqueante, y entre los de una
/// misma disposición ninguno va antes de otro más grave.
pub proof fn ley_lo_urgente_primero(s: Seq<Finding>, i: int, j: int)
    requires
        0 <= i < j < ordenados(s).len(),
    ensures
        ordenados(s)[j].disposition is Blocking ==> ordenados(s)[i].disposition is Blocking,
        ordenados(s)[i].disposition == ordenados(s)[j].disposition
            ==> ordenados(s)[i].severity.grado() >= ordenados(s)[j].severity.grado(),
{
    crate::reporte::ley_orden_urgente(s, 10);
    let o = ordenados_hasta(s, 10);
    assert(clase(o[i]) <= clase(o[j]));
}

/// Los pasos de una remediación se numeran desde 1, uno por línea.
pub proof fn ley_pasos_numerados(pasos: Seq<String>, p: String)
    ensures
        texto_pasos(seq![]).len() == 0,
        texto_pasos(pasos.push(p)) == texto_pasos(pasos) + "    "@ + digitos(pasos.len() + 1)
            + ". "@ + p@ + "\n"@,
{
    assert(pasos.push(p).drop_last() =~= pasos);
}

/// El texto de un hallazgo: severidad y disposición por su nombre, título,
/// identificador, detalle, la evidencia si la hay, y la remediación completa.
pub proof fn ley_texto_hallazgo(f: Finding)
    ensures
        texto_hallazgo(f) =~= "["@ + (match f.severity {
            Severity::Info => "Info"@,
            Severity::Low => "Low"@,
            Severity::Medium => "Medium"@,
            Severity::High => "High"@,
            Severity::Critical => "Critical"@,
        }) + " / "@ + (if f.disposition is Blocking {
            "BLOCKING"@
        } else {
            "informational"@
        }) + "] "@ + f.title@ + " ("@ + f.id.0@ + ")\n"@ + "  "@ + f.detail@ + "\n"@ + (
        if f.evidence is Some {
            "  evidencia: "@ + f.evidence->Some_0@ + "\n"@
        } else {
            Seq::empty()
        }) + "  remediación: "@ + f.remediation.summary@ + "\n"@ + texto_pasos(
            f.remediation.steps@,
        ) + "  re-verificación: "@ + (match f.remediation.reverify {
            Reverify::ReRunCheck => "ReRunCheck"@,
            Reverify::OwnerWaiver => "OwnerWaiver"@,
        }) + "\n"@ + "\n"@,
{
}

/// El texto de unos hallazgos es el de cada uno, en su orden.
pub proof fn ley_texto_hallazgos(s: Seq<Finding>, f: Finding)
    ensures
        texto_hallazgos(seq![]).len() == 0,
        texto_hallazgos(s.push(f)) == texto_hallazgos(s) + texto_hallazgo(f),
{
    assert(s.push(f).drop_last() =~= s);
}

/// Los identificadores bloqueantes van entre comillas, separados por coma y
/// espacio.
pub proof fn ley_texto_ids(ids: Seq<FindingId>, id: FindingId)
    ensures
        texto_ids(seq![]).len() == 0,
        texto_ids(seq![id]) == texto_debug(id.0@),
        ids.len() > 0 ==> texto_ids(ids.push(id)) == texto_ids(ids) + ", "@ + texto_debug(id.0@),
{
    assert(ids.push(id).drop_last() =~= ids);
}

/// Los identificadores que no traen nada que escapar van tal cual entre comillas.
pub proof fn ley_texto_ids_llanos(ids: Seq<FindingId>, id: FindingId)
    ensures
        texto_ids_llanos(seq![]).len() == 0,
        texto_ids_llanos(seq![id]) =~= seq!['"'] + id.0@ + seq!['"'],
        ids.len() > 0 ==> texto_ids_llanos(ids.push(id)) =~= texto_ids_llanos(ids) + ", "@ + (
        seq!['"'] + id.0@ + seq!['"']),
        ids_llanos(ids) <==> forall|i: int, j: int|
            0 <= i < ids.len() && 0 <= j < (#[trigger] ids[i]).0@.len() ==> {
                let c = #[trigger] ids[i].0@[j];
                0x20 <= c as u32 <= 0x7e && c != '"' && c != '\'' && c != '\\'
            },
{
    assert(ids.push(id).drop_last() =~= ids);
    if ids_llanos(ids) {
        assert forall|i: int, j: int|
            0 <= i < ids.len() && 0 <= j < (#[trigger] ids[i]).0@.len() implies {
            let c = #[trigger] ids[i].0@[j];
            0x20 <= c as u32 <= 0x7e && c != '"' && c != '\'' && c != '\\'
        } by {
            assert(texto_llano(ids[i].0@));
            assert(es_llano(ids[i].0@[j]));
        }
    }
    if forall|i: int, j: int|
        0 <= i < ids.len() && 0 <= j < (#[trigger] ids[i]).0@.len() ==> {
            let c = #[trigger] ids[i].0@[j];
            0x20 <= c as u32 <= 0x7e && c != '"' && c != '\'' && c != '\\'
        } {
        assert forall|i: int| 0 <= i < ids.len() implies texto_llano((#[trigger] ids[i]).0@) by {
            assert forall|j: int| 0 <= j < ids[i].0@.len() implies es_llano(
                #[trigger] ids[i].0@[j],
            ) by {
            }
        }
    }
}

/// El reporte: de qué provider es, cuántos hallazgos hay, cada uno en su orden, y
/// el veredicto, que es limpio si y solo si ninguno bloquea.
pub proof fn ley_texto_reporte(r: AuditReport)
    ensures
        ({
            let bloquean = r.findings@.filter(|f: Finding| f.disposition is Blocking);
            texto_reporte(r) =~= "provider:  "@ + r.provider@ + "\n"@ + "hallazgos: "@ + digitos(
                r.findings@.len(),
            ) + "\n"@ + "\n"@ + (if r.findings@.len() == 0 {
                "(sin hallazgos)\n"@
            } else {
                Seq::empty()
            }) + texto_hallazgos(ordenados(r.findings@)) + (if bloquean.len() == 0 {
                "gate: CLEAR\n"@
            } else {
                "gate: BLOCKED — bloqueantes: ["@ + texto_ids(
                    bloquean.map_values(|f: Finding| f.id),
                ) + "]\n"@
            })
        }),
{
    ley_bloqueantes(r.findings@);
}

} // verus!
