//! Conversiones compartidas por los módulos de Microsip.

use vstd::prelude::*;

use crate::error::{ErrorV, IskandarError};
use crate::microsip::guiones::consulta::{campos_de, CampoV, Consulta};
use crate::models::common::{EntidadId, EntidadIdV};
use crate::texto::{entero_a_texto, entero_texto, leer_i64, parse_i64};

verus! {

/// El primero de dos errores posibles.
pub open spec fn o_bien(a: Option<ErrorV>, b: Option<ErrorV>) -> Option<ErrorV> {
    if a is Some {
        a
    } else {
        b
    }
}

/// El error de un resultado.
pub open spec fn falla_de<T>(r: Result<T, ErrorV>) -> Option<ErrorV> {
    match r {
        Ok(_) => None,
        Err(e) => Some(e),
    }
}

/// Los 32 bits bajos de un entero, con signo.
pub open spec fn truncado(n: int) -> int {
    let m = n % 0x1_0000_0000;
    if m >= 0x8000_0000 {
        m - 0x1_0000_0000
    } else {
        m
    }
}

/// Los 32 bits bajos de un entero, con signo.
pub fn truncar(n: i64) -> (r: i32)
    ensures
        r == truncado(n as int),
        i32::MIN <= n <= i32::MAX ==> r == n,
        (r - n) % 0x1_0000_0000 == 0,
{
    let m: i64 = if n >= 0 {
        n % 0x1_0000_0000
    } else {
        (n + 0x7fff_ffff_ffff_ffff + 1) % 0x1_0000_0000
    };
    if m >= 0x8000_0000 {
        (m - 0x1_0000_0000) as i32
    } else {
        m as i32
    }
}

/// El error de un identificador que no es numérico.
pub open spec fn error_id(campo: Seq<char>, id: EntidadIdV) -> Option<ErrorV> {
    match id {
        EntidadIdV::Numerico(_) => None,
        EntidadIdV::Texto(s) => Some(
            ErrorV::Validation(campo + " debe ser numérico en Microsip, recibido: '"@ + s + "'"@),
        ),
    }
}

/// El identificador nativo de una entidad: solo los numéricos lo tienen.
pub fn entidad_id_a_i32(campo: &str, id: &EntidadId) -> (r: Result<i32, IskandarError>)
    ensures
        match r {
            Ok(n) => id@ matches EntidadIdV::Numerico(v) && n == truncado(v as int),
            Err(e) => error_id(campo@, id@) == Some(e@),
        },
        match id@ {
            EntidadIdV::Numerico(v) => r is Ok && (r->Ok_0 - v) % 0x1_0000_0000 == 0 && (i32::MIN
                <= v <= i32::MAX ==> r->Ok_0 == v),
            EntidadIdV::Texto(s) => (r matches Err(e) && e@ == ErrorV::Validation(
                campo@ + " debe ser numérico en Microsip, recibido: '"@ + s + "'"@,
            )),
        },
{
    match id {
        EntidadId::Numerico(n) => Ok(truncar(*n)),
        EntidadId::Texto(s) => Err(
            IskandarError::Validation(
                campo.to_owned().concat(" debe ser numérico en Microsip, recibido: '").concat(
                    s.as_str(),
                ).concat("'"),
            ),
        ),
    }
}

/// Un texto opcional, vacío si falta.
pub open spec fn texto_o_vacio(s: Option<String>) -> Seq<char> {
    match s {
        Some(s) => s@,
        None => seq![],
    }
}

pub(crate) fn o_vacio(s: &Option<String>) -> (r: String)
    ensures
        r@ == texto_o_vacio(*s),
{
    match s {
        Some(s) => s.clone(),
        None => {
            let v = "".to_owned();
            proof {
                reveal_strlit("");
                assert(v@ =~= seq![]);
            }
            v
        },
    }
}

/// El entero de un identificador: los textos cuentan si son un entero.
pub open spec fn numero_de(id: EntidadIdV) -> Option<i64> {
    match id {
        EntidadIdV::Numerico(n) => Some(n),
        EntidadIdV::Texto(s) => leer_i64(s),
    }
}

/// El error de pedir por un identificador que no es un entero.
pub open spec fn error_id_consulta(que: Seq<char>, id: EntidadIdV) -> ErrorV {
    ErrorV::Validation(
        "el id de "@ + que + " debe ser numérico, recibido: '"@ + id.texto() + "'"@,
    )
}

/// El entero con el que se consulta una entidad.
pub fn id_consulta(que: &str, id: &EntidadId) -> (r: Result<i64, IskandarError>)
    ensures
        match r {
            Ok(n) => numero_de(id@) == Some(n),
            Err(e) => numero_de(id@) is None && e@ == error_id_consulta(que@, id@),
        },
        id@ matches EntidadIdV::Numerico(n) ==> (r matches Ok(m) && m == n),
        id@ matches EntidadIdV::Texto(s) ==> match leer_i64(s) {
            Some(n) => (r matches Ok(m) && m == n),
            None => (r matches Err(e) && e@ == ErrorV::Validation(
                "el id de "@ + que@ + " debe ser numérico, recibido: '"@ + s + "'"@,
            )),
        },
{
    match id {
        EntidadId::Numerico(n) => Ok(*n),
        EntidadId::Texto(s) => match parse_i64(s.as_str()) {
            Some(n) => Ok(n),
            None => Err(
                IskandarError::Validation(
                    "el id de ".to_owned().concat(que).concat(
                        " debe ser numérico, recibido: '",
                    ).concat(s.as_str()).concat("'"),
                ),
            ),
        },
    }
}

/// El error de una consulta que no encontró nada.
pub open spec fn error_no_encontrado(que: Seq<char>, id: i64) -> ErrorV {
    ErrorV::NotFound(que + " #"@ + entero_texto(id as int))
}

/// La primera fila de una consulta por identificador.
pub fn primera<T>(filas: Vec<T>, que: &str, id: i64) -> (r: Result<T, IskandarError>)
    ensures
        match r {
            Ok(t) => filas@.len() > 0 && t == filas@[0],
            Err(e) => filas@.len() == 0 && e@ == error_no_encontrado(que@, id),
        },
        filas@.len() == 0 ==> (r matches Err(e) && e@ == ErrorV::NotFound(
            que@ + " #"@ + entero_texto(id as int),
        )),
{
    let mut filas = filas;
    if filas.len() == 0 {
        Err(
            IskandarError::NotFound(
                que.to_owned().concat(" #").concat(entero_a_texto(id).as_str()),
            ),
        )
    } else {
        Ok(filas.remove(0))
    }
}

/// El SQL, los parámetros y los campos de una consulta.
pub open spec fn es_consulta(
    c: Consulta,
    sql: Seq<char>,
    params: Seq<(Seq<char>, Seq<char>)>,
    campos: Seq<CampoV>,
) -> bool {
    &&& c.sql@ == sql
    &&& c.params@.len() == params.len()
    &&& forall|i: int|
        0 <= i < params.len() ==> (#[trigger] c.params@[i]).0@ == params[i].0 && c.params@[i].1@
            == params[i].1
    &&& campos_de(c.campos@) == campos
}

/// El número de un identificador es el suyo, o el que su texto escribe; los errores
/// citan el identificador tal como se recibió.
pub proof fn ley_identificadores(n: i64, s: Seq<char>, que: Seq<char>)
    ensures
        numero_de(EntidadIdV::Numerico(n)) == Some(n),
        numero_de(EntidadIdV::Texto(s)) == leer_i64(s),
        error_id(que, EntidadIdV::Numerico(n)) is None,
        error_id(que, EntidadIdV::Texto(s)) == Some(
            ErrorV::Validation(que + " debe ser numérico en Microsip, recibido: '"@ + s + "'"@),
        ),
        error_id_consulta(que, EntidadIdV::Texto(s)) == ErrorV::Validation(
            "el id de "@ + que + " debe ser numérico, recibido: '"@ + s + "'"@,
        ),
        error_no_encontrado(que, n) == ErrorV::NotFound(que + " #"@ + entero_texto(n as int)),
{
}

} // verus!
