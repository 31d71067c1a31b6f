//! Artículos de Microsip, con su precio de lista.

use vstd::prelude::*;

use crate::error::{ErrorV, IskandarError};
use crate::extra::{contenido, extra_vacio, sin_claves, JsonV};
use crate::microsip::clientes::{params_texto, LIMITE};
use crate::microsip::comun::{es_consulta, falla_de, o_bien};
use crate::microsip::config::MicrosipConfig;
use crate::microsip::fila::{
    fallo_entero, fallo_texto, lecturas_de_entero, lecturas_de_texto, ley_campo_decimal,
    ley_campo_entero, ley_campo_texto, leyo, leyo_entero, FilaV, RowReader,
};
use crate::microsip::guiones::consulta::{campos_de, consulta_cabe, Campo, CampoV, Consulta};
use crate::microsip::nativo::Exige;
use crate::models::common::{EntidadId, EntidadIdV};
use crate::models::inventario::{
    Articulo, DocumentoInventario, FiltroArticulos, NuevaEntrada, NuevaSalida,
};
use crate::texto::{digitos, leer_i64, natural_a_texto};

verus! {

/// Escala del precio de `PRECIOS_ARTICULOS`, guardado sin punto decimal.
pub const ESCALA_PRECIOS: u32 = 2;

/// Las columnas y tablas de un listado de artículos. La lista de precios se
/// filtra en la unión: un artículo sin precio queda sin él, no en cero.
pub const SQL_ARTICULOS: &'static str = "a.ARTICULO_ID, a.NOMBRE, pa.PRECIO FROM ARTICULOS a LEFT JOIN PRECIOS_ARTICULOS pa ON pa.ARTICULO_ID = a.ARTICULO_ID AND pa.PRECIO_EMPRESA_ID = ( SELECT pe.PRECIO_EMPRESA_ID FROM PRECIOS_EMPRESA pe WHERE pe.ID_INTERNO = 'L') WHERE a.ESTATUS = 'A' ";

/// El filtro por texto, que llega como parámetro enlazado.
pub const SQL_FILTRO_ARTICULOS: &'static str = "AND UPPER(a.NOMBRE) CONTAINING UPPER(:texto) ";

/// El orden del listado.
pub const SQL_ORDEN_ARTICULOS: &'static str = "ORDER BY a.NOMBRE";

/// Los campos que se leen de un artículo.
pub open spec fn campos_articulo() -> Seq<CampoV> {
    seq![CampoV::Entero("ARTICULO_ID"@, Exige::Lectura), CampoV::Texto("NOMBRE"@, Exige::Lectura), CampoV::Texto("PRECIO"@, Exige::Nada)]
}

/// El artículo que una fila describe. Ni clave ni existencia se leen.
pub open spec fn es_articulo(fila: FilaV, a: Articulo) -> bool {
    &&& a.id@ == EntidadIdV::Numerico(fila.entero("ARTICULO_ID"@)->Ok_0 as i64)
    &&& a.nombre@ == fila.texto("NOMBRE"@)->Ok_0
    &&& a.clave is None
    &&& match (a.precio_lista, fila.decimal_opcional("PRECIO"@, ESCALA_PRECIOS)) {
        (Some(d), Some(v)) => d@ == v,
        (None, None) => true,
        _ => false,
    }
    &&& a.existencia is None
    &&& contenido(a.extra) == sin_claves()
}

/// El primer error de una fila de artículo.
pub open spec fn error_fila_articulo(fila: FilaV) -> Option<ErrorV> {
    o_bien(falla_de(fila.entero("ARTICULO_ID"@)), falla_de(fila.texto("NOMBRE"@)))
}

/// Un artículo leído: su identificador y su nombre son los de la fila, y su
/// precio de lista está si y solo si la fila trae un entero en `PRECIO`, y
/// entonces vale ese entero en centésimas.
pub proof fn ley_articulo_leido(fila: FilaV, a: Articulo)
    requires
        error_fila_articulo(fila) is None,
        es_articulo(fila, a),
    ensures
        forall|id: i32| #[trigger]
            leyo_entero(fila, "ARTICULO_ID"@, id) ==> a.id@ == EntidadIdV::Numerico(id as i64),
        forall|t: Seq<char>| #[trigger] leyo(fila, "NOMBRE"@, t) ==> a.nombre@ == t,
        forall|t: Seq<char>| #[trigger]
            leyo(fila, "PRECIO"@, t) ==> match (a.precio_lista, leer_i64(t)) {
                (Some(d), Some(n)) => d@.mantisa == n && d@.escala == 2,
                (None, None) => true,
                _ => false,
            },
        forall|rc: i32| #[trigger] fallo_texto(fila, "PRECIO"@, rc) ==> a.precio_lista is None,
        a.clave is None,
        a.existencia is None,
        contenido(a.extra) == Map::<Seq<char>, JsonV>::empty(),
{
    lema_columnas_articulo(fila);
}

/// Un artículo se lee si y solo si se leen su identificador y su nombre, que
/// son lo único indispensable; si no, el error es el código de esa lectura.
pub proof fn ley_articulo_legible(fila: FilaV)
    ensures
        forall|id: i32, t: Seq<char>|
            #[trigger] leyo_entero(fila, "ARTICULO_ID"@, id) && #[trigger] leyo(
                fila,
                "NOMBRE"@,
                t,
            ) ==> error_fila_articulo(fila) is None,
        forall|rc: i32| #[trigger]
            fallo_entero(fila, "ARTICULO_ID"@, rc) ==> error_fila_articulo(fila) == Some(
                ErrorV::Provider {
                    code: rc,
                    message: "error leyendo campo int '"@ + "ARTICULO_ID"@ + "'"@,
                },
            ),
        forall|id: i32, rc: i32|
            #[trigger] leyo_entero(fila, "ARTICULO_ID"@, id) && #[trigger] fallo_texto(
                fila,
                "NOMBRE"@,
                rc,
            ) ==> error_fila_articulo(fila) == Some(
                ErrorV::Provider {
                    code: rc,
                    message: "error leyendo campo '"@ + "NOMBRE"@ + "'"@,
                },
            ),
{
    lema_columnas_articulo(fila);
}

proof fn lema_columnas_articulo(fila: FilaV)
    ensures
        lecturas_de_entero(fila, "ARTICULO_ID"@),
        lecturas_de_texto(fila, "NOMBRE"@),
        lecturas_de_texto(fila, "PRECIO"@),
        forall|t: Seq<char>| #[trigger]
            leyo(fila, "PRECIO"@, t) ==> match (
                fila.decimal_opcional("PRECIO"@, 2u32),
                leer_i64(t),
            ) {
                (Some(d), Some(n)) => d.mantisa == n && d.escala == 2,
                (None, None) => true,
                _ => false,
            },
{
    assert(!"ARTICULO_ID"@.contains('\0')) by {
        reveal_strlit("ARTICULO_ID");
    }
    assert(!"NOMBRE"@.contains('\0')) by {
        reveal_strlit("NOMBRE");
    }
    assert(!"PRECIO"@.contains('\0')) by {
        reveal_strlit("PRECIO");
    }
    ley_campo_entero(fila, "ARTICULO_ID"@);
    ley_campo_texto(fila, "NOMBRE"@);
    ley_campo_texto(fila, "PRECIO"@);
    assert forall|t: Seq<char>| #[trigger] leyo(fila, "PRECIO"@, t) implies match (
        fila.decimal_opcional("PRECIO"@, 2u32),
        leer_i64(t),
    ) {
        (Some(d), Some(n)) => d.mantisa == n && d.escala == 2,
        (None, None) => true,
        _ => false,
    } by {
        ley_campo_decimal(fila, "PRECIO"@, 2u32, t);
    }
}

/// Convierte una fila de artículos.
pub fn map_row(row: &RowReader) -> (r: Result<Articulo, IskandarError>)
    ensures
        match r {
            Ok(a) => error_fila_articulo(row@) is None && es_articulo(row@, a),
            Err(e) => error_fila_articulo(row@) == Some(e@),
        },
        forall|id: i32, t: Seq<char>|
            #[trigger] leyo_entero(row@, "ARTICULO_ID"@, id) && #[trigger] leyo(
                row@,
                "NOMBRE"@,
                t,
            ) ==> (r matches Ok(a) && a.id@ == EntidadIdV::Numerico(id as i64) && a.nombre@ == t),
        forall|t: Seq<char>| #[trigger]
            leyo(row@, "PRECIO"@, t) && r is Ok ==> match (r->Ok_0.precio_lista, leer_i64(t)) {
                (Some(d), Some(n)) => d@.mantisa == n && d@.escala == 2,
                (None, None) => true,
                _ => false,
            },
        forall|rc: i32| #[trigger]
            fallo_texto(row@, "PRECIO"@, rc) && r is Ok ==> r->Ok_0.precio_lista is None,
        forall|rc: i32| #[trigger]
            fallo_entero(row@, "ARTICULO_ID"@, rc) ==> (r matches Err(e) && e@ == (
            ErrorV::Provider {
                code: rc,
                message: "error leyendo campo int '"@ + "ARTICULO_ID"@ + "'"@,
            })),
        forall|id: i32, rc: i32|
            #[trigger] leyo_entero(row@, "ARTICULO_ID"@, id) && #[trigger] fallo_texto(
                row@,
                "NOMBRE"@,
                rc,
            ) ==> (r matches Err(e) && e@ == (ErrorV::Provider {
                code: rc,
                message: "error leyendo campo '"@ + "NOMBRE"@ + "'"@,
            })),
{
    proof {
        lema_columnas_articulo(row@);
    }
    let articulo_id = match row.int_field("ARTICULO_ID") {
        Ok(n) => n,
        Err(e) => {
            return Err(e);
        },
    };
    let nombre = match row.str_field("NOMBRE") {
        Ok(s) => s,
        Err(e) => {
            return Err(e);
        },
    };
    Ok(
        Articulo {
            id: EntidadId::Numerico(articulo_id as i64),
            nombre,
            clave: None,
            precio_lista: row.opt_dec("PRECIO", ESCALA_PRECIOS),
            existencia: None,
            extra: extra_vacio(),
        },
    )
}

/// El SQL de un listado: el límite va en él; el texto buscado, nunca.
pub open spec fn sql_articulos(filtro: FiltroArticulos) -> Seq<char> {
    let limite = match filtro.limite {
        Some(n) => n,
        None => LIMITE,
    };
    "SELECT FIRST "@ + digitos(limite as nat) + " "@ + SQL_ARTICULOS@ + (if filtro.texto is Some {
        SQL_FILTRO_ARTICULOS@
    } else {
        ""@
    }) + SQL_ORDEN_ARTICULOS@
}

/// El módulo de inventario de Microsip.
#[derive(Debug)]
pub struct ArticulosMicrosip {
    pub config: MicrosipConfig,
}

impl ArticulosMicrosip {
    /// La consulta de un listado de artículos.
    pub fn articulos(&self, filtro: &FiltroArticulos) -> (c: Consulta)
        ensures
            es_consulta(c, sql_articulos(*filtro), params_texto(filtro.texto), campos_articulo()),
            consulta_cabe(c),
            filtro.limite matches Some(n) ==> c.sql@ == "SELECT FIRST "@ + digitos(n as nat) + " "@
                + "a.ARTICULO_ID, a.NOMBRE, pa.PRECIO FROM ARTICULOS a LEFT JOIN PRECIOS_ARTICULOS pa ON pa.ARTICULO_ID = a.ARTICULO_ID AND pa.PRECIO_EMPRESA_ID = ( SELECT pe.PRECIO_EMPRESA_ID FROM PRECIOS_EMPRESA pe WHERE pe.ID_INTERNO = 'L') WHERE a.ESTATUS = 'A' "@
                + (if filtro.texto is Some {
                "AND UPPER(a.NOMBRE) CONTAINING UPPER(:texto) "@
            } else {
                ""@
            }) + "ORDER BY a.NOMBRE"@,
            filtro.limite is None ==> c.sql@ == "SELECT FIRST "@ + "500"@ + " "@
                + "a.ARTICULO_ID, a.NOMBRE, pa.PRECIO FROM ARTICULOS a LEFT JOIN PRECIOS_ARTICULOS pa ON pa.ARTICULO_ID = a.ARTICULO_ID AND pa.PRECIO_EMPRESA_ID = ( SELECT pe.PRECIO_EMPRESA_ID FROM PRECIOS_EMPRESA pe WHERE pe.ID_INTERNO = 'L') WHERE a.ESTATUS = 'A' "@
                + (if filtro.texto is Some {
                "AND UPPER(a.NOMBRE) CONTAINING UPPER(:texto) "@
            } else {
                ""@
            }) + "ORDER BY a.NOMBRE"@,
            filtro.texto matches Some(t) ==> c.params@.len() == 1 && c.params@[0].0@ == "texto"@
                && c.params@[0].1@ == t@,
            filtro.texto is None ==> c.params@.len() == 0,
            c.campos@.len() == 3,
            c.campos@[0]@ == CampoV::Entero("ARTICULO_ID"@, Exige::Lectura),
            c.campos@[1]@ == CampoV::Texto("NOMBRE"@, Exige::Lectura),
            c.campos@[2]@ == CampoV::Texto("PRECIO"@, Exige::Nada),
    {
        let limite: u32 = match filtro.limite {
            Some(n) => n,
            None => LIMITE,
        };
        proof {
            ley_limite_articulos(*filtro);
        }
        let mut params: Vec<(&'static str, String)> = Vec::new();
        let donde: &'static str = match &filtro.texto {
            Some(s) => {
                params.push(("texto", s.clone()));
                SQL_FILTRO_ARTICULOS
            },
            None => "",
        };
        let c = Consulta {
            sql: "SELECT FIRST ".to_owned().concat(natural_a_texto(limite as u64).as_str()).concat(
                " ",
            ).concat(SQL_ARTICULOS).concat(donde).concat(SQL_ORDEN_ARTICULOS),
            params,
            campos: vec![
                Campo::Entero("ARTICULO_ID".to_owned(), Exige::Lectura),
                Campo::Texto("NOMBRE".to_owned(), Exige::Lectura),
                Campo::Texto("PRECIO".to_owned(), Exige::Nada),
            ],
        };
        proof {
            assert(campos_de(c.campos@) =~= campos_articulo());
        }
        c
    }

    /// Las entradas de inventario no existen todavía.
    pub fn entrada(&self, _entrada: &NuevaEntrada) -> (r: Result<
        DocumentoInventario,
        IskandarError,
    >)
        ensures
            r matches Err(e) && e@ == ErrorV::NotImplemented(ENTRADA_PENDIENTE@),
            r matches Err(e) && e@ == ErrorV::NotImplemented(
                "microsip::inventario::entrada — flujo NuevaEntrada/RenglonEntrada/AplicaEntrada pendiente"@,
            ),
    {
        Err(IskandarError::NotImplemented(ENTRADA_PENDIENTE))
    }

    /// Las salidas de inventario no existen todavía.
    pub fn salida(&self, _salida: &NuevaSalida) -> (r: Result<DocumentoInventario, IskandarError>)
        ensures
            r matches Err(e) && e@ == ErrorV::NotImplemented(SALIDA_PENDIENTE@),
            r matches Err(e) && e@ == ErrorV::NotImplemented(
                "microsip::inventario::salida — flujo NuevaSalida/RenglonSalida/AplicaSalida pendiente"@,
            ),
    {
        Err(IskandarError::NotImplemented(SALIDA_PENDIENTE))
    }
}

/// Por qué no hay entradas.
pub const ENTRADA_PENDIENTE: &'static str = "microsip::inventario::entrada — flujo NuevaEntrada/RenglonEntrada/AplicaEntrada pendiente";

/// Por qué no hay salidas.
pub const SALIDA_PENDIENTE: &'static str = "microsip::inventario::salida — flujo NuevaSalida/RenglonSalida/AplicaSalida pendiente";

/// El texto que se busca no llega al SQL: dos búsquedas con el mismo límite
/// ejecutan el mismo SQL, busquen lo que busquen.
pub proof fn ley_sql_articulos(a: FiltroArticulos, b: FiltroArticulos)
    requires
        a.limite == b.limite,
        a.texto is Some <==> b.texto is Some,
    ensures
        sql_articulos(a) == sql_articulos(b),
{
}

/// El SQL de un listado pide tantas filas como diga el límite, o quinientas si
/// no lo dice; lo demás no depende del límite, y del texto buscado solo depende
/// que haya condición.
pub proof fn ley_limite_articulos(filtro: FiltroArticulos)
    ensures
        filtro.limite matches Some(n) ==> sql_articulos(filtro) == "SELECT FIRST "@ + digitos(n as nat)
            + " "@
            + "a.ARTICULO_ID, a.NOMBRE, pa.PRECIO FROM ARTICULOS a LEFT JOIN PRECIOS_ARTICULOS pa ON pa.ARTICULO_ID = a.ARTICULO_ID AND pa.PRECIO_EMPRESA_ID = ( SELECT pe.PRECIO_EMPRESA_ID FROM PRECIOS_EMPRESA pe WHERE pe.ID_INTERNO = 'L') WHERE a.ESTATUS = 'A' "@
            + (if filtro.texto is Some {
            "AND UPPER(a.NOMBRE) CONTAINING UPPER(:texto) "@
        } else {
            ""@
        }) + "ORDER BY a.NOMBRE"@,
        filtro.limite is None ==> sql_articulos(filtro) == "SELECT FIRST "@ + "500"@ + " "@
            + "a.ARTICULO_ID, a.NOMBRE, pa.PRECIO FROM ARTICULOS a LEFT JOIN PRECIOS_ARTICULOS pa ON pa.ARTICULO_ID = a.ARTICULO_ID AND pa.PRECIO_EMPRESA_ID = ( SELECT pe.PRECIO_EMPRESA_ID FROM PRECIOS_EMPRESA pe WHERE pe.ID_INTERNO = 'L') WHERE a.ESTATUS = 'A' "@
            + (if filtro.texto is Some {
            "AND UPPER(a.NOMBRE) CONTAINING UPPER(:texto) "@
        } else {
            ""@
        }) + "ORDER BY a.NOMBRE"@,
        filtro.texto matches Some(t) ==> params_texto(filtro.texto) =~= seq![("texto"@, t@)],
        filtro.texto is None ==> params_texto(filtro.texto).len() == 0,
{
    assert(digitos(500) =~= "500"@) by {
        reveal_strlit("500");
        reveal_with_fuel(digitos, 4);
    }
}

} // verus!
