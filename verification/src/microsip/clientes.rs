//! Clientes de Microsip: `CLIENTES` con la dirección principal de cada uno.

use vstd::prelude::*;

use crate::error::{ErrorV, IskandarError};
use crate::extra::{contenido, extra_vacio, sin_claves, JsonV};
use crate::microsip::comun::{
    error_id_consulta, es_consulta, falla_de, id_consulta, numero_de, o_bien,
};
use crate::microsip::config::MicrosipConfig;
use crate::microsip::fila::{
    es_texto_opcional, fallo_entero, fallo_texto, lecturas_de_entero, lecturas_de_texto,
    ley_campo_entero, ley_campo_texto, leyo, leyo_entero, FilaV, RowReader,
};
use crate::microsip::guiones::consulta::{campos_de, consulta_cabe, Campo, CampoV, Consulta};
use crate::microsip::nativo::Exige;
use crate::models::clientes::{Cliente, FiltroClientes, NuevoCliente};
use crate::models::common::{EntidadId, EntidadIdV, IdFiscal, Pais};
use crate::texto::{digitos, entero_a_texto, entero_texto, leer_i64, natural_a_texto};

verus! {

/// Cuántas filas se piden cuando el filtro no lo dice.
pub const LIMITE: u32 = 500;

/// Las columnas y tablas de un listado de clientes.
pub const SQL_CLIENTES: &'static str = "c.CLIENTE_ID, c.NOMBRE, d.RFC_CURP, d.TELEFONO1, d.EMAIL FROM CLIENTES c LEFT JOIN DIRS_CLIENTES d ON d.CLIENTE_ID = c.CLIENTE_ID AND d.ES_DIR_PPAL = 'S' ";

/// El filtro por texto, que llega como parámetro enlazado.
pub const SQL_FILTRO_CLIENTES: &'static str = "WHERE UPPER(c.NOMBRE) CONTAINING UPPER(:texto) OR d.RFC_CURP CONTAINING :texto ";

/// El orden del listado.
pub const SQL_ORDEN_CLIENTES: &'static str = "ORDER BY c.NOMBRE";

/// Los campos que se leen de un cliente.
pub open spec fn campos_cliente() -> Seq<CampoV> {
    seq![
        CampoV::Entero("CLIENTE_ID"@, Exige::Lectura),
        CampoV::Texto("NOMBRE"@, Exige::Lectura),
        CampoV::Texto("RFC_CURP"@, Exige::Nada),
        CampoV::Texto("TELEFONO1"@, Exige::Nada),
        CampoV::Texto("EMAIL"@, Exige::Nada),
    ]
}

fn leer_campos_cliente() -> (r: Vec<Campo>)
    ensures
        campos_de(r@) == campos_cliente(),
        r@.len() == 5,
{
    let r: Vec<Campo> = vec![
        Campo::Entero("CLIENTE_ID".to_owned(), Exige::Lectura),
        Campo::Texto("NOMBRE".to_owned(), Exige::Lectura),
        Campo::Texto("RFC_CURP".to_owned(), Exige::Nada),
        Campo::Texto("TELEFONO1".to_owned(), Exige::Nada),
        Campo::Texto("EMAIL".to_owned(), Exige::Nada),
    ];
    proof {
        assert(campos_de(r@) =~= campos_cliente());
    }
    r
}

proof fn lema_columnas(c: Consulta)
    requires
        campos_de(c.campos@) == campos_cliente(),
    ensures
        c.campos@.len() == 5,
        forall|i: int| 0 <= i < 5 ==> (#[trigger] c.campos@[i])@ == campos_cliente()[i],
{
    assert(campos_de(c.campos@).len() == c.campos@.len());
    assert(campos_cliente().len() == 5);
    assert forall|i: int| 0 <= i < 5 implies (#[trigger] c.campos@[i])@ == campos_cliente()[i] by {
        assert(campos_de(c.campos@)[i] == c.campos@[i]@);
    }
}

/// El cliente que una fila describe. El identificador fiscal es mexicano; los
/// datos vacíos de la dirección no están.
pub open spec fn es_cliente(fila: FilaV, c: Cliente) -> bool {
    &&& c.id@ == EntidadIdV::Numerico(fila.entero("CLIENTE_ID"@)->Ok_0 as i64)
    &&& c.nombre@ == fila.texto("NOMBRE"@)->Ok_0
    &&& match (c.id_fiscal, fila.texto_opcional("RFC_CURP"@)) {
        (Some(f), Some(s)) => f.pais == Pais::Mexico && f.valor@ == s,
        (None, None) => true,
        _ => false,
    }
    &&& es_texto_opcional(c.telefono, fila.texto_opcional("TELEFONO1"@))
    &&& es_texto_opcional(c.email, fila.texto_opcional("EMAIL"@))
    &&& c.moneda is None
    &&& contenido(c.extra) == sin_claves()
}

/// El primer error de una fila de cliente.
pub open spec fn error_fila_cliente(fila: FilaV) -> Option<ErrorV> {
    o_bien(falla_de(fila.entero("CLIENTE_ID"@)), falla_de(fila.texto("NOMBRE"@)))
}

/// Un cliente leído: su identificador y su nombre son los de la fila, y su
/// teléfono, su correo y su RFC están si y solo si la fila trae algo en ellos,
/// y entonces son lo que trae.
pub proof fn ley_cliente_leido(fila: FilaV, c: Cliente)
    requires
        error_fila_cliente(fila) is None,
        es_cliente(fila, c),
    ensures
        forall|id: i32| #[trigger]
            leyo_entero(fila, "CLIENTE_ID"@, id) ==> c.id@ == EntidadIdV::Numerico(id as i64),
        forall|t: Seq<char>| #[trigger] leyo(fila, "NOMBRE"@, t) ==> c.nombre@ == t,
        forall|t: Seq<char>| #[trigger]
            leyo(fila, "TELEFONO1"@, t) ==> match c.telefono {
                Some(s) => t.len() > 0 && s@ == t,
                None => t.len() == 0,
            },
        forall|t: Seq<char>| #[trigger]
            leyo(fila, "EMAIL"@, t) ==> match c.email {
                Some(s) => t.len() > 0 && s@ == t,
                None => t.len() == 0,
            },
        forall|t: Seq<char>| #[trigger]
            leyo(fila, "RFC_CURP"@, t) ==> match c.id_fiscal {
                Some(f) => t.len() > 0 && f.valor@ == t && f.pais is Mexico,
                None => t.len() == 0,
            },
        forall|rc: i32| #[trigger] fallo_texto(fila, "TELEFONO1"@, rc) ==> c.telefono is None,
        forall|rc: i32| #[trigger] fallo_texto(fila, "EMAIL"@, rc) ==> c.email is None,
        forall|rc: i32| #[trigger] fallo_texto(fila, "RFC_CURP"@, rc) ==> c.id_fiscal is None,
        c.moneda is None,
        contenido(c.extra) == Map::<Seq<char>, JsonV>::empty(),
{
    lema_columnas_cliente(fila);
}

/// Un cliente se lee si y solo si se leen su identificador y su nombre, que
/// son lo único indispensable; si no, el error es el código de esa lectura.
pub proof fn ley_cliente_legible(fila: FilaV)
    ensures
        forall|id: i32, t: Seq<char>|
            #[trigger] leyo_entero(fila, "CLIENTE_ID"@, id) && #[trigger] leyo(
                fila,
                "NOMBRE"@,
                t,
            ) ==> error_fila_cliente(fila) is None,
        forall|rc: i32| #[trigger]
            fallo_entero(fila, "CLIENTE_ID"@, rc) ==> error_fila_cliente(fila) == Some(
                ErrorV::Provider {
                    code: rc,
                    message: "error leyendo campo int '"@ + "CLIENTE_ID"@ + "'"@,
                },
            ),
        forall|id: i32, rc: i32|
            #[trigger] leyo_entero(fila, "CLIENTE_ID"@, id) && #[trigger] fallo_texto(
                fila,
                "NOMBRE"@,
                rc,
            ) ==> error_fila_cliente(fila) == Some(
                ErrorV::Provider {
                    code: rc,
                    message: "error leyendo campo '"@ + "NOMBRE"@ + "'"@,
                },
            ),
{
    lema_columnas_cliente(fila);
}

proof fn lema_columnas_cliente(fila: FilaV)
    ensures
        lecturas_de_texto(fila, "NOMBRE"@),
        lecturas_de_texto(fila, "RFC_CURP"@),
        lecturas_de_texto(fila, "TELEFONO1"@),
        lecturas_de_texto(fila, "EMAIL"@),
        lecturas_de_entero(fila, "CLIENTE_ID"@),
{
    assert(!"CLIENTE_ID"@.contains('\0')) by {
        reveal_strlit("CLIENTE_ID");
    }
    assert(!"NOMBRE"@.contains('\0')) by {
        reveal_strlit("NOMBRE");
    }
    assert(!"RFC_CURP"@.contains('\0')) by {
        reveal_strlit("RFC_CURP");
    }
    assert(!"TELEFONO1"@.contains('\0')) by {
        reveal_strlit("TELEFONO1");
    }
    assert(!"EMAIL"@.contains('\0')) by {
        reveal_strlit("EMAIL");
    }
    ley_campo_entero(fila, "CLIENTE_ID"@);
    ley_campo_texto(fila, "NOMBRE"@);
    ley_campo_texto(fila, "RFC_CURP"@);
    ley_campo_texto(fila, "TELEFONO1"@);
    ley_campo_texto(fila, "EMAIL"@);
}

/// Convierte una fila de clientes.
pub fn map_row(row: &RowReader) -> (r: Result<Cliente, IskandarError>)
    ensures
        match r {
            Ok(c) => error_fila_cliente(row@) is None && es_cliente(row@, c),
            Err(e) => error_fila_cliente(row@) == Some(e@),
        },
        forall|id: i32, t: Seq<char>|
            #[trigger] leyo_entero(row@, "CLIENTE_ID"@, id) && #[trigger] leyo(
                row@,
                "NOMBRE"@,
                t,
            ) ==> (r matches Ok(c) && c.id@ == EntidadIdV::Numerico(id as i64) && c.nombre@ == t),
        forall|t: Seq<char>| #[trigger]
            leyo(row@, "TELEFONO1"@, t) && r is Ok ==> match r->Ok_0.telefono {
                Some(s) => t.len() > 0 && s@ == t,
                None => t.len() == 0,
            },
        forall|t: Seq<char>| #[trigger]
            leyo(row@, "EMAIL"@, t) && r is Ok ==> match r->Ok_0.email {
                Some(s) => t.len() > 0 && s@ == t,
                None => t.len() == 0,
            },
        forall|t: Seq<char>| #[trigger]
            leyo(row@, "RFC_CURP"@, t) && r is Ok ==> match r->Ok_0.id_fiscal {
                Some(f) => t.len() > 0 && f.valor@ == t && f.pais is Mexico,
                None => t.len() == 0,
            },
        forall|rc: i32| #[trigger]
            fallo_texto(row@, "TELEFONO1"@, rc) && r is Ok ==> r->Ok_0.telefono is None,
        forall|rc: i32| #[trigger]
            fallo_texto(row@, "EMAIL"@, rc) && r is Ok ==> r->Ok_0.email is None,
        forall|rc: i32| #[trigger]
            fallo_texto(row@, "RFC_CURP"@, rc) && r is Ok ==> r->Ok_0.id_fiscal is None,
        forall|rc: i32| #[trigger]
            fallo_entero(row@, "CLIENTE_ID"@, rc) ==> (r matches Err(e) && e@ == (
            ErrorV::Provider {
                code: rc,
                message: "error leyendo campo int '"@ + "CLIENTE_ID"@ + "'"@,
            })),
        forall|id: i32, rc: i32|
            #[trigger] leyo_entero(row@, "CLIENTE_ID"@, id) && #[trigger] fallo_texto(
                row@,
                "NOMBRE"@,
                rc,
            ) ==> (r matches Err(e) && e@ == (ErrorV::Provider {
                code: rc,
                message: "error leyendo campo '"@ + "NOMBRE"@ + "'"@,
            })),
{
    proof {
        lema_columnas_cliente(row@);
    }
    let cliente_id = match row.int_field("CLIENTE_ID") {
        Ok(n) => n,
        Err(e) => {
            return Err(e);
        },
    };
    let nombre = match row.str_field("NOMBRE") {
        Ok(s) => s,
        Err(e) => {
            return Err(e);
        },
    };
    Ok(
        Cliente {
            id: EntidadId::Numerico(cliente_id as i64),
            nombre,
            id_fiscal: match row.opt_str("RFC_CURP") {
                Some(valor) => Some(IdFiscal { pais: Pais::Mexico, valor }),
                None => None,
            },
            email: row.opt_str("EMAIL"),
            telefono: row.opt_str("TELEFONO1"),
            moneda: None,
            extra: extra_vacio(),
        },
    )
}

/// El SQL de un listado: el límite va en él; el texto buscado, nunca.
pub open spec fn sql_clientes(filtro: FiltroClientes) -> Seq<char> {
    let limite = match filtro.limite {
        Some(n) => n,
        None => LIMITE,
    };
    "SELECT FIRST "@ + digitos(limite as nat) + " "@ + SQL_CLIENTES@ + (if filtro.texto is Some {
        SQL_FILTRO_CLIENTES@
    } else {
        ""@
    }) + SQL_ORDEN_CLIENTES@
}

/// Los parámetros de un listado.
pub open spec fn params_texto(texto: Option<String>) -> Seq<(Seq<char>, Seq<char>)> {
    match texto {
        Some(s) => seq![("texto"@, s@)],
        None => seq![],
    }
}

/// El módulo de clientes de Microsip.
#[derive(Debug)]
pub struct ClientesMicrosip {
    pub config: MicrosipConfig,
}

/// La consulta de un cliente, sin su identificador.
pub const SQL_CLIENTE: &'static str = "SELECT c.CLIENTE_ID, c.NOMBRE, d.RFC_CURP, d.TELEFONO1, d.EMAIL FROM CLIENTES c LEFT JOIN DIRS_CLIENTES d ON d.CLIENTE_ID = c.CLIENTE_ID AND d.ES_DIR_PPAL = 'S' WHERE c.CLIENTE_ID = ";

impl ClientesMicrosip {
    /// La consulta de un listado de clientes.
    pub fn listar(&self, filtro: &FiltroClientes) -> (c: Consulta)
        ensures
            es_consulta(c, sql_clientes(*filtro), params_texto(filtro.texto), campos_cliente()),
            consulta_cabe(c),
            filtro.limite matches Some(n) ==> c.sql@ == "SELECT FIRST "@ + digitos(n as nat) + " "@
                + "c.CLIENTE_ID, c.NOMBRE, d.RFC_CURP, d.TELEFONO1, d.EMAIL FROM CLIENTES c LEFT JOIN DIRS_CLIENTES d ON d.CLIENTE_ID = c.CLIENTE_ID AND d.ES_DIR_PPAL = 'S' "@
                + (if filtro.texto is Some {
                "WHERE UPPER(c.NOMBRE) CONTAINING UPPER(:texto) OR d.RFC_CURP CONTAINING :texto "@
            } else {
                ""@
            }) + "ORDER BY c.NOMBRE"@,
            filtro.limite is None ==> c.sql@ == "SELECT FIRST "@ + "500"@ + " "@
                + "c.CLIENTE_ID, c.NOMBRE, d.RFC_CURP, d.TELEFONO1, d.EMAIL FROM CLIENTES c LEFT JOIN DIRS_CLIENTES d ON d.CLIENTE_ID = c.CLIENTE_ID AND d.ES_DIR_PPAL = 'S' "@
                + (if filtro.texto is Some {
                "WHERE UPPER(c.NOMBRE) CONTAINING UPPER(:texto) OR d.RFC_CURP CONTAINING :texto "@
            } else {
                ""@
            }) + "ORDER BY c.NOMBRE"@,
            filtro.texto matches Some(t) ==> c.params@.len() == 1 && c.params@[0].0@ == "texto"@
                && c.params@[0].1@ == t@,
            filtro.texto is None ==> c.params@.len() == 0,
            c.campos@.len() == 5,
            c.campos@[0]@ == CampoV::Entero("CLIENTE_ID"@, Exige::Lectura),
            c.campos@[1]@ == CampoV::Texto("NOMBRE"@, Exige::Lectura),
            c.campos@[2]@ == CampoV::Texto("RFC_CURP"@, Exige::Nada),
            c.campos@[3]@ == CampoV::Texto("TELEFONO1"@, Exige::Nada),
            c.campos@[4]@ == CampoV::Texto("EMAIL"@, Exige::Nada),
    {
        let limite: u32 = match filtro.limite {
            Some(n) => n,
            None => LIMITE,
        };
        proof {
            ley_limite_clientes(*filtro);
        }
        let mut params: Vec<(&'static str, String)> = Vec::new();
        let donde: &'static str = match &filtro.texto {
            Some(s) => {
                params.push(("texto", s.clone()));
                SQL_FILTRO_CLIENTES
            },
            None => "",
        };
        let c = Consulta {
            sql: "SELECT FIRST ".to_owned().concat(natural_a_texto(limite as u64).as_str()).concat(
                " ",
            ).concat(SQL_CLIENTES).concat(donde).concat(SQL_ORDEN_CLIENTES),
            params,
            campos: leer_campos_cliente(),
        };
        proof {
            lema_columnas(c);
        }
        c
    }

    /// La consulta de un cliente por su identificador.
    pub fn obtener(&self, id: &EntidadId) -> (r: Result<(Consulta, i64), IskandarError>)
        ensures
            match r {
                Ok((c, n)) => numero_de(id@) == Some(n) && es_consulta(
                    c,
                    SQL_CLIENTE@ + entero_texto(n as int),
                    seq![],
                    campos_cliente(),
                ) && consulta_cabe(c),
                Err(e) => numero_de(id@) is None && e@ == error_id_consulta("cliente"@, id@),
            },
            id@ matches EntidadIdV::Numerico(n) ==> (r matches Ok((c, m)) && m == n && c.sql@
                == "SELECT c.CLIENTE_ID, c.NOMBRE, d.RFC_CURP, d.TELEFONO1, d.EMAIL FROM CLIENTES c LEFT JOIN DIRS_CLIENTES d ON d.CLIENTE_ID = c.CLIENTE_ID AND d.ES_DIR_PPAL = 'S' WHERE c.CLIENTE_ID = "@
                + entero_texto(n as int)),
            id@ matches EntidadIdV::Texto(s) ==> match leer_i64(s) {
                Some(n) => (r matches Ok((c, m)) && m == n && c.sql@
                    == "SELECT c.CLIENTE_ID, c.NOMBRE, d.RFC_CURP, d.TELEFONO1, d.EMAIL FROM CLIENTES c LEFT JOIN DIRS_CLIENTES d ON d.CLIENTE_ID = c.CLIENTE_ID AND d.ES_DIR_PPAL = 'S' WHERE c.CLIENTE_ID = "@
                    + entero_texto(n as int)),
                None => (r matches Err(e) && e@ == ErrorV::Validation(
                    "el id de "@ + "cliente"@ + " debe ser numérico, recibido: '"@ + s + "'"@,
                )),
            },
            r matches Ok((c, _)) ==> c.params@.len() == 0 && c.campos@.len() == 5 && c.campos@[0]@
                == CampoV::Entero("CLIENTE_ID"@, Exige::Lectura) && c.campos@[1]@ == CampoV::Texto(
                "NOMBRE"@,
                Exige::Lectura,
            ) && c.campos@[2]@ == CampoV::Texto("RFC_CURP"@, Exige::Nada) && c.campos@[3]@
                == CampoV::Texto("TELEFONO1"@, Exige::Nada) && c.campos@[4]@ == CampoV::Texto(
                "EMAIL"@,
                Exige::Nada,
            ),
    {
        match id_consulta("cliente", id) {
            Err(e) => Err(e),
            Ok(n) => {
                let c = Consulta {
                    sql: SQL_CLIENTE.to_owned().concat(entero_a_texto(n).as_str()),
                    params: Vec::new(),
                    campos: leer_campos_cliente(),
                };
                proof {
                    lema_columnas(c);
                }
                Ok((c, n))
            },
        }
    }

    /// El alta de clientes no existe todavía.
    pub fn crear(&self, _cliente: &NuevoCliente) -> (r: Result<Cliente, IskandarError>)
        ensures
            r matches Err(e) && e@ == ErrorV::NotImplemented("microsip::clientes::crear"@),
    {
        Err(IskandarError::NotImplemented("microsip::clientes::crear"))
    }
}

/// El texto que se busca no llega al SQL: dos búsquedas con el mismo límite
/// ejecutan el mismo SQL, busquen lo que busquen.
pub proof fn ley_sql_clientes(a: FiltroClientes, b: FiltroClientes)
    requires
        a.limite == b.limite,
        a.texto is Some <==> b.texto is Some,
    ensures
        sql_clientes(a) == sql_clientes(b),
{
}

/// El SQL de un listado pide tantas filas como diga el límite, o quinientas si
/// no lo dice; lo demás no depende del límite, y del texto buscado solo depende
/// que haya condición.
pub proof fn ley_limite_clientes(filtro: FiltroClientes)
    ensures
        filtro.limite matches Some(n) ==> sql_clientes(filtro) == "SELECT FIRST "@ + digitos(n as nat)
            + " "@
            + "c.CLIENTE_ID, c.NOMBRE, d.RFC_CURP, d.TELEFONO1, d.EMAIL FROM CLIENTES c LEFT JOIN DIRS_CLIENTES d ON d.CLIENTE_ID = c.CLIENTE_ID AND d.ES_DIR_PPAL = 'S' "@
            + (if filtro.texto is Some {
            "WHERE UPPER(c.NOMBRE) CONTAINING UPPER(:texto) OR d.RFC_CURP CONTAINING :texto "@
        } else {
            ""@
        }) + "ORDER BY c.NOMBRE"@,
        filtro.limite is None ==> sql_clientes(filtro) == "SELECT FIRST "@ + "500"@ + " "@
            + "c.CLIENTE_ID, c.NOMBRE, d.RFC_CURP, d.TELEFONO1, d.EMAIL FROM CLIENTES c LEFT JOIN DIRS_CLIENTES d ON d.CLIENTE_ID = c.CLIENTE_ID AND d.ES_DIR_PPAL = 'S' "@
            + (if filtro.texto is Some {
            "WHERE UPPER(c.NOMBRE) CONTAINING UPPER(:texto) OR d.RFC_CURP CONTAINING :texto "@
        } else {
            ""@
        }) + "ORDER BY c.NOMBRE"@,
        filtro.texto matches Some(t) ==> params_texto(filtro.texto) =~= seq![("texto"@, t@)],
        filtro.texto is None ==> params_texto(filtro.texto).len() == 0,
{
    assert(digitos(500) =~= "500"@) by {
        reveal_strlit("500");
        reveal_with_fuel(digitos, 4);
    }
}

} // verus!
