//! El provider Microsip: qué anuncia y cómo inspecciona el esquema.

use vstd::prelude::*;

use crate::error::{ErrorV, IskandarError};
use crate::microsip::articulos::ArticulosMicrosip;
use crate::microsip::clientes::ClientesMicrosip;
use crate::microsip::comun::{es_consulta, falla_de, o_bien};
use crate::microsip::config::MicrosipConfig;
use crate::microsip::cxc::CxcMicrosip;
use crate::microsip::facturas::FacturasMicrosip;
use crate::microsip::fila::{
    es_texto, fallo_entero, fallo_texto, ley_campo_entero, ley_campo_texto, leyo, leyo_entero,
    FilaV, RowReader,
};
use crate::microsip::guiones::consulta::{campos_de, consulta_cabe, Campo, CampoV, Consulta};
use crate::microsip::nativo::Exige;
use crate::microsip::security::SecurityMicrosip;
use crate::models::common::Pais;
use crate::provider::ERPProvider;
use crate::texto::{
    digitos, entero_a_texto, entero_texto, mayuscula_ascii, mayusculas, natural_a_texto,
    texto_mayusculas,
};

verus! {

/// Los países donde opera Microsip.
pub open spec fn paises_microsip() -> Seq<Pais> {
    seq![
        Pais::Mexico,
        Pais::Guatemala,
        Pais::ElSalvador,
        Pais::Honduras,
        Pais::Nicaragua,
        Pais::CostaRica,
        Pais::Panama,
    ]
}

/// El provider Microsip con sus módulos.
#[derive(Debug)]
pub struct MicrosipProvider {
    pub config: MicrosipConfig,
    pub clientes: ClientesMicrosip,
    pub facturas: FacturasMicrosip,
    pub articulos: ArticulosMicrosip,
    pub cxc: CxcMicrosip,
    pub security: SecurityMicrosip,
}

/// Dos configuraciones con el mismo contenido.
pub open spec fn misma_config(a: MicrosipConfig, b: MicrosipConfig) -> bool {
    &&& a.dll_path@ == b.dll_path@
    &&& a.db_path@ == b.db_path@
    &&& a.usuario@ == b.usuario@
    &&& a.password@ == b.password@
    &&& crate::microsip::config::ruta(a.metadatos_path) == crate::microsip::config::ruta(
        b.metadatos_path,
    )
    &&& a.existencias_negativas == b.existencias_negativas
    &&& a.validar_precio_minimo == b.validar_precio_minimo
}

/// Dos configuraciones iguales lo son en cada dato.
pub proof fn ley_misma_config(a: MicrosipConfig, b: MicrosipConfig)
    requires
        misma_config(a, b),
    ensures
        a.dll_path@ == b.dll_path@,
        a.db_path@ == b.db_path@,
        a.usuario@ == b.usuario@,
        a.password@ == b.password@,
        a.metadatos_path is Some <==> b.metadatos_path is Some,
        a.metadatos_path is Some && b.metadatos_path is Some ==> a.metadatos_path->Some_0@
            == b.metadatos_path->Some_0@,
        a.existencias_negativas == b.existencias_negativas,
        a.validar_precio_minimo == b.validar_precio_minimo,
{
}

fn copiar(c: &MicrosipConfig) -> (r: MicrosipConfig)
    ensures
        misma_config(r, *c),
{
    MicrosipConfig {
        dll_path: c.dll_path.clone(),
        db_path: c.db_path.clone(),
        usuario: c.usuario.clone(),
        password: c.password.clone(),
        metadatos_path: match &c.metadatos_path {
            Some(s) => Some(s.clone()),
            None => None,
        },
        existencias_negativas: c.existencias_negativas,
        validar_precio_minimo: c.validar_precio_minimo,
    }
}

/// Columna de una tabla.
#[derive(Debug)]
pub struct CampoSchema {
    pub nombre: String,
    pub tipo: String,
}

/// La consulta de las tablas de usuario.
pub const SQL_TABLAS: &'static str = "SELECT TRIM(RDB$RELATION_NAME) AS TABLA FROM RDB$RELATIONS WHERE RDB$SYSTEM_FLAG = 0 AND RDB$VIEW_SOURCE IS NULL ORDER BY RDB$RELATION_NAME";

/// La consulta de las columnas de una tabla, que llega como parámetro.
pub const SQL_COLUMNAS: &'static str = "SELECT TRIM(f.RDB$FIELD_NAME) AS CAMPO, fs.RDB$FIELD_TYPE AS TIPO_ID, fs.RDB$FIELD_LENGTH AS LONGITUD FROM RDB$RELATION_FIELDS f JOIN RDB$FIELDS fs ON f.RDB$FIELD_SOURCE = fs.RDB$FIELD_NAME WHERE TRIM(f.RDB$RELATION_NAME) = :tabla ORDER BY f.RDB$FIELD_POSITION";

/// Los campos que se leen de una columna.
pub open spec fn campos_columna() -> Seq<CampoV> {
    seq![CampoV::Texto("CAMPO"@, Exige::Lectura), CampoV::Entero("TIPO_ID"@, Exige::Lectura), CampoV::Entero("LONGITUD"@, Exige::Nada)]
}

/// El nombre de un tipo de Firebird.
pub open spec fn nombre_tipo(id: i32, longitud: i32) -> Seq<char> {
    if id == 14 {
        "CHAR("@ + entero_texto(longitud as int) + ")"@
    } else if id == 37 {
        "VARCHAR("@ + entero_texto(longitud as int) + ")"@
    } else if id == 7 {
        "SMALLINT"@
    } else if id == 8 {
        "INTEGER"@
    } else if id == 16 {
        "BIGINT"@
    } else if id == 10 {
        "FLOAT"@
    } else if id == 27 {
        "DOUBLE PRECISION"@
    } else if id == 12 {
        "DATE"@
    } else if id == 13 {
        "TIME"@
    } else if id == 35 {
        "TIMESTAMP"@
    } else if id == 261 {
        "BLOB"@
    } else {
        "TIPO_"@ + entero_texto(id as int)
    }
}

/// Cada tipo de Firebird con su nombre; los de texto, además, con su longitud, y
/// los demás, con su número.
pub proof fn ley_tipos_firebird(id: i32, longitud: i32)
    ensures
        id == 14 ==> nombre_tipo(id, longitud) == "CHAR("@ + entero_texto(longitud as int) + ")"@,
        id == 37 ==> nombre_tipo(id, longitud) == "VARCHAR("@ + entero_texto(longitud as int) + ")"@,
        id == 7 ==> nombre_tipo(id, longitud) == "SMALLINT"@,
        id == 8 ==> nombre_tipo(id, longitud) == "INTEGER"@,
        id == 16 ==> nombre_tipo(id, longitud) == "BIGINT"@,
        id == 10 ==> nombre_tipo(id, longitud) == "FLOAT"@,
        id == 27 ==> nombre_tipo(id, longitud) == "DOUBLE PRECISION"@,
        id == 12 ==> nombre_tipo(id, longitud) == "DATE"@,
        id == 13 ==> nombre_tipo(id, longitud) == "TIME"@,
        id == 35 ==> nombre_tipo(id, longitud) == "TIMESTAMP"@,
        id == 261 ==> nombre_tipo(id, longitud) == "BLOB"@,
        id != 14 && id != 37 && id != 7 && id != 8 && id != 16 && id != 10 && id != 27 && id != 12
            && id != 13 && id != 35 && id != 261
            ==> nombre_tipo(id, longitud) == "TIPO_"@ + entero_texto(
            id as int,
        ),
{
}

pub fn tipo_firebird(id: i32, longitud: i32) -> (r: String)
    ensures
        r@ == nombre_tipo(id, longitud),
        id == 14 ==> r@ == "CHAR("@ + entero_texto(longitud as int) + ")"@,
        id == 37 ==> r@ == "VARCHAR("@ + entero_texto(longitud as int) + ")"@,
        id == 7 ==> r@ == "SMALLINT"@,
        id == 8 ==> r@ == "INTEGER"@,
        id == 16 ==> r@ == "BIGINT"@,
        id == 10 ==> r@ == "FLOAT"@,
        id == 27 ==> r@ == "DOUBLE PRECISION"@,
        id == 12 ==> r@ == "DATE"@,
        id == 13 ==> r@ == "TIME"@,
        id == 35 ==> r@ == "TIMESTAMP"@,
        id == 261 ==> r@ == "BLOB"@,
        id != 14 && id != 37 && id != 7 && id != 8 && id != 16 && id != 10 && id != 27 && id != 12
            && id != 13 && id != 35 && id != 261 ==> r@ == "TIPO_"@ + entero_texto(
            id as int,
        ),
{
    match id {
        14 => "CHAR(".to_owned().concat(entero_a_texto(longitud as i64).as_str()).concat(")"),
        37 => "VARCHAR(".to_owned().concat(entero_a_texto(longitud as i64).as_str()).concat(")"),
        7 => "SMALLINT".to_owned(),
        8 => "INTEGER".to_owned(),
        16 => "BIGINT".to_owned(),
        10 => "FLOAT".to_owned(),
        27 => "DOUBLE PRECISION".to_owned(),
        12 => "DATE".to_owned(),
        13 => "TIME".to_owned(),
        35 => "TIMESTAMP".to_owned(),
        261 => "BLOB".to_owned(),
        _ => "TIPO_".to_owned().concat(entero_a_texto(id as i64).as_str()),
    }
}

/// Convierte una fila del listado de tablas.
pub fn tabla_row(row: &RowReader) -> (r: Result<String, IskandarError>)
    ensures
        es_texto(r, row@.texto("TABLA"@)),
        forall|t: Seq<char>| #[trigger]
            leyo(row@, "TABLA"@, t) ==> (r matches Ok(s) && s@ == t),
        forall|rc: i32| #[trigger]
            fallo_texto(row@, "TABLA"@, rc) ==> (r matches Err(e) && e@ == (ErrorV::Provider {
                code: rc,
                message: "error leyendo campo '"@ + "TABLA"@ + "'"@,
            })),
{
    proof {
        assert(!"TABLA"@.contains('\0')) by {
            reveal_strlit("TABLA");
        }
    }
    row.str_field("TABLA")
}

/// Convierte una fila del listado de valores.
pub fn valor_row(row: &RowReader) -> (r: Result<String, IskandarError>)
    ensures
        es_texto(r, row@.texto("VALOR"@)),
        forall|t: Seq<char>| #[trigger]
            leyo(row@, "VALOR"@, t) ==> (r matches Ok(s) && s@ == t),
        forall|rc: i32| #[trigger]
            fallo_texto(row@, "VALOR"@, rc) ==> (r matches Err(e) && e@ == (ErrorV::Provider {
                code: rc,
                message: "error leyendo campo '"@ + "VALOR"@ + "'"@,
            })),
{
    proof {
        assert(!"VALOR"@.contains('\0')) by {
            reveal_strlit("VALOR");
        }
    }
    row.str_field("VALOR")
}

/// Convierte una fila del listado de columnas. Una longitud que no se puede
/// leer vale 0.
pub fn columna_row(row: &RowReader) -> (r: Result<CampoSchema, IskandarError>)
    ensures
        match r {
            Ok(c) => {
                &&& row@.texto("CAMPO"@) matches Ok(s) && c.nombre@ == s
                &&& row@.entero("TIPO_ID"@) matches Ok(id) && c.tipo@ == nombre_tipo(
                    id,
                    match row@.entero("LONGITUD"@) {
                        Ok(n) => n,
                        Err(_) => 0,
                    },
                )
            },
            Err(e) => o_bien(
                falla_de(row@.texto("CAMPO"@)),
                falla_de(row@.entero("TIPO_ID"@)),
            ) == Some(e@),
        },
        forall|t: Seq<char>, id: i32|
            #[trigger] leyo(row@, "CAMPO"@, t) && #[trigger] leyo_entero(row@, "TIPO_ID"@, id)
                ==> (r matches Ok(c) && c.nombre@ == t),
        forall|id: i32, n: i32|
            #[trigger] leyo_entero(row@, "TIPO_ID"@, id) && #[trigger] leyo_entero(
                row@,
                "LONGITUD"@,
                n,
            ) && r is Ok ==> r->Ok_0.tipo@ == nombre_tipo(id, n),
        forall|id: i32, rc: i32|
            #[trigger] leyo_entero(row@, "TIPO_ID"@, id) && #[trigger] fallo_entero(
                row@,
                "LONGITUD"@,
                rc,
            ) && r is Ok ==> r->Ok_0.tipo@ == nombre_tipo(id, 0),
        forall|rc: i32| #[trigger]
            fallo_texto(row@, "CAMPO"@, rc) ==> (r matches Err(e) && e@ == (ErrorV::Provider {
                code: rc,
                message: "error leyendo campo '"@ + "CAMPO"@ + "'"@,
            })),
        forall|t: Seq<char>, rc: i32|
            #[trigger] leyo(row@, "CAMPO"@, t) && #[trigger] fallo_entero(row@, "TIPO_ID"@, rc)
                ==> (r matches Err(e) && e@ == (ErrorV::Provider {
                code: rc,
                message: "error leyendo campo int '"@ + "TIPO_ID"@ + "'"@,
            })),
{
    proof {
        assert(!"CAMPO"@.contains('\0')) by {
            reveal_strlit("CAMPO");
        }
        assert(!"TIPO_ID"@.contains('\0')) by {
            reveal_strlit("TIPO_ID");
        }
        assert(!"LONGITUD"@.contains('\0')) by {
            reveal_strlit("LONGITUD");
        }
        ley_campo_entero(row@, "TIPO_ID"@);
        ley_campo_entero(row@, "LONGITUD"@);
    }
    let nombre = match row.str_field("CAMPO") {
        Ok(s) => s,
        Err(e) => {
            return Err(e);
        },
    };
    let tipo_id = match row.int_field("TIPO_ID") {
        Ok(n) => n,
        Err(e) => {
            return Err(e);
        },
    };
    let longitud: i32 = match row.int_field("LONGITUD") {
        Ok(n) => n,
        Err(_) => 0,
    };
    Ok(CampoSchema { nombre, tipo: tipo_firebird(tipo_id, longitud) })
}

/// Un identificador SQL: letras y dígitos ASCII y guiones bajos, no vacío.
pub open spec fn identificador_valido(s: Seq<char>) -> bool {
    s.len() > 0 && forall|i: int| 0 <= i < s.len() ==> letra_de_identificador(#[trigger] s[i])
}

pub open spec fn letra_de_identificador(c: char) -> bool {
    ('0' <= c && c <= '9') || ('a' <= c && c <= 'z') || ('A' <= c && c <= 'Z') || c == '_'
}

fn es_identificador(s: &str) -> (r: bool)
    ensures
        r == identificador_valido(s@),
{
    let v = crate::texto::caracteres(s);
    let mut i: usize = 0;
    while i < v.len()
        invariant
            i <= v@.len(),
            v@ == s@,
            forall|j: int| 0 <= j < i ==> letra_de_identificador(#[trigger] s@[j]),
        decreases v@.len() - i,
    {
        let c: char = v[i];
        if !(('0' <= c && c <= '9') || ('a' <= c && c <= 'z') || ('A' <= c && c <= 'Z') || c
            == '_') {
            proof {
                assert(!letra_de_identificador(s@[i as int]));
            }
            return false;
        }
        i = i + 1;
    }
    v.len() > 0
}

/// El error de un identificador inválido.
pub open spec fn error_identificador(s: Seq<char>) -> ErrorV {
    ErrorV::Validation("identificador SQL inválido: '"@ + s + "'"@)
}

fn falla_identificador(s: &str) -> (e: IskandarError)
    ensures
        e@ == error_identificador(s@),
{
    IskandarError::Validation("identificador SQL inválido: '".to_owned().concat(s).concat("'"))
}

/// Un texto ASCII en mayúsculas.
pub open spec fn en_mayusculas_ascii(s: Seq<char>) -> Seq<char> {
    s.map_values(|c: char| mayuscula_ascii(c))
}

/// El SQL de los valores distintos de una columna.
pub open spec fn sql_valores(tabla: Seq<char>, campo: Seq<char>) -> Seq<char> {
    "SELECT DISTINCT TRIM("@ + en_mayusculas_ascii(campo) + ") AS VALOR FROM "@
        + en_mayusculas_ascii(tabla) + " ORDER BY VALOR"@
}

/// Lo que llega al SQL de valores distintos es solo letras, dígitos y guiones
/// bajos.
pub proof fn ley_identificadores_limpios(s: Seq<char>)
    requires
        identificador_valido(s),
    ensures
        identificador_valido(en_mayusculas_ascii(s)),
        en_mayusculas_ascii(s).len() == s.len(),
{
    let t = en_mayusculas_ascii(s);
    assert forall|i: int| 0 <= i < t.len() implies letra_de_identificador(#[trigger] t[i]) by {
        assert(letra_de_identificador(s[i]));
    }
}

/// Un identificador es válido si y solo si no está vacío y cada carácter es un
/// dígito, una letra ASCII o un guion bajo.
pub proof fn ley_identificador(s: Seq<char>)
    ensures
        identificador_valido(s) <==> s.len() > 0 && forall|i: int|
            0 <= i < s.len() ==> {
                let c = #[trigger] s[i] as int;
                (48 <= c <= 57) || (65 <= c <= 90) || (97 <= c <= 122) || c == 95
            },
{
    assert forall|i: int| 0 <= i < s.len() implies (letra_de_identificador(#[trigger] s[i]) <==> {
        let c = s[i] as int;
        (48 <= c <= 57) || (65 <= c <= 90) || (97 <= c <= 122) || c == 95
    }) by {
    }
    if s.len() > 0 && !identificador_valido(s) {
        let i = choose|i: int| 0 <= i < s.len() && !letra_de_identificador(#[trigger] s[i]);
        assert(!({
            let c = s[i] as int;
            (48 <= c <= 57) || (65 <= c <= 90) || (97 <= c <= 122) || c == 95
        }));
    }
}

/// `t` es `s` con cada letra ASCII minúscula cambiada por su mayúscula.
pub open spec fn es_mayuscula_de(t: Seq<char>, s: Seq<char>) -> bool {
    &&& t.len() == s.len()
    &&& forall|i: int|
        0 <= i < s.len() ==> (#[trigger] t[i]) as int == (if 97 <= s[i] as int <= 122 {
            s[i] as int - 32
        } else {
            s[i] as int
        })
}

/// El SQL de los valores distintos lleva los dos nombres en mayúsculas, cada uno
/// en su lugar, y nada más de quien lo pide.
pub proof fn ley_sql_valores(tabla: Seq<char>, campo: Seq<char>)
    ensures
        exists|t: Seq<char>, k: Seq<char>|
            #[trigger] es_mayuscula_de(t, tabla) && #[trigger] es_mayuscula_de(k, campo)
                && sql_valores(tabla, campo) == "SELECT DISTINCT TRIM("@ + k
                + ") AS VALOR FROM "@ + t + " ORDER BY VALOR"@,
{
    assert(es_mayuscula_de(en_mayusculas_ascii(tabla), tabla));
    assert(es_mayuscula_de(en_mayusculas_ascii(campo), campo));
}

/// El SQL de una muestra pide tantas filas como diga el límite.
pub proof fn ley_sql_muestra(tabla: Seq<char>, limite: u32, nombres: Seq<String>)
    ensures
        sql_muestra(tabla, limite, nombres) == "SELECT FIRST "@ + digitos(limite as nat) + " "@
            + separados(nombres.map_values(|n: String| n@)) + " FROM "@ + texto_mayusculas(tabla),
{
    assert(vistas(nombres) =~= nombres.map_values(|n: String| n@));
}

/// Separar dos listas juntas es separar cada una y poner coma y espacio en medio;
/// un nombre solo va sin nada, y ninguno es nada.
pub proof fn ley_separados(a: Seq<Seq<char>>, b: Seq<Seq<char>>, n: Seq<char>)
    requires
        a.len() > 0,
        b.len() > 0,
    ensures
        separados(a + b) == separados(a) + ", "@ + separados(b),
        separados(seq![n]) == n,
        separados(seq![]).len() == 0,
    decreases b.len(),
{
    let t = b.drop_last();
    assert((a + b).drop_last() =~= a + t);
    assert((a + b).last() == b.last());
    if t.len() == 0 {
        assert(a + t =~= a);
        assert(b.last() == b[0]);
    } else {
        ley_separados(a, t, n);
        assert(separados(a) + ", "@ + separados(t) + ", "@ + b.last() =~= separados(a) + ", "@ + (
        separados(t) + ", "@ + b.last()));
    }
}

/// En una muestra va el texto que se leyó de la columna; si su lectura falló, el
/// error entre ángulos, con su código.
pub proof fn ley_valor_muestra(fila: FilaV, campo: Seq<char>)
    requires
        !campo.contains('\0'),
    ensures
        forall|t: Seq<char>| #[trigger] leyo(fila, campo, t) ==> valor_muestra(fila, campo) == t,
        forall|rc: i32| #[trigger]
            fallo_texto(fila, campo, rc) ==> valor_muestra(fila, campo) == "<error: "@ + (
            "error del ERP (código "@ + entero_texto(rc as int) + "): "@ + (
            "error leyendo campo '"@ + campo + "'"@)) + ">"@,
{
    ley_campo_texto(fila, campo);
}

/// Unos textos separados por coma y espacio.
pub open spec fn separados(s: Seq<Seq<char>>) -> Seq<char>
    decreases s.len(),
{
    if s.len() == 0 {
        seq![]
    } else if s.len() == 1 {
        s[0]
    } else {
        separados(s.drop_last()) + ", "@ + s.last()
    }
}

/// Los textos de unas cadenas.
pub open spec fn vistas(s: Seq<String>) -> Seq<Seq<char>> {
    Seq::new(s.len(), |i: int| s[i]@)
}

fn separar(nombres: &Vec<String>) -> (r: String)
    requires
        nombres@.len() > 0,
    ensures
        r@ == separados(vistas(nombres@)),
{
    let mut r = nombres[0].clone();
    let mut i: usize = 1;
    let ghost todos = vistas(nombres@);
    proof {
        assert(todos.take(1)[0] == nombres@[0]@);
    }
    while i < nombres.len()
        invariant
            1 <= i <= nombres@.len(),
            todos == vistas(nombres@),
            r@ == separados(todos.take(i as int)),
        decreases nombres@.len() - i,
    {
        proof {
            assert(todos.take(i + 1).drop_last() =~= todos.take(i as int));
            assert(todos.take(i + 1).last() == nombres@[i as int]@);
        }
        r = r.concat(", ").concat(nombres[i].as_str());
        i = i + 1;
    }
    proof {
        assert(todos.take(i as int) =~= todos);
    }
    r
}

/// Los campos de una muestra: cada columna, como texto.
pub open spec fn campos_muestra(nombres: Seq<String>) -> Seq<CampoV> {
    Seq::new(nombres.len(), |i: int| CampoV::Texto(nombres[i]@, Exige::Nada))
}

/// El texto de una columna en una muestra; si no se pudo leer, su error.
pub open spec fn valor_muestra(fila: FilaV, campo: Seq<char>) -> Seq<char> {
    match fila.texto(campo) {
        Ok(s) => s,
        Err(e) => "<error: "@ + e.texto() + ">"@,
    }
}

/// Convierte una fila de muestra: cada columna con su texto.
pub fn muestra_row(row: &RowReader, nombres: &Vec<String>) -> (r: Vec<(String, String)>)
    ensures
        r@.len() == nombres@.len(),
        forall|i: int|
            0 <= i < r@.len() ==> (#[trigger] r@[i]).0@ == nombres@[i]@ && r@[i].1@
                == valor_muestra(row@, nombres@[i]@),
        forall|i: int, t: Seq<char>|
            0 <= i < nombres@.len() && #[trigger] leyo(row@, nombres@[i]@, t) && !nombres@[i]@.contains(
                '\0',
            ) ==> r@[i].1@ == t,
{
    proof {
        assert forall|i: int, t: Seq<char>|
            0 <= i < nombres@.len() && #[trigger] leyo(row@, nombres@[i]@, t) && !nombres@[i]@.contains(
                '\0',
            ) implies valor_muestra(row@, nombres@[i]@) == t by {
            ley_valor_muestra(row@, nombres@[i]@);
        }
    }
    let mut r: Vec<(String, String)> = Vec::new();
    let mut i: usize = 0;
    while i < nombres.len()
        invariant
            i <= nombres@.len(),
            r@.len() == i,
            forall|j: int|
                0 <= j < i ==> (#[trigger] r@[j]).0@ == nombres@[j]@ && r@[j].1@ == valor_muestra(
                    row@,
                    nombres@[j]@,
                ),
        decreases nombres@.len() - i,
    {
        let valor = match row.str_field(nombres[i].as_str()) {
            Ok(s) => s,
            Err(e) => "<error: ".to_owned().concat(e.mensaje().as_str()).concat(">"),
        };
        r.push((nombres[i].clone(), valor));
        i = i + 1;
    }
    r
}

/// El SQL de una muestra.
pub open spec fn sql_muestra(tabla: Seq<char>, limite: u32, nombres: Seq<String>) -> Seq<char> {
    "SELECT FIRST "@ + digitos(limite as nat) + " "@ + separados(vistas(nombres)) + " FROM "@
        + texto_mayusculas(tabla)
}

impl MicrosipProvider {
    /// Un provider con sus módulos, todos con la misma configuración.
    pub fn new(config: MicrosipConfig) -> (r: MicrosipProvider)
        ensures
            r.config == config,
            misma_config(r.clientes.config, config),
            misma_config(r.facturas.config, config),
            misma_config(r.articulos.config, config),
            misma_config(r.cxc.config, config),
            misma_config(r.security.config, config),
    {
        let clientes = ClientesMicrosip { config: copiar(&config) };
        let facturas = FacturasMicrosip { config: copiar(&config) };
        let articulos = ArticulosMicrosip { config: copiar(&config) };
        let cxc = CxcMicrosip { config: copiar(&config) };
        let security = SecurityMicrosip { config: copiar(&config) };
        MicrosipProvider { config, clientes, facturas, articulos, cxc, security }
    }

    /// La consulta de las tablas de usuario.
    pub fn listar_tablas(&self) -> (c: Consulta)
        ensures
            es_consulta(c, SQL_TABLAS@, seq![], seq![CampoV::Texto("TABLA"@, Exige::Lectura)]),
            consulta_cabe(c),
            c.sql@ == "SELECT TRIM(RDB$RELATION_NAME) AS TABLA FROM RDB$RELATIONS WHERE RDB$SYSTEM_FLAG = 0 AND RDB$VIEW_SOURCE IS NULL ORDER BY RDB$RELATION_NAME"@,
            c.params@.len() == 0,
            c.campos@.len() == 1,
            c.campos@[0]@ == CampoV::Texto("TABLA"@, Exige::Lectura),
    {
        let c = Consulta {
            sql: SQL_TABLAS.to_owned(),
            params: Vec::new(),
            campos: vec![Campo::Texto("TABLA".to_owned(), Exige::Lectura)],
        };
        proof {
            assert(campos_de(c.campos@) =~= seq![CampoV::Texto("TABLA"@, Exige::Lectura)]);
        }
        c
    }

    /// La consulta de las columnas de una tabla.
    pub fn describir_tabla(&self, tabla: &str) -> (c: Consulta)
        ensures
            es_consulta(
                c,
                SQL_COLUMNAS@,
                seq![("tabla"@, texto_mayusculas(tabla@))],
                campos_columna(),
            ),
            consulta_cabe(c),
            c.sql@ == "SELECT TRIM(f.RDB$FIELD_NAME) AS CAMPO, fs.RDB$FIELD_TYPE AS TIPO_ID, fs.RDB$FIELD_LENGTH AS LONGITUD FROM RDB$RELATION_FIELDS f JOIN RDB$FIELDS fs ON f.RDB$FIELD_SOURCE = fs.RDB$FIELD_NAME WHERE TRIM(f.RDB$RELATION_NAME) = :tabla ORDER BY f.RDB$FIELD_POSITION"@,
            c.params@.len() == 1,
            c.params@[0].0@ == "tabla"@,
            (forall|i: int| 0 <= i < tabla@.len() ==> (#[trigger] tabla@[i] as u32) < 128)
                ==> es_mayuscula_de(c.params@[0].1@, tabla@),
            c.campos@.len() == 3,
            c.campos@[0]@ == CampoV::Texto("CAMPO"@, Exige::Lectura),
            c.campos@[1]@ == CampoV::Entero("TIPO_ID"@, Exige::Lectura),
            c.campos@[2]@ == CampoV::Entero("LONGITUD"@, Exige::Nada),
    {
        let mut params: Vec<(&'static str, String)> = Vec::new();
        params.push(("tabla", mayusculas(tabla)));
        let c = Consulta {
            sql: SQL_COLUMNAS.to_owned(),
            params,
            campos: vec![
                Campo::Texto("CAMPO".to_owned(), Exige::Lectura),
                Campo::Entero("TIPO_ID".to_owned(), Exige::Lectura),
                Campo::Entero("LONGITUD".to_owned(), Exige::Nada),
            ],
        };
        proof {
            assert(campos_de(c.campos@) =~= campos_columna());
        }
        c
    }

    /// La consulta de los valores distintos de una columna. Los nombres no se
    /// pueden enlazar como parámetros, así que se validan antes.
    pub fn valores_distintos(&self, tabla: &str, campo: &str) -> (r: Result<
        Consulta,
        IskandarError,
    >)
        ensures
            match r {
                Ok(c) => {
                    &&& identificador_valido(tabla@)
                    &&& identificador_valido(campo@)
                    &&& es_consulta(
                        c,
                        sql_valores(tabla@, campo@),
                        seq![],
                        seq![CampoV::Texto("VALOR"@, Exige::Lectura)],
                    )
                    &&& consulta_cabe(c)
                },
                Err(e) => if !identificador_valido(tabla@) {
                    e@ == error_identificador(tabla@)
                } else {
                    !identificador_valido(campo@) && e@ == error_identificador(campo@)
                },
            },
            r matches Err(e) ==> e@ == ErrorV::Validation(
                "identificador SQL inválido: '"@ + (if identificador_valido(tabla@) {
                    campo@
                } else {
                    tabla@
                }) + "'"@,
            ),
            r matches Ok(c) ==> exists|t: Seq<char>, k: Seq<char>|
                #[trigger] es_mayuscula_de(t, tabla@) && #[trigger] es_mayuscula_de(k, campo@)
                    && c.sql@ == "SELECT DISTINCT TRIM("@ + k + ") AS VALOR FROM "@ + t
                    + " ORDER BY VALOR"@,
            r matches Ok(c) ==> c.params@.len() == 0 && c.campos@.len() == 1 && c.campos@[0]@
                == CampoV::Texto("VALOR"@, Exige::Lectura),
    {
        if !es_identificador(tabla) {
            return Err(falla_identificador(tabla));
        }
        if !es_identificador(campo) {
            return Err(falla_identificador(campo));
        }
        let t = mayusculas(tabla);
        let k = mayusculas(campo);
        proof {
            assert(forall|i: int| 0 <= i < tabla@.len() ==> letra_de_identificador(
                #[trigger] tabla@[i],
            ));
            assert(forall|i: int| 0 <= i < campo@.len() ==> letra_de_identificador(
                #[trigger] campo@[i],
            ));
            assert(t@ =~= en_mayusculas_ascii(tabla@));
            assert(k@ =~= en_mayusculas_ascii(campo@));
        }
        proof {
            ley_sql_valores(tabla@, campo@);
        }
        let c = Consulta {
            sql: "SELECT DISTINCT TRIM(".to_owned().concat(k.as_str()).concat(
                ") AS VALOR FROM ",
            ).concat(t.as_str()).concat(" ORDER BY VALOR"),
            params: Vec::new(),
            campos: vec![Campo::Texto("VALOR".to_owned(), Exige::Lectura)],
        };
        proof {
            assert(campos_de(c.campos@) =~= seq![CampoV::Texto("VALOR"@, Exige::Lectura)]);
        }
        Ok(c)
    }

    /// La consulta de las primeras filas de una tabla, dadas sus columnas;
    /// `None` si no tiene ninguna.
    pub fn muestra_tabla(&self, tabla: &str, limite: u32, nombres: &Vec<String>) -> (r: Option<
        Consulta,
    >)
        requires
            nombres@.len() + 40 <= usize::MAX,
        ensures
            match r {
                Some(c) => nombres@.len() > 0 && es_consulta(
                    c,
                    sql_muestra(tabla@, limite, nombres@),
                    seq![],
                    campos_muestra(nombres@),
                ) && consulta_cabe(c),
                None => nombres@.len() == 0,
            },
            r matches Some(c) ==> c.sql@ == "SELECT FIRST "@ + digitos(limite as nat) + " "@
                + separados(nombres@.map_values(|n: String| n@)) + " FROM "@ + texto_mayusculas(
                tabla@,
            ),
            r matches Some(c) ==> c.params@.len() == 0 && c.campos@.len() == nombres@.len() && (
            forall|i: int|
                0 <= i < nombres@.len() ==> (#[trigger] c.campos@[i])@ == CampoV::Texto(
                    nombres@[i]@,
                    Exige::Nada,
                )),
    {
        if nombres.len() == 0 {
            return None;
        }
        let mut campos: Vec<Campo> = Vec::new();
        let mut i: usize = 0;
        while i < nombres.len()
            invariant
                i <= nombres@.len(),
                campos@.len() == i,
                forall|j: int|
                    0 <= j < i ==> (#[trigger] campos@[j])@ == CampoV::Texto(nombres@[j]@, Exige::Nada),
            decreases nombres@.len() - i,
        {
            campos.push(Campo::Texto(nombres[i].clone(), Exige::Nada));
            i = i + 1;
        }
        proof {
            assert(campos_de(campos@) =~= campos_muestra(nombres@));
            assert(vistas(nombres@) =~= nombres@.map_values(|n: String| n@));
        }
        Some(
            Consulta {
                sql: "SELECT FIRST ".to_owned().concat(
                    natural_a_texto(limite as u64).as_str(),
                ).concat(" ").concat(separar(nombres).as_str()).concat(" FROM ").concat(
                    mayusculas(tabla).as_str(),
                ),
                params: Vec::new(),
                campos,
            },
        )
    }
}

impl ERPProvider for MicrosipProvider {
    type Clientes = ClientesMicrosip;

    type Facturas = FacturasMicrosip;

    type Pedidos = ();

    type Inventario = ArticulosMicrosip;

    type Compras = ();

    type Cxc = CxcMicrosip;

    type Contabilidad = ();

    type Security = SecurityMicrosip;

    open spec fn nombre(&self) -> Seq<char> {
        "microsip"@
    }

    open spec fn lista_paises(&self) -> Seq<Pais> {
        paises_microsip()
    }

    open spec fn modulo_clientes(&self) -> Option<&ClientesMicrosip> {
        Some(&self.clientes)
    }

    open spec fn modulo_facturas(&self) -> Option<&FacturasMicrosip> {
        Some(&self.facturas)
    }

    open spec fn modulo_pedidos(&self) -> Option<&()> {
        None
    }

    open spec fn modulo_inventario(&self) -> Option<&ArticulosMicrosip> {
        Some(&self.articulos)
    }

    open spec fn modulo_compras(&self) -> Option<&()> {
        None
    }

    open spec fn modulo_cxc(&self) -> Option<&CxcMicrosip> {
        Some(&self.cxc)
    }

    open spec fn modulo_contabilidad(&self) -> Option<&()> {
        None
    }

    open spec fn modulo_security(&self) -> Option<&SecurityMicrosip> {
        Some(&self.security)
    }

    fn name(&self) -> (r: &'static str) {
        "microsip"
    }

    fn paises(&self) -> (r: Vec<Pais>) {
        let r: Vec<Pais> = vec![
            Pais::Mexico,
            Pais::Guatemala,
            Pais::ElSalvador,
            Pais::Honduras,
            Pais::Nicaragua,
            Pais::CostaRica,
            Pais::Panama,
        ];
        proof {
            assert(r@ =~= paises_microsip());
        }
        r
    }

    fn clientes(&self) -> (r: Option<&ClientesMicrosip>) {
        Some(&self.clientes)
    }

    fn facturas(&self) -> (r: Option<&FacturasMicrosip>) {
        Some(&self.facturas)
    }

    fn pedidos(&self) -> (r: Option<&()>) {
        None
    }

    fn inventario(&self) -> (r: Option<&ArticulosMicrosip>) {
        Some(&self.articulos)
    }

    fn compras(&self) -> (r: Option<&()>) {
        None
    }

    fn cxc(&self) -> (r: Option<&CxcMicrosip>) {
        Some(&self.cxc)
    }

    fn contabilidad(&self) -> (r: Option<&()>) {
        None
    }

    fn security(&self) -> (r: Option<&SecurityMicrosip>) {
        Some(&self.security)
    }
}

/// Microsip se anuncia con su nombre, con los siete países donde opera y con los
/// módulos que tiene: pedidos, compras y contabilidad no.
pub proof fn ley_microsip_se_anuncia(p: MicrosipProvider)
    ensures
        p.nombre() == "microsip"@,
        p.lista_paises().len() == 7,
        p.lista_paises()[0] is Mexico,
        p.lista_paises()[1] is Guatemala,
        p.lista_paises()[2] is ElSalvador,
        p.lista_paises()[3] is Honduras,
        p.lista_paises()[4] is Nicaragua,
        p.lista_paises()[5] is CostaRica,
        p.lista_paises()[6] is Panama,
        p.modulo_clientes() matches Some(m) && *m == p.clientes,
        p.modulo_facturas() matches Some(m) && *m == p.facturas,
        p.modulo_inventario() matches Some(m) && *m == p.articulos,
        p.modulo_cxc() matches Some(m) && *m == p.cxc,
        p.modulo_security() matches Some(m) && *m == p.security,
        p.modulo_pedidos() is None,
        p.modulo_compras() is None,
        p.modulo_contabilidad() is None,
{
}

} // verus!
