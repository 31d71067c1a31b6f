//! El campo `extra` de cada documento: pares nombre–valor JSON con lo que no
//! cabe en el modelo universal.

use vstd::prelude::*;

use crate::doble::{bits_entero, Doble};
use crate::error::{ErrorV, IskandarError};
use crate::garantias::extras::{lema_son_pares, son_pares_de};
use crate::texto::{digitos, entero_texto};

verus! {

/// `serde_json::Map`, un mapa de nombres a valores JSON.
#[verifier::external_type_specification]
#[verifier::external_body]
#[verifier::reject_recursive_types(K)]
#[verifier::reject_recursive_types(V)]
pub struct ExMap<K, V>(serde_json::Map<K, V>);

/// `serde_json::Value`, un valor JSON.
#[verifier::external_type_specification]
#[verifier::external_body]
pub struct ExValue(serde_json::Value);

/// Campos específicos del ERP que no mapean al modelo universal.
pub type Extra = serde_json::Map<String, serde_json::Value>;

/// Un valor JSON. Los números se distinguen como los distingue quien los lee:
/// enteros no negativos, enteros negativos y flotantes (por sus bits).
pub enum JsonV {
    Nulo,
    Booleano(bool),
    Natural(u64),
    Negativo(i64),
    Flotante(u64),
    Texto(Seq<char>),
    Arreglo(Seq<JsonV>),
    Objeto(Map<Seq<char>, JsonV>),
}

impl JsonV {
    /// El valor como entero de 64 bits, si lo es.
    pub open spec fn entero(self) -> Option<i64> {
        match self {
            JsonV::Natural(n) => if n <= i64::MAX {
                Some(n as i64)
            } else {
                None
            },
            JsonV::Negativo(n) => Some(n),
            _ => None,
        }
    }

    pub open spec fn es_numero(self) -> bool {
        self is Natural || self is Negativo || self is Flotante
    }

    /// El `Double` (por sus bits) que el valor es sin redondeo, si lo es.
    pub open spec fn doble_exacto(self) -> Option<u64> {
        match self {
            JsonV::Flotante(bits) => Some(bits),
            JsonV::Natural(n) => if n < 0x20_0000_0000_0000 {
                Some(bits_entero(n as int))
            } else {
                None
            },
            JsonV::Negativo(n) => if -0x20_0000_0000_0000 < n < 0 {
                Some(bits_entero(n as int))
            } else {
                None
            },
            _ => None,
        }
    }

    /// El `Double` (por sus bits) que vale un número.
    pub open spec fn doble(self) -> u64 {
        match self.doble_exacto() {
            Some(bits) => bits,
            None => doble_de(self),
        }
    }

    /// El valor como texto, si lo es.
    pub open spec fn texto(self) -> Option<Seq<char>> {
        match self {
            JsonV::Texto(s) => Some(s),
            _ => None,
        }
    }

    /// Los elementos como enteros de 64 bits, si el valor es un arreglo.
    pub open spec fn enteros(self) -> Option<Seq<Option<i64>>> {
        match self {
            JsonV::Arreglo(a) => Some(Seq::new(a.len(), |i: int| a[i].entero())),
            _ => None,
        }
    }
}

/// Nombre de lo que contiene un mapa JSON.
pub uninterp spec fn contenido(m: Extra) -> Map<Seq<char>, JsonV>;

/// Nombre del `Double` (por sus bits) que vale un número JSON.
pub uninterp spec fn doble_de(v: JsonV) -> u64;

/// Nombre del texto JSON compacto de un valor.
pub uninterp spec fn json_compacto(v: JsonV) -> Seq<char>;

/// `serde_json::Map::clone`: la copia contiene lo mismo.
pub assume_specification[ <serde_json::Map<String, serde_json::Value> as Clone>::clone ](
    m: &serde_json::Map<String, serde_json::Value>,
) -> (r: serde_json::Map<String, serde_json::Value>)
    ensures
        contenido(r) == contenido(*m),
;

/// El contenido de un mapa sin claves.
pub open spec fn sin_claves() -> Map<Seq<char>, JsonV> {
    Map::empty()
}

/// `serde_json::Map::new`: un mapa sin claves.
#[verifier::external_body]
pub(crate) fn extra_vacio() -> (r: Extra)
    ensures
        contenido(r) == sin_claves(),
{
    serde_json::Map::new()
}

/// Lo que una función de lectura da del valor de una clave; `None` si la
/// clave no está.
pub open spec fn valor_de<T>(m: Extra, clave: Seq<char>, f: spec_fn(JsonV) -> T) -> Option<T> {
    if contenido(m).contains_key(clave) {
        Some(f(contenido(m)[clave]))
    } else {
        None
    }
}

/// `serde_json::Map::get` y `Value::as_i64`: el valor de la clave como
/// entero, si la clave está y su valor es un entero de 64 bits con signo.
#[verifier::external_body]
pub(crate) fn leer_entero(m: &Extra, clave: &str) -> (r: Option<Option<i64>>)
    ensures
        r == valor_de(*m, clave@, |v: JsonV| v.entero()),
{
    m.get(clave).map(|v| v.as_i64())
}

/// `serde_json::Map::get` y `Value::as_f64`: el valor de la clave como
/// `Double` (por sus bits), si la clave está y su valor es un número. Un
/// flotante se entrega tal cual, y un entero de magnitud menor que `2^53`
/// sin redondeo; de los enteros mayores solo se dice que dependen del valor.
#[verifier::external_body]
pub(crate) fn leer_doble(m: &Extra, clave: &str) -> (r: Option<Option<u64>>)
    ensures
        r == valor_de(
            *m,
            clave@,
            (|v: JsonV| if v.es_numero() { Some(doble_de(v)) } else { None }),
        ),
        (contenido(*m).contains_key(clave@) && contenido(*m)[clave@].doble_exacto() is Some)
            ==> r == Some(contenido(*m)[clave@].doble_exacto()),
{
    m.get(clave).map(|v| v.as_f64().map(|x| x.to_bits()))
}

/// Un texto opcional por su contenido.
pub open spec fn vista_texto(t: Option<Option<String>>) -> Option<Option<Seq<char>>> {
    match t {
        Some(Some(s)) => Some(Some(s@)),
        Some(None) => Some(None),
        None => None,
    }
}

/// `serde_json::Map::get` y `Value::as_str`: el texto de la clave, si la
/// clave está y su valor es un texto.
#[verifier::external_body]
pub(crate) fn leer_texto(m: &Extra, clave: &str) -> (r: Option<Option<String>>)
    ensures
        vista_texto(r) == valor_de(*m, clave@, |v: JsonV| v.texto()),
{
    m.get(clave).map(|v| v.as_str().map(|s| s.to_string()))
}

/// Una lista opcional por su contenido.
pub open spec fn vista_lista(t: Option<Option<Vec<Option<i64>>>>) -> Option<
    Option<Seq<Option<i64>>>,
> {
    match t {
        Some(Some(v)) => Some(Some(v@)),
        Some(None) => Some(None),
        None => None,
    }
}

/// `serde_json::Map::get`, `Value::as_array` y `Value::as_i64`: los elementos
/// de la clave leídos como enteros, si la clave está y su valor es un
/// arreglo.
#[verifier::external_body]
pub(crate) fn leer_lista(m: &Extra, clave: &str) -> (r: Option<Option<Vec<Option<i64>>>>)
    ensures
        vista_lista(r) == valor_de(*m, clave@, |v: JsonV| v.enteros()),
{
    m.get(clave).map(|v| v.as_array().map(|a| a.iter().map(|x| x.as_i64()).collect()))
}

/// Un texto opcional por su contenido.
pub open spec fn vista_forma(t: Option<String>) -> Option<Seq<char>> {
    match t {
        Some(s) => Some(s@),
        None => None,
    }
}

/// El texto de los valores simples: números enteros, booleanos y nulo van sin
/// comillas.
pub open spec fn forma_simple(v: JsonV) -> Option<Seq<char>> {
    match v {
        JsonV::Nulo => Some("null"@),
        JsonV::Booleano(true) => Some("true"@),
        JsonV::Booleano(false) => Some("false"@),
        JsonV::Natural(n) => Some(digitos(n as nat)),
        JsonV::Negativo(n) => Some(entero_texto(n as int)),
        _ => None,
    }
}

/// `serde_json::Map::get` y el `Display` de `Value`: el texto JSON compacto
/// del valor de la clave, si la clave está. Los enteros, los booleanos y nulo
/// salen sin comillas.
#[verifier::external_body]
pub(crate) fn leer_compacto(m: &Extra, clave: &str) -> (r: Option<String>)
    ensures
        vista_forma(r) == valor_de(*m, clave@, |v: JsonV| json_compacto(v)),
        (contenido(*m).contains_key(clave@) && forma_simple(contenido(*m)[clave@]) is Some)
            ==> vista_forma(r) == forma_simple(contenido(*m)[clave@]),
{
    m.get(clave).map(|v| v.to_string())
}

// ---------------------------------------------------------------------
// Lectura con valor por omisión
// ---------------------------------------------------------------------

/// El error de una clave cuyo valor no es del tipo esperado.
pub open spec fn error_tipo(clave: Seq<char>, tipo: Seq<char>) -> ErrorV {
    ErrorV::Validation("extra."@ + clave + " debe ser "@ + tipo)
}

fn falla_tipo(clave: &str, tipo: &str) -> (e: IskandarError)
    ensures
        e@ == error_tipo(clave@, tipo@),
{
    IskandarError::Validation(
        "extra.".to_owned().concat(clave).concat(" debe ser ").concat(tipo),
    )
}

/// El entero de una clave, o el de omisión si la clave no está.
pub open spec fn entero_extra(m: Extra, clave: Seq<char>, omision: i64) -> Result<i64, ErrorV> {
    if !contenido(m).contains_key(clave) {
        Ok(omision)
    } else {
        match contenido(m)[clave].entero() {
            Some(n) => Ok(n),
            None => Err(error_tipo(clave, "entero"@)),
        }
    }
}

/// El `Double` de una clave, o el de omisión si la clave no está.
pub open spec fn doble_extra(m: Extra, clave: Seq<char>, omision: Doble) -> Result<Doble, ErrorV> {
    if !contenido(m).contains_key(clave) {
        Ok(omision)
    } else if contenido(m)[clave].es_numero() {
        Ok(Doble { bits: contenido(m)[clave].doble() })
    } else {
        Err(error_tipo(clave, "numérico"@))
    }
}

/// El texto de una clave, o el de omisión si la clave no está.
pub open spec fn texto_extra(m: Extra, clave: Seq<char>, omision: Seq<char>) -> Result<
    Seq<char>,
    ErrorV,
> {
    if !contenido(m).contains_key(clave) {
        Ok(omision)
    } else {
        match contenido(m)[clave].texto() {
            Some(s) => Ok(s),
            None => Err(error_tipo(clave, "texto"@)),
        }
    }
}

/// Un resultado comparado con el que se espera, el error por su contenido.
pub open spec fn es_resultado<T>(r: Result<T, IskandarError>, v: Result<T, ErrorV>) -> bool {
    match (r, v) {
        (Ok(a), Ok(b)) => a == b,
        (Err(e), Err(f)) => e@ == f,
        _ => false,
    }
}

pub fn extra_i64(extra: &Extra, clave: &str, default: i64) -> (r: Result<i64, IskandarError>)
    ensures
        es_resultado(r, entero_extra(*extra, clave@, default)),
        !contenido(*extra).contains_key(clave@) ==> (r matches Ok(n) && n == default),
        contenido(*extra).contains_key(clave@) ==> match contenido(*extra)[clave@] {
            JsonV::Natural(n) if n <= 0x7fff_ffff_ffff_ffff => (r matches Ok(m) && m == n),
            JsonV::Negativo(n) => (r matches Ok(m) && m == n),
            _ => (r matches Err(e) && e@ == ErrorV::Validation(
                "extra."@ + clave@ + " debe ser "@ + "entero"@,
            )),
        },
{
    match leer_entero(extra, clave) {
        None => Ok(default),
        Some(Some(n)) => Ok(n),
        Some(None) => Err(falla_tipo(clave, "entero")),
    }
}

pub fn extra_f64(extra: &Extra, clave: &str, default: Doble) -> (r: Result<Doble, IskandarError>)
    ensures
        es_resultado(r, doble_extra(*extra, clave@, default)),
        !contenido(*extra).contains_key(clave@) ==> (r matches Ok(d) && d == default),
        contenido(*extra).contains_key(clave@) ==> match contenido(*extra)[clave@] {
            JsonV::Flotante(b) => (r matches Ok(d) && d.bits == b),
            JsonV::Natural(n) => (r matches Ok(d) && (n < 0x20_0000_0000_0000 ==> d.bits
                == bits_entero(n as int))),
            JsonV::Negativo(n) => (r matches Ok(d) && (-0x20_0000_0000_0000 < n < 0 ==> d.bits
                == bits_entero(n as int))),
            _ => (r matches Err(e) && e@ == ErrorV::Validation(
                "extra."@ + clave@ + " debe ser "@ + "numérico"@,
            )),
        },
{
    match leer_doble(extra, clave) {
        None => Ok(default),
        Some(Some(bits)) => Ok(Doble { bits }),
        Some(None) => Err(falla_tipo(clave, "numérico")),
    }
}

pub fn extra_string(extra: &Extra, clave: &str, default: &str) -> (r: Result<
    String,
    IskandarError,
>)
    ensures
        crate::microsip::fila::es_texto(r, texto_extra(*extra, clave@, default@)),
        !contenido(*extra).contains_key(clave@) ==> (r matches Ok(t) && t@ == default@),
        contenido(*extra).contains_key(clave@) ==> match contenido(*extra)[clave@] {
            JsonV::Texto(s) => (r matches Ok(t) && t@ == s),
            _ => (r matches Err(e) && e@ == ErrorV::Validation(
                "extra."@ + clave@ + " debe ser "@ + "texto"@,
            )),
        },
{
    match leer_texto(extra, clave) {
        None => Ok(default.to_owned()),
        Some(Some(s)) => Ok(s),
        Some(None) => Err(falla_tipo(clave, "texto")),
    }
}

// ---------------------------------------------------------------------
// Lista de parámetros
// ---------------------------------------------------------------------

/// Un valor JSON como texto plano: un texto tal cual, lo demás en su forma
/// JSON compacta.
pub open spec fn valor_texto(v: JsonV) -> Seq<char> {
    match v {
        JsonV::Texto(s) => s,
        _ => json_compacto(v),
    }
}

/// Los pares (nombre, valor) de las claves presentes, en el orden de la lista.
pub open spec fn lista_de(m: Extra, claves: Seq<Seq<char>>) -> Seq<(Seq<char>, Seq<char>)>
    decreases claves.len(),
{
    if claves.len() == 0 {
        seq![]
    } else {
        let previos = lista_de(m, claves.drop_last());
        let clave = claves.last();
        if contenido(m).contains_key(clave) {
            previos.push((clave, valor_texto(contenido(m)[clave])))
        } else {
            previos
        }
    }
}

/// Los textos de una lista de cadenas.
pub open spec fn textos_de(claves: Seq<&'static str>) -> Seq<Seq<char>> {
    Seq::new(claves.len(), |i: int| claves[i]@)
}

/// Los pares de una lista de cadenas.
pub open spec fn pares_de(pares: Seq<(String, String)>) -> Seq<(Seq<char>, Seq<char>)> {
    Seq::new(pares.len(), |i: int| (pares[i].0@, pares[i].1@))
}

/// El par de una clave presente; si su valor es un entero, un booleano o nulo,
/// el texto es su forma sin comillas.
pub open spec fn par_simple(m: Extra, par: (String, String)) -> bool {
    contenido(m).contains_key(par.0@) && (forma_simple(contenido(m)[par.0@]) matches Some(t)
        ==> par.1@ == t)
}

/// El valor de una clave como texto plano, si la clave está.
pub fn valor_json_a_texto(extra: &Extra, clave: &str) -> (r: Option<String>)
    ensures
        vista_forma(r) == valor_de(*extra, clave@, |v: JsonV| valor_texto(v)),
        (contenido(*extra).contains_key(clave@) && forma_simple(contenido(*extra)[clave@]) is Some)
            ==> vista_forma(r) == forma_simple(contenido(*extra)[clave@]),
        r is Some <==> contenido(*extra).contains_key(clave@),
        contenido(*extra).contains_key(clave@) ==> match contenido(*extra)[clave@] {
            JsonV::Texto(s) => r->Some_0@ == s,
            JsonV::Natural(n) => r->Some_0@ == digitos(n as nat),
            JsonV::Negativo(n) => r->Some_0@ == entero_texto(n as int),
            JsonV::Booleano(b) => r->Some_0@ == (if b {
                "true"@
            } else {
                "false"@
            }),
            JsonV::Nulo => r->Some_0@ == "null"@,
            _ => true,
        },
{
    match leer_texto(extra, clave) {
        Some(Some(s)) => Some(s),
        _ => leer_compacto(extra, clave),
    }
}

/// Arma los pares (nombre, valor) con las claves que `extra` trae.
pub fn construir_lista_parametros(extra: &Extra, claves: &Vec<&'static str>) -> (r: Vec<
    (String, String),
>)
    ensures
        pares_de(r@) == lista_de(*extra, textos_de(claves@)),
        forall|i: int| 0 <= i < r@.len() ==> par_simple(*extra, #[trigger] r@[i]),
        son_pares_de(
            *extra,
            r@,
            claves@.map_values(|k: &'static str| k@).filter(
                |c: Seq<char>| contenido(*extra).contains_key(c),
            ),
        ),
{
    let mut r: Vec<(String, String)> = Vec::new();
    let mut i: usize = 0;
    proof {
        assert(pares_de(r@) =~= lista_de(*extra, textos_de(claves@.take(0))));
    }
    while i < claves.len()
        invariant
            i <= claves@.len(),
            pares_de(r@) == lista_de(*extra, textos_de(claves@.take(i as int))),
            forall|j: int| 0 <= j < r@.len() ==> par_simple(*extra, #[trigger] r@[j]),
        decreases claves@.len() - i,
    {
        let clave: &'static str = claves[i];
        proof {
            assert(textos_de(claves@.take(i + 1)).drop_last() =~= textos_de(
                claves@.take(i as int),
            ));
            assert(textos_de(claves@.take(i + 1)).last() == clave@);
        }
        let ghost antes = r@;
        match valor_json_a_texto(extra, clave) {
            Some(v) => {
                r.push((clave.to_owned(), v));
                proof {
                    assert(pares_de(r@) =~= pares_de(antes).push((clave@, v@)));
                }
            },
            None => {},
        }
        i = i + 1;
    }
    proof {
        assert(claves@.take(claves@.len() as int) =~= claves@);
        assert(claves@.map_values(|k: &'static str| k@) =~= textos_de(claves@));
        lema_son_pares(*extra, r@, textos_de(claves@));
    }
    r
}

} // verus!
