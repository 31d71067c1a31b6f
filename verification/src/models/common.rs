//! Tipos transversales: identidad, país, moneda, renglones.

use vstd::prelude::*;

use crate::decimal::Decimal;
use crate::texto::{entero_a_texto, entero_texto, leer_i64, parse_i64};

verus! {

/// Identificador universal de entidades: entero (ERPs de escritorio) o texto
/// (ERPs en la nube).
#[derive(Debug, Clone, PartialEq, Eq, Hash)]
pub enum EntidadId {
    Numerico(i64),
    Texto(String),
}

/// El contenido de un [`EntidadId`].
pub enum EntidadIdV {
    Numerico(i64),
    Texto(Seq<char>),
}

impl View for EntidadId {
    type V = EntidadIdV;

    open spec fn view(&self) -> EntidadIdV {
        match self {
            EntidadId::Numerico(n) => EntidadIdV::Numerico(*n),
            EntidadId::Texto(s) => EntidadIdV::Texto(s@),
        }
    }
}

impl EntidadIdV {
    /// El identificador que un texto (p. ej. un segmento de URL) nombra.
    pub open spec fn de_texto(s: Seq<char>) -> EntidadIdV {
        match leer_i64(s) {
            Some(n) => EntidadIdV::Numerico(n),
            None => EntidadIdV::Texto(s),
        }
    }

    /// El identificador como se muestra.
    pub open spec fn texto(self) -> Seq<char> {
        match self {
            EntidadIdV::Numerico(n) => entero_texto(n as int),
            EntidadIdV::Texto(s) => s,
        }
    }
}

impl EntidadId {
    /// Interpreta un texto: si es un entero es `Numerico`, si no, `Texto`.
    pub fn parse(s: &str) -> (r: EntidadId)
        ensures
            r@ == EntidadIdV::de_texto(s@),
            leer_i64(s@) matches Some(n) ==> r@ == EntidadIdV::Numerico(n),
            leer_i64(s@) is None ==> r@ == EntidadIdV::Texto(s@),
    {
        match parse_i64(s) {
            Some(n) => EntidadId::Numerico(n),
            None => EntidadId::Texto(s.to_owned()),
        }
    }

    /// El valor entero, si el identificador es numérico.
    pub fn como_i64(&self) -> (r: Option<i64>)
        ensures
            r == match self@ {
                EntidadIdV::Numerico(n) => Some(n),
                EntidadIdV::Texto(_) => None,
            },
    {
        match self {
            EntidadId::Numerico(n) => Some(*n),
            EntidadId::Texto(_) => None,
        }
    }

    /// El identificador como se muestra.
    pub fn texto(&self) -> (r: String)
        ensures
            r@ == self@.texto(),
            self@ matches EntidadIdV::Numerico(n) ==> r@ == entero_texto(n as int),
            self@ matches EntidadIdV::Texto(s) ==> r@ == s,
    {
        match self {
            EntidadId::Numerico(n) => entero_a_texto(*n),
            EntidadId::Texto(s) => s.clone(),
        }
    }
}

/// Un identificador sobrevive al viaje por una URL: mostrarlo e interpretarlo
/// da el mismo identificador, salvo los textos que a su vez son enteros, que
/// vuelven como numéricos.
pub proof fn ley_id_ida_y_vuelta(id: EntidadIdV)
    ensures
        EntidadIdV::de_texto(id.texto()) == match id {
            EntidadIdV::Texto(s) => match leer_i64(s) {
                Some(n) => EntidadIdV::Numerico(n),
                None => id,
            },
            EntidadIdV::Numerico(_) => id,
        },
{
    if let EntidadIdV::Numerico(n) = id {
        crate::texto::ley_leer_lo_escrito(n);
    }
}

/// Un texto nombra un entero si y solo si se lee como tal, y un identificador se
/// muestra como ese entero o como su texto.
pub proof fn ley_id_de_texto(s: Seq<char>, n: i64)
    ensures
        leer_i64(s) == Some(n) ==> EntidadIdV::de_texto(s) == EntidadIdV::Numerico(n),
        leer_i64(s) is None ==> EntidadIdV::de_texto(s) == EntidadIdV::Texto(s),
        EntidadIdV::Numerico(n).texto() == entero_texto(n as int),
        EntidadIdV::Texto(s).texto() == s,
{
}

impl vstd::std_specs::convert::FromSpecImpl<i64> for EntidadId {
    open spec fn obeys_from_spec() -> bool {
        true
    }

    open spec fn from_spec(n: i64) -> EntidadId {
        EntidadId::Numerico(n)
    }
}

impl From<i64> for EntidadId {
    fn from(n: i64) -> (r: EntidadId) {
        EntidadId::Numerico(n)
    }
}

impl vstd::std_specs::convert::FromSpecImpl<&str> for EntidadId {
    open spec fn obeys_from_spec() -> bool {
        false
    }

    open spec fn from_spec(s: &str) -> EntidadId {
        arbitrary()
    }
}

impl From<&str> for EntidadId {
    fn from(s: &str) -> (r: EntidadId)
        ensures
            r@ == EntidadIdV::Texto(s@),
    {
        EntidadId::Texto(s.to_owned())
    }
}

/// Países del alcance continental de Iskandar.
#[derive(Debug, Clone, Copy, PartialEq, Eq, Structural, Hash)]
pub enum Pais {
    Mexico,
    Guatemala,
    ElSalvador,
    Honduras,
    Nicaragua,
    CostaRica,
    Panama,
    RepublicaDominicana,
    Colombia,
    Venezuela,
    Ecuador,
    Peru,
    Bolivia,
    Chile,
    Argentina,
    Paraguay,
    Uruguay,
    Brasil,
}

/// Monedas ISO 4217 de la región (más USD, que circula en varias).
#[derive(Debug, Clone, Copy, PartialEq, Eq, Structural, Hash)]
pub enum Moneda {
    MXN,
    GTQ,
    HNL,
    NIO,
    CRC,
    PAB,
    DOP,
    COP,
    VES,
    PEN,
    BOB,
    CLP,
    ARS,
    PYG,
    UYU,
    BRL,
    USD,
}

/// Identificador fiscal según país. La validación de formato es de cada
/// provider.
#[derive(Debug, Clone, PartialEq, Eq)]
pub struct IdFiscal {
    pub pais: Pais,
    pub valor: String,
}

/// Renglón de documento (factura, pedido, orden de compra).
#[derive(Debug, Clone)]
pub struct Renglon {
    pub articulo_id: EntidadId,
    pub unidades: Decimal,
    /// `None` deja que el ERP determine el precio según sus políticas.
    pub precio_unitario: Option<Decimal>,
    /// Porcentaje de descuento; `None` = el que dicte el ERP.
    pub descuento_pctje: Option<Decimal>,
    pub notas: Option<String>,
}

} // verus!
