//! El campo `extra`: qué se lee de una clave según lo que su valor es.

use vstd::prelude::*;

use crate::doble::{bits_entero, Doble};
use crate::error::ErrorV;
use crate::extra::{
    contenido, doble_de, doble_extra, entero_extra, json_compacto, lista_de, par_simple,
    pares_de, texto_extra, Extra, JsonV,
};
use crate::microsip::comun::truncado;
use crate::microsip::facturas::{enteros_presentes, formas_cobro};
use crate::texto::digitos;

verus! {

/// El valor es un entero que cabe en 64 bits con signo.
pub open spec fn es_entero_json(v: JsonV) -> bool {
    (v matches JsonV::Natural(n) && n <= 0x7fff_ffff_ffff_ffff) || v is Negativo
}

/// El entero que un valor es.
pub open spec fn entero_json(v: JsonV) -> int {
    match v {
        JsonV::Natural(n) => n as int,
        JsonV::Negativo(n) => n as int,
        _ => 0,
    }
}

/// `d` es el número que un valor es; de un entero de `2^53` o más solo se dice
/// que depende del valor.
pub open spec fn vale(v: JsonV, d: Doble) -> bool {
    match v {
        JsonV::Flotante(b) => d.bits == b,
        JsonV::Natural(n) => d.bits == (if n < 0x20_0000_0000_0000 {
            bits_entero(n as int)
        } else {
            doble_de(v)
        }),
        JsonV::Negativo(n) => d.bits == (if -0x20_0000_0000_0000 < n < 0 {
            bits_entero(n as int)
        } else {
            doble_de(v)
        }),
        _ => false,
    }
}

/// `r` es el entero de la clave en 32 bits, u `omision` si la clave no está.
pub open spec fn entero_o(x: Extra, clave: Seq<char>, omision: int, r: i32) -> bool {
    if contenido(x).contains_key(clave) {
        es_entero_json(contenido(x)[clave]) && r == truncado(entero_json(contenido(x)[clave]))
    } else {
        r == omision
    }
}

/// `r` es el número de la clave, o el del patrón `omision` si la clave no está.
pub open spec fn doble_o(x: Extra, clave: Seq<char>, omision: u64, r: Doble) -> bool {
    if contenido(x).contains_key(clave) {
        vale(contenido(x)[clave], r)
    } else {
        r.bits == omision
    }
}

/// `r` es el texto de la clave, u `omision` si la clave no está.
pub open spec fn texto_o(x: Extra, clave: Seq<char>, omision: Seq<char>, r: Seq<char>) -> bool {
    if contenido(x).contains_key(clave) {
        contenido(x)[clave] matches JsonV::Texto(s) && r == s
    } else {
        r == omision
    }
}

/// La clave está y su valor no es un entero.
pub open spec fn no_entero(x: Extra, clave: Seq<char>) -> bool {
    contenido(x).contains_key(clave) && !es_entero_json(contenido(x)[clave])
}

/// La clave está y su valor no es un texto.
pub open spec fn no_texto(x: Extra, clave: Seq<char>) -> bool {
    contenido(x).contains_key(clave) && !(contenido(x)[clave] is Texto)
}

/// La clave está y su valor no es un número.
pub open spec fn no_numero(x: Extra, clave: Seq<char>) -> bool {
    contenido(x).contains_key(clave) && !(contenido(x)[clave] is Flotante || contenido(x)[clave]
        is Natural || contenido(x)[clave] is Negativo)
}

/// El entero de una clave: el de omisión si la clave no está, el suyo si es un
/// entero, y si no un error que nombra la clave.
pub proof fn ley_entero_de_clave(x: Extra, clave: Seq<char>, omision: i64)
    ensures
        !contenido(x).contains_key(clave) ==> entero_extra(x, clave, omision) == Ok::<_, ErrorV>(
            omision,
        ),
        contenido(x).contains_key(clave) && es_entero_json(contenido(x)[clave]) ==> (entero_extra(
            x,
            clave,
            omision,
        ) matches Ok(n) && n == entero_json(contenido(x)[clave])),
        contenido(x).contains_key(clave) && !es_entero_json(contenido(x)[clave]) ==> entero_extra(
            x,
            clave,
            omision,
        ) == Err::<i64, _>(ErrorV::Validation("extra."@ + clave + " debe ser "@ + "entero"@)),
{
}

/// El número de una clave: el de omisión si la clave no está; si es flotante,
/// sus bits; si es un entero de magnitud menor que `2^53`, el patrón de ese
/// entero; si no es un número, un error que nombra la clave.
pub proof fn ley_doble_de_clave(x: Extra, clave: Seq<char>, omision: Doble)
    ensures
        !contenido(x).contains_key(clave) ==> doble_extra(x, clave, omision) == Ok::<_, ErrorV>(
            omision,
        ),
        contenido(x).contains_key(clave) && (contenido(x)[clave] is Flotante || contenido(x)[clave]
            is Natural || contenido(x)[clave] is Negativo) ==> (doble_extra(x, clave, omision) matches Ok(
            d,
        ) && vale(contenido(x)[clave], d)),
        contenido(x).contains_key(clave) && !(contenido(x)[clave] is Flotante || contenido(x)[clave]
            is Natural || contenido(x)[clave] is Negativo) ==> doble_extra(x, clave, omision)
            == Err::<Doble, _>(
            ErrorV::Validation("extra."@ + clave + " debe ser "@ + "numérico"@),
        ),
{
}

/// El texto de una clave: el de omisión si la clave no está, el suyo si es un
/// texto, y si no un error que nombra la clave.
pub proof fn ley_texto_de_clave(x: Extra, clave: Seq<char>, omision: Seq<char>)
    ensures
        !contenido(x).contains_key(clave) ==> texto_extra(x, clave, omision) == Ok::<_, ErrorV>(
            omision,
        ),
        contenido(x).contains_key(clave) ==> match contenido(x)[clave] {
            JsonV::Texto(s) => texto_extra(x, clave, omision) == Ok::<_, ErrorV>(s),
            _ => texto_extra(x, clave, omision) == Err::<Seq<char>, _>(
                ErrorV::Validation("extra."@ + clave + " debe ser "@ + "texto"@),
            ),
        },
{
}

/// El par de una clave presente: un texto va tal cual, lo demás en su forma
/// JSON compacta.
pub open spec fn par_de(x: Extra, clave: Seq<char>) -> (Seq<char>, Seq<char>) {
    (
        clave,
        match contenido(x)[clave] {
            JsonV::Texto(s) => s,
            v => json_compacto(v),
        },
    )
}

/// Unos pares de cadenas son los de esas claves, en su orden.
pub open spec fn son_pares_de(
    x: Extra,
    pares: Seq<(String, String)>,
    claves: Seq<Seq<char>>,
) -> bool {
    &&& pares.len() == claves.len()
    &&& forall|i: int|
        0 <= i < pares.len() ==> (#[trigger] pares[i]).0@ == claves[i] && pares[i].1@ == (
        match contenido(x)[claves[i]] {
            JsonV::Texto(s) => s,
            v => json_compacto(v),
        })
}

pub(crate) proof fn lema_son_pares(
    x: Extra,
    pares: Seq<(String, String)>,
    claves: Seq<Seq<char>>,
)
    requires
        pares_de(pares) == lista_de(x, claves),
    ensures
        son_pares_de(x, pares, claves.filter(|c: Seq<char>| contenido(x).contains_key(c))),
{
    ley_lista_de_claves(x, claves);
    let f = claves.filter(|c: Seq<char>| contenido(x).contains_key(c));
    let m = f.map_values(|c: Seq<char>| par_de(x, c));
    assert(pares_de(pares).len() == pares.len());
    assert forall|i: int| 0 <= i < pares.len() implies (#[trigger] pares[i]).0@ == f[i]
        && pares[i].1@ == par_de(x, f[i]).1 by {
        assert(pares_de(pares)[i] == m[i]);
    }
}

/// La lista de parámetros lleva un par por cada clave presente, en el orden de
/// las claves y sin saltarse ninguna; una clave ausente no lleva par.
pub proof fn ley_lista_de_claves(x: Extra, claves: Seq<Seq<char>>)
    ensures
        lista_de(x, claves) == claves.filter(
            |c: Seq<char>| contenido(x).contains_key(c),
        ).map_values(|c: Seq<char>| par_de(x, c)),
    decreases claves.len(),
{
    reveal(Seq::filter);
    let presente = |c: Seq<char>| contenido(x).contains_key(c);
    let par = |c: Seq<char>| par_de(x, c);
    if claves.len() > 0 {
        ley_lista_de_claves(x, claves.drop_last());
        let previas = claves.drop_last().filter(presente);
        assert(previas.push(claves.last()).map_values(par) =~= previas.map_values(par).push(
            par_de(x, claves.last()),
        ));
    }
    assert(lista_de(x, claves) =~= claves.filter(presente).map_values(par));
}

/// Los valores simples se escriben sin comillas: un natural con sus cifras, un
/// negativo con su guion, y los booleanos y nulo con su palabra.
pub proof fn ley_par_simple(x: Extra, par: (String, String))
    requires
        par_simple(x, par),
    ensures
        contenido(x).contains_key(par.0@),
        match contenido(x)[par.0@] {
            JsonV::Nulo => par.1@ == "null"@,
            JsonV::Booleano(b) => par.1@ == (if b {
                "true"@
            } else {
                "false"@
            }),
            JsonV::Natural(n) => par.1@ == digitos(n as nat),
            JsonV::Negativo(n) => n < 0 ==> par.1@ =~= seq!['-'] + digitos((-n) as nat),
            _ => true,
        },
{
}

proof fn lema_enteros_presentes(a: Seq<JsonV>)
    ensures
        enteros_presentes(Seq::new(a.len(), |i: int| a[i].entero())) == a.filter(
            |v: JsonV| es_entero_json(v),
        ).map_values(|v: JsonV| truncado(entero_json(v))),
    decreases a.len(),
{
    reveal(Seq::filter);
    let s = Seq::new(a.len(), |i: int| a[i].entero());
    let es = |v: JsonV| es_entero_json(v);
    let f = |v: JsonV| truncado(entero_json(v));
    if a.len() > 0 {
        let t = a.drop_last();
        lema_enteros_presentes(t);
        assert(s.drop_last() =~= Seq::new(t.len(), |i: int| t[i].entero()));
        let previos = t.filter(es);
        assert(previos.push(a.last()).map_values(f) =~= previos.map_values(f).push(
            truncado(entero_json(a.last())),
        ));
    }
    assert(enteros_presentes(s) =~= a.filter(es).map_values(f));
}

/// Las formas de cobro son los enteros del arreglo, en su orden; lo que no es
/// entero se salta, y sin arreglo no hay ninguna.
pub proof fn ley_formas_de_cobro(x: Extra)
    ensures
        contenido(x).contains_key("FormasCobroCbb"@) && contenido(x)["FormasCobroCbb"@] is Arreglo
            ==> formas_cobro(x) == contenido(x)["FormasCobroCbb"@]->Arreglo_0.filter(
            |v: JsonV| es_entero_json(v),
        ).map_values(|v: JsonV| truncado(entero_json(v))),
        !(contenido(x).contains_key("FormasCobroCbb"@) && contenido(x)["FormasCobroCbb"@]
            is Arreglo) ==> formas_cobro(x).len() == 0,
{
    if contenido(x).contains_key("FormasCobroCbb"@) {
        if let JsonV::Arreglo(a) = contenido(x)["FormasCobroCbb"@] {
            lema_enteros_presentes(a);
        }
    }
}

} // verus!
