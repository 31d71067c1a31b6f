//! Qué lecturas trae la fila que una consulta entrega.

use vstd::prelude::*;

use crate::microsip::exito::{lema_entrar_conserva, lema_entrar_limpio, lema_fallar_limpio};
use crate::microsip::fila::{lema_posicion, posicion, FilaV};
use crate::microsip::guiones::consulta::{
    apertura_consulta, campos_de, consulta_cabe, inicio_recorrido, lectura, ley_consulta_valida,
    programa_consulta, recorrido_consulta, Campo, CampoV, Consulta,
};
use crate::microsip::guiones::{conectar, lema_conectar_lineal, lineal, Base};
use crate::microsip::leyes::{
    ley_correr_coherente, ley_inicio_coherente, ley_recibir, sin_omisiones,
};
use crate::microsip::maquina::{sigue_entero, sigue_texto, EstadoV, Fase, MicrosipState, Programa};
use crate::microsip::nativo::{Exige, Registro, Registros, RespuestaV};
use crate::texto::{leer_i64, recortado};

verus! {

/// Los nombres de las lecturas, en orden.
pub open spec fn nombres<T>(lecturas: Seq<(Seq<char>, i32, T)>) -> Seq<Seq<char>> {
    Seq::new(lecturas.len(), |i: int| lecturas[i].0)
}

/// Los campos que se piden como texto, en orden.
pub open spec fn textos_pedidos(campos: Seq<CampoV>) -> Seq<Seq<char>>
    decreases campos.len(),
{
    if campos.len() == 0 {
        seq![]
    } else {
        match campos.last() {
            CampoV::Texto(n, _) => textos_pedidos(campos.drop_last()).push(n),
            CampoV::Entero(_, _) => textos_pedidos(campos.drop_last()),
        }
    }
}

/// Los campos que se piden como entero, en orden.
pub open spec fn enteros_pedidos(campos: Seq<CampoV>) -> Seq<Seq<char>>
    decreases campos.len(),
{
    if campos.len() == 0 {
        seq![]
    } else {
        match campos.last() {
            CampoV::Entero(n, _) => enteros_pedidos(campos.drop_last()).push(n),
            CampoV::Texto(_, _) => enteros_pedidos(campos.drop_last()),
        }
    }
}

/// La fila trae la lectura de cada campo pedido, y solo esas.
pub open spec fn fila_completa(fila: FilaV, campos: Seq<CampoV>) -> bool {
    &&& nombres(fila.textos) == textos_pedidos(campos)
    &&& nombres(fila.enteros) == enteros_pedidos(campos)
}

proof fn lema_posicion_existe<T>(lecturas: Seq<(Seq<char>, i32, T)>, campo: Seq<char>)
    requires
        nombres(lecturas).contains(campo),
    ensures
        posicion(lecturas, campo) < lecturas.len(),
    decreases lecturas.len(),
{
    let i = choose|i: int| 0 <= i < lecturas.len() && nombres(lecturas)[i] == campo;
    if lecturas[0].0 != campo {
        assert(lecturas.drop_first()[i - 1] == lecturas[i]);
        assert(nombres(lecturas.drop_first())[i - 1] == campo);
        lema_posicion_existe(lecturas.drop_first(), campo);
    }
}

proof fn lema_pedidos(campos: Seq<CampoV>, i: int)
    requires
        0 <= i < campos.len(),
    ensures
        campos[i] matches CampoV::Texto(n, _) ==> textos_pedidos(campos).contains(n),
        campos[i] matches CampoV::Entero(n, _) ==> enteros_pedidos(campos).contains(n),
    decreases campos.len(),
{
    let t = textos_pedidos(campos.drop_last());
    let e = enteros_pedidos(campos.drop_last());
    if i == campos.len() - 1 {
        match campos[i] {
            CampoV::Texto(n, _) => {
                assert(t.push(n)[t.len() as int] == n);
            },
            CampoV::Entero(n, _) => {
                assert(e.push(n)[e.len() as int] == n);
            },
        }
    } else {
        lema_pedidos(campos.drop_last(), i);
        match campos[i] {
            CampoV::Texto(n, _) => {
                let j = choose|j: int| 0 <= j < t.len() && t[j] == n;
                assert(textos_pedidos(campos)[j] == n);
            },
            CampoV::Entero(n, _) => {
                let j = choose|j: int| 0 <= j < e.len() && e[j] == n;
                assert(enteros_pedidos(campos)[j] == n);
            },
        }
    }
}

/// La lectura del campo `q` no fue lo que se exigía: los demás ya no se leen.
pub open spec fn corta(fila: FilaV, campos: Seq<CampoV>, q: int) -> bool {
    match campos[q] {
        CampoV::Texto(_, exige) => {
            let (_, rc, bufer) = fila.textos[textos_pedidos(campos.take(q)).len() as int];
            !sigue_texto(exige, rc, bufer)
        },
        CampoV::Entero(_, exige) => {
            let (_, rc, _) = fila.enteros[enteros_pedidos(campos.take(q)).len() as int];
            !sigue_entero(exige, rc)
        },
    }
}

/// La fila trae la lectura de los primeros `j` campos, y solo esas, y ninguno
/// de ellos cortó la lectura.
pub open spec fn leidos(fila: FilaV, campos: Seq<CampoV>, j: int) -> bool {
    &&& 0 <= j <= campos.len()
    &&& fila_completa(fila, campos.take(j))
    &&& forall|q: int| 0 <= q < j ==> !#[trigger] corta(fila, campos, q)
}

/// La fila trae la lectura de todos los campos, en orden, o hasta el primero
/// que cortó la lectura.
pub open spec fn fila_leida(fila: FilaV, campos: Seq<CampoV>) -> bool {
    leidos(fila, campos, campos.len() as int) || exists|j: int|
        0 < j <= campos.len() && #[trigger] leida_hasta(fila, campos, j)
}

/// La lectura se cortó en el campo `j - 1`.
pub open spec fn leida_hasta(fila: FilaV, campos: Seq<CampoV>, j: int) -> bool {
    &&& fila_completa(fila, campos.take(j))
    &&& corta(fila, campos, j - 1)
    &&& forall|q: int| 0 <= q < j - 1 ==> !#[trigger] corta(fila, campos, q)
}

/// Los pedidos de un prefijo son un prefijo de los pedidos.
proof fn lema_pedidos_crecen(campos: Seq<CampoV>, q: int, j: int)
    requires
        0 <= q <= j <= campos.len(),
    ensures
        textos_pedidos(campos.take(q)).len() <= textos_pedidos(campos.take(j)).len(),
        enteros_pedidos(campos.take(q)).len() <= enteros_pedidos(campos.take(j)).len(),
        q < j && campos[q] is Texto ==> textos_pedidos(campos.take(q)).len() < textos_pedidos(
            campos.take(j),
        ).len() && textos_pedidos(campos.take(j))[textos_pedidos(campos.take(q)).len() as int]
            == campos[q]->Texto_0,
        q < j && campos[q] is Entero ==> enteros_pedidos(campos.take(q)).len() < enteros_pedidos(
            campos.take(j),
        ).len() && enteros_pedidos(campos.take(j))[enteros_pedidos(campos.take(q)).len() as int]
            == campos[q]->Entero_0,
    decreases j - q,
{
    if q < j {
        lema_pedidos_crecen(campos, q, j - 1);
        assert(campos.take(j).drop_last() =~= campos.take(j - 1));
        assert(campos.take(j).last() == campos[j - 1]);
    }
}

/// Los pedidos de texto que preceden a uno son de campos que lo preceden.
proof fn lema_pedido_previo(campos: Seq<CampoV>, q: int, i: int)
    requires
        0 <= q <= campos.len(),
    ensures
        0 <= i < textos_pedidos(campos.take(q)).len() ==> exists|r: int|
            0 <= r < q && #[trigger] campos[r] is Texto && campos[r]->Texto_0 == textos_pedidos(
                campos.take(q),
            )[i],
        0 <= i < enteros_pedidos(campos.take(q)).len() ==> exists|r: int|
            0 <= r < q && #[trigger] campos[r] is Entero && campos[r]->Entero_0 == enteros_pedidos(
                campos.take(q),
            )[i],
    decreases q,
{
    if q > 0 {
        lema_pedido_previo(campos, q - 1, i);
        assert(campos.take(q).drop_last() =~= campos.take(q - 1));
        assert(campos.take(q).last() == campos[q - 1]);
    }
}

/// De un campo se tiene lo que se exige de él.
pub open spec fn se_tiene(fila: FilaV, campo: CampoV) -> bool {
    match campo {
        CampoV::Texto(n, Exige::Lectura) => fila.texto(n) is Ok,
        CampoV::Texto(n, Exige::Monto) => fila.texto(n) matches Ok(raw) && leer_i64(recortado(raw))
            is Some,
        CampoV::Entero(n, Exige::Lectura) | CampoV::Entero(n, Exige::Monto) => fila.entero(n) is Ok,
        _ => true,
    }
}

/// El nombre de un campo.
pub open spec fn nombre_de(campo: CampoV) -> Seq<char> {
    match campo {
        CampoV::Texto(n, _) => n,
        CampoV::Entero(n, _) => n,
    }
}

/// Ningún nombre se repite ni trae un NUL.
pub open spec fn nombres_propios(campos: Seq<CampoV>) -> bool {
    &&& forall|i: int| 0 <= i < campos.len() ==> !nombre_de(#[trigger] campos[i]).contains('\0')
    &&& forall|i: int, j: int|
        0 <= i < j < campos.len() ==> nombre_de(#[trigger] campos[i]) != nombre_de(
            #[trigger] campos[j],
        )
}

/// Quien convierte en orden nunca pide un campo que no se leyó: si de todos los
/// campos anteriores se tuvo lo exigido, la fila trae la lectura del que sigue.
pub proof fn ley_sin_huecos(fila: FilaV, campos: Seq<CampoV>, q: int)
    requires
        fila_leida(fila, campos),
        nombres_propios(campos),
        0 <= q < campos.len(),
        forall|r: int| 0 <= r < q ==> se_tiene(fila, #[trigger] campos[r]),
    ensures
        campos[q] matches CampoV::Texto(n, _) ==> fila.tiene_texto(n),
        campos[q] matches CampoV::Entero(n, _) ==> fila.tiene_entero(n),
{
    if leidos(fila, campos, campos.len() as int) {
        assert(campos.take(campos.len() as int) =~= campos);
        ley_campo_presente(fila, campos, q);
    } else {
        let j = choose|j: int| 0 < j <= campos.len() && #[trigger] leida_hasta(fila, campos, j);
        if j - 1 < q {
            assert forall|r: int| 0 <= r < j - 1 implies nombre_de(#[trigger] campos[r])
                != nombre_de(campos[j - 1]) by {
            }
            assert(!nombre_de(campos[j - 1]).contains('\0'));
            ley_lo_exigido(fila, campos, j, j - 1);
            assert(se_tiene(fila, campos[j - 1]));
        }
        assert(campos.take(j)[q] == campos[q]);
        ley_campo_presente(fila, campos.take(j), q);
    }
}

/// La lectura se corta justo en el campo que no se puede convertir: de un
/// campo leído, cuyo nombre no se repite antes, la lectura cortó si y solo si
/// lo exigido de él no se tiene.
pub proof fn ley_lo_exigido(fila: FilaV, campos: Seq<CampoV>, j: int, q: int)
    requires
        0 <= q < j <= campos.len(),
        fila_completa(fila, campos.take(j)),
        match campos[q] {
            CampoV::Texto(n, _) => !n.contains('\0') && forall|r: int|
                0 <= r < q && #[trigger] campos[r] is Texto ==> campos[r]->Texto_0 != n,
            CampoV::Entero(n, _) => !n.contains('\0') && forall|r: int|
                0 <= r < q && #[trigger] campos[r] is Entero ==> campos[r]->Entero_0 != n,
        },
    ensures
        corta(fila, campos, q) <==> !se_tiene(fila, campos[q]),
{
    lema_pedidos_crecen(campos, q, j);
    match campos[q] {
        CampoV::Texto(n, _) => {
            let k = textos_pedidos(campos.take(q)).len() as int;
            assert(nombres(fila.textos)[k] == n);
            assert forall|i: int| 0 <= i < k implies (#[trigger] fila.textos[i]).0 != n by {
                lema_pedido_previo(campos, q, i);
                lema_prefijo_pedidos(campos, q, j, i);
                assert(nombres(fila.textos)[i] == fila.textos[i].0);
            }
            lema_posicion(fila.textos, n, k);
        },
        CampoV::Entero(n, _) => {
            let k = enteros_pedidos(campos.take(q)).len() as int;
            assert(nombres(fila.enteros)[k] == n);
            assert forall|i: int| 0 <= i < k implies (#[trigger] fila.enteros[i]).0 != n by {
                lema_pedido_previo(campos, q, i);
                lema_prefijo_pedidos(campos, q, j, i);
                assert(nombres(fila.enteros)[i] == fila.enteros[i].0);
            }
            lema_posicion(fila.enteros, n, k);
        },
    }
}

proof fn lema_prefijo_pedidos(campos: Seq<CampoV>, q: int, j: int, i: int)
    requires
        0 <= q <= j <= campos.len(),
    ensures
        0 <= i < textos_pedidos(campos.take(q)).len() ==> i < textos_pedidos(campos.take(j)).len()
            && textos_pedidos(campos.take(j))[i] == textos_pedidos(campos.take(q))[i],
        0 <= i < enteros_pedidos(campos.take(q)).len() ==> i < enteros_pedidos(campos.take(j)).len()
            && enteros_pedidos(campos.take(j))[i] == enteros_pedidos(campos.take(q))[i],
    decreases j - q,
{
    if q < j {
        lema_prefijo_pedidos(campos, q, j - 1, i);
        assert(campos.take(j).drop_last() =~= campos.take(j - 1));
    }
}

/// Todo campo pedido se puede leer de una fila completa.
pub proof fn ley_campo_presente(fila: FilaV, campos: Seq<CampoV>, i: int)
    requires
        fila_completa(fila, campos),
        0 <= i < campos.len(),
    ensures
        campos[i] matches CampoV::Texto(n, _) ==> fila.tiene_texto(n),
        campos[i] matches CampoV::Entero(n, _) ==> fila.tiene_entero(n),
{
    lema_pedidos(campos, i);
    match campos[i] {
        CampoV::Texto(n, _) => {
            lema_posicion_existe(fila.textos, n);
        },
        CampoV::Entero(n, _) => {
            lema_posicion_existe(fila.enteros, n);
        },
    }
}

/// Qué lecturas hay en cada punto del recorrido.
spec fn lecturas_al_dia(c: Consulta, e: EstadoV) -> bool {
    let inicio = inicio_recorrido(c);
    let n = c.campos@.len();
    e.falla is None ==> {
        &&& e.pc <= inicio || e.pc == inicio + n + 2 ==> e.fila == FilaV::vacia()
        &&& inicio < e.pc <= inicio + n ==> leidos(
            e.fila,
            campos_de(c.campos@),
            e.pc - inicio - 1,
        )
        &&& e.pc == inicio + n + 1 ==> fila_leida(e.fila, campos_de(c.campos@))
    }
}

proof fn lema_entrar_fila(p: Programa, e: EstadoV, pc: int)
    requires
        p.valido(),
        p.cierre_posible(),
        sin_omisiones(p),
        0 <= pc <= p.pasos.len(),
        e.falla is None,
    ensures
        p.entrar(e, pc).falla is None ==> p.entrar(e, pc).pc == pc && p.entrar(e, pc).fila
            == e.fila,
{
    if p.entrar(e, pc).falla is None {
        lema_entrar_limpio(p, e, pc);
        if pc < p.pasos.len() {
            assert(!p.omitido(e.regs, pc));
        }
    }
}

proof fn lema_fila_vacia(campos: Seq<CampoV>)
    ensures
        leidos(FilaV::vacia(), campos, 0),
        campos.len() == 0 ==> fila_leida(FilaV::vacia(), campos),
{
    assert(nombres(FilaV::vacia().textos) =~= seq![]);
    assert(nombres(FilaV::vacia().enteros) =~= seq![]);
}

/// Una lectura más no cambia si las anteriores cortaron.
proof fn lema_corta_igual(fila: FilaV, g: FilaV, campos: Seq<CampoV>, j: int, q: int)
    requires
        0 <= q < j <= campos.len(),
        fila_completa(fila, campos.take(j)),
        fila.textos.len() <= g.textos.len() && g.textos.take(fila.textos.len() as int)
            == fila.textos,
        fila.enteros.len() <= g.enteros.len() && g.enteros.take(fila.enteros.len() as int)
            == fila.enteros,
    ensures
        corta(g, campos, q) == corta(fila, campos, q),
{
    lema_pedidos_crecen(campos, q, j);
    assert(nombres(fila.textos).len() == fila.textos.len());
    assert(nombres(fila.enteros).len() == fila.enteros.len());
    match campos[q] {
        CampoV::Texto(_, _) => {
            let k = textos_pedidos(campos.take(q)).len() as int;
            assert(g.textos.take(fila.textos.len() as int)[k] == g.textos[k]);
        },
        CampoV::Entero(_, _) => {
            let k = enteros_pedidos(campos.take(q)).len() as int;
            assert(g.enteros.take(fila.enteros.len() as int)[k] == g.enteros[k]);
        },
    }
}

/// La fila con una lectura más.
proof fn lema_lectura(campos: Seq<CampoV>, i: int, fila: FilaV, g: FilaV, sigue: bool)
    requires
        0 <= i < campos.len(),
        leidos(fila, campos, i),
        match campos[i] {
            CampoV::Texto(n, exige) => {
                &&& g.textos.len() == fila.textos.len() + 1
                &&& g.textos.take(fila.textos.len() as int) == fila.textos
                &&& g.textos.last().0 == n
                &&& sigue == sigue_texto(exige, g.textos.last().1, g.textos.last().2)
                &&& g.enteros == fila.enteros
            },
            CampoV::Entero(n, exige) => {
                &&& g.enteros.len() == fila.enteros.len() + 1
                &&& g.enteros.take(fila.enteros.len() as int) == fila.enteros
                &&& g.enteros.last().0 == n
                &&& sigue == sigue_entero(exige, g.enteros.last().1)
                &&& g.textos == fila.textos
            },
        },
    ensures
        sigue ==> leidos(g, campos, i + 1),
        !sigue ==> leida_hasta(g, campos, i + 1),
{
    assert(campos.take(i + 1).drop_last() =~= campos.take(i));
    assert(campos.take(i + 1).last() == campos[i]);
    assert(g.textos.take(fila.textos.len() as int) =~= fila.textos);
    assert(g.enteros.take(fila.enteros.len() as int) =~= fila.enteros);
    assert(nombres(fila.textos).len() == fila.textos.len());
    assert(nombres(fila.enteros).len() == fila.enteros.len());
    match campos[i] {
        CampoV::Texto(n, _) => {
            assert forall|k: int| 0 <= k < fila.textos.len() implies g.textos[k]
                == fila.textos[k] by {
                assert(g.textos.take(fila.textos.len() as int)[k] == g.textos[k]);
            }
            assert(nombres(g.textos) =~= nombres(fila.textos).push(n));
        },
        CampoV::Entero(n, _) => {
            assert forall|k: int| 0 <= k < fila.enteros.len() implies g.enteros[k]
                == fila.enteros[k] by {
                assert(g.enteros.take(fila.enteros.len() as int)[k] == g.enteros[k]);
            }
            assert(nombres(g.enteros) =~= nombres(fila.enteros).push(n));
        },
    }
    assert forall|q: int| 0 <= q < i implies !#[trigger] corta(g, campos, q) by {
        assert(!corta(fila, campos, q));
        lema_corta_igual(fila, g, campos, i, q);
    }
    assert(corta(g, campos, i) == !sigue);
}

/// Lo que deja la lectura de un campo.
proof fn lema_lee(p: Programa, e: EstadoV, r: RespuestaV, c: Consulta, i: int, entrega: int)
    requires
        p.valido(),
        p.cierre_posible(),
        sin_omisiones(p),
        p.coherente(e),
        p.corresponde(e, r),
        e.falla is None,
        p.recibir(e, r).falla is None,
        0 <= i < c.campos@.len(),
        0 <= entrega <= usize::MAX,
        e.pc + 1 < p.al_fallar,
        p.pasos[e.pc] == lectura(c, i, entrega),
        leidos(e.fila, campos_de(c.campos@), i),
    ensures
        ({
            let s = p.recibir(e, r);
            let campos = campos_de(c.campos@);
            ||| s.pc == e.pc + 1 && leidos(s.fila, campos, i + 1)
            ||| s.pc == entrega && leida_hasta(s.fila, campos, i + 1)
        }),
{
    let s = p.recibir(e, r);
    let campos = campos_de(c.campos@);
    assert(p.paso_valido(e.pc));
    assert forall|err: crate::error::ErrorV| (#[trigger] p.fallar(e, err)).falla is None implies
        false by {
        lema_fallar_limpio(p, e, err);
    }
    assert(campos[i] == c.campos@[i]@);
    match (c.campos@[i], r) {
        (Campo::Texto(nombre, exige), RespuestaV::Texto { rc, bufer }) => {
            let g = FilaV { textos: e.fila.textos.push((nombre@, rc, bufer)), ..e.fila };
            let f = EstadoV { fila: g, ..e };
            assert(s == (if sigue_texto(exige, rc, bufer) {
                p.avanzar(f)
            } else {
                p.entrar(f, entrega)
            })) by {
                reveal(Programa::recibir);
            }
            lema_entrar_fila(p, f, e.pc + 1);
            lema_entrar_fila(p, f, entrega);
            assert(g.textos.take(e.fila.textos.len() as int) =~= e.fila.textos);
            lema_lectura(campos, i, e.fila, g, sigue_texto(exige, rc, bufer));
        },
        (Campo::Entero(nombre, exige), RespuestaV::Entero { rc, valor }) => {
            let g = FilaV { enteros: e.fila.enteros.push((nombre@, rc, valor)), ..e.fila };
            let f = EstadoV { fila: g, ..e };
            assert(s == (if sigue_entero(exige, rc) {
                p.avanzar(f)
            } else {
                p.entrar(f, entrega)
            })) by {
                reveal(Programa::recibir);
            }
            lema_entrar_fila(p, f, e.pc + 1);
            lema_entrar_fila(p, f, entrega);
            assert(g.enteros.take(e.fila.enteros.len() as int) =~= e.fila.enteros);
            lema_lectura(campos, i, e.fila, g, sigue_entero(exige, rc));
        },
        _ => {
            assert(false) by {
                reveal(Programa::recibir);
            }
        },
    }
}

#[verifier::rlimit(40)]
proof fn lema_recibir_fila(
    db_path: Seq<char>,
    usuario: Seq<char>,
    password: Seq<char>,
    c: Consulta,
    e: EstadoV,
    r: RespuestaV,
)
    requires
        consulta_cabe(c),
        ({
            let p = programa_consulta(db_path, usuario, password, c);
            p.coherente(e) && p.corresponde(e, r)
        }),
        lecturas_al_dia(c, e),
    ensures
        lecturas_al_dia(c, programa_consulta(db_path, usuario, password, c).recibir(e, r)),
{
    let p = programa_consulta(db_path, usuario, password, c);
    let inicio = inicio_recorrido(c);
    let n = c.campos@.len();
    let apertura = apertura_consulta(c);
    let recorrido = recorrido_consulta(c, inicio);
    ley_consulta_valida(db_path, usuario, password, c);
    ley_recibir(p, e, r);
    lema_conectar_lineal(Base::Empresa, db_path, usuario, password);
    reveal(Programa::recibir);
    assert(p.paso_valido(e.pc));
    let s = p.recibir(e, r);
    assert forall|f: EstadoV|
        f.falla is None && f.pc == e.pc && (#[trigger] p.avanzar(f)).falla is None implies p.avanzar(
        f,
    ).pc == p.destino_exito(e.pc) && p.avanzar(f).fila == f.fila by {
        lema_entrar_fila(p, f, p.destino_exito(e.pc));
    }
    assert forall|f: EstadoV, d: int|
        f.falla is None && 0 <= d <= p.pasos.len() && (#[trigger] p.entrar(f, d)).falla
            is None implies p.entrar(f, d).pc == d && p.entrar(f, d).fila == f.fila by {
        lema_entrar_fila(p, f, d);
    }
    assert forall|err: crate::error::ErrorV|
        e.falla is None && (#[trigger] p.fallar(e, err)).falla is None implies e.pc >= p.al_fallar
        && p.fallar(e, err).pc == e.pc + 1 by {
        lema_fallar_limpio(p, e, err);
        if e.pc + 1 < p.pasos.len() {
            assert(!p.omitido(e.regs, e.pc + 1));
        }
    }
    if e.falla is None && s.falla is None {
        if e.pc < inicio {
            if e.pc < 8 {
                assert(lineal(conectar(Base::Empresa, db_path, usuario, password)[e.pc]));
            } else {
                assert(p.pasos[e.pc] == apertura[e.pc - 8]);
                assert(lineal(apertura[e.pc - 8]));
            }
        } else if e.pc < p.al_fallar {
            assert(p.pasos[e.pc] == recorrido[e.pc - inicio]);
            lema_fila_vacia(campos_de(c.campos@));
            if inicio < e.pc < inicio + 1 + n {
                let i = e.pc - inicio - 1;
                assert(recorrido[e.pc - inicio] == lectura(c, i, inicio + n + 1));
                lema_lee(p, e, r, c, i, inicio + n + 1);
            }
        }
    }
}

proof fn lema_inicio_fila(p: Programa, memoria: MicrosipState)
    requires
        p.valido(),
        p.cierre_posible(),
        sin_omisiones(p),
    ensures
        p.inicio(memoria).falla is None ==> p.inicio(memoria).pc == 0 && p.inicio(memoria).fila
            == FilaV::vacia(),
{
    let regs = match memoria.pl_handle {
        Some(h) => Registros::en_cero().con_valor(Registro::Lista, h),
        None => Registros::en_cero(),
    };
    let z = EstadoV {
        pc: 0,
        fase: Fase::Ejecuta,
        regs,
        memoria,
        falla: None,
        fila: FilaV::vacia(),
    };
    lema_entrar_fila(p, z, 0);
}

proof fn lema_correr_fila(
    db_path: Seq<char>,
    usuario: Seq<char>,
    password: Seq<char>,
    c: Consulta,
    e: EstadoV,
    rs: Seq<RespuestaV>,
)
    requires
        consulta_cabe(c),
        ({
            let p = programa_consulta(db_path, usuario, password, c);
            p.coherente(e) && p.corresponden(e, rs)
        }),
        lecturas_al_dia(c, e),
    ensures
        lecturas_al_dia(c, programa_consulta(db_path, usuario, password, c).correr(e, rs)),
    decreases rs.len(),
{
    let p = programa_consulta(db_path, usuario, password, c);
    if rs.len() > 0 {
        lema_correr_fila(db_path, usuario, password, c, e, rs.drop_last());
        ley_consulta_valida(db_path, usuario, password, c);
        ley_correr_coherente(p, e, rs.drop_last());
        lema_recibir_fila(
            db_path,
            usuario,
            password,
            c,
            p.correr(e, rs.drop_last()),
            rs.last(),
        );
    }
}

/// Cada fila que una consulta entrega trae la lectura de los campos que la
/// consulta pide, en su orden: todos, o hasta el primero que no es lo que se
/// exige.
pub proof fn ley_fila_leida(
    db_path: Seq<char>,
    usuario: Seq<char>,
    password: Seq<char>,
    c: Consulta,
    memoria: MicrosipState,
    rs: Seq<RespuestaV>,
)
    requires
        consulta_cabe(c),
        ({
            let p = programa_consulta(db_path, usuario, password, c);
            let e = p.inicio(memoria);
            p.corresponden(e, rs) && p.accion(p.correr(e, rs)) is EntregarFila
        }),
    ensures
        ({
            let p = programa_consulta(db_path, usuario, password, c);
            fila_leida(p.correr(p.inicio(memoria), rs).fila, campos_de(c.campos@))
        }),
{
    let p = programa_consulta(db_path, usuario, password, c);
    let e = p.inicio(memoria);
    let s = p.correr(e, rs);
    let inicio = inicio_recorrido(c);
    let n = c.campos@.len();
    ley_consulta_valida(db_path, usuario, password, c);
    lema_conectar_lineal(Base::Empresa, db_path, usuario, password);
    ley_inicio_coherente(p, memoria);
    lema_inicio_fila(p, memoria);
    assert(apertura_consulta(c).len() == 15 + c.params@.len());
    assert(lecturas_al_dia(c, e));
    lema_correr_fila(db_path, usuario, password, c, e, rs);
    ley_correr_coherente(p, e, rs);
    if s.pc < inicio {
        if s.pc >= 8 {
            assert(p.pasos[s.pc] == apertura_consulta(c)[s.pc - 8]);
        }
    } else if s.pc < p.al_fallar {
        assert(p.pasos[s.pc] == recorrido_consulta(c, inicio)[s.pc - inicio]);
        if inicio < s.pc < inicio + 1 + n {
            assert(p.pasos[s.pc] == lectura(c, s.pc - inicio - 1, inicio + n + 1));
        }
    }
    assert(s.pc == inicio + 1 + n);
}

// ---------------------------------------------------------------------
// Ninguna fila se pierde ni se repite
// ---------------------------------------------------------------------

/// Cuántas veces `DtstEof` anunció otra fila.
pub open spec fn filas_anunciadas(p: Programa, inicio: int, e: EstadoV, rs: Seq<RespuestaV>) -> nat
    decreases rs.len(),
{
    if rs.len() == 0 {
        0
    } else {
        let s = p.correr(e, rs.drop_last());
        filas_anunciadas(p, inicio, e, rs.drop_last()) + (if s.pc == inicio && s.fase
            == Fase::Ejecuta && rs.last() == RespuestaV::Codigo(0) {
            1nat
        } else {
            0nat
        })
    }
}

/// Cuántas filas se entregaron y se aceptaron.
pub open spec fn filas_entregadas(p: Programa, e: EstadoV, rs: Seq<RespuestaV>) -> nat
    decreases rs.len(),
{
    if rs.len() == 0 {
        0
    } else {
        let s = p.correr(e, rs.drop_last());
        filas_entregadas(p, e, rs.drop_last()) + (if p.accion(s) is EntregarFila && rs.last()
            is FilaAceptada {
            1nat
        } else {
            0nat
        })
    }
}

/// A dónde se pasa tras leer un campo.
proof fn lema_lee_pc(p: Programa, e: EstadoV, r: RespuestaV, c: Consulta, i: int, entrega: int)
    requires
        p.valido(),
        p.cierre_posible(),
        sin_omisiones(p),
        p.coherente(e),
        p.corresponde(e, r),
        e.falla is None,
        p.recibir(e, r).falla is None,
        0 <= i < c.campos@.len(),
        0 <= entrega <= usize::MAX,
        e.pc + 1 < p.al_fallar,
        p.pasos[e.pc] == lectura(c, i, entrega),
    ensures
        e.fase == Fase::Ejecuta,
        !(p.recibir(e, r).fase is Mensaje),
        p.recibir(e, r).pc == e.pc + 1 || p.recibir(e, r).pc == entrega,
        !(p.accion(e) is EntregarFila),
{
    reveal(Programa::recibir);
    assert(p.paso_valido(e.pc));
    assert forall|err: crate::error::ErrorV| (#[trigger] p.fallar(e, err)).falla is None implies
        false by {
        lema_fallar_limpio(p, e, err);
    }
    assert forall|f: EstadoV, d: int|
        f.falla is None && 0 <= d <= p.pasos.len() && (#[trigger] p.entrar(f, d)).falla
            is None implies p.entrar(f, d).pc == d by {
        lema_entrar_fila(p, f, d);
    }
    assert forall|f: EstadoV, d: int| !((#[trigger] p.entrar(f, d)).fase is Mensaje) by {
        lema_entrar_conserva(p, f, d);
    }
}

/// A dónde pasa una consulta sin falla tras una respuesta.
#[verifier::rlimit(40)]
proof fn lema_paso_consulta(
    db_path: Seq<char>,
    usuario: Seq<char>,
    password: Seq<char>,
    c: Consulta,
    e: EstadoV,
    r: RespuestaV,
)
    requires
        consulta_cabe(c),
        ({
            let p = programa_consulta(db_path, usuario, password, c);
            &&& p.coherente(e)
            &&& p.corresponde(e, r)
            &&& p.recibir(e, r).falla is None
        }),
        e.falla is None,
    ensures
        ({
            let p = programa_consulta(db_path, usuario, password, c);
            let s = p.recibir(e, r);
            let inicio = inicio_recorrido(c);
            let n = c.campos@.len();
            &&& p.accion(e) is EntregarFila <==> e.pc == inicio + n + 1 && e.fase == Fase::Ejecuta
            &&& s.fase is Mensaje ==> s.pc == e.pc && e.pc != inicio && e.pc != inicio + n + 1
            &&& !(s.fase is Mensaje) ==> {
                &&& e.pc < p.al_fallar ==> e.fase == Fase::Ejecuta
                &&& e.pc < inicio ==> s.pc == e.pc + 1
                &&& e.pc == inicio ==> s.pc == (if r == RespuestaV::Codigo(0) {
                    inicio + 1
                } else {
                    inicio + n + 3
                })
                &&& inicio < e.pc <= inicio + n ==> e.pc < s.pc <= inicio + n + 1
                &&& e.pc == inicio + n + 1 ==> r is FilaAceptada && s.pc == e.pc + 1
                &&& e.pc == inicio + n + 2 ==> s.pc == inicio
                &&& e.pc > inicio + n + 2 ==> s.pc == e.pc + 1
            }
        }),
{
    let p = programa_consulta(db_path, usuario, password, c);
    let inicio = inicio_recorrido(c);
    let n = c.campos@.len();
    let apertura = apertura_consulta(c);
    let recorrido = recorrido_consulta(c, inicio);
    ley_consulta_valida(db_path, usuario, password, c);
    ley_recibir(p, e, r);
    lema_conectar_lineal(Base::Empresa, db_path, usuario, password);
    assert(p.paso_valido(e.pc));
    if inicio < e.pc < inicio + 1 + n {
        let i = e.pc - inicio - 1;
        assert(p.pasos[e.pc] == recorrido[e.pc - inicio]);
        assert(recorrido[e.pc - inicio] == lectura(c, i, inicio + n + 1));
        lema_lee_pc(p, e, r, c, i, inicio + n + 1);
    } else {
        reveal(Programa::recibir);
    }
    assert forall|f: EstadoV, d: int|
        f.falla is None && 0 <= d <= p.pasos.len() && (#[trigger] p.entrar(f, d)).falla
            is None implies p.entrar(f, d).pc == d && p.entrar(f, d).fila == f.fila by {
        lema_entrar_fila(p, f, d);
    }
    assert forall|err: crate::error::ErrorV|
        e.falla is None && (#[trigger] p.fallar(e, err)).falla is None implies e.pc >= p.al_fallar
        && p.fallar(e, err).pc == e.pc + 1 by {
        lema_fallar_limpio(p, e, err);
        if e.pc + 1 < p.pasos.len() {
            assert(!p.omitido(e.regs, e.pc + 1));
        }
    }
    if e.pc < inicio {
        if e.pc < 8 {
            assert(lineal(conectar(Base::Empresa, db_path, usuario, password)[e.pc]));
        } else {
            assert(p.pasos[e.pc] == apertura[e.pc - 8]);
            assert(lineal(apertura[e.pc - 8]));
        }
    } else if e.pc < p.al_fallar {
        assert(p.pasos[e.pc] == recorrido[e.pc - inicio]);
    }
}

proof fn lema_cuenta(
    db_path: Seq<char>,
    usuario: Seq<char>,
    password: Seq<char>,
    c: Consulta,
    e: EstadoV,
    rs: Seq<RespuestaV>,
)
    requires
        consulta_cabe(c),
        ({
            let p = programa_consulta(db_path, usuario, password, c);
            p.coherente(e) && p.corresponden(e, rs) && p.correr(e, rs).falla is None
        }),
        e.falla is None ==> e.pc == 0,
    ensures
        ({
            let p = programa_consulta(db_path, usuario, password, c);
            let inicio = inicio_recorrido(c);
            let s = p.correr(e, rs);
            filas_anunciadas(p, inicio, e, rs) == filas_entregadas(p, e, rs) + (if inicio < s.pc
                <= inicio + c.campos@.len() + 1 {
                1int
            } else {
                0int
            })
        }),
    decreases rs.len(),
{
    let p = programa_consulta(db_path, usuario, password, c);
    lema_conectar_lineal(Base::Empresa, db_path, usuario, password);
    if rs.len() > 0 {
        let t = rs.drop_last();
        let a = p.correr(e, t);
        ley_consulta_valida(db_path, usuario, password, c);
        ley_correr_coherente(p, e, t);
        ley_recibir(p, a, rs.last());
        assert(a.falla is None);
        lema_cuenta(db_path, usuario, password, c, e, t);
        lema_paso_consulta(db_path, usuario, password, c, a, rs.last());
    }
}

/// Ninguna fila se pierde ni se repite: una consulta que termina sin falla
/// entregó tantas filas como anunció la base.
pub proof fn ley_todas_las_filas(
    db_path: Seq<char>,
    usuario: Seq<char>,
    password: Seq<char>,
    c: Consulta,
    memoria: MicrosipState,
    rs: Seq<RespuestaV>,
)
    requires
        consulta_cabe(c),
        ({
            let p = programa_consulta(db_path, usuario, password, c);
            let e = p.inicio(memoria);
            p.corresponden(e, rs) && p.correr(e, rs).fase == Fase::Fin && p.correr(e, rs).falla
                is None
        }),
    ensures
        ({
            let p = programa_consulta(db_path, usuario, password, c);
            let e = p.inicio(memoria);
            filas_anunciadas(p, inicio_recorrido(c), e, rs) == filas_entregadas(p, e, rs)
        }),
{
    let p = programa_consulta(db_path, usuario, password, c);
    let e = p.inicio(memoria);
    ley_consulta_valida(db_path, usuario, password, c);
    lema_conectar_lineal(Base::Empresa, db_path, usuario, password);
    ley_inicio_coherente(p, memoria);
    lema_inicio_fila(p, memoria);
    lema_cuenta(db_path, usuario, password, c, e, rs);
    ley_correr_coherente(p, e, rs);
    crate::microsip::exito::lema_inicio(p, memoria);
    crate::microsip::exito::lema_fin(p, e, rs);
}

} // verus!
