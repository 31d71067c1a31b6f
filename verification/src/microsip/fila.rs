//! La fila actual de una consulta y la lectura de sus campos.

use vstd::prelude::*;

use crate::cadena::{
    cstring, error_nul, lema_hasta_nul, leer_bufer, texto_de_bufer, utf8_con_reemplazo,
};
use crate::decimal::{Decimal, DecimalV, ESCALA_MAX};
use crate::error::{ErrorV, IskandarError};
use crate::garantias::textos::{ley_recorte, ley_recorte_de_rodeado};
use crate::texto::{es_blanco, iguales, leer_i64, parse_i64, recortado, recortar};

verus! {

/// Lo que la API nativa entregó al leer un campo como texto.
#[derive(Debug)]
pub struct LecturaTexto {
    pub campo: String,
    pub rc: i32,
    pub bufer: Vec<u8>,
}

/// Lo que la API nativa entregó al leer un campo como entero.
#[derive(Debug)]
pub struct LecturaEntero {
    pub campo: String,
    pub rc: i32,
    pub valor: i32,
}

/// Lector de los campos de una fila: guarda las lecturas crudas hechas sobre
/// la fila activa.
#[derive(Debug)]
pub struct RowReader {
    pub textos: Vec<LecturaTexto>,
    pub enteros: Vec<LecturaEntero>,
}

/// Las lecturas de una fila: por cada una, el campo, el código y lo leído.
pub struct FilaV {
    pub textos: Seq<(Seq<char>, i32, Seq<u8>)>,
    pub enteros: Seq<(Seq<char>, i32, i32)>,
}

impl View for RowReader {
    type V = FilaV;

    open spec fn view(&self) -> FilaV {
        FilaV {
            textos: Seq::new(
                self.textos@.len(),
                |i: int|
                    (self.textos@[i].campo@, self.textos@[i].rc, self.textos@[i].bufer@),
            ),
            enteros: Seq::new(
                self.enteros@.len(),
                |i: int|
                    (self.enteros@[i].campo@, self.enteros@[i].rc, self.enteros@[i].valor),
            ),
        }
    }
}

/// La posición de la primera lectura del campo.
pub open spec fn posicion<T>(lecturas: Seq<(Seq<char>, i32, T)>, campo: Seq<char>) -> int
    decreases lecturas.len(),
{
    if lecturas.len() == 0 || lecturas[0].0 == campo {
        0
    } else {
        1 + posicion(lecturas.drop_first(), campo)
    }
}

pub(crate) proof fn lema_posicion<T>(lecturas: Seq<(Seq<char>, i32, T)>, campo: Seq<char>, n: int)
    requires
        0 <= n <= lecturas.len(),
        forall|i: int| 0 <= i < n ==> (#[trigger] lecturas[i]).0 != campo,
        n < lecturas.len() ==> lecturas[n].0 == campo,
    ensures
        posicion(lecturas, campo) == n,
    decreases lecturas.len(),
{
    if n > 0 {
        let t = lecturas.drop_first();
        assert forall|i: int| 0 <= i < n - 1 implies (#[trigger] t[i]).0 != campo by {
            assert(t[i] == lecturas[i + 1]);
        }
        assert(lecturas[0].0 != campo);
        lema_posicion(t, campo, n - 1);
    }
}

/// El error de pedir un campo que no se leyó.
pub open spec fn error_sin_leer(campo: Seq<char>) -> ErrorV {
    ErrorV::Validation("campo sin leer: "@ + campo)
}

fn sin_leer(campo: &str) -> (e: IskandarError)
    ensures
        e@ == error_sin_leer(campo@),
{
    IskandarError::Validation("campo sin leer: ".to_owned().concat(campo))
}

impl FilaV {
    pub open spec fn vacia() -> FilaV {
        FilaV { textos: seq![], enteros: seq![] }
    }

    /// `true` si el campo se leyó como texto.
    pub open spec fn tiene_texto(self, campo: Seq<char>) -> bool {
        posicion(self.textos, campo) < self.textos.len()
    }

    /// `true` si el campo se leyó como entero.
    pub open spec fn tiene_entero(self, campo: Seq<char>) -> bool {
        posicion(self.enteros, campo) < self.enteros.len()
    }

    /// El texto de un campo, recortado, o el error de su lectura.
    pub open spec fn texto(self, campo: Seq<char>) -> Result<Seq<char>, ErrorV> {
        let (_, rc, bufer) = self.textos[posicion(self.textos, campo)];
        if campo.contains('\0') {
            Err(error_nul(campo))
        } else if !self.tiene_texto(campo) {
            Err(error_sin_leer(campo))
        } else if rc != 0 {
            Err(
                ErrorV::Provider {
                    code: rc,
                    message: "error leyendo campo '"@ + campo + "'"@,
                },
            )
        } else {
            Ok(recortado(texto_de_bufer(bufer)))
        }
    }

    /// El texto no vacío de un campo; `None` si está vacío o no se pudo leer.
    pub open spec fn texto_opcional(self, campo: Seq<char>) -> Option<Seq<char>> {
        match self.texto(campo) {
            Ok(s) if s.len() > 0 => Some(s),
            _ => None,
        }
    }

    /// El decimal de un campo guardado sin punto; `None` si está vacío, no se
    /// pudo leer o no es un entero.
    pub open spec fn decimal_opcional(self, campo: Seq<char>, escala: u32) -> Option<DecimalV> {
        match self.texto_opcional(campo) {
            Some(s) => match leer_i64(recortado(s)) {
                Some(n) => Some(DecimalV { mantisa: n as int, escala: escala as int }),
                None => None,
            },
            None => None,
        }
    }

    /// El valor entero de un campo o el error de su lectura.
    pub open spec fn entero(self, campo: Seq<char>) -> Result<i32, ErrorV> {
        let (_, rc, valor) = self.enteros[posicion(self.enteros, campo)];
        if campo.contains('\0') {
            Err(error_nul(campo))
        } else if !self.tiene_entero(campo) {
            Err(error_sin_leer(campo))
        } else if rc != 0 {
            Err(
                ErrorV::Provider {
                    code: rc,
                    message: "error leyendo campo int '"@ + campo + "'"@,
                },
            )
        } else {
            Ok(valor)
        }
    }
}

/// La primera lectura de `campo` como texto dio código 0, y lo que había en el
/// búfer antes del primer NUL es, sin blancos en los extremos, `t`.
pub open spec fn leyo(fila: FilaV, campo: Seq<char>, t: Seq<char>) -> bool {
    exists|i: int, n: int|
        {
            &&& 0 <= i < fila.textos.len()
            &&& fila.textos[i].0 == campo
            &&& fila.textos[i].1 == 0
            &&& forall|j: int| 0 <= j < i ==> (#[trigger] fila.textos[j]).0 != campo
            &&& 0 <= n <= fila.textos[i].2.len()
            &&& n == fila.textos[i].2.len() || fila.textos[i].2[n] == 0
            &&& forall|k: int| 0 <= k < n ==> fila.textos[i].2[k] != 0
            &&& t == recortado(utf8_con_reemplazo(#[trigger] fila.textos[i].2.take(n)))
        }
}

/// La primera lectura de `campo` como texto dio el código `rc`, que no es 0.
pub open spec fn fallo_texto(fila: FilaV, campo: Seq<char>, rc: i32) -> bool {
    rc != 0 && exists|i: int|
        {
            &&& 0 <= i < fila.textos.len()
            &&& (#[trigger] fila.textos[i]).0 == campo
            &&& fila.textos[i].1 == rc
            &&& forall|j: int| 0 <= j < i ==> (#[trigger] fila.textos[j]).0 != campo
        }
}

/// La primera lectura de `campo` como entero dio código 0 y el valor `v`.
pub open spec fn leyo_entero(fila: FilaV, campo: Seq<char>, v: i32) -> bool {
    exists|i: int|
        {
            &&& 0 <= i < fila.enteros.len()
            &&& (#[trigger] fila.enteros[i]) == (campo, 0i32, v)
            &&& forall|j: int| 0 <= j < i ==> (#[trigger] fila.enteros[j]).0 != campo
        }
}

/// La primera lectura de `campo` como entero dio el código `rc`, que no es 0.
pub open spec fn fallo_entero(fila: FilaV, campo: Seq<char>, rc: i32) -> bool {
    rc != 0 && exists|i: int|
        {
            &&& 0 <= i < fila.enteros.len()
            &&& (#[trigger] fila.enteros[i]).0 == campo
            &&& fila.enteros[i].1 == rc
            &&& forall|j: int| 0 <= j < i ==> (#[trigger] fila.enteros[j]).0 != campo
        }
}

/// El texto de un campo es el que se leyó con código 0, y su error, el código
/// de la lectura cuando es otro.
pub open spec fn lecturas_de_texto(fila: FilaV, campo: Seq<char>) -> bool {
    &&& forall|t: Seq<char>| #[trigger]
        leyo(fila, campo, t) ==> fila.texto(campo) == Ok::<_, ErrorV>(t)
    &&& forall|rc: i32| #[trigger]
        fallo_texto(fila, campo, rc) ==> fila.texto(campo) == Err::<Seq<char>, _>(
            ErrorV::Provider { code: rc, message: "error leyendo campo '"@ + campo + "'"@ },
        )
}

/// El entero de un campo es el que se leyó con código 0, y su error, el código
/// de la lectura cuando es otro.
pub open spec fn lecturas_de_entero(fila: FilaV, campo: Seq<char>) -> bool {
    &&& forall|v: i32| #[trigger]
        leyo_entero(fila, campo, v) ==> fila.entero(campo) == Ok::<_, ErrorV>(v)
    &&& forall|rc: i32| #[trigger]
        fallo_entero(fila, campo, rc) ==> fila.entero(campo) == Err::<i32, _>(
            ErrorV::Provider { code: rc, message: "error leyendo campo int '"@ + campo + "'"@ },
        )
}

/// Un campo que se leyó con código 0 da su texto recortado, y uno cuya lectura
/// dio otro código da ese código en un error que nombra el campo.
pub proof fn ley_campo_texto(fila: FilaV, campo: Seq<char>)
    requires
        !campo.contains('\0'),
    ensures
        lecturas_de_texto(fila, campo),
{
    assert forall|t: Seq<char>| #[trigger] leyo(fila, campo, t) implies fila.texto(campo) == Ok::<
        _,
        ErrorV,
    >(t) by {
        let (i, n) = choose|i: int, n: int|
            {
                &&& 0 <= i < fila.textos.len()
                &&& fila.textos[i].0 == campo
                &&& fila.textos[i].1 == 0
                &&& forall|j: int| 0 <= j < i ==> (#[trigger] fila.textos[j]).0 != campo
                &&& 0 <= n <= fila.textos[i].2.len()
                &&& n == fila.textos[i].2.len() || fila.textos[i].2[n] == 0
                &&& forall|k: int| 0 <= k < n ==> fila.textos[i].2[k] != 0
                &&& t == recortado(utf8_con_reemplazo(#[trigger] fila.textos[i].2.take(n)))
            };
        lema_posicion(fila.textos, campo, i);
        lema_hasta_nul(fila.textos[i].2, n);
    }
    assert forall|rc: i32| #[trigger] fallo_texto(fila, campo, rc) implies fila.texto(campo)
        == Err::<Seq<char>, _>(
        ErrorV::Provider { code: rc, message: "error leyendo campo '"@ + campo + "'"@ },
    ) by {
        let i = choose|i: int|
            {
                &&& 0 <= i < fila.textos.len()
                &&& (#[trigger] fila.textos[i]).0 == campo
                &&& fila.textos[i].1 == rc
                &&& forall|j: int| 0 <= j < i ==> (#[trigger] fila.textos[j]).0 != campo
            };
        lema_posicion(fila.textos, campo, i);
    }
}

/// Un campo que se leyó como entero con código 0 da su valor, y uno cuya
/// lectura dio otro código da ese código en un error que nombra el campo.
pub proof fn ley_campo_entero(fila: FilaV, campo: Seq<char>)
    requires
        !campo.contains('\0'),
    ensures
        lecturas_de_entero(fila, campo),
{
    assert forall|v: i32| #[trigger] leyo_entero(fila, campo, v) implies fila.entero(campo)
        == Ok::<_, ErrorV>(v) by {
        let i = choose|i: int|
            {
                &&& 0 <= i < fila.enteros.len()
                &&& (#[trigger] fila.enteros[i]) == (campo, 0i32, v)
                &&& forall|j: int| 0 <= j < i ==> (#[trigger] fila.enteros[j]).0 != campo
            };
        lema_posicion(fila.enteros, campo, i);
    }
    assert forall|rc: i32| #[trigger] fallo_entero(fila, campo, rc) implies fila.entero(campo)
        == Err::<i32, _>(
        ErrorV::Provider { code: rc, message: "error leyendo campo int '"@ + campo + "'"@ },
    ) by {
        let i = choose|i: int|
            {
                &&& 0 <= i < fila.enteros.len()
                &&& (#[trigger] fila.enteros[i]).0 == campo
                &&& fila.enteros[i].1 == rc
                &&& forall|j: int| 0 <= j < i ==> (#[trigger] fila.enteros[j]).0 != campo
            };
        lema_posicion(fila.enteros, campo, i);
    }
}

/// Pedir un campo del que no hay lectura es un error que lo nombra.
pub proof fn ley_campo_sin_leer(fila: FilaV, campo: Seq<char>)
    requires
        !campo.contains('\0'),
    ensures
        (forall|i: int| 0 <= i < fila.textos.len() ==> (#[trigger] fila.textos[i]).0 != campo)
            ==> fila.texto(campo) == Err::<Seq<char>, _>(
            ErrorV::Validation("campo sin leer: "@ + campo),
        ),
        (forall|i: int| 0 <= i < fila.enteros.len() ==> (#[trigger] fila.enteros[i]).0 != campo)
            ==> fila.entero(campo) == Err::<i32, _>(
            ErrorV::Validation("campo sin leer: "@ + campo),
        ),
{
    if forall|i: int| 0 <= i < fila.textos.len() ==> (#[trigger] fila.textos[i]).0 != campo {
        lema_posicion(fila.textos, campo, fila.textos.len() as int);
    }
    if forall|i: int| 0 <= i < fila.enteros.len() ==> (#[trigger] fila.enteros[i]).0 != campo {
        lema_posicion(fila.enteros, campo, fila.enteros.len() as int);
    }
}

/// Lo que se lee de un campo de texto no lleva blancos en los extremos.
pub proof fn ley_leyo_recortado(fila: FilaV, campo: Seq<char>, t: Seq<char>)
    requires
        leyo(fila, campo, t),
    ensures
        t.len() > 0 ==> !es_blanco(t[0]) && !es_blanco(t[t.len() - 1]),
        recortado(t) == t,
{
    let crudo = choose|crudo: Seq<char>| t == #[trigger] recortado(crudo);
    ley_recorte(crudo);
    ley_recorte_de_rodeado(seq![], t, seq![]);
    assert(Seq::<char>::empty() + t + Seq::<char>::empty() =~= t);
}

/// El decimal de un campo leído: las cifras del campo, con la escala pedida. Si
/// el campo no trae un entero no hay decimal.
pub proof fn ley_campo_decimal(fila: FilaV, campo: Seq<char>, escala: u32, t: Seq<char>)
    requires
        !campo.contains('\0'),
        leyo(fila, campo, t),
    ensures
        match (fila.decimal_opcional(campo, escala), leer_i64(t)) {
            (Some(d), Some(n)) => d.mantisa == n && d.escala == escala,
            (None, None) => true,
            _ => false,
        },
        fila.texto_opcional(campo) == (if t.len() > 0 {
            Some(t)
        } else {
            None
        }),
{
    ley_campo_texto(fila, campo);
    ley_leyo_recortado(fila, campo, t);
}

/// Un resultado de texto comparado con su contenido.
pub open spec fn es_texto(r: Result<String, IskandarError>, v: Result<Seq<char>, ErrorV>) -> bool {
    match (r, v) {
        (Ok(s), Ok(t)) => s@ == t,
        (Err(e), Err(f)) => e@ == f,
        _ => false,
    }
}

/// Un texto opcional comparado con su contenido.
pub open spec fn es_texto_opcional(r: Option<String>, v: Option<Seq<char>>) -> bool {
    match (r, v) {
        (Some(s), Some(t)) => s@ == t,
        (None, None) => true,
        _ => false,
    }
}

impl RowReader {
    pub fn nuevo() -> (r: RowReader)
        ensures
            r@ == FilaV::vacia(),
    {
        let r = RowReader { textos: Vec::new(), enteros: Vec::new() };
        proof {
            assert(r@.textos =~= seq![]);
            assert(r@.enteros =~= seq![]);
        }
        r
    }

    /// Registra la lectura de un campo de texto.
    pub fn agregar_texto(&mut self, campo: &str, rc: i32, bufer: Vec<u8>)
        ensures
            final(self)@ == (FilaV {
                textos: old(self)@.textos.push((campo@, rc, bufer@)),
                ..old(self)@
            }),
    {
        self.textos.push(LecturaTexto { campo: campo.to_owned(), rc, bufer });
        proof {
            assert(self@.textos =~= old(self)@.textos.push((campo@, rc, bufer@)));
            assert(self@.enteros =~= old(self)@.enteros);
        }
    }

    /// Registra la lectura de un campo entero.
    pub fn agregar_entero(&mut self, campo: &str, rc: i32, valor: i32)
        ensures
            final(self)@ == (FilaV {
                enteros: old(self)@.enteros.push((campo@, rc, valor)),
                ..old(self)@
            }),
    {
        self.enteros.push(LecturaEntero { campo: campo.to_owned(), rc, valor });
        proof {
            assert(self@.enteros =~= old(self)@.enteros.push((campo@, rc, valor)));
            assert(self@.textos =~= old(self)@.textos);
        }
    }

    /// Lee un campo de texto, recortado. Falla si la lectura falló.
    pub fn str_field(&self, name: &str) -> (r: Result<String, IskandarError>)
        ensures
            es_texto(r, self@.texto(name@)),
            forall|t: Seq<char>| #[trigger]
                leyo(self@, name@, t) && !name@.contains('\0') ==> (r matches Ok(s) && s@ == t),
            forall|rc: i32| #[trigger]
                fallo_texto(self@, name@, rc) && !name@.contains('\0') ==> (r matches Err(e) && e@
                    == (ErrorV::Provider {
                    code: rc,
                    message: "error leyendo campo '"@ + name@ + "'"@,
                })),
    {
        proof {
            if !name@.contains('\0') {
                ley_campo_texto(self@, name@);
            }
        }
        if let Err(e) = cstring(name) {
            return Err(e);
        }
        let mut i: usize = 0;
        while i < self.textos.len() && !iguales(self.textos[i].campo.as_str(), name)
            invariant
                i <= self.textos@.len(),
                forall|j: int| 0 <= j < i ==> (#[trigger] self@.textos[j]).0 != name@,
            decreases self.textos@.len() - i,
        {
            i = i + 1;
        }
        proof {
            lema_posicion(self@.textos, name@, i as int);
        }
        if i == self.textos.len() {
            return Err(sin_leer(name));
        }
        let rc: i32 = self.textos[i].rc;
        if rc != 0 {
            return Err(
                IskandarError::Provider {
                    code: rc,
                    message: "error leyendo campo '".to_owned().concat(name).concat("'"),
                },
            );
        }
        Ok(recortar(leer_bufer(&self.textos[i].bufer).as_str()))
    }

    /// Lee un campo de texto; `None` si está vacío o la lectura falló.
    pub fn opt_str(&self, name: &str) -> (r: Option<String>)
        ensures
            es_texto_opcional(r, self@.texto_opcional(name@)),
            forall|t: Seq<char>| #[trigger]
                leyo(self@, name@, t) && !name@.contains('\0') ==> match r {
                    Some(s) => s@ == t && t.len() > 0,
                    None => t.len() == 0,
                },
            forall|rc: i32| #[trigger]
                fallo_texto(self@, name@, rc) && !name@.contains('\0') ==> r is None,
    {
        match self.str_field(name) {
            Ok(s) => if s.as_str().is_empty() {
                None
            } else {
                Some(s)
            },
            Err(_) => None,
        }
    }

    /// Lee un decimal guardado sin punto («150000» con escala 2 es 1500.00);
    /// `None` si no hay dato, nunca 0 en su lugar.
    pub fn opt_dec(&self, name: &str, escala: u32) -> (r: Option<Decimal>)
        requires
            escala <= ESCALA_MAX,
        ensures
            match (r, self@.decimal_opcional(name@, escala)) {
                (Some(d), Some(v)) => d@ == v,
                (None, None) => true,
                _ => false,
            },
            forall|t: Seq<char>| #[trigger]
                leyo(self@, name@, t) && !name@.contains('\0') ==> match (r, leer_i64(t)) {
                    (Some(d), Some(n)) => d@.mantisa == n && d@.escala == escala,
                    (None, None) => true,
                    _ => false,
                },
            forall|rc: i32| #[trigger]
                fallo_texto(self@, name@, rc) && !name@.contains('\0') ==> r is None,
    {
        proof {
            assert forall|t: Seq<char>| #[trigger] leyo(self@, name@, t) implies recortado(t)
                == t by {
                ley_leyo_recortado(self@, name@, t);
            }
        }
        match self.opt_str(name) {
            Some(s) => match parse_i64(recortar(s.as_str()).as_str()) {
                Some(n) => Some(Decimal::new(n, escala)),
                None => None,
            },
            None => None,
        }
    }

    /// Lee un campo entero.
    pub fn int_field(&self, name: &str) -> (r: Result<i32, IskandarError>)
        ensures
            match (r, self@.entero(name@)) {
                (Ok(n), Ok(m)) => n == m,
                (Err(e), Err(f)) => e@ == f,
                _ => false,
            },
            forall|v: i32| #[trigger]
                leyo_entero(self@, name@, v) && !name@.contains('\0') ==> (r matches Ok(n) && n
                    == v),
            forall|rc: i32| #[trigger]
                fallo_entero(self@, name@, rc) && !name@.contains('\0') ==> (r matches Err(e) && e@
                    == (ErrorV::Provider {
                    code: rc,
                    message: "error leyendo campo int '"@ + name@ + "'"@,
                })),
    {
        proof {
            if !name@.contains('\0') {
                ley_campo_entero(self@, name@);
            }
        }
        if let Err(e) = cstring(name) {
            return Err(e);
        }
        let mut i: usize = 0;
        while i < self.enteros.len() && !iguales(self.enteros[i].campo.as_str(), name)
            invariant
                i <= self.enteros@.len(),
                forall|j: int| 0 <= j < i ==> (#[trigger] self@.enteros[j]).0 != name@,
            decreases self.enteros@.len() - i,
        {
            i = i + 1;
        }
        proof {
            lema_posicion(self@.enteros, name@, i as int);
        }
        if i == self.enteros.len() {
            return Err(sin_leer(name));
        }
        let rc: i32 = self.enteros[i].rc;
        if rc != 0 {
            return Err(
                IskandarError::Provider {
                    code: rc,
                    message: "error leyendo campo int '".to_owned().concat(name).concat("'"),
                },
            );
        }
        Ok(self.enteros[i].valor)
    }
}

/// Un campo ausente nunca se vuelve cero: si la lectura falló o vino vacía no
/// hay decimal, y si lo hay es el entero que se leyó.
pub proof fn ley_sin_dato_no_es_cero(fila: FilaV, campo: Seq<char>, escala: u32)
    ensures
        fila.texto(campo) is Err || fila.texto(campo)->Ok_0.len() == 0 ==> fila.decimal_opcional(
            campo,
            escala,
        ) is None,
        fila.decimal_opcional(campo, escala) matches Some(d) ==> leer_i64(
            recortado(fila.texto(campo)->Ok_0),
        ) == Some(d.mantisa as i64),
{
}

} // verus!
