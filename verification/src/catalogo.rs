//! Un catálogo de valores por nombre, cada nombre una sola vez.

use vstd::prelude::*;

use crate::texto::iguales;

verus! {

/// Valores por nombre; ningún nombre se repite.
pub struct Catalogo<V> {
    entradas: Vec<(String, V)>,
}

impl<V> View for Catalogo<V> {
    type V = Map<Seq<char>, V>;

    closed spec fn view(&self) -> Map<Seq<char>, V> {
        mapa(self.entradas@)
    }
}

/// Las entradas como mapa.
spec fn mapa<V>(s: Seq<(String, V)>) -> Map<Seq<char>, V>
    decreases s.len(),
{
    if s.len() == 0 {
        Map::empty()
    } else {
        mapa(s.drop_last()).insert(s.last().0@, s.last().1)
    }
}

/// Ningún nombre se repite.
spec fn sin_repetir<V>(s: Seq<(String, V)>) -> bool {
    forall|i: int, j: int|
        0 <= i < j < s.len() ==> (#[trigger] s[i]).0@ != (#[trigger] s[j]).0@
}

proof fn lema_mapa_clave<V>(s: Seq<(String, V)>, k: Seq<char>)
    ensures
        mapa(s).contains_key(k) <==> exists|i: int| 0 <= i < s.len() && (#[trigger] s[i]).0@ == k,
    decreases s.len(),
{
    if s.len() > 0 {
        let t = s.drop_last();
        lema_mapa_clave(t, k);
        assert(s.last() == s[s.len() - 1]);
        if mapa(s).contains_key(k) && s.last().0@ != k {
            let i = choose|i: int| 0 <= i < t.len() && (#[trigger] t[i]).0@ == k;
            assert(s[i].0@ == k);
        }
        if exists|i: int| 0 <= i < s.len() && (#[trigger] s[i]).0@ == k {
            let i = choose|i: int| 0 <= i < s.len() && (#[trigger] s[i]).0@ == k;
            if i < t.len() {
                assert(t[i].0@ == k);
            }
        }
    }
}

proof fn lema_mapa_valor<V>(s: Seq<(String, V)>, i: int)
    requires
        sin_repetir(s),
        0 <= i < s.len(),
    ensures
        mapa(s).contains_key(s[i].0@),
        mapa(s)[s[i].0@] == s[i].1,
    decreases s.len(),
{
    if i < s.len() - 1 {
        let t = s.drop_last();
        assert(t[i] == s[i]);
        assert forall|a: int, b: int| 0 <= a < b < t.len() implies (#[trigger] t[a]).0@
            != (#[trigger] t[b]).0@ by {
            assert(s[a].0@ != s[b].0@);
        }
        lema_mapa_valor(t, i);
        assert(s[i].0@ != s[s.len() - 1].0@);
    }
}

proof fn lema_mapa_cambio<V>(s: Seq<(String, V)>, i: int, e: (String, V))
    requires
        sin_repetir(s),
        0 <= i < s.len(),
        e.0@ == s[i].0@,
    ensures
        sin_repetir(s.update(i, e)),
        mapa(s.update(i, e)) == mapa(s).insert(e.0@, e.1),
    decreases s.len(),
{
    let u = s.update(i, e);
    assert forall|a: int, b: int| 0 <= a < b < u.len() implies (#[trigger] u[a]).0@
        != (#[trigger] u[b]).0@ by {
        assert(s[a].0@ != s[b].0@);
    }
    let t = s.drop_last();
    assert forall|a: int, b: int| 0 <= a < b < t.len() implies (#[trigger] t[a]).0@
        != (#[trigger] t[b]).0@ by {
        assert(s[a].0@ != s[b].0@);
    }
    if i == s.len() - 1 {
        assert(u.drop_last() =~= t);
        assert(mapa(u) =~= mapa(s).insert(e.0@, e.1));
    } else {
        assert(u.drop_last() =~= t.update(i, e));
        lema_mapa_cambio(t, i, e);
        assert(s[i].0@ != s[s.len() - 1].0@);
        assert(mapa(u) =~= mapa(s).insert(e.0@, e.1));
    }
}

impl<V> Catalogo<V> {
    #[verifier::type_invariant]
    spec fn nombres_unicos(self) -> bool {
        sin_repetir(self.entradas@)
    }

    pub fn nuevo() -> (r: Catalogo<V>)
        ensures
            r@ == Map::<Seq<char>, V>::empty(),
    {
        Catalogo { entradas: Vec::new() }
    }

    fn posicion(&self, nombre: &str) -> (r: Option<usize>)
        ensures
            match r {
                Some(i) => i < self.entradas@.len() && self.entradas@[i as int].0@ == nombre@,
                None => !self@.contains_key(nombre@),
            },
    {
        let mut i: usize = 0;
        while i < self.entradas.len()
            invariant
                i <= self.entradas@.len(),
                forall|j: int| 0 <= j < i ==> (#[trigger] self.entradas@[j]).0@ != nombre@,
            decreases self.entradas@.len() - i,
        {
            if iguales(self.entradas[i].0.as_str(), nombre) {
                return Some(i);
            }
            i = i + 1;
        }
        proof {
            lema_mapa_clave(self.entradas@, nombre@);
        }
        None
    }

    /// Agrega un valor; si el nombre ya estaba, lo reemplaza.
    pub fn poner(&mut self, nombre: String, valor: V)
        ensures
            final(self)@ == old(self)@.insert(nombre@, valor),
    {
        proof {
            use_type_invariant(&*self);
        }
        let ghost antes = self.entradas@;
        let ghost clave = nombre@;
        let lugar = self.posicion(nombre.as_str());
        let mut previo: Catalogo<V> = Catalogo::nuevo();
        std::mem::swap(self, &mut previo);
        let mut entradas = previo.entradas;
        match lugar {
            Some(i) => {
                proof {
                    lema_mapa_cambio(antes, i as int, (nombre, valor));
                }
                entradas.set(i, (nombre, valor));
            },
            None => {
                proof {
                    lema_mapa_clave(antes, clave);
                    let u = antes.push((nombre, valor));
                    assert(u.drop_last() =~= antes);
                    assert forall|a: int, b: int| 0 <= a < b < u.len() implies (#[trigger] u[a]).0@
                        != (#[trigger] u[b]).0@ by {
                        if b < antes.len() {
                            assert(antes[a].0@ != antes[b].0@);
                        } else {
                            assert(antes[a].0@ != clave);
                        }
                    }
                }
                entradas.push((nombre, valor));
            },
        }
        *self = Catalogo { entradas };
    }

    /// El valor de un nombre.
    pub fn tomar(&self, nombre: &str) -> (r: Option<&V>)
        ensures
            match r {
                Some(v) => self@.contains_key(nombre@) && *v == self@[nombre@],
                None => !self@.contains_key(nombre@),
            },
    {
        match self.posicion(nombre) {
            Some(i) => {
                proof {
                    use_type_invariant(self);
                    lema_mapa_valor(self.entradas@, i as int);
                }
                Some(&self.entradas[i].1)
            },
            None => None,
        }
    }

    /// Los nombres, cada uno una vez.
    pub fn nombres(&self) -> (r: Vec<&str>)
        ensures
            forall|k: Seq<char>|
                self@.contains_key(k) <==> exists|i: int|
                    0 <= i < r@.len() && (#[trigger] r@[i])@ == k,
            forall|i: int, j: int|
                0 <= i < j < r@.len() ==> (#[trigger] r@[i])@ != (#[trigger] r@[j])@,
    {
        let mut r: Vec<&str> = Vec::new();
        let mut i: usize = 0;
        while i < self.entradas.len()
            invariant
                i <= self.entradas@.len(),
                r@.len() == i,
                forall|j: int| 0 <= j < i ==> (#[trigger] r@[j])@ == self.entradas@[j].0@,
            decreases self.entradas@.len() - i,
        {
            r.push(self.entradas[i].0.as_str());
            i = i + 1;
        }
        proof {
            use_type_invariant(self);
            assert forall|k: Seq<char>|
                self@.contains_key(k) <==> exists|i: int|
                    0 <= i < r@.len() && (#[trigger] r@[i])@ == k by {
                lema_mapa_clave(self.entradas@, k);
                if self@.contains_key(k) {
                    let i = choose|i: int|
                        0 <= i < self.entradas@.len() && (#[trigger] self.entradas@[i]).0@ == k;
                    assert(r@[i]@ == k);
                }
                if exists|i: int| 0 <= i < r@.len() && (#[trigger] r@[i])@ == k {
                    let i = choose|i: int| 0 <= i < r@.len() && (#[trigger] r@[i])@ == k;
                    assert(self.entradas@[i].0@ == k);
                }
            }
            assert forall|i: int, j: int| 0 <= i < j < r@.len() implies (#[trigger] r@[i])@
                != (#[trigger] r@[j])@ by {
                assert(self.entradas@[i].0@ != self.entradas@[j].0@);
            }
        }
        r
    }
}

} // verus!
