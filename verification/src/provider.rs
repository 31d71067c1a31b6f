//! El contrato de un provider: su nombre y los módulos que anuncia.

use vstd::prelude::*;

use crate::models::common::Pais;

verus! {

/// Qué módulos anuncia un provider.
#[derive(Debug, Clone, Copy, PartialEq, Eq, Structural)]
pub struct Capacidades {
    pub clientes: bool,
    pub facturas: bool,
    pub pedidos: bool,
    pub inventario: bool,
    pub compras: bool,
    pub cxc: bool,
    pub contabilidad: bool,
    pub security: bool,
}

/// Un ERP integrado. Cada módulo es opcional: se anuncia entregándolo.
pub trait ERPProvider {
    type Clientes;

    type Facturas;

    type Pedidos;

    type Inventario;

    type Compras;

    type Cxc;

    type Contabilidad;

    type Security;

    /// El nombre canónico.
    spec fn nombre(&self) -> Seq<char>;

    /// Los países donde opera.
    spec fn lista_paises(&self) -> Seq<Pais>;

    spec fn modulo_clientes(&self) -> Option<&Self::Clientes>;

    spec fn modulo_facturas(&self) -> Option<&Self::Facturas>;

    spec fn modulo_pedidos(&self) -> Option<&Self::Pedidos>;

    spec fn modulo_inventario(&self) -> Option<&Self::Inventario>;

    spec fn modulo_compras(&self) -> Option<&Self::Compras>;

    spec fn modulo_cxc(&self) -> Option<&Self::Cxc>;

    spec fn modulo_contabilidad(&self) -> Option<&Self::Contabilidad>;

    spec fn modulo_security(&self) -> Option<&Self::Security>;

    fn name(&self) -> (r: &'static str)
        ensures
            r@ == self.nombre(),
    ;

    fn paises(&self) -> (r: Vec<Pais>)
        ensures
            r@ == self.lista_paises(),
    ;

    fn clientes(&self) -> (r: Option<&Self::Clientes>)
        ensures
            r == self.modulo_clientes(),
    ;

    fn facturas(&self) -> (r: Option<&Self::Facturas>)
        ensures
            r == self.modulo_facturas(),
    ;

    fn pedidos(&self) -> (r: Option<&Self::Pedidos>)
        ensures
            r == self.modulo_pedidos(),
    ;

    fn inventario(&self) -> (r: Option<&Self::Inventario>)
        ensures
            r == self.modulo_inventario(),
    ;

    fn compras(&self) -> (r: Option<&Self::Compras>)
        ensures
            r == self.modulo_compras(),
    ;

    fn cxc(&self) -> (r: Option<&Self::Cxc>)
        ensures
            r == self.modulo_cxc(),
    ;

    fn contabilidad(&self) -> (r: Option<&Self::Contabilidad>)
        ensures
            r == self.modulo_contabilidad(),
    ;

    fn security(&self) -> (r: Option<&Self::Security>)
        ensures
            r == self.modulo_security(),
    ;

    /// Los módulos que anuncia: los que entrega.
    fn capacidades(&self) -> (r: Capacidades)
        ensures
            r == (Capacidades {
                clientes: self.modulo_clientes() is Some,
                facturas: self.modulo_facturas() is Some,
                pedidos: self.modulo_pedidos() is Some,
                inventario: self.modulo_inventario() is Some,
                compras: self.modulo_compras() is Some,
                cxc: self.modulo_cxc() is Some,
                contabilidad: self.modulo_contabilidad() is Some,
                security: self.modulo_security() is Some,
            }),
    {
        Capacidades {
            clientes: self.clientes().is_some(),
            facturas: self.facturas().is_some(),
            pedidos: self.pedidos().is_some(),
            inventario: self.inventario().is_some(),
            compras: self.compras().is_some(),
            cxc: self.cxc().is_some(),
            contabilidad: self.contabilidad().is_some(),
            security: self.security().is_some(),
        }
    }
}

/// Los tipos de los módulos de un provider armado con ellos.
pub trait Modulos {
    type Clientes;

    type Facturas;

    type Pedidos;

    type Inventario;

    type Compras;

    type Cxc;

    type Contabilidad;

    type Security;

    /// Lo demás que el provider trae consigo.
    type Propio;
}

/// Un provider armado con sus módulos: anuncia los que trae.
pub struct Ensamble<M: Modulos> {
    pub nombre: &'static str,
    pub paises: Vec<Pais>,
    pub clientes: Option<M::Clientes>,
    pub facturas: Option<M::Facturas>,
    pub pedidos: Option<M::Pedidos>,
    pub inventario: Option<M::Inventario>,
    pub compras: Option<M::Compras>,
    pub cxc: Option<M::Cxc>,
    pub contabilidad: Option<M::Contabilidad>,
    pub security: Option<M::Security>,
    pub propio: M::Propio,
}

/// Una referencia a lo que una opción contiene.
pub open spec fn referencia<T>(o: &Option<T>) -> Option<&T> {
    match o {
        Some(t) => Some(t),
        None => None,
    }
}

fn referir<T>(o: &Option<T>) -> (r: Option<&T>)
    ensures
        r == referencia(o),
{
    match o {
        Some(t) => Some(t),
        None => None,
    }
}

impl<M: Modulos> ERPProvider for Ensamble<M> {
    type Clientes = M::Clientes;

    type Facturas = M::Facturas;

    type Pedidos = M::Pedidos;

    type Inventario = M::Inventario;

    type Compras = M::Compras;

    type Cxc = M::Cxc;

    type Contabilidad = M::Contabilidad;

    type Security = M::Security;

    open spec fn nombre(&self) -> Seq<char> {
        self.nombre@
    }

    open spec fn lista_paises(&self) -> Seq<Pais> {
        self.paises@
    }

    open spec fn modulo_clientes(&self) -> Option<&M::Clientes> {
        referencia(&self.clientes)
    }

    open spec fn modulo_facturas(&self) -> Option<&M::Facturas> {
        referencia(&self.facturas)
    }

    open spec fn modulo_pedidos(&self) -> Option<&M::Pedidos> {
        referencia(&self.pedidos)
    }

    open spec fn modulo_inventario(&self) -> Option<&M::Inventario> {
        referencia(&self.inventario)
    }

    open spec fn modulo_compras(&self) -> Option<&M::Compras> {
        referencia(&self.compras)
    }

    open spec fn modulo_cxc(&self) -> Option<&M::Cxc> {
        referencia(&self.cxc)
    }

    open spec fn modulo_contabilidad(&self) -> Option<&M::Contabilidad> {
        referencia(&self.contabilidad)
    }

    open spec fn modulo_security(&self) -> Option<&M::Security> {
        referencia(&self.security)
    }

    fn name(&self) -> (r: &'static str) {
        self.nombre
    }

    fn paises(&self) -> (r: Vec<Pais>) {
        let mut r: Vec<Pais> = Vec::new();
        let mut i: usize = 0;
        while i < self.paises.len()
            invariant
                i <= self.paises@.len(),
                r@ == self.paises@.take(i as int),
            decreases self.paises@.len() - i,
        {
            r.push(self.paises[i]);
            i = i + 1;
            proof {
                assert(r@ =~= self.paises@.take(i as int));
            }
        }
        proof {
            assert(self.paises@.take(i as int) =~= self.paises@);
        }
        r
    }

    fn clientes(&self) -> (r: Option<&M::Clientes>) {
        referir(&self.clientes)
    }

    fn facturas(&self) -> (r: Option<&M::Facturas>) {
        referir(&self.facturas)
    }

    fn pedidos(&self) -> (r: Option<&M::Pedidos>) {
        referir(&self.pedidos)
    }

    fn inventario(&self) -> (r: Option<&M::Inventario>) {
        referir(&self.inventario)
    }

    fn compras(&self) -> (r: Option<&M::Compras>) {
        referir(&self.compras)
    }

    fn cxc(&self) -> (r: Option<&M::Cxc>) {
        referir(&self.cxc)
    }

    fn contabilidad(&self) -> (r: Option<&M::Contabilidad>) {
        referir(&self.contabilidad)
    }

    fn security(&self) -> (r: Option<&M::Security>) {
        referir(&self.security)
    }
}

/// Un provider armado se anuncia con su nombre y sus países, y entrega cada
/// módulo que trae y ninguno que no.
pub proof fn ley_ensamble<M: Modulos>(p: Ensamble<M>)
    ensures
        p.nombre() == p.nombre@,
        p.lista_paises() == p.paises@,
        p.modulo_clientes() is Some <==> p.clientes is Some,
        p.clientes is Some ==> *p.modulo_clientes()->Some_0 == p.clientes->Some_0,
        p.modulo_facturas() is Some <==> p.facturas is Some,
        p.facturas is Some ==> *p.modulo_facturas()->Some_0 == p.facturas->Some_0,
        p.modulo_pedidos() is Some <==> p.pedidos is Some,
        p.pedidos is Some ==> *p.modulo_pedidos()->Some_0 == p.pedidos->Some_0,
        p.modulo_inventario() is Some <==> p.inventario is Some,
        p.inventario is Some ==> *p.modulo_inventario()->Some_0 == p.inventario->Some_0,
        p.modulo_compras() is Some <==> p.compras is Some,
        p.compras is Some ==> *p.modulo_compras()->Some_0 == p.compras->Some_0,
        p.modulo_cxc() is Some <==> p.cxc is Some,
        p.cxc is Some ==> *p.modulo_cxc()->Some_0 == p.cxc->Some_0,
        p.modulo_contabilidad() is Some <==> p.contabilidad is Some,
        p.contabilidad is Some ==> *p.modulo_contabilidad()->Some_0 == p.contabilidad->Some_0,
        p.modulo_security() is Some <==> p.security is Some,
        p.security is Some ==> *p.modulo_security()->Some_0 == p.security->Some_0,
{
}

} // verus!
