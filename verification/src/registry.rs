//! Registro de providers: de un nombre en la configuración a una instancia.

use vstd::prelude::*;

use crate::catalogo::Catalogo;
use crate::error::{ErrorV, IskandarError};

verus! {

/// Las fábricas de providers por nombre.
pub struct ProviderRegistry<F> {
    pub factories: Catalogo<F>,
}

impl<F> ProviderRegistry<F> {
    /// Un registro sin providers.
    pub fn new() -> (r: ProviderRegistry<F>)
        ensures
            r.factories@ == Map::<Seq<char>, F>::empty(),
    {
        ProviderRegistry { factories: Catalogo::nuevo() }
    }

    /// Registra una fábrica; la última con un nombre es la que vale.
    pub fn register(&mut self, name: String, factory: F)
        ensures
            final(self).factories@ == old(self).factories@.insert(name@, factory),
    {
        self.factories.poner(name, factory);
    }

    /// Construye el provider de ese nombre con su configuración.
    pub fn create<C, P>(&self, name: &str, config: &C) -> (r: Result<P, IskandarError>) where
        F: Fn(&C) -> Result<P, IskandarError>,

        requires
            self.factories@.contains_key(name@) ==> call_requires(
                self.factories@[name@],
                (config,),
            ),
        ensures
            if self.factories@.contains_key(name@) {
                call_ensures(self.factories@[name@], (config,), r)
            } else {
                r matches Err(e) && e@ == ErrorV::UnknownProvider(name@)
            },
    {
        match self.factories.tomar(name) {
            Some(factory) => factory(config),
            None => Err(IskandarError::UnknownProvider(name.to_owned())),
        }
    }

    /// Los nombres registrados, cada uno una vez.
    pub fn names(&self) -> (r: Vec<&str>)
        ensures
            forall|k: Seq<char>|
                self.factories@.contains_key(k) <==> exists|i: int|
                    0 <= i < r@.len() && (#[trigger] r@[i])@ == k,
            forall|i: int, j: int|
                0 <= i < j < r@.len() ==> (#[trigger] r@[i])@ != (#[trigger] r@[j])@,
    {
        self.factories.nombres()
    }
}

/// El último registro de un nombre es el que vale, y registrar un nombre no
/// toca a los demás.
pub proof fn ley_ultimo_registro<F>(
    antes: Map<Seq<char>, F>,
    name: Seq<char>,
    factory: F,
    otro: Seq<char>,
)
    ensures
        antes.insert(name, factory)[name] == factory,
        otro != name ==> antes.insert(name, factory).contains_key(otro) == antes.contains_key(otro),
        otro != name && antes.contains_key(otro) ==> antes.insert(name, factory)[otro]
            == antes[otro],
{
}

} // verus!
