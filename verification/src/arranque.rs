//! El arranque del servidor: qué providers quedan activos y cuándo el proceso
//! se niega a levantar.

use std::sync::Arc;
use vstd::prelude::*;

use crate::api::ApiState;
use crate::catalogo::Catalogo;
use crate::cli::{
    admitir, es_admision, puerto, resolver_token, texto_bloqueado, texto_sin_auditar, token_de,
    Admision, ServerConfig, SIN_TOKEN,
};
use crate::error::IskandarError;
use crate::provider::ERPProvider;
use crate::security::{bloqueantes, ley_puerta, AuditError, AuditReport};

verus! {

/// Los providers presentados hasta ahora: los activos, y por qué el proceso
/// se niega a arrancar, si se niega.
pub struct Arranque<P> {
    pub activos: Catalogo<Arc<P>>,
    pub rechazo: Option<String>,
}

/// El contenido de un [`Arranque`].
pub struct ArranqueV<P> {
    pub activos: Map<Seq<char>, Arc<P>>,
    pub rechazo: Option<Seq<char>>,
}

impl<P> View for Arranque<P> {
    type V = ArranqueV<P>;

    open spec fn view(&self) -> ArranqueV<P> {
        ArranqueV {
            activos: self.activos@,
            rechazo: match self.rechazo {
                Some(t) => Some(t@),
                None => None,
            },
        }
    }
}

/// El servidor, listo para escuchar.
pub struct Servidor<P> {
    pub estado: ApiState<P>,
    pub puerto: u16,
}

/// Qué se hace con el resultado de construir un provider configurado.
pub enum Construccion<P> {
    /// Se construyó: se audita, si se puede, y se presenta.
    Presenta(Arc<P>),
    /// No se pudo construir: se sigue sin él. El texto dice por qué.
    Omite(String),
}

/// La auditoría deja activar al provider.
pub open spec fn admitido(auditoria: Option<Result<AuditReport, AuditError>>) -> bool {
    match auditoria {
        None => true,
        Some(Ok(r)) => bloqueantes(r.findings@).len() == 0,
        Some(Err(_)) => false,
    }
}

/// El error con el que una auditoría detiene el proceso; ninguno si deja
/// activar al provider.
pub open spec fn error_de(
    nombre: Seq<char>,
    auditoria: Option<Result<AuditReport, AuditError>>,
) -> Option<Seq<char>> {
    match auditoria {
        None => None,
        Some(Ok(r)) => if bloqueantes(r.findings@).len() == 0 {
            None
        } else {
            Some(texto_bloqueado(nombre))
        },
        Some(Err(e)) => Some(texto_sin_auditar(nombre, e)),
    }
}

/// El arranque tras presentar un provider. El primer rechazo no se levanta, y
/// después de él ya nada se activa.
pub open spec fn presentado<P>(
    v: ArranqueV<P>,
    nombre: Seq<char>,
    provider: Arc<P>,
    auditoria: Option<Result<AuditReport, AuditError>>,
) -> ArranqueV<P> {
    if v.rechazo is Some {
        v
    } else if admitido(auditoria) {
        ArranqueV { activos: v.activos.insert(nombre, provider), ..v }
    } else {
        ArranqueV { rechazo: error_de(nombre, auditoria), ..v }
    }
}

impl<P: ERPProvider> Arranque<P> {
    /// Ningún provider todavía.
    pub fn nuevo() -> (r: Arranque<P>)
        ensures
            r@ == (ArranqueV::<P> { activos: Map::empty(), rechazo: None }),
    {
        Arranque { activos: Catalogo::nuevo(), rechazo: None }
    }

    /// Qué hacer con un provider configurado según se haya podido construir o
    /// no. Uno que no se construye no detiene el proceso.
    pub fn construccion(&self, creado: Result<Arc<P>, IskandarError>) -> (r: Construccion<P>)
        ensures
            match (r, creado) {
                (Construccion::Presenta(p), Ok(q)) => p == q,
                (Construccion::Omite(t), Err(e)) => t@ == e@.texto(),
                _ => false,
            },
            creado is Ok <==> r is Presenta,
    {
        match creado {
            Ok(p) => Construccion::Presenta(p),
            Err(e) => Construccion::Omite(e.mensaje()),
        }
    }

    /// Presenta un provider construido, con su auditoría. Si se admite queda
    /// activo; si no, el proceso se niega a arrancar, y el primer rechazo es
    /// el que se recuerda.
    pub fn construido(
        &mut self,
        nombre: &str,
        provider: Arc<P>,
        auditoria: &Option<Result<AuditReport, AuditError>>,
    ) -> (r: Admision)
        ensures
            es_admision(nombre@, *auditoria, r),
            r is Admite <==> admitido(*auditoria),
            final(self)@ == presentado(old(self)@, nombre@, provider, *auditoria),
            old(self)@.rechazo is Some ==> final(self)@.activos == old(self)@.activos
                && final(self)@.rechazo == old(self)@.rechazo,
            old(self)@.rechazo is None && *auditoria is None ==> final(self)@.rechazo is None
                && final(self)@.activos
                == old(self)@.activos.insert(nombre@, provider),
            old(self)@.rechazo is None ==> (*auditoria matches Some(Ok(rep)) ==> {
                &&& (forall|i: int|
                    0 <= i < rep.findings@.len() ==> !((#[trigger] rep.findings@[i]).disposition
                        is Blocking)) ==> final(self)@.rechazo is None
                            && final(self)@.activos == old(self)@.activos.insert(
                    nombre@,
                    provider,
                )
                &&& (exists|i: int|
                    0 <= i < rep.findings@.len() && (#[trigger] rep.findings@[i]).disposition
                        is Blocking) ==> final(self)@.activos == old(self)@.activos
                            && final(self)@.rechazo == Some(
                    "provider '"@ + nombre@
                        + "': gate de seguridad BLOQUEADO — remedia los hallazgos de arriba y vuelve a intentar (ver `iskandar audit --provider "@
                        + nombre@ + "` para el detalle)"@,
                )
            }),
            old(self)@.rechazo is None ==> (*auditoria matches Some(Err(e)) ==> final(self)@.activos == old(self)@.activos
                && final(self)@.rechazo == Some(
                "no se pudo auditar la seguridad del provider '"@ + nombre@ + "' antes de arrancar: "@ + (
                match e {
                    AuditError::Unreachable(m) => "no se pudo alcanzar el sistema para auditar: "@
                        + m@,
                    AuditError::ProviderError(m) => "el provider falló durante el audit: "@ + m@,
                }),
            )),
    {
        proof {
            ley_presentado(old(self)@, nombre@, provider, *auditoria);
        }
        let r = admitir(nombre, auditoria);
        if self.rechazo.is_none() {
            match &r {
                Admision::Admite => self.activos.poner(nombre.to_owned(), provider),
                Admision::Bloquea { error, .. } => {
                    self.rechazo = Some(error.clone());
                },
                Admision::Falla { error } => {
                    self.rechazo = Some(error.clone());
                },
            }
        }
        r
    }

    /// El servidor con los providers admitidos. Tras un rechazo no hay servidor,
    /// y sin token tampoco.
    pub fn listo(self, entorno: Option<String>, pedido: Option<u16>, config: &ServerConfig) -> (r:
        Result<Servidor<P>, String>)
        ensures
            match r {
                Ok(s) => {
                    &&& self@.rechazo is None
                    &&& token_de(entorno, config.token) == Some(s.estado.api_token@)
                    &&& s.estado.providers == self.activos
                    &&& s.puerto == match pedido {
                        Some(p) => p,
                        None => config.port,
                    }
                },
                Err(e) => match self@.rechazo {
                    Some(t) => e@ == t,
                    None => token_de(entorno, config.token) is None && e@ == SIN_TOKEN@,
                },
            },
            self@.rechazo matches Some(t) ==> (r matches Err(e) && e@ == t),
            self@.rechazo is None && (entorno matches Some(t) && t@.len() > 0) ==> (r matches Ok(s)
                && s.estado.api_token@ == entorno->Some_0@ && s.estado.providers@ == self@.activos),
            self@.rechazo is None && (entorno matches Some(t) ==> t@.len() == 0)
                ==> match config.token {
                Some(t) if t@.len() > 0 => (r matches Ok(s) && s.estado.api_token@ == t@
                    && s.estado.providers@ == self@.activos),
                _ => (r matches Err(e) && e@
                    == "no se configuró un token de autenticación para la API — define la variable de entorno ISKANDAR_API_TOKEN o '[server].token' en la configuración antes de levantar el servidor"@),
            },
    {
        if let Some(e) = self.rechazo {
            return Err(e);
        }
        match resolver_token(entorno, config) {
            Ok(token) => Ok(
                Servidor {
                    estado: ApiState::new(self.activos, token),
                    puerto: puerto(pedido, config),
                },
            ),
            Err(e) => Err(e),
        }
    }
}

/// Un provider construido, con su nombre y su auditoría.
pub struct CandidatoV<P> {
    pub nombre: Seq<char>,
    pub provider: Arc<P>,
    pub auditoria: Option<Result<AuditReport, AuditError>>,
}

/// El arranque tras presentar a los candidatos en orden.
pub open spec fn arranque_tras<P>(c: Seq<CandidatoV<P>>) -> ArranqueV<P>
    decreases c.len(),
{
    if c.len() == 0 {
        ArranqueV { activos: Map::empty(), rechazo: None }
    } else {
        presentado(
            arranque_tras(c.drop_last()),
            c.last().nombre,
            c.last().provider,
            c.last().auditoria,
        )
    }
}

/// Todo o nada: presentados los candidatos en orden, no hay rechazo si y solo
/// si a todos se les admite, y entonces todos quedan activos. Un solo bloqueo,
/// o una sola auditoría que no corre, detiene el proceso venga quien venga
/// después, y el error es el del primero a quien no se admitió.
pub proof fn ley_todo_o_nada<P>(c: Seq<CandidatoV<P>>)
    ensures
        ({
            let v = arranque_tras(c);
            &&& v.rechazo is None <==> forall|i: int|
                0 <= i < c.len() ==> admitido((#[trigger] c[i]).auditoria)
            &&& v.rechazo is None ==> forall|i: int|
                0 <= i < c.len() ==> v.activos.contains_key((#[trigger] c[i]).nombre)
            &&& v.rechazo is Some ==> exists|i: int|
                {
                    &&& 0 <= i < c.len()
                    &&& !admitido((#[trigger] c[i]).auditoria)
                    &&& v.rechazo == error_de(c[i].nombre, c[i].auditoria)
                    &&& forall|j: int| 0 <= j < i ==> admitido((#[trigger] c[j]).auditoria)
                }
        }),
    decreases c.len(),
{
    if c.len() > 0 {
        let t = c.drop_last();
        ley_todo_o_nada(t);
        let n = c.len() - 1;
        let v = arranque_tras(c);
        assert(c[n] == c.last());
        assert(forall|i: int| 0 <= i < n ==> #[trigger] t[i] == c[i]);
        if v.rechazo is None {
            assert forall|i: int| 0 <= i < c.len() implies admitido((#[trigger] c[i]).auditoria)
                && v.activos.contains_key(c[i].nombre) by {
                if i < n {
                    assert(t[i] == c[i]);
                }
            }
        } else if arranque_tras(t).rechazo is Some {
            let i = choose|i: int|
                {
                    &&& 0 <= i < t.len()
                    &&& !admitido((#[trigger] t[i]).auditoria)
                    &&& v.rechazo == error_de(t[i].nombre, t[i].auditoria)
                    &&& forall|j: int| 0 <= j < i ==> admitido((#[trigger] t[j]).auditoria)
                };
            assert(c[i] == t[i]);
            assert forall|j: int| 0 <= j < i implies admitido((#[trigger] c[j]).auditoria) by {
                assert(t[j] == c[j]);
            }
        } else {
            assert(!admitido(c[n].auditoria));
            assert forall|j: int| 0 <= j < n implies admitido((#[trigger] c[j]).auditoria) by {
                assert(t[j] == c[j]);
            }
        }
    }
}

/// Presentar un provider lo activa si no se audita o si nada suyo bloquea, y si
/// no, detiene el arranque con un error que lo nombra. Tras un rechazo nada
/// cambia.
pub proof fn ley_presentado<P>(
    v: ArranqueV<P>,
    nombre: Seq<char>,
    provider: Arc<P>,
    auditoria: Option<Result<AuditReport, AuditError>>,
)
    ensures
            v.rechazo is Some ==> presentado(v, nombre, provider, auditoria).activos == v.activos
                && presentado(v, nombre, provider, auditoria).rechazo == v.rechazo,
            v.rechazo is None && auditoria is None
                ==> presentado(v, nombre, provider, auditoria).rechazo is None
                && presentado(v, nombre, provider, auditoria).activos
                == v.activos.insert(nombre, provider),
            v.rechazo is None ==> (auditoria matches Some(Ok(rep)) ==> {
                &&& (forall|i: int|
                    0 <= i < rep.findings@.len() ==> !((#[trigger] rep.findings@[i]).disposition
                        is Blocking)) ==> presentado(v, nombre, provider, auditoria).rechazo is None
                            && presentado(v, nombre, provider, auditoria).activos == v.activos.insert(
                    nombre,
                    provider,
                )
                &&& (exists|i: int|
                    0 <= i < rep.findings@.len() && (#[trigger] rep.findings@[i]).disposition
                        is Blocking)
                            ==> presentado(v, nombre, provider, auditoria).activos == v.activos
                            && presentado(v, nombre, provider, auditoria).rechazo == Some(
                    "provider '"@ + nombre
                        + "': gate de seguridad BLOQUEADO — remedia los hallazgos de arriba y vuelve a intentar (ver `iskandar audit --provider "@
                        + nombre + "` para el detalle)"@,
                )
            }),
            v.rechazo is None ==> (auditoria matches Some(Err(e)) ==> presentado(v, nombre, provider, auditoria).activos == v.activos
                && presentado(v, nombre, provider, auditoria).rechazo == Some(
                "no se pudo auditar la seguridad del provider '"@ + nombre + "' antes de arrancar: "@ + (
                match e {
                    AuditError::Unreachable(m) => "no se pudo alcanzar el sistema para auditar: "@
                        + m@,
                    AuditError::ProviderError(m) => "el provider falló durante el audit: "@ + m@,
                }),
            )),
{
    if let Some(Ok(r)) = auditoria {
        ley_puerta(r.findings@);
    }
}

/// Los activos son los candidatos y nadie más, cada uno con su provider; si un
/// nombre se repite, con el último.
pub proof fn ley_activos<P>(c: Seq<CandidatoV<P>>)
    requires
        arranque_tras(c).rechazo is None,
    ensures
        forall|i: int|
            0 <= i < c.len() && (forall|j: int| i < j < c.len() ==> (#[trigger] c[j]).nombre
                != c[i].nombre) ==> arranque_tras(c).activos.contains_key((#[trigger] c[i]).nombre)
                && arranque_tras(c).activos[c[i].nombre] == c[i].provider,
        forall|k: Seq<char>| #[trigger]
            arranque_tras(c).activos.contains_key(k) ==> exists|i: int|
                0 <= i < c.len() && (#[trigger] c[i]).nombre == k,
    decreases c.len(),
{
    if c.len() > 0 {
        let t = c.drop_last();
        let n = c.len() - 1;
        assert(c[n] == c.last());
        assert(forall|i: int| 0 <= i < n ==> #[trigger] t[i] == c[i]);
        assert(arranque_tras(t).rechazo is None);
        ley_activos(t);
        let v = arranque_tras(c).activos;
        assert forall|i: int|
            0 <= i < c.len() && (forall|j: int| i < j < c.len() ==> (#[trigger] c[j]).nombre
                != c[i].nombre) implies v.contains_key((#[trigger] c[i]).nombre)
            && v[c[i].nombre] == c[i].provider by {
            if i < n {
                assert(t[i] == c[i]);
                assert(c[n].nombre != c[i].nombre);
                assert forall|j: int| i < j < t.len() implies (#[trigger] t[j]).nombre
                    != t[i].nombre by {
                    assert(t[j] == c[j]);
                }
            }
        }
        assert forall|k: Seq<char>| #[trigger] v.contains_key(k) implies exists|i: int|
            0 <= i < c.len() && (#[trigger] c[i]).nombre == k by {
            if k == c[n].nombre {
                assert(c[n].nombre == k);
            } else {
                assert(arranque_tras(t).activos.contains_key(k));
                let i = choose|i: int| 0 <= i < t.len() && (#[trigger] t[i]).nombre == k;
                assert(c[i].nombre == k);
            }
        }
    }
}

} // verus!
