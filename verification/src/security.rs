//! El resultado de auditar un sistema antes de conectarse a él.
//!
//! La severidad dice qué tan grave es un hallazgo; la disposición dice si
//! bloquea la conexión. Son independientes, y solo la segunda decide.

use vstd::prelude::*;

use crate::garantias::seguridad::ley_bloqueantes;

verus! {

/// Identificador estable de un tipo de hallazgo.
#[derive(Debug, Clone, Copy, PartialEq, Eq, Hash)]
pub struct FindingId(pub &'static str);

/// Qué tan grave es el hallazgo. No decide la puerta.
#[derive(Debug, Clone, Copy, PartialEq, Eq, Structural, PartialOrd, Ord)]
pub enum Severity {
    Info,
    Low,
    Medium,
    High,
    Critical,
}

impl Severity {
    /// El grado, de menos a más grave.
    pub open spec fn grado(self) -> int {
        match self {
            Severity::Info => 0,
            Severity::Low => 1,
            Severity::Medium => 2,
            Severity::High => 3,
            Severity::Critical => 4,
        }
    }

    pub fn nivel(self) -> (r: u8)
        ensures
            r == self.grado(),
    {
        match self {
            Severity::Info => 0,
            Severity::Low => 1,
            Severity::Medium => 2,
            Severity::High => 3,
            Severity::Critical => 4,
        }
    }
}

/// Qué se hace con el hallazgo.
#[derive(Debug, Clone, Copy, PartialEq, Eq, Structural)]
pub enum Disposition {
    /// No hay conexión hasta que se remedie.
    Blocking,
    /// Se informa al dueño; la decisión es suya.
    Informational,
}

/// Cómo se confirma una remediación.
#[derive(Debug, Clone, Copy, PartialEq, Eq, Structural)]
pub enum Reverify {
    /// Se repite el chequeo; el hallazgo debe desaparecer.
    ReRunCheck,
    /// El dueño acepta el riesgo por escrito. Nunca salta un bloqueo.
    OwnerWaiver,
}

/// Lo que el dueño debe hacer para cerrar el hallazgo.
#[derive(Debug, Clone)]
pub struct Remediation {
    pub summary: String,
    pub steps: Vec<String>,
    pub reverify: Reverify,
}

/// Constancia de que el dueño aceptó el riesgo de un hallazgo.
#[derive(Debug, Clone)]
pub struct Waiver {
    pub granted_at: String,
    pub note: String,
}

/// Un hallazgo de seguridad.
#[derive(Debug, Clone)]
pub struct Finding {
    pub id: FindingId,
    pub title: String,
    pub detail: String,
    pub severity: Severity,
    pub disposition: Disposition,
    pub remediation: Remediation,
    pub evidence: Option<String>,
    /// Solo informa: la puerta no lo consulta.
    pub waived: Option<Waiver>,
}

impl Finding {
    pub fn is_blocking(&self) -> (r: bool)
        ensures
            r == (self.disposition == Disposition::Blocking),
    {
        matches!(self.disposition, Disposition::Blocking)
    }
}

/// Los hallazgos que bloquean, en su orden.
pub open spec fn bloqueantes(s: Seq<Finding>) -> Seq<Finding>
    decreases s.len(),
{
    if s.len() == 0 {
        seq![]
    } else if s.last().disposition == Disposition::Blocking {
        bloqueantes(s.drop_last()).push(s.last())
    } else {
        bloqueantes(s.drop_last())
    }
}

/// Los identificadores de unos hallazgos.
pub open spec fn ids_de(s: Seq<Finding>) -> Seq<FindingId> {
    Seq::new(s.len(), |i: int| s[i].id)
}

/// El reporte de auditar un provider.
#[derive(Debug, Clone)]
pub struct AuditReport {
    pub provider: &'static str,
    pub findings: Vec<Finding>,
}

/// El veredicto de la puerta.
#[derive(Debug, Clone, PartialEq, Eq)]
pub enum GateOutcome {
    /// Sin bloqueantes: la conexión puede continuar.
    Clear,
    /// Hay bloqueantes: no hay conexión.
    Blocked { blockers: Vec<FindingId> },
}

impl GateOutcome {
    /// Los bloqueantes del veredicto; ninguno si la puerta está abierta.
    pub open spec fn ids(self) -> Seq<FindingId> {
        match self {
            GateOutcome::Clear => seq![],
            GateOutcome::Blocked { blockers } => blockers@,
        }
    }

    pub fn is_clear(&self) -> (r: bool)
        ensures
            r == (*self is Clear),
    {
        matches!(self, GateOutcome::Clear)
    }
}

impl AuditReport {
    /// Los hallazgos que bloquean, en el orden del reporte.
    pub fn blockers(&self) -> (r: Vec<&Finding>)
        ensures
            r@.len() == bloqueantes(self.findings@).len(),
            forall|i: int| 0 <= i < r@.len() ==> *#[trigger] r@[i] == bloqueantes(self.findings@)[i],
    {
        let mut r: Vec<&Finding> = Vec::new();
        let mut i: usize = 0;
        proof {
            assert(self.findings@.take(0) =~= seq![]);
        }
        while i < self.findings.len()
            invariant
                i <= self.findings@.len(),
                r@.len() == bloqueantes(self.findings@.take(i as int)).len(),
                forall|j: int|
                    0 <= j < r@.len() ==> *#[trigger] r@[j] == bloqueantes(
                        self.findings@.take(i as int),
                    )[j],
            decreases self.findings@.len() - i,
        {
            proof {
                assert(self.findings@.take(i + 1).drop_last() =~= self.findings@.take(i as int));
            }
            if self.findings[i].is_blocking() {
                r.push(&self.findings[i]);
            }
            i = i + 1;
        }
        proof {
            assert(self.findings@.take(i as int) =~= self.findings@);
        }
        r
    }

    /// ¿Pasó la puerta?
    pub fn gate(&self) -> (r: GateOutcome)
        ensures
            r is Clear <==> bloqueantes(self.findings@).len() == 0,
            r.ids() == ids_de(bloqueantes(self.findings@)),
            r is Clear <==> forall|i: int|
                0 <= i < self.findings@.len() ==> !((#[trigger] self.findings@[i]).disposition
                    is Blocking),
            r.ids() == self.findings@.filter(|f: Finding| f.disposition is Blocking).map_values(
                |f: Finding| f.id,
            ),
    {
        proof {
            ley_puerta(self.findings@);
            ley_bloqueantes(self.findings@);
        }
        let bloquean = self.blockers();
        let mut blockers: Vec<FindingId> = Vec::new();
        let mut i: usize = 0;
        while i < bloquean.len()
            invariant
                i <= bloquean@.len(),
                blockers@.len() == i,
                bloquean@.len() == bloqueantes(self.findings@).len(),
                forall|j: int|
                    0 <= j < bloquean@.len() ==> *#[trigger] bloquean@[j] == bloqueantes(
                        self.findings@,
                    )[j],
                forall|j: int|
                    0 <= j < i ==> #[trigger] blockers@[j] == bloqueantes(self.findings@)[j].id,
            decreases bloquean@.len() - i,
        {
            blockers.push(bloquean[i].id);
            i = i + 1;
        }
        proof {
            assert(blockers@ =~= ids_de(bloqueantes(self.findings@)));
        }
        if blockers.len() == 0 {
            GateOutcome::Clear
        } else {
            GateOutcome::Blocked { blockers }
        }
    }
}

/// La puerta se abre si y solo si ningún hallazgo bloquea.
pub proof fn ley_puerta(s: Seq<Finding>)
    ensures
        bloqueantes(s).len() == 0 <==> forall|i: int|
            0 <= i < s.len() ==> (#[trigger] s[i]).disposition != Disposition::Blocking,
    decreases s.len(),
{
    if s.len() > 0 {
        let t = s.drop_last();
        ley_puerta(t);
        assert(forall|i: int| 0 <= i < t.len() ==> #[trigger] t[i] == s[i]);
        assert(s.last() == s[s.len() - 1]);
        if forall|i: int| 0 <= i < s.len() ==> (#[trigger] s[i]).disposition
            != Disposition::Blocking {
            assert(forall|i: int| 0 <= i < t.len() ==> (#[trigger] t[i]).disposition
                != Disposition::Blocking);
        }
        if bloqueantes(s).len() == 0 {
            assert forall|i: int| 0 <= i < s.len() implies (#[trigger] s[i]).disposition
                != Disposition::Blocking by {
                if i < t.len() {
                    assert(t[i].disposition != Disposition::Blocking);
                }
            }
        }
    }
}

/// Ni la gravedad ni la aceptación del riesgo cambian el veredicto: dos
/// reportes con los mismos identificadores y disposiciones dan el mismo.
pub proof fn ley_puerta_solo_disposicion(a: Seq<Finding>, b: Seq<Finding>)
    requires
        a.len() == b.len(),
        forall|i: int|
            0 <= i < a.len() ==> (#[trigger] a[i]).id == b[i].id && a[i].disposition
                == b[i].disposition,
    ensures
        ids_de(bloqueantes(a)) == ids_de(bloqueantes(b)),
    decreases a.len(),
{
    if a.len() > 0 {
        let s = a.drop_last();
        let t = b.drop_last();
        assert forall|i: int| 0 <= i < s.len() implies (#[trigger] s[i]).id == t[i].id
            && s[i].disposition == t[i].disposition by {
            assert(a[i].id == b[i].id);
        }
        ley_puerta_solo_disposicion(s, t);
        let n = a.len() - 1;
        assert(a[n].id == b[n].id);
        assert(bloqueantes(s).len() == ids_de(bloqueantes(s)).len());
        assert(bloqueantes(t).len() == ids_de(bloqueantes(t)).len());
        assert(ids_de(bloqueantes(s).push(a[n])) =~= ids_de(bloqueantes(s)).push(a[n].id));
        assert(ids_de(bloqueantes(t).push(b[n])) =~= ids_de(bloqueantes(t)).push(b[n].id));
    } else {
        assert(ids_de(bloqueantes(a)) =~= ids_de(bloqueantes(b)));
    }
}

/// El audit mismo no pudo correr (no es un hallazgo).
#[derive(Debug, Clone)]
pub enum AuditError {
    Unreachable(String),
    ProviderError(String),
}

/// El contenido de un [`AuditError`].
pub enum AuditErrorV {
    Unreachable(Seq<char>),
    ProviderError(Seq<char>),
}

impl View for AuditError {
    type V = AuditErrorV;

    open spec fn view(&self) -> AuditErrorV {
        match self {
            AuditError::Unreachable(m) => AuditErrorV::Unreachable(m@),
            AuditError::ProviderError(m) => AuditErrorV::ProviderError(m@),
        }
    }
}

impl AuditErrorV {
    /// El texto con el que se muestra el error.
    pub open spec fn texto(self) -> Seq<char> {
        match self {
            AuditErrorV::Unreachable(m) => "no se pudo alcanzar el sistema para auditar: "@ + m,
            AuditErrorV::ProviderError(m) => "el provider falló durante el audit: "@ + m,
        }
    }
}

impl AuditError {
    /// El texto con el que se muestra el error.
    pub fn mensaje(&self) -> (r: String)
        ensures
            r@ == self@.texto(),
            match *self {
                AuditError::Unreachable(m) => r@ == "no se pudo alcanzar el sistema para auditar: "@
                    + m@,
                AuditError::ProviderError(m) => r@ == "el provider falló durante el audit: "@ + m@,
            },
    {
        match self {
            AuditError::Unreachable(m) => "no se pudo alcanzar el sistema para auditar: ".to_owned().concat(
                m.as_str(),
            ),
            AuditError::ProviderError(m) => "el provider falló durante el audit: ".to_owned().concat(
                m.as_str(),
            ),
        }
    }
}

} // verus!
