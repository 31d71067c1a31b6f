//! El reporte de una auditoría, en texto.

use vstd::prelude::*;

use crate::cadena::{entre_comillas, formato_debug, texto_debug, texto_llano};
use crate::security::{
    bloqueantes, ids_de, AuditReport, Disposition, Finding, FindingId, GateOutcome, Reverify,
    Severity,
};
use crate::texto::{digitos, natural_a_texto};

verus! {

/// El nombre de una severidad.
pub open spec fn nombre_severidad(s: Severity) -> Seq<char> {
    match s {
        Severity::Info => "Info"@,
        Severity::Low => "Low"@,
        Severity::Medium => "Medium"@,
        Severity::High => "High"@,
        Severity::Critical => "Critical"@,
    }
}

fn severidad(s: Severity) -> (r: &'static str)
    ensures
        r@ == nombre_severidad(s),
{
    match s {
        Severity::Info => "Info",
        Severity::Low => "Low",
        Severity::Medium => "Medium",
        Severity::High => "High",
        Severity::Critical => "Critical",
    }
}

/// El nombre de una disposición en el reporte.
pub open spec fn nombre_disposicion(d: Disposition) -> Seq<char> {
    match d {
        Disposition::Blocking => "BLOCKING"@,
        Disposition::Informational => "informational"@,
    }
}

/// El nombre de una forma de re-verificar.
pub open spec fn nombre_reverify(r: Reverify) -> Seq<char> {
    match r {
        Reverify::ReRunCheck => "ReRunCheck"@,
        Reverify::OwnerWaiver => "OwnerWaiver"@,
    }
}

// ---------------------------------------------------------------------
// El texto de un hallazgo
// ---------------------------------------------------------------------

/// Los pasos de la remediación, numerados desde 1.
pub open spec fn texto_pasos(pasos: Seq<String>) -> Seq<char>
    decreases pasos.len(),
{
    if pasos.len() == 0 {
        seq![]
    } else {
        texto_pasos(pasos.drop_last()) + "    "@ + digitos(pasos.len()) + ". "@ + pasos.last()@
            + "\n"@
    }
}

/// La evidencia, si la hay.
pub open spec fn texto_evidencia(e: Option<String>) -> Seq<char> {
    match e {
        Some(s) => "  evidencia: "@ + s@ + "\n"@,
        None => seq![],
    }
}

/// Un hallazgo completo.
pub open spec fn texto_hallazgo(f: Finding) -> Seq<char> {
    "["@ + nombre_severidad(f.severity) + " / "@ + nombre_disposicion(f.disposition) + "] "@
        + f.title@ + " ("@ + f.id.0@ + ")\n"@ + "  "@ + f.detail@ + "\n"@ + texto_evidencia(
        f.evidence,
    ) + "  remediación: "@ + f.remediation.summary@ + "\n"@ + texto_pasos(f.remediation.steps@)
        + "  re-verificación: "@ + nombre_reverify(f.remediation.reverify) + "\n"@ + "\n"@
}

fn formatear_pasos(pasos: &Vec<String>) -> (r: String)
    ensures
        r@ == texto_pasos(pasos@),
{
    let mut r = "".to_owned();
    let mut i: usize = 0;
    proof {
        reveal_strlit("");
        assert(r@ =~= texto_pasos(pasos@.take(0)));
    }
    while i < pasos.len()
        invariant
            i <= pasos@.len(),
            r@ == texto_pasos(pasos@.take(i as int)),
        decreases pasos@.len() - i,
    {
        proof {
            assert(pasos@.take(i + 1).drop_last() =~= pasos@.take(i as int));
        }
        r = r.concat("    ").concat(natural_a_texto(i as u64 + 1).as_str()).concat(". ").concat(
            pasos[i].as_str(),
        ).concat("\n");
        i = i + 1;
    }
    proof {
        assert(pasos@.take(i as int) =~= pasos@);
    }
    r
}

fn formatear_hallazgo(f: &Finding) -> (r: String)
    ensures
        r@ == texto_hallazgo(*f),
{
    let disp: &'static str = if f.is_blocking() {
        "BLOCKING"
    } else {
        "informational"
    };
    let reverify: &'static str = match f.remediation.reverify {
        Reverify::ReRunCheck => "ReRunCheck",
        Reverify::OwnerWaiver => "OwnerWaiver",
    };
    let evidencia = match &f.evidence {
        Some(ev) => "  evidencia: ".to_owned().concat(ev.as_str()).concat("\n"),
        None => {
            let v = "".to_owned();
            proof {
                reveal_strlit("");
                assert(v@ =~= seq![]);
            }
            v
        },
    };
    "[".to_owned().concat(severidad(f.severity)).concat(" / ").concat(disp).concat("] ").concat(
        f.title.as_str(),
    ).concat(" (").concat(f.id.0).concat(")\n").concat("  ").concat(f.detail.as_str()).concat(
        "\n",
    ).concat(evidencia.as_str()).concat("  remediación: ").concat(
        f.remediation.summary.as_str(),
    ).concat("\n").concat(formatear_pasos(&f.remediation.steps).as_str()).concat(
        "  re-verificación: ",
    ).concat(reverify).concat("\n").concat("\n")
}

// ---------------------------------------------------------------------
// El orden
// ---------------------------------------------------------------------

/// Lugar de un hallazgo en el reporte: bloqueantes primero, y entre iguales el
/// más grave primero.
pub open spec fn clase(f: Finding) -> int {
    (if f.disposition == Disposition::Blocking {
        0int
    } else {
        5int
    }) + 4 - f.severity.grado()
}

/// Los hallazgos de una clase, en su orden.
pub open spec fn de_clase(s: Seq<Finding>, k: int) -> Seq<Finding>
    decreases s.len(),
{
    if s.len() == 0 {
        seq![]
    } else if clase(s.last()) == k {
        de_clase(s.drop_last(), k).push(s.last())
    } else {
        de_clase(s.drop_last(), k)
    }
}

/// Los hallazgos de las primeras `n` clases, clase por clase.
pub open spec fn ordenados_hasta(s: Seq<Finding>, n: nat) -> Seq<Finding>
    decreases n,
{
    if n == 0 {
        seq![]
    } else {
        ordenados_hasta(s, (n - 1) as nat) + de_clase(s, n - 1)
    }
}

/// Los hallazgos en el orden del reporte.
pub open spec fn ordenados(s: Seq<Finding>) -> Seq<Finding> {
    ordenados_hasta(s, 10)
}

/// El texto de unos hallazgos, uno tras otro.
pub open spec fn texto_hallazgos(s: Seq<Finding>) -> Seq<char>
    decreases s.len(),
{
    if s.len() == 0 {
        seq![]
    } else {
        texto_hallazgos(s.drop_last()) + texto_hallazgo(s.last())
    }
}

proof fn lema_texto_suma(a: Seq<Finding>, b: Seq<Finding>)
    ensures
        texto_hallazgos(a + b) == texto_hallazgos(a) + texto_hallazgos(b),
    decreases b.len(),
{
    if b.len() == 0 {
        assert(a + b =~= a);
        assert(texto_hallazgos(a) + texto_hallazgos(b) =~= texto_hallazgos(a));
    } else {
        assert((a + b).drop_last() =~= a + b.drop_last());
        lema_texto_suma(a, b.drop_last());
        assert(texto_hallazgos(a + b) =~= texto_hallazgos(a) + texto_hallazgos(b));
    }
}

fn lugar(f: &Finding) -> (r: u8)
    ensures
        r == clase(*f),
        r < 10,
{
    let base: u8 = if f.is_blocking() {
        0
    } else {
        5
    };
    base + 4 - f.severity.nivel()
}

fn formatear_hallazgos(s: &Vec<Finding>) -> (r: String)
    ensures
        r@ == texto_hallazgos(ordenados(s@)),
{
    let mut r = "".to_owned();
    let mut k: u8 = 0;
    proof {
        reveal_strlit("");
        assert(r@ =~= texto_hallazgos(ordenados_hasta(s@, 0)));
    }
    while k < 10
        invariant
            k <= 10,
            r@ == texto_hallazgos(ordenados_hasta(s@, k as nat)),
        decreases 10 - k,
    {
        let mut i: usize = 0;
        let ghost antes = ordenados_hasta(s@, k as nat);
        proof {
            assert(s@.take(0) =~= seq![]);
            lema_texto_suma(antes, de_clase(s@.take(0), k as int));
            assert(antes + de_clase(s@.take(0), k as int) =~= antes);
        }
        while i < s.len()
            invariant
                i <= s@.len(),
                k < 10,
                antes == ordenados_hasta(s@, k as nat),
                r@ == texto_hallazgos(antes + de_clase(s@.take(i as int), k as int)),
            decreases s@.len() - i,
        {
            proof {
                assert(s@.take(i + 1).drop_last() =~= s@.take(i as int));
            }
            if lugar(&s[i]) == k {
                let ghost previos = antes + de_clase(s@.take(i as int), k as int);
                r = r.concat(formatear_hallazgo(&s[i]).as_str());
                proof {
                    let todos = antes + de_clase(s@.take(i + 1), k as int);
                    assert(todos =~= previos.push(s@[i as int]));
                    assert(todos.drop_last() =~= previos);
                }
            }
            i = i + 1;
        }
        proof {
            assert(s@.take(i as int) =~= s@);
        }
        k = k + 1;
    }
    r
}

proof fn lema_de_clase(s: Seq<Finding>, k: int)
    ensures
        forall|i: int| 0 <= i < de_clase(s, k).len() ==> clase(#[trigger] de_clase(s, k)[i]) == k,
    decreases s.len(),
{
    if s.len() > 0 {
        let t = de_clase(s.drop_last(), k);
        lema_de_clase(s.drop_last(), k);
        assert forall|i: int| 0 <= i < de_clase(s, k).len() implies clase(
            #[trigger] de_clase(s, k)[i],
        ) == k by {
            if i < t.len() {
                assert(de_clase(s, k)[i] == t[i]);
            }
        }
    }
}

/// El reporte va de lo más urgente a lo menos: bloqueantes antes que
/// informativos, y dentro de cada grupo de más a menos grave.
pub proof fn ley_orden_urgente(s: Seq<Finding>, n: nat)
    requires
        n <= 10,
    ensures
        forall|i: int, j: int|
            0 <= i < j < ordenados_hasta(s, n).len() ==> clase(#[trigger] ordenados_hasta(s, n)[i])
                <= clase(#[trigger] ordenados_hasta(s, n)[j]),
        forall|i: int|
            0 <= i < ordenados_hasta(s, n).len() ==> 0 <= clase(
                #[trigger] ordenados_hasta(s, n)[i],
            ) < n,
    decreases n,
{
    if n > 0 {
        let a = ordenados_hasta(s, (n - 1) as nat);
        let b = de_clase(s, n - 1);
        ley_orden_urgente(s, (n - 1) as nat);
        lema_de_clase(s, n - 1);
        assert forall|i: int, j: int| 0 <= i < j < (a + b).len() implies clase(
            #[trigger] (a + b)[i],
        ) <= clase(#[trigger] (a + b)[j]) by {
            if i < a.len() {
                assert(0 <= clase(a[i]) < n - 1);
            } else {
                assert(clase(b[i - a.len()]) == n - 1);
            }
            if j < a.len() {
                assert(clase(a[i]) <= clase(a[j]));
            } else {
                assert(clase(b[j - a.len()]) == n - 1);
            }
        }
        assert forall|i: int| 0 <= i < (a + b).len() implies 0 <= clase(#[trigger] (a + b)[i])
            < n by {
            if i < a.len() {
                assert(0 <= clase(a[i]) < n - 1);
            } else {
                assert(clase(b[i - a.len()]) == n - 1);
            }
        }
    }
}

proof fn lema_agrega_uno(s: Seq<Finding>, f: Finding, n: nat)
    requires
        n <= 10,
    ensures
        ordenados_hasta(s.push(f), n).to_multiset() == (if clase(f) < n {
            ordenados_hasta(s, n).to_multiset().insert(f)
        } else {
            ordenados_hasta(s, n).to_multiset()
        }),
    decreases n,
{
    if n == 0 {
        assert(ordenados_hasta(s.push(f), n) =~= ordenados_hasta(s, n));
    } else {
        let m = (n - 1) as nat;
        let t = s.push(f);
        lema_agrega_uno(s, f, m);
        assert(t.drop_last() =~= s);
        vstd::seq_lib::lemma_multiset_commutative(ordenados_hasta(t, m), de_clase(t, n - 1));
        vstd::seq_lib::lemma_multiset_commutative(ordenados_hasta(s, m), de_clase(s, n - 1));
        if clase(f) == n - 1 {
            de_clase(s, n - 1).to_multiset_ensures();
            assert(de_clase(t, n - 1) == de_clase(s, n - 1).push(f));
        }
        assert(ordenados_hasta(t, n).to_multiset() =~= (if clase(f) < n {
            ordenados_hasta(s, n).to_multiset().insert(f)
        } else {
            ordenados_hasta(s, n).to_multiset()
        }));
    }
}

/// El reporte muestra todos los hallazgos, cada uno las veces que está.
pub proof fn ley_reporte_completo(s: Seq<Finding>)
    ensures
        ordenados(s).to_multiset() == s.to_multiset(),
    decreases s.len(),
{
    if s.len() == 0 {
        lema_orden_vacio(10);
        assert(s =~= seq![]);
        assert(ordenados(s) =~= s);
    } else {
        let t = s.drop_last();
        ley_reporte_completo(t);
        assert(s =~= t.push(s.last()));
        lema_agrega_uno(t, s.last(), 10);
        t.to_multiset_ensures();
    }
}

proof fn lema_orden_vacio(n: nat)
    ensures
        ordenados_hasta(seq![], n).len() == 0,
    decreases n,
{
    if n > 0 {
        lema_orden_vacio((n - 1) as nat);
    }
}

// ---------------------------------------------------------------------
// El reporte
// ---------------------------------------------------------------------

/// Una lista de identificadores entre corchetes y comillas.
pub open spec fn texto_ids(ids: Seq<FindingId>) -> Seq<char>
    decreases ids.len(),
{
    if ids.len() == 0 {
        seq![]
    } else if ids.len() == 1 {
        texto_debug(ids[0].0@)
    } else {
        texto_ids(ids.drop_last()) + ", "@ + texto_debug(ids.last().0@)
    }
}

/// Los identificadores no traen nada que escapar.
pub open spec fn ids_llanos(ids: Seq<FindingId>) -> bool {
    forall|i: int| 0 <= i < ids.len() ==> texto_llano((#[trigger] ids[i]).0@)
}

/// Una lista de identificadores, cada uno entre comillas y tal cual.
pub open spec fn texto_ids_llanos(ids: Seq<FindingId>) -> Seq<char>
    decreases ids.len(),
{
    if ids.len() == 0 {
        seq![]
    } else if ids.len() == 1 {
        entre_comillas(ids[0].0@)
    } else {
        texto_ids_llanos(ids.drop_last()) + ", "@ + entre_comillas(ids.last().0@)
    }
}

/// El reporte completo.
pub open spec fn texto_reporte(r: AuditReport) -> Seq<char> {
    texto_reporte_con(r, texto_ids(ids_de(bloqueantes(r.findings@))))
}

/// El reporte completo, dado el texto de los identificadores bloqueantes.
pub open spec fn texto_reporte_con(r: AuditReport, ids: Seq<char>) -> Seq<char> {
    "provider:  "@ + r.provider@ + "\n"@ + "hallazgos: "@ + digitos(r.findings@.len()) + "\n"@
        + "\n"@ + (if r.findings@.len() == 0 {
        "(sin hallazgos)\n"@
    } else {
        seq![]
    }) + texto_hallazgos(ordenados(r.findings@)) + (if bloqueantes(r.findings@).len() == 0 {
        "gate: CLEAR\n"@
    } else {
        "gate: BLOCKED — bloqueantes: ["@ + ids + "]\n"@
    })
}

fn formatear_ids(ids: &Vec<FindingId>) -> (r: String)
    requires
        ids@.len() > 0,
    ensures
        r@ == texto_ids(ids@),
        ids_llanos(ids@) ==> r@ == texto_ids_llanos(ids@),
{
    let mut r = formato_debug(ids[0].0);
    let mut i: usize = 1;
    proof {
        assert(ids@.take(1)[0] == ids@[0]);
        assert(ids_llanos(ids@) ==> texto_llano(ids@[0].0@));
    }
    while i < ids.len()
        invariant
            1 <= i <= ids@.len(),
            r@ == texto_ids(ids@.take(i as int)),
            ids_llanos(ids@) ==> r@ == texto_ids_llanos(ids@.take(i as int)),
        decreases ids@.len() - i,
    {
        proof {
            assert(ids@.take(i + 1).drop_last() =~= ids@.take(i as int));
            assert(ids_llanos(ids@) ==> texto_llano(ids@[i as int].0@));
        }
        r = r.concat(", ").concat(formato_debug(ids[i].0).as_str());
        i = i + 1;
    }
    proof {
        assert(ids@.take(i as int) =~= ids@);
    }
    r
}

/// El reporte en texto, con la remediación completa de cada hallazgo.
pub fn formatear_reporte(report: &AuditReport) -> (r: String)
    ensures
        r@ == texto_reporte(*report),
        ids_llanos(ids_de(bloqueantes(report.findings@))) ==> r@ == texto_reporte_con(
            *report,
            texto_ids_llanos(ids_de(bloqueantes(report.findings@))),
        ),
{
    let vacio: &'static str = if report.findings.len() == 0 {
        "(sin hallazgos)\n"
    } else {
        ""
    };
    proof {
        reveal_strlit("");
        assert(""@ =~= seq![]);
    }
    let puerta = match report.gate() {
        GateOutcome::Clear => "gate: CLEAR\n".to_owned(),
        GateOutcome::Blocked { blockers } => {
            proof {
                assert(blockers@ == ids_de(bloqueantes(report.findings@)));
            }
            "gate: BLOCKED — bloqueantes: [".to_owned().concat(
                formatear_ids(&blockers).as_str(),
            ).concat("]\n")
        },
    };
    "provider:  ".to_owned().concat(report.provider).concat("\n").concat("hallazgos: ").concat(
        natural_a_texto(report.findings.len() as u64).as_str(),
    ).concat("\n").concat("\n").concat(vacio).concat(
        formatear_hallazgos(&report.findings).as_str(),
    ).concat(puerta.as_str())
}

} // verus!
