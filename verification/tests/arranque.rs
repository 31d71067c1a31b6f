use std::sync::Arc;

use iskandar::arranque::{Arranque, Construccion};
use iskandar::cli::{encabezado_prueba, resultado_prueba, Admision, ServerConfig, SIN_TOKEN};
use iskandar::client::ERPClient;
use iskandar::error::IskandarError;
use iskandar::esquema::inspeccionable;
use iskandar::microsip::dll::{error_candado, error_carga, error_tarea};
use iskandar::models::common::Pais;
use iskandar::provider::{ERPProvider, Ensamble, Modulos};
use iskandar::security::{
    AuditError, AuditReport, Disposition, Finding, FindingId, Remediation, Reverify, Severity,
};

struct Prueba;

impl Modulos for Prueba {
    type Clientes = u8;
    type Facturas = u16;
    type Pedidos = ();
    type Inventario = ();
    type Compras = &'static str;
    type Cxc = ();
    type Contabilidad = ();
    type Security = ();
    type Propio = i32;
}

fn provider(nombre: &'static str) -> Arc<Ensamble<Prueba>> {
    Arc::new(Ensamble {
        nombre,
        paises: vec![Pais::Chile, Pais::Peru],
        clientes: Some(7),
        facturas: None,
        pedidos: None,
        inventario: None,
        compras: Some("compras"),
        cxc: None,
        contabilidad: None,
        security: None,
        propio: 3,
    })
}

fn bloqueado() -> AuditReport {
    AuditReport {
        provider: "x",
        findings: vec![Finding {
            id: FindingId("B"),
            title: "t".to_string(),
            detail: "d".to_string(),
            severity: Severity::Info,
            disposition: Disposition::Blocking,
            remediation: Remediation {
                summary: "s".to_string(),
                steps: vec![],
                reverify: Reverify::ReRunCheck,
            },
            evidence: None,
            waived: None,
        }],
    }
}

#[test]
fn ensamble_anuncia_lo_que_trae() {
    let p = provider("demo");
    let c = p.capacidades();
    assert!(c.clientes && c.compras);
    assert!(!(c.facturas || c.pedidos || c.inventario || c.cxc || c.contabilidad || c.security));
    assert_eq!(p.paises(), vec![Pais::Chile, Pais::Peru]);
    let k = ERPClient::new(p);
    assert_eq!(*k.clientes().unwrap(), 7);
    assert_eq!(*k.compras().unwrap(), "compras");
    assert_eq!(
        k.facturas().unwrap_err().mensaje(),
        "el provider 'demo' no soporta el módulo 'facturas'"
    );
}

#[test]
fn arranque_con_todos_admitidos() {
    let mut a: Arranque<Ensamble<Prueba>> = Arranque::nuevo();
    let limpio = AuditReport { provider: "x", findings: vec![] };
    assert!(matches!(a.construido("uno", provider("uno"), &None), Admision::Admite));
    assert!(matches!(a.construido("dos", provider("dos"), &Some(Ok(limpio))), Admision::Admite));
    let mut n = a.activos.nombres();
    n.sort();
    assert_eq!(n, ["dos", "uno"]);
    let config = ServerConfig { port: 9000, token: Some("t".to_string()) };
    let s = match a.listo(None, Some(80), &config) {
        Ok(s) => s,
        Err(e) => panic!("{e}"),
    };
    assert_eq!(s.puerto, 80);
    assert!(s.estado.autoriza(Some("Bearer t")));
    assert!(s.estado.client("dos").is_ok());
    assert!(s.estado.client("tres").is_err());
}

#[test]
fn arranque_detenido() {
    let mut a: Arranque<Ensamble<Prueba>> = Arranque::nuevo();
    assert!(matches!(
        a.construido("x", provider("x"), &Some(Ok(bloqueado()))),
        Admision::Bloquea { .. }
    ));
    let sin = Some(Err(AuditError::ProviderError("z".to_string())));
    assert!(matches!(a.construido("x", provider("x"), &sin), Admision::Falla { .. }));
    assert!(a.activos.nombres().is_empty());
    // Aunque tampoco haya token, el error es el del rechazo.
    let rechazo = a.rechazo.clone().unwrap();
    assert!(rechazo.starts_with("provider 'x': gate de seguridad BLOQUEADO"));
    match a.listo(None, None, &ServerConfig::default()) {
        Ok(_) => panic!("no debía arrancar"),
        Err(e) => assert_eq!(e, rechazo),
    }
    let a: Arranque<Ensamble<Prueba>> = Arranque::nuevo();
    match a.listo(None, None, &ServerConfig::default()) {
        Ok(_) => panic!("sin token no arranca"),
        Err(e) => assert_eq!(e, SIN_TOKEN),
    }
    // Con la variable vacía sigue en vigor el token configurado.
    let a: Arranque<Ensamble<Prueba>> = Arranque::nuevo();
    let config = ServerConfig { port: 9000, token: Some("conf".to_string()) };
    match a.listo(Some(String::new()), None, &config) {
        Ok(s) => assert_eq!((s.estado.api_token.as_str(), s.puerto), ("conf", 9000)),
        Err(e) => panic!("{e}"),
    }
}

#[test]
fn un_rechazo_no_se_levanta() {
    let mut a: Arranque<Ensamble<Prueba>> = Arranque::nuevo();
    assert!(matches!(a.construido("uno", provider("uno"), &None), Admision::Admite));
    let primero = match a.construido("x", provider("x"), &Some(Ok(bloqueado()))) {
        Admision::Bloquea { error, .. } => error,
        _ => panic!("debía bloquear"),
    };
    assert!(matches!(a.construido("dos", provider("dos"), &None), Admision::Admite));
    let sin = Some(Err(AuditError::ProviderError("z".to_string())));
    assert!(matches!(a.construido("y", provider("y"), &sin), Admision::Falla { .. }));
    let config = ServerConfig { port: 9000, token: Some("t".to_string()) };
    match a.listo(None, None, &config) {
        Ok(_) => panic!("no debía arrancar"),
        Err(e) => assert_eq!(e, primero),
    }
}

#[test]
fn un_provider_que_no_se_construye_se_omite() {
    let a: Arranque<Ensamble<Prueba>> = Arranque::nuevo();
    match a.construccion(Err(IskandarError::Config("x".to_string()))) {
        Construccion::Omite(t) => assert_eq!(t, "error de configuración: x"),
        _ => panic!("debía omitirse"),
    }
    match a.construccion(Ok(provider("uno"))) {
        Construccion::Presenta(p) => assert_eq!(p.nombre, "uno"),
        _ => panic!("debía presentarse"),
    }
}

#[test]
fn prueba_de_conexion_en_texto() {
    assert_eq!(
        encabezado_prueba("microsip", "0.1.0", "{}"),
        "provider:    microsip v0.1.0\ncapacidades: {}\nconexión:    "
    );
    assert_eq!(resultado_prueba(&Ok(0)), "OK\n");
    assert_eq!(
        resultado_prueba(&Err(IskandarError::Connection("x".to_string()))),
        "FALLÓ — error de conexión: x\n"
    );
}

#[test]
fn esquema_inspeccionable() {
    assert!(inspeccionable("microsip", true, "i.toml").is_ok());
    assert_eq!(
        inspeccionable("siigo", false, "i.toml").unwrap_err(),
        "no hay sección [providers.siigo] en 'i.toml'"
    );
    assert_eq!(
        inspeccionable("siigo", true, "i.toml").unwrap_err(),
        "schema solo soporta el provider 'microsip' por ahora (recibido: 'siigo')"
    );
}

#[test]
fn errores_de_la_biblioteca() {
    assert_eq!(
        error_carga("a.dll", "no existe").mensaje(),
        "error de conexión: no se pudo cargar la DLL 'a.dll': no existe"
    );
    assert_eq!(
        error_candado().mensaje(),
        "error de conexión: lock de la DLL envenenado: un hilo anterior falló dentro de ApiMicrosip"
    );
    assert_eq!(error_tarea("x").mensaje(), "error de conexión: tarea bloqueante falló: x");
}
