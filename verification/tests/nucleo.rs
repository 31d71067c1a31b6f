use std::sync::Arc;

use iskandar::api::{estado_http, ApiState};
use iskandar::catalogo::Catalogo;
use iskandar::cli::{
    admitir, codigo_salida, contenido_inicial, error_lectura, error_sin_auditoria,
    error_sin_seccion, error_ya_existe, puerto, puerto_default, resolver_token, toml_escape,
    Admision, ServerConfig, SIN_TOKEN,
};
use iskandar::client::ERPClient;
use iskandar::error::IskandarError;
use iskandar::esquema::{
    error_otro_provider, peticion, texto_columnas, texto_muestra, texto_tablas, texto_valores,
    Peticion,
};
use iskandar::microsip::config::MicrosipConfig;
use iskandar::microsip::dll::MicrosipDll;
use iskandar::microsip::nativo::{Accion, Argumento, Respuesta};
use iskandar::microsip::provider::{CampoSchema, MicrosipProvider};
use iskandar::microsip::security::{
    config_usa_credenciales_de_fabrica, finding_factory_creds_active,
    finding_factory_creds_config, SecurityMicrosip,
};
use iskandar::provider::ERPProvider;
use iskandar::registry::ProviderRegistry;
use iskandar::reporte::formatear_reporte;
use iskandar::security::{
    AuditError, AuditReport, Disposition, Finding, FindingId, GateOutcome, Remediation, Reverify,
    Severity, Waiver,
};

fn config() -> MicrosipConfig {
    MicrosipConfig {
        dll_path: "a.dll".to_string(),
        db_path: "SF".to_string(),
        usuario: "app".to_string(),
        password: "secreta".to_string(),
        metadatos_path: None,
        existencias_negativas: false,
        validar_precio_minimo: false,
    }
}

#[test]
fn registro_de_providers() {
    let mut r: ProviderRegistry<fn(&i64) -> Result<i64, IskandarError>> = ProviderRegistry::new();
    assert!(r.names().is_empty());
    r.register("a".to_string(), |c| Ok(*c + 1));
    r.register("b".to_string(), |_| Err(IskandarError::Config("x".to_string())));
    assert_eq!(r.create("a", &1).unwrap(), 2);
    assert!(matches!(r.create("b", &1), Err(IskandarError::Config(_))));
    assert_eq!(
        r.create("c", &1).unwrap_err().mensaje(),
        "el provider 'c' no está registrado"
    );
    r.register("a".to_string(), |c| Ok(*c + 10));
    assert_eq!(r.create("a", &1).unwrap(), 11);
    let mut n = r.names();
    n.sort();
    assert_eq!(n, ["a", "b"]);
}

#[test]
fn cliente_universal() {
    let c = ERPClient::new(Arc::new(MicrosipProvider::new(config())));
    assert_eq!(c.provider().name(), "microsip");
    assert!(c.clientes().is_ok());
    assert!(c.facturas().is_ok());
    assert!(c.inventario().is_ok());
    assert!(c.cxc().is_ok());
    assert!(c.security().is_ok());
    assert_eq!(
        c.pedidos().unwrap_err().mensaje(),
        "el provider 'microsip' no soporta el módulo 'pedidos'"
    );
    assert_eq!(
        c.compras().unwrap_err().mensaje(),
        "el provider 'microsip' no soporta el módulo 'compras'"
    );
    assert_eq!(
        c.contabilidad().unwrap_err().mensaje(),
        "el provider 'microsip' no soporta el módulo 'contabilidad'"
    );
    let k = c.provider().capacidades();
    assert_eq!(k.pedidos, c.pedidos().is_ok());
    assert_eq!(k.clientes, c.clientes().is_ok());
}

#[test]
fn estado_de_la_api() {
    let mut providers = Catalogo::nuevo();
    providers.poner("microsip".to_string(), Arc::new(MicrosipProvider::new(config())));
    let s = ApiState::new(providers, "abc".to_string());
    assert!(s.client("microsip").is_ok());
    let e = match s.client("otro") {
        Ok(_) => panic!("no existe"),
        Err(e) => e,
    };
    assert_eq!(e.mensaje(), "el provider 'otro' no está registrado");
    assert_eq!(estado_http(&e), 404);
    assert!(s.autoriza(Some("Bearer abc")));
    for c in [None, Some(""), Some("abc"), Some("Bearer "), Some("Bearer abcd"), Some("bearer abc")] {
        assert!(!s.autoriza(c));
    }
}

#[test]
fn estados_http() {
    let s = || "x".to_string();
    assert_eq!(estado_http(&IskandarError::UnknownProvider(s())), 404);
    assert_eq!(estado_http(&IskandarError::NotFound(s())), 404);
    assert_eq!(
        estado_http(&IskandarError::UnsupportedModule { provider: s(), module: s() }),
        501
    );
    assert_eq!(estado_http(&IskandarError::NotImplemented("x")), 501);
    assert_eq!(estado_http(&IskandarError::Validation(s())), 400);
    assert_eq!(estado_http(&IskandarError::Config(s())), 400);
    assert_eq!(estado_http(&IskandarError::Connection(s())), 502);
    assert_eq!(estado_http(&IskandarError::Provider { code: 1, message: s() }), 502);
    assert_eq!(estado_http(&IskandarError::Io(s())), 502);
}

fn hallazgo(id: &'static str, severity: Severity, disposition: Disposition) -> Finding {
    Finding {
        id: FindingId(id),
        title: format!("título {id}"),
        detail: "detalle".to_string(),
        severity,
        disposition,
        remediation: Remediation {
            summary: "resumen".to_string(),
            steps: vec!["uno".to_string(), "dos".to_string()],
            reverify: Reverify::OwnerWaiver,
        },
        evidence: None,
        waived: None,
    }
}

#[test]
fn puerta_de_seguridad() {
    let mut r = AuditReport {
        provider: "x",
        findings: vec![hallazgo("A", Severity::Critical, Disposition::Informational)],
    };
    assert!(r.gate().is_clear());
    assert_eq!(codigo_salida(&r), 0);
    assert!(r.blockers().is_empty());
    r.findings.push(hallazgo("B", Severity::Medium, Disposition::Blocking));
    r.findings.push(hallazgo("C", Severity::Info, Disposition::Blocking));
    assert_eq!(
        r.gate(),
        GateOutcome::Blocked { blockers: vec![FindingId("B"), FindingId("C")] }
    );
    assert_eq!(codigo_salida(&r), 1);
    // Aceptar el riesgo no abre la puerta.
    for f in r.findings.iter_mut() {
        f.waived = Some(Waiver { granted_at: "hoy".to_string(), note: "ok".to_string() });
    }
    assert!(!r.gate().is_clear());
    assert!(r.findings[1].is_blocking());
    assert!(!r.findings[0].is_blocking());
}

#[test]
fn reporte_ordenado() {
    let mut b = hallazgo("B", Severity::Low, Disposition::Blocking);
    b.evidence = Some("prueba".to_string());
    let r = AuditReport {
        provider: "microsip",
        findings: vec![
            hallazgo("A", Severity::Critical, Disposition::Informational),
            b,
            hallazgo("C", Severity::High, Disposition::Blocking),
            hallazgo("D", Severity::Critical, Disposition::Informational),
            hallazgo("E", Severity::Info, Disposition::Informational),
        ],
    };
    let t = formatear_reporte(&r);
    let orden: Vec<usize> = ["(C)", "(B)", "(A)", "(D)", "(E)"]
        .iter()
        .map(|k| t.find(k).unwrap())
        .collect();
    assert!(orden.windows(2).all(|w| w[0] < w[1]));
    assert!(t.starts_with("provider:  microsip\nhallazgos: 5\n\n[High / BLOCKING] título C (C)\n  detalle\n  remediación: resumen\n    1. uno\n    2. dos\n  re-verificación: OwnerWaiver\n\n[Low / BLOCKING] título B (B)\n  detalle\n  evidencia: prueba\n"));
    assert!(t.contains("[Critical / informational] título A (A)"));
    assert!(t.ends_with("gate: BLOCKED — bloqueantes: [\"B\", \"C\"]\n"));
}

#[test]
fn reporte_limpio() {
    let r = AuditReport { provider: "x", findings: vec![] };
    assert_eq!(
        formatear_reporte(&r),
        "provider:  x\nhallazgos: 0\n\n(sin hallazgos)\ngate: CLEAR\n"
    );
}

#[test]
fn auditoria_de_microsip() {
    let mut c = config();
    assert!(!config_usa_credenciales_de_fabrica(&c));
    c.usuario = "sysdba".to_string();
    c.password = "masterkey".to_string();
    assert!(config_usa_credenciales_de_fabrica(&c));
    c.password = "Masterkey".to_string();
    assert!(!config_usa_credenciales_de_fabrica(&c));
    c.password = "masterkey".to_string();
    let s = SecurityMicrosip { config: c };
    let r = s.security_audit(Ok(true)).unwrap();
    assert_eq!(r.provider, "microsip");
    assert_eq!(r.findings.len(), 2);
    assert_eq!(r.findings[0].id, FindingId("F-MSIP-FACTORY-CREDS-CONFIG"));
    assert_eq!(r.findings[1].id, FindingId("F-MSIP-FACTORY-CREDS-ACTIVE"));
    assert!(!r.gate().is_clear());
    assert!(s.security_audit(Ok(false)).unwrap().gate().is_clear());
    assert!(s.security_audit(Err(AuditError::Unreachable("x".to_string()))).is_err());
    let s = SecurityMicrosip { config: config() };
    assert!(s.security_audit(Ok(false)).unwrap().findings.is_empty());
}

#[test]
fn hallazgos_de_microsip() {
    let f = finding_factory_creds_active("SF.FDB");
    assert_eq!(f.severity, Severity::Critical);
    assert!(f.is_blocking());
    assert_eq!(f.remediation.steps.len(), 4);
    assert_eq!(f.remediation.reverify, Reverify::ReRunCheck);
    assert_eq!(
        f.evidence.as_deref(),
        Some("SYSDBA acepta la contraseña de fábrica en SF.FDB")
    );
    let f = finding_factory_creds_config();
    assert_eq!(f.severity, Severity::High);
    assert!(!f.is_blocking());
    assert_eq!(f.remediation.steps.len(), 2);
    assert!(f.waived.is_none());
}

#[test]
fn lectura_de_la_sonda() {
    let s = SecurityMicrosip { config: config() };
    assert_eq!(s.leer_sonda(Ok(0)).unwrap(), true);
    let rechazo = IskandarError::Provider { code: 4, message: "inválidos".to_string() };
    assert_eq!(s.leer_sonda(Err(rechazo)).unwrap(), false);
    let e = s.leer_sonda(Err(IskandarError::Connection("sin DLL".to_string()))).unwrap_err();
    assert_eq!(
        e.mensaje(),
        "no se pudo alcanzar el sistema para auditar: error de conexión: sin DLL"
    );
    assert_eq!(
        AuditError::ProviderError("y".to_string()).mensaje(),
        "el provider falló durante el audit: y"
    );
}

#[test]
fn arranque_todo_o_nada() {
    assert!(matches!(admitir("x", &None), Admision::Admite));
    let limpio = AuditReport { provider: "x", findings: vec![] };
    assert!(matches!(admitir("x", &Some(Ok(limpio))), Admision::Admite));
    let malo = AuditReport {
        provider: "x",
        findings: vec![hallazgo("B", Severity::Low, Disposition::Blocking)],
    };
    match admitir("x", &Some(Ok(malo.clone()))) {
        Admision::Bloquea { aviso, error } => {
            assert_eq!(
                aviso,
                format!(
                    "=== iskandar: el provider 'x' tiene hallazgos de seguridad BLOQUEANTES — el servidor no arrancará ===\n\n{}",
                    formatear_reporte(&malo)
                )
            );
            assert_eq!(error, "provider 'x': gate de seguridad BLOQUEADO — remedia los hallazgos de arriba y vuelve a intentar (ver `iskandar audit --provider x` para el detalle)");
        }
        _ => panic!("debía bloquear"),
    }
    match admitir("x", &Some(Err(AuditError::Unreachable("z".to_string())))) {
        Admision::Falla { error } => assert_eq!(error, "no se pudo auditar la seguridad del provider 'x' antes de arrancar: no se pudo alcanzar el sistema para auditar: z"),
        _ => panic!("debía fallar"),
    }
}

#[test]
fn token_y_puerto() {
    let mut c = ServerConfig::default();
    assert_eq!(c.port, 8080);
    assert_eq!(puerto_default(), 8080);
    assert_eq!(puerto(None, &c), 8080);
    assert_eq!(puerto(Some(90), &c), 90);
    assert_eq!(resolver_token(None, &c).unwrap_err(), SIN_TOKEN);
    c.token = Some("conf".to_string());
    assert_eq!(resolver_token(None, &c).unwrap(), "conf");
    assert_eq!(resolver_token(Some("env".to_string()), &c).unwrap(), "env");
    assert_eq!(resolver_token(Some(String::new()), &c).unwrap(), "conf");
    c.token = Some(String::new());
    assert_eq!(resolver_token(Some("env".to_string()), &c).unwrap(), "env");
    assert_eq!(resolver_token(Some(String::new()), &c).unwrap_err(), SIN_TOKEN);
    assert!(resolver_token(None, &c).is_err());
}

#[test]
fn configuracion_inicial() {
    assert_eq!(toml_escape("a\\b\"c"), "a\\\\b\\\"c");
    let usuario = "so\"ra\\ya";
    let password = "\\\"x\\";
    let t = contenido_inicial("microsip", None, usuario, password);
    assert_eq!(
        t,
        format!(
            r#"# Configuración de Iskandar — generada por `iskandar init`
[server]
port = 8080
# Requerido para levantar el servidor: token que deben presentar los
# clientes en `Authorization: Bearer <token>`. Puedes darlo aquí o por la
# variable de entorno ISKANDAR_API_TOKEN (tiene prioridad sobre este valor).
# token = "reemplaza-esto-por-un-token-largo-y-aleatorio"

[providers.microsip]
dll_path = 'C:\Microsip\ApiMicrosip.dll'
db_path = 'C:\Microsip datos\EMPRESA.FDB'
usuario = "{}"
password = "{}"
existencias_negativas = true
validar_precio_minimo = false
"#,
            toml_escape(usuario),
            toml_escape(password)
        )
    );
    // Lo que se lee es lo que se escribió.
    let v: toml::Value = t.parse().unwrap();
    let m = &v["providers"]["microsip"];
    assert_eq!(m["usuario"].as_str(), Some(usuario));
    assert_eq!(m["password"].as_str(), Some(password));
    assert_eq!(v["server"]["port"].as_integer(), Some(8080));
    // También los caracteres de control, y los demás tal cual.
    assert_eq!(toml_escape("a\nb\tc\u{7f}\u{1b}ñ"), "a\\u000Ab\tc\\u007F\\u001Bñ");
    let todo: String = (0u32..0x300).filter_map(char::from_u32).collect();
    for valor in [todo.as_str(), "\r\n", "\0", "日\u{10ffff}"] {
        let v: toml::Value = contenido_inicial("microsip", None, valor, valor).parse().unwrap();
        assert_eq!(v["providers"]["microsip"]["usuario"].as_str(), Some(valor));
        assert_eq!(v["providers"]["microsip"]["password"].as_str(), Some(valor));
    }
    let t = contenido_inicial("microsip", Some("D:\\x.dll"), "u", "p");
    assert!(t.contains("dll_path = 'D:\\x.dll'\n"));
}

#[test]
fn mensajes_de_la_linea_de_comandos() {
    assert_eq!(error_sin_seccion("x", "i.toml"), "no hay sección [providers.x] en 'i.toml'");
    assert_eq!(
        error_sin_auditoria("x"),
        "el provider 'x' no implementa auditoría de seguridad (SecurityAudit) — no hay nada que auditar"
    );
    assert_eq!(
        error_ya_existe("i.toml"),
        "'i.toml' ya existe — edítalo directamente o bórralo primero"
    );
    assert_eq!(error_lectura("i.toml", "nada"), "no se pudo leer 'i.toml': nada");
    assert_eq!(
        error_otro_provider("siigo"),
        "schema solo soporta el provider 'microsip' por ahora (recibido: 'siigo')"
    );
}

#[test]
fn peticiones_de_esquema() {
    assert!(matches!(peticion(None, Some("c"), Some(1)), Peticion::Tablas));
    assert!(matches!(
        peticion(Some("t"), Some("c"), Some(1)),
        Peticion::Valores { tabla: "t", campo: "c" }
    ));
    assert!(matches!(
        peticion(Some("t"), None, Some(3)),
        Peticion::Muestra { tabla: "t", limite: 3 }
    ));
    assert!(matches!(peticion(Some("t"), None, None), Peticion::Columnas { tabla: "t" }));
}

#[test]
fn textos_de_esquema() {
    let s = |t: &str| t.to_string();
    assert_eq!(
        texto_tablas(&vec![s("A"), s("B")]),
        "2 tablas encontradas:\n\n  A\n  B\n"
    );
    assert_eq!(
        texto_valores("doctos_ve", "tipo", &vec![s("F"), s("a\"b")]),
        "Valores distintos de DOCTOS_VE.TIPO (2):\n\n  \"F\"\n  \"a\\\"b\"\n"
    );
    let filas = vec![vec![(s("ID"), s("1"))], vec![(s("ID"), s("2"))]];
    assert_eq!(
        texto_muestra("t", &filas),
        format!(
            "2 fila(s) de muestra de T:\n\n--- fila 1 ---\n  {:<30} {:?}\n\n--- fila 2 ---\n  {:<30} {:?}\n\n",
            "ID", "1", "ID", "2"
        )
    );
    assert_eq!(
        texto_columnas("nada", &vec![]),
        "La tabla 'nada' no existe o no tiene columnas.\n"
    );
    let larga = "X".repeat(40);
    let campos = vec![
        CampoSchema { nombre: s("AÑO"), tipo: s("INTEGER") },
        CampoSchema { nombre: larga.clone(), tipo: s("DATE") },
    ];
    assert_eq!(
        texto_columnas("t", &campos),
        format!(
            "Tabla: T\n\n  {:<35} {}\n  {}\n  {:<35} {}\n  {:<35} {}\n",
            "CAMPO",
            "TIPO",
            "-".repeat(55),
            "AÑO",
            "INTEGER",
            larga,
            "DATE"
        )
    );
}

#[test]
fn sonda_de_microsip() {
    let s = SecurityMicrosip { config: config() };
    for (rc, vive) in [(0, Some(true)), (4, Some(false)), (-1, None)] {
        let mut dll = MicrosipDll::nueva();
        let mut m = s.probe_factory_creds_activo(&dll);
        let mut textos: Vec<Vec<u8>> = vec![];
        let mut cerrada = false;
        loop {
            let r = match m.accion() {
                Accion::Terminar => break,
                Accion::Resolver(_) => Respuesta::Resuelto,
                Accion::PedirMensaje(_) => Respuesta::Mensaje(None),
                Accion::EntregarFila => unreachable!(),
                Accion::Llamar { funcion, args } => {
                    if funcion == "DBDisconnect" {
                        cerrada = true;
                    }
                    if funcion == "DBConnect" {
                        for a in &args {
                            if let Argumento::Texto(c) = a {
                                textos.push(c.bytes().to_vec());
                            }
                        }
                    }
                    Respuesta::Codigo(match funcion {
                        "NewDB" if rc < 0 => 0,
                        "NewDB" | "NewTrn" => 1,
                        "DBConnect" => rc,
                        _ => 0,
                    })
                }
            };
            m.recibir(r);
        }
        let leida = s.leer_sonda(dll.terminar(m));
        match vive {
            Some(v) => {
                assert_eq!(textos, vec![b"SF".to_vec(), b"SYSDBA".to_vec(), b"masterkey".to_vec()]);
                assert_eq!(leida.unwrap(), v);
                assert_eq!(cerrada, v);
            }
            None => assert_eq!(
                leida.unwrap_err().mensaje(),
                "no se pudo alcanzar el sistema para auditar: error de conexión: NewDB() falló (handle=0): (sin mensaje)"
            ),
        }
    }
}
