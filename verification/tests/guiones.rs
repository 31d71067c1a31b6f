use iskandar::decimal::Decimal;
use iskandar::doble::Doble;
use iskandar::error::IskandarError;
use iskandar::fecha::{Fecha, FechaHora};
use iskandar::microsip::clientes::{map_row, ClientesMicrosip};
use iskandar::microsip::config::MicrosipConfig;
use iskandar::microsip::cxc::CxcMicrosip;
use iskandar::microsip::dll::{DbHandle, MicrosipDll};
use iskandar::microsip::facturas::FacturasMicrosip;
use iskandar::microsip::maquina::Maquina;
use iskandar::microsip::nativo::{Accion, Argumento, Modulo, Respuesta};
use iskandar::microsip::params::{AplicacionCreditoParams, CreditoParams, FacturaParams, RenglonParams};
use iskandar::models::clientes::{Cliente, FiltroClientes};
use iskandar::models::common::{EntidadId, Renglon};
use iskandar::models::cxc::{AplicacionCargo, NuevoCredito};
use iskandar::models::ventas::NuevaFactura;
use serde_json::Value;

/// Una biblioteca nativa simulada: anota lo que se le pide y responde bien,
/// salvo en la función que se le indique.
struct Nativa {
    bitacora: Vec<String>,
    /// Función que falla y el código con que lo hace.
    falla: Option<(&'static str, i32)>,
    /// Función que falla en su llamada número tanto, y con qué código.
    falla_en: Option<(&'static str, usize, i32)>,
    /// Función cuyos argumentos no se pueden convertir.
    no_convierte: Option<&'static str>,
    /// Símbolo que no existe.
    ausente: Option<&'static str>,
    /// Los módulos no saben dar su mensaje.
    muda: bool,
    filas: usize,
    handle: i32,
    clientes: Vec<Cliente>,
}

fn nativa() -> Nativa {
    Nativa {
        bitacora: vec![],
        falla: None,
        falla_en: None,
        no_convierte: None,
        ausente: None,
        muda: false,
        filas: 0,
        handle: 0,
        clientes: vec![],
    }
}

fn arg(a: &Argumento) -> String {
    match a {
        Argumento::Entero(n) => n.to_string(),
        Argumento::Doble(d) => format!("{:?}", f64::from_bits(d.bits)),
        Argumento::Decimal(d) => format!("{}e-{}", d.mantisa(), d.escala()),
        Argumento::Texto(c) => format!("{:?}", String::from_utf8_lossy(c.bytes())),
    }
}

fn con_nul(s: &str) -> Vec<u8> {
    let mut b = s.as_bytes().to_vec();
    b.push(0);
    b
}

impl Nativa {
    fn responder(&mut self, m: &Maquina, a: Accion) -> Respuesta {
        match a {
            Accion::Resolver(s) => {
                self.bitacora.push(format!("?{s}"));
                if self.ausente == Some(s) {
                    Respuesta::NoResuelto("no está".to_string())
                } else {
                    Respuesta::Resuelto
                }
            }
            Accion::PedirMensaje(modulo) => {
                self.bitacora.push(format!("mensaje {modulo:?}"));
                if self.muda {
                    Respuesta::Mensaje(None)
                } else {
                    Respuesta::Mensaje(Some(con_nul(match modulo {
                        Modulo::Basica => "error básico",
                        Modulo::Ventas => "error de ventas",
                        Modulo::Cxc => "error de cxc",
                    })))
                }
            }
            Accion::EntregarFila => {
                self.bitacora.push("fila".to_string());
                match map_row(m.fila()) {
                    Ok(c) => {
                        self.clientes.push(c);
                        Respuesta::FilaAceptada
                    }
                    Err(e) => Respuesta::FilaRechazada(e),
                }
            }
            Accion::Terminar => unreachable!(),
            Accion::Llamar { funcion, args } => {
                if self.no_convierte == Some(funcion) {
                    return Respuesta::NoConvertido(IskandarError::Validation(
                        "no se pudo convertir".to_string(),
                    ));
                }
                let textos: Vec<String> = args.iter().map(arg).collect();
                self.bitacora.push(format!("{funcion}({})", textos.join(", ")));
                let ausente = self.ausente == Some(funcion);
                let rc = match self.falla {
                    Some((f, rc)) if f == funcion => Some(rc),
                    _ => None,
                };
                let veces = self.bitacora.iter().filter(|s| s.starts_with(funcion)).count();
                let rc = match self.falla_en {
                    Some((f, n, rc)) if f == funcion && n == veces => Some(rc),
                    _ => rc,
                };
                match funcion {
                    "DBDisconnect" if ausente => Respuesta::NoResuelto("no está".to_string()),
                    "NewDB" | "NewTrn" | "NewDtst" | "NewPL" => {
                        self.handle += 1;
                        Respuesta::Codigo(rc.unwrap_or(self.handle))
                    }
                    "DBConnected" => Respuesta::Codigo(rc.unwrap_or(1)),
                    "DtstEof" => {
                        if self.filas == 0 {
                            Respuesta::Codigo(1)
                        } else {
                            self.filas -= 1;
                            Respuesta::Codigo(0)
                        }
                    }
                    "DtstGetFieldAsString" => {
                        Respuesta::Texto { rc: rc.unwrap_or(0), bufer: con_nul(" dato ") }
                    }
                    "DtstGetFieldAsInteger" => {
                        Respuesta::Entero { rc: rc.unwrap_or(0), valor: 40 + self.filas as i32 }
                    }
                    "GetDoctoVeId" | "GetDoctoCCId" => {
                        Respuesta::Entero { rc: rc.unwrap_or(0), valor: 777 }
                    }
                    _ => Respuesta::Codigo(rc.unwrap_or(0)),
                }
            }
        }
    }

    fn correr(&mut self, mut m: Maquina) -> Maquina {
        loop {
            let a = m.accion();
            if matches!(a, Accion::Terminar) {
                return m;
            }
            let r = self.responder(&m, a);
            assert!(m.espera(&r));
            m.recibir(r);
        }
    }

    fn llamadas(&self) -> Vec<&str> {
        self.bitacora.iter().map(|s| s.as_str()).filter(|s| !s.starts_with('?')).collect()
    }
}

fn factura_params(lista: Vec<(String, String)>) -> FacturaParams {
    let cero = Doble { bits: 0 };
    FacturaParams {
        fecha: "05/03/2026".to_string(),
        folio: "".to_string(),
        cliente_id: 1042,
        dir_consig_id: 0,
        almacen_id: 0,
        tipo_dscto: "P".to_string(),
        descuento: cero,
        orden_compra: "".to_string(),
        descripcion: "Año".to_string(),
        fletes: cero,
        otros_cargos: cero,
        pctje_comis: Doble { bits: (-1.0f64).to_bits() },
        cond_pago_id: 0,
        vendedor_id: 0,
        impto_sustituido_id: 0,
        impto_sustituto_id: 0,
        importe_cobro: Doble { bits: (-1.0f64).to_bits() },
        descripcion_cobro: "".to_string(),
        lista_parametros: lista,
        dir_cliente_id: Some(6),
        formas_cobro_cbb: vec![8, 9],
        renglones: vec![
            RenglonParams {
                articulo_id: 88,
                unidades: Decimal::new(3, 0),
                precio_unitario: Decimal::new(45000, 2),
                pctje_dscto: Decimal::new(-1, 0),
                notas: "n".to_string(),
            },
            RenglonParams {
                articulo_id: 89,
                unidades: Decimal::new(1, 0),
                precio_unitario: Decimal::new(-1, 0),
                pctje_dscto: Decimal::new(-1, 0),
                notas: "".to_string(),
            },
        ],
    }
}

fn lista() -> Vec<(String, String)> {
    vec![("USO_CFDI".to_string(), "G03".to_string())]
}

#[test]
fn factura_completa_y_memoria() {
    let mut dll = MicrosipDll::nueva();
    let mut n = nativa();
    let m = dll.crear_factura("SF", "u", "p", Some("META"), (1, 0), &factura_params(lista()));
    let m = n.correr(m);
    assert_eq!(dll.terminar(m).unwrap(), 777);
    assert_eq!(
        n.llamadas(),
        vec![
            "SetErrorHandling(0, 0)",
            "NewDB()",
            "NewTrn(1, 0)",
            "DBConnect(1, \"SF\", \"u\", \"p\")",
            "veSetErrorHandling(0, 0)",
            "SetDBVentas(1)",
            "SetErrorHandling(0, 0)",
            "NewDB()",
            "NewTrn(3, 0)",
            "DBConnect(3, \"META\", \"u\", \"p\")",
            "ChecaCompatibilidadVentas(3)",
            "DBDisconnect(3)",
            "SetReglasVentas(1, 0)",
            "NewPL()",
            "PLClear(5)",
            "PLSetParamValue(5, \"USO_CFDI\", \"G03\")",
            "NuevaFactura(\"05/03/2026\", \"\", 1042, 0, 0, \"P\", 0.0, \"\", \"A\u{fffd}o\", 0.0, 0.0, -1.0, 0, 0, 0, 0, -1.0, \"\", 5)",
            "DirClienteFactura(6)",
            "SetFormaCobroFactura(8)",
            "SetFormaCobroFactura(9)",
            "RenglonFactura(88, 3e-0, 45000e-2, -1e-0, \"n\")",
            "RenglonFactura(89, 1e-0, -1e-0, -1e-0, \"\")",
            "GetDoctoVeId()",
            "AplicaFactura()",
            "DBDisconnect(1)",
        ]
    );
    assert!(dll.estado.compatibilidad_ventas_checada);
    assert!(!dll.estado.compatibilidad_cxc_checada);
    assert_eq!(dll.estado.pl_handle, Some(5));

    // La segunda factura no repite el chequeo ni crea otra lista, pero sí la limpia.
    let mut n = nativa();
    let m = dll.crear_factura("SF", "u", "p", Some("META"), (1, 0), &factura_params(lista()));
    let m = n.correr(m);
    assert_eq!(dll.terminar(m).unwrap(), 777);
    assert!(!n.llamadas().iter().any(|s| s.starts_with("NewPL") || s.starts_with("Checa")));
    assert!(n.llamadas().contains(&"PLClear(5)"));

    // Sin parámetros de lista se manda -1 y la lista no se toca.
    let mut n = nativa();
    let m = dll.crear_factura("SF", "u", "p", None, (0, 1), &factura_params(vec![]));
    let m = n.correr(m);
    assert_eq!(dll.terminar(m).unwrap(), 777);
    assert!(!n.llamadas().iter().any(|s| s.starts_with("PL")));
    assert!(n.llamadas().iter().any(|s| s.starts_with("NuevaFactura(") && s.ends_with(", -1)")));
    assert!(n.llamadas().contains(&"SetReglasVentas(0, 1)"));
    assert_eq!(dll.estado.pl_handle, Some(5));
}

#[test]
fn factura_localiza_simbolos_primero() {
    let dll = MicrosipDll::nueva();
    let mut n = nativa();
    n.ausente = Some("PLClear");
    let m = n.correr(dll.crear_factura("SF", "u", "p", None, (1, 0), &factura_params(vec![])));
    assert_eq!(
        m.resultado().unwrap_err().mensaje(),
        "error de conexión: símbolo 'PLClear' no encontrado en la DLL: no está"
    );
    assert_eq!(
        n.bitacora,
        vec![
            "?veSetErrorHandling",
            "?SetDBVentas",
            "?ChecaCompatibilidadVentas",
            "?SetReglasVentas",
            "?NuevaFactura",
            "?DirClienteFactura",
            "?SetFormaCobroFactura",
            "?RenglonFactura",
            "?AplicaFactura",
            "?AbortaDoctoVentas",
            "?GetDoctoVeId",
            "?NewPL",
            "?PLSetParamValue",
            "?PLClear",
        ]
    );
}

#[test]
fn factura_aborta_y_cierra_si_falla() {
    for f in [
        "SetDBVentas",
        "PLClear",
        "PLSetParamValue",
        "NuevaFactura",
        "DirClienteFactura",
        "SetFormaCobroFactura",
        "RenglonFactura",
        "GetDoctoVeId",
        "AplicaFactura",
    ] {
        let mut dll = MicrosipDll::nueva();
        let mut n = nativa();
        n.falla = Some((f, 15));
        let m = n.correr(dll.crear_factura("SF", "u", "p", None, (1, 0), &factura_params(lista())));
        let e = dll.terminar(m).unwrap_err();
        assert_eq!(e.mensaje(), "error del ERP (código 15): error de ventas", "{f}");
        let l = n.llamadas();
        assert_eq!(&l[l.len() - 3..], ["mensaje Ventas", "AbortaDoctoVentas()", "DBDisconnect(1)"]);
    }
}

#[test]
fn el_error_original_no_se_reemplaza() {
    let dll = MicrosipDll::nueva();
    let mut n = nativa();
    n.falla = Some(("NuevaFactura", 3));
    n.ausente = Some("DBDisconnect");
    let m = n.correr(dll.crear_factura("SF", "u", "p", None, (1, 0), &factura_params(vec![])));
    assert_eq!(m.resultado().unwrap_err().mensaje(), "error del ERP (código 3): error de ventas");

    // Y sin otra falla, la de la desconexión no cuenta.
    let mut n = nativa();
    n.falla = Some(("DBDisconnect", 8));
    let m = n.correr(dll.crear_factura("SF", "u", "p", None, (1, 0), &factura_params(vec![])));
    assert_eq!(m.resultado().unwrap(), 777);
}

#[test]
fn factura_sin_mensaje() {
    let dll = MicrosipDll::nueva();
    let mut n = nativa();
    n.muda = true;
    n.falla = Some(("AplicaFactura", 2));
    let m = n.correr(dll.crear_factura("SF", "u", "p", None, (1, 0), &factura_params(vec![])));
    assert_eq!(
        m.resultado().unwrap_err().mensaje(),
        "error del ERP (código 2): (sin mensaje de veGetLastErrorMessage)"
    );
    let mut n = nativa();
    n.muda = true;
    n.falla = Some(("NewPL", 0));
    let m = n.correr(dll.crear_factura("SF", "u", "p", None, (1, 0), &factura_params(lista())));
    assert_eq!(
        m.resultado().unwrap_err().mensaje(),
        "error de conexión: NewPL() falló (handle=0): (sin mensaje)"
    );
}

#[test]
fn compatibilidad_que_falla() {
    let mut dll = MicrosipDll::nueva();
    let mut n = nativa();
    n.falla = Some(("ChecaCompatibilidadVentas", 4));
    let m = n.correr(dll.crear_factura("SF", "u", "p", Some("M"), (1, 0), &factura_params(vec![])));
    let e = dll.terminar(m).unwrap_err();
    assert_eq!(e.mensaje(), "error del ERP (código 4): error de ventas");
    assert!(!dll.estado.compatibilidad_ventas_checada);
    // Metadatos se cierra antes de juzgar el código.
    let l = n.llamadas();
    let k = l.iter().position(|s| s.starts_with("Checa")).unwrap();
    assert_eq!(
        &l[k + 1..],
        ["DBDisconnect(3)", "mensaje Ventas", "AbortaDoctoVentas()", "DBDisconnect(1)"]
    );
}

#[test]
fn texto_con_nul_en_la_factura() {
    let dll = MicrosipDll::nueva();
    let mut n = nativa();
    let mut p = factura_params(vec![]);
    p.renglones[1].notas = "a\0".to_string();
    let m = n.correr(dll.crear_factura("SF", "u", "p", None, (1, 0), &p));
    assert_eq!(
        m.resultado().unwrap_err().mensaje(),
        "error de validación: string con NUL interno: \"a\\0\""
    );
    let l = n.llamadas();
    assert_eq!(&l[l.len() - 2..], ["AbortaDoctoVentas()", "DBDisconnect(1)"]);
    assert!(l.iter().any(|s| s.starts_with("RenglonFactura(88")));
    assert!(!l.iter().any(|s| s.starts_with("RenglonFactura(89")));
}

fn credito_params(lista: Vec<(String, String)>, n: usize) -> CreditoParams {
    let mut aplicaciones = vec![];
    for i in 0..n {
        aplicaciones.push(AplicacionCreditoParams {
            cargo_id: i as i32,
            folio_cargo: "F1".to_string(),
            importe: Decimal::new(11600, 2),
            dscto_ppag: Doble { bits: (-1.0f64).to_bits() },
        });
    }
    CreditoParams {
        concepto_cc_id: 0,
        fecha: "05/03/2026 09:07".to_string(),
        folio: "".to_string(),
        cliente_id: 1042,
        descripcion: "".to_string(),
        cobrador_id: 0,
        lista_parametros: lista,
        aplicaciones,
    }
}

#[test]
fn credito_completo_y_memoria() {
    let mut dll = MicrosipDll::nueva();
    let mut n = nativa();
    let m = n.correr(dll.crear_credito("SF", "u", "p", Some("META"), &credito_params(lista(), 1)));
    assert_eq!(dll.terminar(m).unwrap(), 777);
    assert_eq!(
        n.llamadas()[8..],
        [
            "ccSetErrorHandling(0, 0)",
            "SetDBCxc(1)",
            "ChecaCompatibilidadCxc(3)",
            "SetDBMetadatos(3)",
            "NewPL()",
            "PLClear(5)",
            "PLSetParamValue(5, \"USO_CFDI\", \"G03\")",
            "NuevoCreditoCc(0, \"05/03/2026 09:07\", \"\", 1042, \"\", 0, 5)",
            "RenglonCreditoCc(\"R\", 0, \"F1\", 11600e-2, 0.0, 0.0, 0.0, -1.0)",
            "GetDoctoCCId()",
            "AplicaCreditoCc()",
            "DBDisconnect(3)",
            "DBDisconnect(1)",
        ]
    );
    assert!(dll.estado.compatibilidad_cxc_checada);
    assert!(!dll.estado.compatibilidad_ventas_checada);
    assert_eq!(dll.estado.pl_handle, Some(5));
    // La lista se comparte con las facturas; el chequeo de Cxc no se repite.
    let mut n = nativa();
    let m = n.correr(dll.crear_factura("SF", "u", "p", None, (1, 0), &factura_params(lista())));
    assert_eq!(dll.terminar(m).unwrap(), 777);
    assert!(n.llamadas().contains(&"PLClear(5)"));
    let mut n = nativa();
    let m = n.correr(dll.crear_credito("SF", "u", "p", Some("M"), &credito_params(vec![], 1)));
    assert_eq!(dll.terminar(m).unwrap(), 777);
    assert!(!n.llamadas().iter().any(|s| s.starts_with("Checa")));
    assert!(n.llamadas().contains(&"SetDBMetadatos(3)"));
}

#[test]
fn credito_falla_y_se_aborta() {
    let mut dll = MicrosipDll::nueva();
    for (f, mensaje) in [
        ("NuevoCreditoCc", "error del ERP (código 9): error de cxc"),
        ("SetDBMetadatos", "error del ERP (código 9): error de cxc"),
        ("ChecaCompatibilidadCxc", "error del ERP (código 9): error de cxc"),
    ] {
        let mut n = nativa();
        n.falla = Some((f, 9));
        let m = n.correr(dll.crear_credito("SF", "u", "p", Some("M"), &credito_params(vec![], 1)));
        assert_eq!(dll.terminar(m).unwrap_err().mensaje(), mensaje);
        let l = n.llamadas();
        assert_eq!(&l[l.len() - 3..], ["AbortaDoctoCxc()", "DBDisconnect(3)", "DBDisconnect(1)"]);
        dll = MicrosipDll::nueva();
    }
    // Sin aplicaciones se rechaza después del encabezado.
    let mut n = nativa();
    let m = n.correr(dll.crear_credito("SF", "u", "p", None, &credito_params(vec![], 0)));
    let e = m.resultado().unwrap_err();
    assert!(matches!(&e, IskandarError::Validation(_)));
    assert!(e.mensaje().contains("RenglonCreditoCc no se llamaría nunca"));
    let l = n.llamadas();
    assert!(l[l.len() - 3].starts_with("NuevoCreditoCc("));
    assert_eq!(&l[l.len() - 2..], ["AbortaDoctoCxc()", "DBDisconnect(1)"]);
}

#[test]
fn credito_sin_metadatos_abiertos() {
    // Si Metadatos no abre, la empresa se cierra igual, lo que no se abrió no, y
    // no hay nada que abortar.
    let mut dll = MicrosipDll::nueva();
    let mut n = nativa();
    n.falla_en = Some(("DBConnect", 2, 4));
    let m = n.correr(dll.crear_credito("SF", "u", "p", Some("META"), &credito_params(vec![], 1)));
    assert_eq!(
        dll.terminar(m).unwrap_err().mensaje(),
        "error del ERP (código 4): error básico"
    );
    assert_eq!(
        n.llamadas(),
        vec![
            "SetErrorHandling(0, 0)",
            "NewDB()",
            "NewTrn(1, 0)",
            "DBConnect(1, \"SF\", \"u\", \"p\")",
            "SetErrorHandling(0, 0)",
            "NewDB()",
            "NewTrn(3, 0)",
            "DBConnect(3, \"META\", \"u\", \"p\")",
            "mensaje Basica",
            "DBDisconnect(1)",
        ]
    );
    // Tampoco si la ruta ni siquiera se puede convertir.
    let mut n = nativa();
    let m = n.correr(dll.crear_credito("SF", "u", "p", Some("M\0"), &credito_params(vec![], 1)));
    assert!(dll.terminar(m).is_err());
    let l = n.llamadas();
    assert_eq!(
        &l[l.len() - 2..],
        ["DBConnect(1, \"SF\", \"u\", \"p\")", "DBDisconnect(1)"]
    );
    // Ya dentro del módulo, una falla sí aborta.
    let mut n = nativa();
    n.falla = Some(("SetDBCxc", 4));
    let m = n.correr(dll.crear_credito("SF", "u", "p", Some("META"), &credito_params(vec![], 1)));
    assert!(dll.terminar(m).is_err());
    let l = n.llamadas();
    assert_eq!(&l[l.len() - 3..], ["AbortaDoctoCxc()", "DBDisconnect(3)", "DBDisconnect(1)"]);
}

#[test]
fn argumento_que_no_se_convierte() {
    let mut dll = MicrosipDll::nueva();
    let mut n = nativa();
    n.no_convierte = Some("RenglonFactura");
    let m = n.correr(dll.crear_factura("SF", "u", "p", None, (1, 0), &factura_params(vec![])));
    assert_eq!(
        dll.terminar(m).unwrap_err().mensaje(),
        "error de validación: no se pudo convertir"
    );
    let l = n.llamadas();
    assert_eq!(&l[l.len() - 2..], ["AbortaDoctoVentas()", "DBDisconnect(1)"]);
}

#[test]
fn sucesion_de_altas() {
    // Facturas y créditos comparten la lista; cada chequeo se repite hasta que
    // sale bien, y el de un módulo no cuenta para el otro.
    let mut dll = MicrosipDll::nueva();
    let mut checa_v = 0;
    let mut checa_c = 0;
    let mut asigna = 0;
    let mut crea = 0;
    for vuelta in 0..3 {
        let mut n = nativa();
        n.handle = 10 * vuelta;
        if vuelta == 0 {
            n.falla = Some(("ChecaCompatibilidadVentas", 7));
        }
        let m = dll.crear_factura("SF", "u", "p", Some("M"), (1, 0), &factura_params(lista()));
        let m = n.correr(m);
        let r = dll.terminar(m);
        assert_eq!(r.is_err(), vuelta == 0);
        let mut k = nativa();
        k.handle = 10 * vuelta + 5;
        if vuelta == 0 {
            k.falla = Some(("ChecaCompatibilidadCxc", 8));
        }
        let m = k.correr(dll.crear_credito("SF", "u", "p", Some("M"), &credito_params(lista(), 1)));
        let r = dll.terminar(m);
        assert_eq!(r.is_err(), vuelta == 0);
        let todas: Vec<String> =
            n.llamadas().into_iter().chain(k.llamadas()).map(|s| s.to_string()).collect();
        checa_v += todas.iter().filter(|s| s.starts_with("ChecaCompatibilidadVentas")).count();
        checa_c += todas.iter().filter(|s| s.starts_with("ChecaCompatibilidadCxc")).count();
        asigna += todas.iter().filter(|s| s.starts_with("SetDBMetadatos")).count();
        crea += todas.iter().filter(|s| s.starts_with("NewPL")).count();
        if vuelta > 0 {
            let h = dll.estado.pl_handle.unwrap();
            assert_eq!(todas.iter().filter(|s| **s == format!("PLClear({h})")).count(), 2);
        }
    }
    assert_eq!((checa_v, checa_c, asigna, crea), (2, 2, 2, 1));
}

#[test]
fn conexion_y_sus_errores() {
    let dll = MicrosipDll::nueva();
    let mut n = nativa();
    let m = n.correr(dll.connect("SF", "u", "p"));
    assert_eq!(MicrosipDll::handle(&m), DbHandle { db: 1, trn: 2 });
    assert_eq!(
        n.bitacora,
        vec![
            "?SetErrorHandling",
            "?NewDB",
            "?DBConnect",
            "?NewTrn",
            "SetErrorHandling(0, 0)",
            "NewDB()",
            "NewTrn(1, 0)",
            "DBConnect(1, \"SF\", \"u\", \"p\")",
        ]
    );
    for (f, rc, e) in [
        ("NewDB", -1, "error de conexión: NewDB() falló (handle=-1): error básico"),
        ("NewTrn", 0, "error de conexión: NewTrn() falló (handle=0): error básico"),
        ("DBConnect", 4, "error del ERP (código 4): error básico"),
    ] {
        let mut n = nativa();
        n.falla = Some((f, rc));
        assert_eq!(n.correr(dll.connect("SF", "u", "p")).resultado().unwrap_err().mensaje(), e);
    }
    // Los textos se convierten antes de localizar NewTrn.
    let mut n = nativa();
    let m = n.correr(dll.connect("SF", "u\0", "p"));
    assert!(m.resultado().is_err());
    assert_eq!(n.bitacora, vec!["?SetErrorHandling", "?NewDB", "?DBConnect"]);
}

#[test]
fn conectada_y_desconexion() {
    let dll = MicrosipDll::nueva();
    let h = DbHandle { db: 7, trn: 8 };
    let mut n = nativa();
    let m = n.correr(dll.connected(h));
    assert!(MicrosipDll::respuesta_conectada(&m));
    assert_eq!(n.bitacora, vec!["?DBConnected", "DBConnected(7)"]);
    let mut n = nativa();
    n.falla = Some(("DBConnected", 0));
    assert!(!MicrosipDll::respuesta_conectada(&n.correr(dll.connected(h))));
    let mut n = nativa();
    assert!(n.correr(dll.disconnect(h)).resultado().is_ok());
    assert_eq!(n.llamadas(), vec!["DBDisconnect(7)"]);
    let mut n = nativa();
    n.falla = Some(("DBDisconnect", 5));
    assert_eq!(
        n.correr(dll.disconnect(h)).resultado().unwrap_err().mensaje(),
        "error del ERP (código 5): error básico"
    );
}

#[test]
fn prueba_de_conexion() {
    let dll = MicrosipDll::nueva();
    let c = config();
    let mut n = nativa();
    assert!(n.correr(c.probar_conexion(&dll)).resultado().is_ok());
    let mut n = nativa();
    n.falla = Some(("DBConnected", 0));
    assert_eq!(
        n.correr(c.probar_conexion(&dll)).resultado().unwrap_err().mensaje(),
        "error de conexión: DBConnect retornó éxito pero DBConnected reporta desconectado"
    );
    assert_eq!(n.llamadas().last(), Some(&"DBDisconnect(1)"));
    let mut n = nativa();
    n.falla = Some(("DBDisconnect", 6));
    assert_eq!(
        n.correr(c.probar_conexion(&dll)).resultado().unwrap_err().mensaje(),
        "error del ERP (código 6): error básico"
    );
}

fn config() -> MicrosipConfig {
    MicrosipConfig {
        dll_path: "a.dll".to_string(),
        db_path: "SF".to_string(),
        usuario: "u".to_string(),
        password: "p".to_string(),
        metadatos_path: Some("META".to_string()),
        existencias_negativas: true,
        validar_precio_minimo: true,
    }
}

#[test]
fn consulta_completa() {
    let dll = MicrosipDll::nueva();
    let m = ClientesMicrosip { config: config() };
    let c = m.listar(&FiltroClientes { texto: Some("ac".to_string()), limite: None, pagina: None });
    let mut n = nativa();
    n.filas = 2;
    let fin = n.correr(m.config.consultar(&dll, &c));
    assert!(fin.resultado().is_ok());
    assert_eq!(n.clientes.len(), 2);
    assert_eq!(n.clientes[0].id, EntidadId::Numerico(41));
    assert_eq!(n.clientes[1].id, EntidadId::Numerico(40));
    assert_eq!(n.clientes[0].nombre, "dato");
    let l = n.llamadas();
    assert_eq!(&l[4..6], ["TrnStart(2)", "NewDtst(2)"]);
    assert!(l[6].starts_with("DtstSelQry(3, \"SELECT FIRST 500"));
    assert_eq!(l[7], "DtstSetParamAsString(3, \"texto\", \"ac\")");
    assert_eq!(l[8], "DtstOpen(3)");
    assert_eq!(
        &l[9..17],
        [
            "DtstEof(3)",
            "DtstGetFieldAsInteger(3, \"CLIENTE_ID\")",
            "DtstGetFieldAsString(3, \"NOMBRE\")",
            "DtstGetFieldAsString(3, \"RFC_CURP\")",
            "DtstGetFieldAsString(3, \"TELEFONO1\")",
            "DtstGetFieldAsString(3, \"EMAIL\")",
            "fila",
            "DtstNext(3)",
        ]
    );
    assert_eq!(&l[l.len() - 4..], ["DtstEof(3)", "DtstClose(3)", "TrnCommit(2)", "DBDisconnect(1)"]);
}

#[test]
fn consulta_que_falla_se_desconecta() {
    let dll = MicrosipDll::nueva();
    let m = ClientesMicrosip { config: config() };
    let c = m.listar(&FiltroClientes::default());
    for (f, rc, e) in [
        ("TrnStart", 3, "error del ERP (código 3): error básico"),
        ("NewDtst", 0, "error de conexión: NewDtst() falló: error básico"),
        ("DtstSelQry", 3, "error del ERP (código 3): error básico"),
        ("DtstOpen", 3, "error del ERP (código 3): error básico"),
        ("DtstNext", 3, "error del ERP (código 3): error básico"),
        ("TrnCommit", 3, "error del ERP (código 3): error básico"),
        (
            "DtstGetFieldAsInteger",
            3,
            "error del ERP (código 3): error leyendo campo int 'CLIENTE_ID'",
        ),
    ] {
        let mut n = nativa();
        n.filas = 1;
        n.falla = Some((f, rc));
        let fin = n.correr(m.config.consultar(&dll, &c));
        assert_eq!(fin.resultado().unwrap_err().mensaje(), e);
        assert_eq!(n.llamadas().last(), Some(&"DBDisconnect(1)"));
    }
}

#[test]
fn la_lectura_se_corta_en_el_campo_que_falla() {
    let dll = MicrosipDll::nueva();
    let m = ClientesMicrosip { config: config() };
    let c = m.listar(&FiltroClientes::default());
    let mut n = nativa();
    n.filas = 1;
    n.falla = Some(("DtstGetFieldAsInteger", 3));
    assert!(n.correr(m.config.consultar(&dll, &c)).resultado().is_err());
    assert!(!n.llamadas().iter().any(|s| s.starts_with("DtstGetFieldAsString")));
    // El nombre es obligatorio; lo demás, no.
    let mut n = nativa();
    n.filas = 1;
    n.falla_en = Some(("DtstGetFieldAsString", 1, 3));
    assert!(n.correr(m.config.consultar(&dll, &c)).resultado().is_err());
    let leidos = n.llamadas().iter().filter(|s| s.starts_with("DtstGetFieldAsString")).count();
    assert_eq!(leidos, 1);
    let mut n = nativa();
    n.filas = 1;
    n.falla_en = Some(("DtstGetFieldAsString", 2, 3));
    assert!(n.correr(m.config.consultar(&dll, &c)).resultado().is_ok());
    assert!(n.clientes[0].id_fiscal.is_none());
    assert_eq!(n.clientes[0].email.as_deref(), Some("dato"));
    // Un monto que no es un entero también corta.
    let f = FacturasMicrosip { config: config() };
    let (c, _) = f.obtener(&EntidadId::Numerico(1)).unwrap();
    let mut n = nativa();
    n.filas = 1;
    assert!(n.correr(f.config.consultar(&dll, &c)).resultado().is_err());
    let leidos = n.llamadas().iter().filter(|s| s.starts_with("DtstGetFieldAsString")).count();
    assert_eq!(leidos, 1);
}

#[test]
fn alta_desde_el_modelo_universal() {
    let mut dll = MicrosipDll::nueva();
    let modulo = FacturasMicrosip { config: config() };
    let mut extra = serde_json::Map::new();
    let mut f = NuevaFactura {
        cliente_id: EntidadId::Numerico(1042),
        fecha: None,
        folio: None,
        renglones: vec![Renglon {
            articulo_id: EntidadId::Numerico(88),
            unidades: Decimal::new(3, 0),
            precio_unitario: None,
            descuento_pctje: None,
            notas: None,
        }],
        moneda: None,
        descripcion: None,
        extra: extra.clone(),
    };
    f.fecha = Fecha::new(2026, 3, 5);
    assert!(modulo.crear(&dll, &f).is_err());
    extra.insert("ImporteCobro".to_string(), Value::from(0));
    f.extra = extra;
    let mut n = nativa();
    let m = n.correr(modulo.crear(&dll, &f).unwrap());
    assert_eq!(dll.terminar(m).unwrap(), 777);
    assert!(n.llamadas().contains(&"SetReglasVentas(0, 1)"));
    assert!(n.llamadas().contains(&"DBConnect(3, \"META\", \"u\", \"p\")"));
    assert!(n.llamadas().contains(&"RenglonFactura(88, 3e-0, -1e-0, -1e-0, \"\")"));

    let cxc = CxcMicrosip { config: config() };
    let c = NuevoCredito {
        concepto_id: EntidadId::Numerico(0),
        cliente_id: EntidadId::Numerico(1),
        fecha: FechaHora::new(Fecha::new(2026, 3, 5).unwrap(), 1, 2, 3),
        folio: None,
        descripcion: None,
        aplicaciones: vec![AplicacionCargo {
            cargo_id: None,
            folio_cargo: Some("F1".to_string()),
            importe: Decimal::new(1, 0),
        }],
        extra: serde_json::Map::new(),
    };
    let mut n = nativa();
    let m = n.correr(cxc.crear_credito(&dll, &c).unwrap());
    assert_eq!(dll.terminar(m).unwrap(), 777);
    assert!(n
        .llamadas()
        .contains(&"NuevoCreditoCc(0, \"05/03/2026 01:02\", \"\", 1, \"\", 0, -1)"));
}
