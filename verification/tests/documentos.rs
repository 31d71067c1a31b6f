use iskandar::decimal::Decimal;
use iskandar::doble::{Doble, BITS_CERO, BITS_MENOS_UNO};
use iskandar::extra::{
    construir_lista_parametros, extra_f64, extra_i64, extra_string, valor_json_a_texto, Extra,
};
use iskandar::fecha::{Fecha, FechaHora};
use iskandar::microsip::comun::{entidad_id_a_i32, id_consulta, primera, truncar};
use iskandar::microsip::cxc::{mapear_nuevo_credito, mapear_nuevo_credito_en, SIN_APLICACIONES};
use iskandar::microsip::facturas::{
    importe_cobro_requerido, mapear_nueva_factura, mapear_nueva_factura_en, IMPORTE_COBRO_OBLIGATORIO,
    IMPUESTOS_A_MEDIAS, SIN_RENGLONES,
};
use iskandar::models::common::{EntidadId, Renglon};
use iskandar::models::cxc::{AplicacionCargo, NuevoCredito};
use iskandar::models::ventas::NuevaFactura;
use serde_json::Value;

fn extra(pares: Vec<(&str, Value)>) -> Extra {
    let mut m = serde_json::Map::new();
    for (k, v) in pares {
        m.insert(k.to_string(), v);
    }
    m
}

fn hoy() -> Fecha {
    Fecha::new(2026, 3, 5).unwrap()
}

fn ahora() -> FechaHora {
    FechaHora::new(hoy(), 9, 7, 30).unwrap()
}

fn renglon() -> Renglon {
    Renglon {
        articulo_id: EntidadId::Numerico(88),
        unidades: Decimal::new(30, 1),
        precio_unitario: Some(Decimal::new(45000, 2)),
        descuento_pctje: None,
        notas: None,
    }
}

fn factura(x: Extra) -> NuevaFactura {
    NuevaFactura {
        cliente_id: EntidadId::Numerico(1042),
        fecha: None,
        folio: None,
        renglones: vec![renglon()],
        moneda: None,
        descripcion: None,
        extra: x,
    }
}

fn minima() -> Extra {
    extra(vec![("ImporteCobro", Value::from(-1.0))])
}

fn bits(x: f64) -> Doble {
    Doble { bits: x.to_bits() }
}

#[test]
fn dobles_por_bits() {
    assert_eq!(BITS_CERO, 0.0f64.to_bits());
    assert_eq!(BITS_MENOS_UNO, (-1.0f64).to_bits());
}

#[test]
fn calendario() {
    assert!(Fecha::new(2024, 2, 29).is_some());
    assert!(Fecha::new(2023, 2, 29).is_none());
    assert!(Fecha::new(1900, 2, 29).is_none());
    assert!(Fecha::new(2000, 2, 29).is_some());
    assert!(Fecha::new(2024, 4, 31).is_none());
    assert!(Fecha::new(2024, 13, 1).is_none());
    assert!(Fecha::new(2024, 0, 1).is_none());
    assert!(Fecha::new(2024, 1, 0).is_none());
    assert!(FechaHora::new(hoy(), 24, 0, 0).is_none());
    for a in [-4i32, -1, 0, 4, 100, 400, 1899, 1900, 2000, 2023, 2024] {
        for m in 1..=12u32 {
            for d in 28..=31u32 {
                assert_eq!(
                    Fecha::new(a, m, d).is_some(),
                    chrono::NaiveDate::from_ymd_opt(a, m, d).is_some()
                );
            }
        }
    }
}

#[test]
fn factura_con_valores_por_omision() {
    let p = mapear_nueva_factura_en(&factura(minima()), hoy()).unwrap();
    assert_eq!(p.fecha, "05/03/2026");
    assert_eq!(p.folio, "");
    assert_eq!(p.cliente_id, 1042);
    assert_eq!((p.dir_consig_id, p.almacen_id), (0, 0));
    assert_eq!(p.tipo_dscto, "P");
    assert_eq!(p.descuento, bits(0.0));
    assert_eq!(p.orden_compra, "");
    assert_eq!(p.descripcion, "");
    assert_eq!(p.fletes, bits(0.0));
    assert_eq!(p.otros_cargos, bits(0.0));
    assert_eq!(p.pctje_comis, bits(-1.0));
    assert_eq!((p.cond_pago_id, p.vendedor_id), (0, 0));
    assert_eq!((p.impto_sustituido_id, p.impto_sustituto_id), (0, 0));
    assert_eq!(p.importe_cobro, bits(-1.0));
    assert_eq!(p.descripcion_cobro, "");
    assert!(p.lista_parametros.is_empty());
    assert_eq!(p.dir_cliente_id, None);
    assert!(p.formas_cobro_cbb.is_empty());
    assert_eq!(p.renglones.len(), 1);
    let r = &p.renglones[0];
    assert_eq!(r.articulo_id, 88);
    assert_eq!((r.unidades.mantisa(), r.unidades.escala()), (30, 1));
    assert_eq!((r.precio_unitario.mantisa(), r.precio_unitario.escala()), (45000, 2));
    assert_eq!((r.pctje_dscto.mantisa(), r.pctje_dscto.escala()), (-1, 0));
    assert_eq!(r.notas, "");
}

#[test]
fn factura_completa() {
    let x = extra(vec![
        ("DirConsigId", Value::from(3)),
        ("AlmacenId", Value::from(19)),
        ("TipoDscto", Value::from("I")),
        ("Descuento", Value::from(12.5)),
        ("OrdenCompra", Value::from("OC-1")),
        ("Fletes", Value::from(10)),
        ("OtrosCargos", Value::from(0.25)),
        ("PctjeComis", Value::from(3)),
        ("CondPagoId", Value::from(7)),
        ("VendedorId", Value::from(8)),
        ("ImptoSustituidoId", Value::from(1)),
        ("ImptoSustitutoId", Value::from(2)),
        ("DescripcionCobro", Value::from("parcial")),
        ("ImporteCobro", Value::from(100)),
        ("USO_CFDI", Value::from("G03")),
        ("FORMA_COBRO_ID", Value::from(71)),
        ("IMPUESTO_INCLUIDO", Value::from(true)),
        ("DirClienteId", Value::from(55)),
        (
            "FormasCobroCbb",
            Value::from(vec![Value::from(1), Value::from("x"), Value::from(4294967298i64)]),
        ),
    ]);
    let mut f = factura(x);
    f.fecha = Fecha::new(2025, 12, 31);
    f.folio = Some("A1".to_string());
    f.descripcion = Some("venta".to_string());
    f.renglones[0].notas = Some("urgente".to_string());
    f.renglones[0].precio_unitario = None;
    f.renglones[0].descuento_pctje = Some(Decimal::new(5, 0));
    let p = mapear_nueva_factura_en(&f, hoy()).unwrap();
    assert_eq!(p.fecha, "31/12/2025");
    assert_eq!(p.folio, "A1");
    assert_eq!(p.dir_consig_id, 3);
    assert_eq!(p.almacen_id, 19);
    assert_eq!(p.tipo_dscto, "I");
    assert_eq!(p.descuento, bits(12.5));
    assert_eq!(p.orden_compra, "OC-1");
    assert_eq!(p.descripcion, "venta");
    assert_eq!(p.fletes, bits(10.0));
    assert_eq!(p.otros_cargos, bits(0.25));
    assert_eq!(p.pctje_comis, bits(3.0));
    assert_eq!((p.cond_pago_id, p.vendedor_id), (7, 8));
    assert_eq!((p.impto_sustituido_id, p.impto_sustituto_id), (1, 2));
    assert_eq!(p.importe_cobro, bits(100.0));
    assert_eq!(p.descripcion_cobro, "parcial");
    let lista: Vec<(&str, &str)> =
        p.lista_parametros.iter().map(|(a, b)| (a.as_str(), b.as_str())).collect();
    assert_eq!(
        lista,
        vec![("USO_CFDI", "G03"), ("FORMA_COBRO_ID", "71"), ("IMPUESTO_INCLUIDO", "true")]
    );
    assert_eq!(p.dir_cliente_id, Some(55));
    assert_eq!(p.formas_cobro_cbb, vec![1, 2]);
    assert_eq!(p.renglones[0].notas, "urgente");
    assert_eq!(p.renglones[0].precio_unitario.mantisa(), -1);
    assert_eq!(p.renglones[0].pctje_dscto.mantisa(), 5);
}

#[test]
fn importe_de_cobro_obligatorio() {
    let e = mapear_nueva_factura_en(&factura(extra(vec![])), hoy()).unwrap_err();
    assert_eq!(e.mensaje(), format!("error de validación: {IMPORTE_COBRO_OBLIGATORIO}"));
    assert!(IMPORTE_COBRO_OBLIGATORIO.starts_with("extra.ImporteCobro es obligatorio"));
    let e = mapear_nueva_factura_en(
        &factura(extra(vec![("ImporteCobro", Value::from("cien"))])),
        hoy(),
    )
    .unwrap_err();
    assert_eq!(e.mensaje(), "error de validación: extra.ImporteCobro debe ser numérico");
    assert_eq!(importe_cobro_requerido(&minima()).unwrap(), bits(-1.0));
}

#[test]
fn impuestos_parejos() {
    for (a, b, bien) in [
        (Some(0), Some(0), true),
        (None, None, true),
        (Some(5), Some(6), true),
        (Some(5), None, false),
        (None, Some(5), false),
        (Some(-1), Some(-1), false),
        (Some(5), Some(-1), false),
        (Some(4294967296i64), None, true),
    ] {
        let mut x = minima();
        if let Some(n) = a {
            x.insert("ImptoSustituidoId".to_string(), Value::from(n));
        }
        if let Some(n) = b {
            x.insert("ImptoSustitutoId".to_string(), Value::from(n));
        }
        match mapear_nueva_factura_en(&factura(x), hoy()) {
            Ok(p) => {
                assert!(bien);
                let (a, b) = (p.impto_sustituido_id, p.impto_sustituto_id);
                assert!((a == 0 && b == 0) || (a > 0 && b > 0));
            }
            Err(e) => {
                assert!(!bien);
                assert_eq!(e.mensaje(), format!("error de validación: {IMPUESTOS_A_MEDIAS}"));
            }
        }
    }
}

#[test]
fn factura_sin_renglones() {
    let mut f = factura(minima());
    f.renglones = vec![];
    let e = mapear_nueva_factura_en(&f, hoy()).unwrap_err();
    assert_eq!(e.mensaje(), format!("error de validación: {SIN_RENGLONES}"));
    // El importe de cobro se revisa antes que los renglones.
    f.extra = extra(vec![]);
    let e = mapear_nueva_factura_en(&f, hoy()).unwrap_err();
    assert!(e.mensaje().contains("ImporteCobro"));
}

#[test]
fn factura_con_identificadores_de_texto() {
    let mut f = factura(minima());
    f.renglones[0].articulo_id = EntidadId::from("sku");
    let e = mapear_nueva_factura_en(&f, hoy()).unwrap_err();
    assert_eq!(
        e.mensaje(),
        "error de validación: articulo_id debe ser numérico en Microsip, recibido: 'sku'"
    );
    f.cliente_id = EntidadId::from("acme");
    let e = mapear_nueva_factura_en(&f, hoy()).unwrap_err();
    assert_eq!(
        e.mensaje(),
        "error de validación: cliente_id debe ser numérico en Microsip, recibido: 'acme'"
    );
}

#[test]
fn factura_con_extra_mal_tipado() {
    for (clave, tipo) in [
        ("DirConsigId", "entero"),
        ("AlmacenId", "entero"),
        ("TipoDscto", "texto"),
        ("Descuento", "numérico"),
        ("OrdenCompra", "texto"),
        ("Fletes", "numérico"),
        ("OtrosCargos", "numérico"),
        ("PctjeComis", "numérico"),
        ("CondPagoId", "entero"),
        ("VendedorId", "entero"),
        ("ImptoSustituidoId", "entero"),
        ("ImptoSustitutoId", "entero"),
        ("DescripcionCobro", "texto"),
    ] {
        let mut x = minima();
        x.insert(clave.to_string(), Value::Null);
        let e = mapear_nueva_factura_en(&factura(x), hoy()).unwrap_err();
        assert_eq!(e.mensaje(), format!("error de validación: extra.{clave} debe ser {tipo}"));
    }
}

#[test]
fn lecturas_de_extra() {
    let x = extra(vec![
        ("n", Value::from(-5)),
        ("grande", Value::from(u64::MAX)),
        ("f", Value::from(1.5)),
        ("t", Value::from("hola")),
        ("b", Value::from(false)),
        ("nulo", Value::Null),
        ("lista", Value::from(vec![Value::from(1), Value::from("a")])),
    ]);
    assert_eq!(extra_i64(&x, "n", 0).unwrap(), -5);
    assert_eq!(extra_i64(&x, "falta", 9).unwrap(), 9);
    assert!(extra_i64(&x, "grande", 0).is_err());
    assert!(extra_i64(&x, "f", 0).is_err());
    assert_eq!(extra_f64(&x, "f", bits(0.0)).unwrap(), bits(1.5));
    assert_eq!(extra_f64(&x, "n", bits(0.0)).unwrap(), bits(-5.0));
    assert_eq!(extra_f64(&x, "grande", bits(0.0)).unwrap(), bits(u64::MAX as f64));
    assert!(extra_f64(&x, "t", bits(0.0)).is_err());
    assert_eq!(extra_string(&x, "t", "z").unwrap(), "hola");
    assert_eq!(extra_string(&x, "falta", "z").unwrap(), "z");
    assert!(extra_string(&x, "n", "z").is_err());
    assert_eq!(valor_json_a_texto(&x, "t").unwrap(), "hola");
    assert_eq!(valor_json_a_texto(&x, "n").unwrap(), "-5");
    assert_eq!(valor_json_a_texto(&x, "grande").unwrap(), "18446744073709551615");
    assert_eq!(valor_json_a_texto(&x, "b").unwrap(), "false");
    assert_eq!(valor_json_a_texto(&x, "nulo").unwrap(), "null");
    assert_eq!(valor_json_a_texto(&x, "f").unwrap(), "1.5");
    assert_eq!(valor_json_a_texto(&x, "lista").unwrap(), "[1,\"a\"]");
    assert_eq!(valor_json_a_texto(&x, "falta"), None);
    let lista = construir_lista_parametros(&x, &vec!["t", "falta", "n"]);
    assert_eq!(
        lista,
        vec![("t".to_string(), "hola".to_string()), ("n".to_string(), "-5".to_string())]
    );
}

/// El patrón de un entero de magnitud menor que 2^53, armado por sus partes.
fn patron(n: i64) -> u64 {
    let m = n.unsigned_abs();
    if m == 0 {
        return 0;
    }
    let k = 63 - m.leading_zeros() as u64;
    let signo = if n < 0 { 1u64 << 63 } else { 0 };
    signo + ((1023 + k) << 52) + ((m - (1 << k)) << (52 - k))
}

#[test]
fn enteros_json_como_dobles() {
    let tope = (1i64 << 53) - 1;
    let mut casos = vec![0, 1, -1, 2, 3, 100, -100, 150000, 123456789, tope, -tope];
    for k in 0..53 {
        casos.push(1i64 << k);
        casos.push(-((1i64 << k) + (1i64 << (k / 2)) / 2));
    }
    for n in casos {
        let x = extra(vec![("n", Value::from(n))]);
        let d = extra_f64(&x, "n", bits(9.5)).unwrap();
        assert_eq!(d, bits(n as f64));
        assert_eq!(d.bits, patron(n), "{n}");
    }
    let x = extra(vec![("ImporteCobro", Value::from(-1))]);
    assert_eq!(importe_cobro_requerido(&x).unwrap().bits, BITS_MENOS_UNO);
}

#[test]
fn copia_de_un_documento() {
    let f = factura(minima());
    let g = f.clone();
    assert_eq!(g.extra, f.extra);
    assert_eq!(g.cliente_id, f.cliente_id);
}

#[test]
fn identificador_nativo() {
    assert_eq!(entidad_id_a_i32("x", &EntidadId::Numerico(7)).unwrap(), 7);
    for n in [0i64, -1, 2147483647, 2147483648, -2147483649, 4294967296, i64::MIN, i64::MAX] {
        assert_eq!(truncar(n), n as i32);
    }
    assert_eq!(id_consulta("cliente", &EntidadId::from("12")).unwrap(), 12);
    assert_eq!(
        id_consulta("cliente", &EntidadId::from("x1")).unwrap_err().mensaje(),
        "error de validación: el id de cliente debe ser numérico, recibido: 'x1'"
    );
    assert_eq!(primera(vec!['a', 'b'], "cliente", 3).unwrap(), 'a');
    assert_eq!(
        primera(Vec::<char>::new(), "cliente", 3).unwrap_err().mensaje(),
        "no encontrado: cliente #3"
    );
}

fn credito(x: Extra) -> NuevoCredito {
    NuevoCredito {
        concepto_id: EntidadId::Numerico(0),
        cliente_id: EntidadId::Numerico(1042),
        fecha: None,
        folio: None,
        descripcion: None,
        aplicaciones: vec![AplicacionCargo {
            cargo_id: Some(EntidadId::Numerico(900)),
            folio_cargo: None,
            importe: Decimal::new(11600, 2),
        }],
        extra: x,
    }
}

#[test]
fn credito_con_valores_por_omision() {
    let p = mapear_nuevo_credito_en(&credito(extra(vec![])), ahora()).unwrap();
    assert_eq!(p.concepto_cc_id, 0);
    assert_eq!(p.cliente_id, 1042);
    assert_eq!(p.fecha, "05/03/2026 09:07");
    assert_eq!(p.folio, "");
    assert_eq!(p.descripcion, "");
    assert_eq!(p.cobrador_id, 0);
    assert!(p.lista_parametros.is_empty());
    assert_eq!(p.aplicaciones.len(), 1);
    assert_eq!(p.aplicaciones[0].cargo_id, 900);
    assert_eq!(p.aplicaciones[0].folio_cargo, "");
    assert_eq!(p.aplicaciones[0].importe.mantisa(), 11600);
    assert_eq!(p.aplicaciones[0].dscto_ppag, bits(-1.0));
}

#[test]
fn credito_completo() {
    let mut c = credito(extra(vec![
        ("CobradorId", Value::from(4)),
        ("DsctoPpag", Value::from(0)),
        ("REFERENCIA", Value::from("ref")),
        ("IMPORTE_COBRO", Value::from(116)),
        ("SUCURSAL_ID", Value::from(2)),
    ]));
    c.fecha = FechaHora::new(Fecha::new(2025, 1, 2).unwrap(), 23, 59, 59);
    c.folio = Some("C7".to_string());
    c.descripcion = Some("pago".to_string());
    c.aplicaciones.push(AplicacionCargo {
        cargo_id: None,
        folio_cargo: Some("F9".to_string()),
        importe: Decimal::new(1, 0),
    });
    let p = mapear_nuevo_credito_en(&c, ahora()).unwrap();
    assert_eq!(p.fecha, "02/01/2025 23:59");
    assert_eq!(p.folio, "C7");
    assert_eq!(p.descripcion, "pago");
    assert_eq!(p.cobrador_id, 4);
    let lista: Vec<(&str, &str)> =
        p.lista_parametros.iter().map(|(a, b)| (a.as_str(), b.as_str())).collect();
    assert_eq!(
        lista,
        vec![("REFERENCIA", "ref"), ("IMPORTE_COBRO", "116"), ("SUCURSAL_ID", "2")]
    );
    assert_eq!(p.aplicaciones[0].dscto_ppag, bits(0.0));
    assert_eq!(p.aplicaciones[1].dscto_ppag, bits(0.0));
    assert_eq!(p.aplicaciones[1].cargo_id, 0);
    assert_eq!(p.aplicaciones[1].folio_cargo, "F9");
}

#[test]
fn credito_rechazado() {
    let mut c = credito(extra(vec![]));
    c.aplicaciones = vec![];
    assert_eq!(
        mapear_nuevo_credito_en(&c, ahora()).unwrap_err().mensaje(),
        format!("error de validación: {SIN_APLICACIONES}")
    );
    let mut c = credito(extra(vec![]));
    c.aplicaciones[0].cargo_id = Some(EntidadId::from("z"));
    assert_eq!(
        mapear_nuevo_credito_en(&c, ahora()).unwrap_err().mensaje(),
        "error de validación: aplicaciones[].cargo_id debe ser numérico en Microsip, recibido: 'z'"
    );
    c.concepto_id = EntidadId::from("cobro");
    assert_eq!(
        mapear_nuevo_credito_en(&c, ahora()).unwrap_err().mensaje(),
        "error de validación: concepto_id debe ser numérico en Microsip, recibido: 'cobro'"
    );
    c.cliente_id = EntidadId::from("acme");
    assert!(mapear_nuevo_credito_en(&c, ahora()).unwrap_err().mensaje().contains("cliente_id"));
    let c = credito(extra(vec![("CobradorId", Value::from("x"))]));
    assert_eq!(
        mapear_nuevo_credito_en(&c, ahora()).unwrap_err().mensaje(),
        "error de validación: extra.CobradorId debe ser entero"
    );
    let c = credito(extra(vec![("DsctoPpag", Value::from("x"))]));
    assert_eq!(
        mapear_nuevo_credito_en(&c, ahora()).unwrap_err().mensaje(),
        "error de validación: extra.DsctoPpag debe ser numérico"
    );
}

#[test]
fn fecha_del_dia() {
    let antes = chrono::Local::now().format("%d/%m/%Y").to_string();
    let p = mapear_nueva_factura(&factura(minima())).unwrap();
    let despues = chrono::Local::now().format("%d/%m/%Y").to_string();
    assert!(p.fecha == antes || p.fecha == despues);
    let antes = chrono::Local::now().format("%d/%m/%Y %H:%M").to_string();
    let p = mapear_nuevo_credito(&credito(extra(vec![]))).unwrap();
    let despues = chrono::Local::now().format("%d/%m/%Y %H:%M").to_string();
    assert!(p.fecha == antes || p.fecha == despues);
    // Con fecha propia, la del día no cuenta.
    let mut f = factura(minima());
    f.fecha = Fecha::new(2020, 2, 29);
    assert_eq!(mapear_nueva_factura(&f).unwrap().fecha, "29/02/2020");
    assert!(mapear_nueva_factura(&factura(extra(vec![]))).is_err());
}
